//! Admission of NIP-55 request events: a request event is served only when it names a
//! recipient whose secret key is known and decrypts with that key to a request.
use vstd::prelude::*;

verus! {

/// Where the admission of a request event stands.
pub enum Nip55Admission<P, K, Q> {
    /// Look up the secret key of this recipient.
    LookUpKey(P),
    /// Decrypt the event with this secret key.
    Decrypt(K),
    /// Serve this request, answering with this secret key.
    Deliver(Q, K),
    /// Drop the event and wait for the next one.
    Skip,
}

/// First step: the event is considered for its first recipient; without one it is dropped.
pub fn on_request_event<P, K, Q>(first_recipient: Option<P>) -> (r: Nip55Admission<P, K, Q>)
    ensures
        match first_recipient {
            Some(p) => r == Nip55Admission::<P, K, Q>::LookUpKey(p),
            None => r is Skip,
        },
{
    match first_recipient {
        Some(p) => Nip55Admission::LookUpKey(p),
        None => Nip55Admission::Skip,
    }
}

/// Second step: without a secret key for the recipient the event is dropped.
pub fn on_key_lookup<P, K, Q>(secret_key: Option<K>) -> (r: Nip55Admission<P, K, Q>)
    ensures
        match secret_key {
            Some(k) => r == Nip55Admission::<P, K, Q>::Decrypt(k),
            None => r is Skip,
        },
{
    match secret_key {
        Some(k) => Nip55Admission::Decrypt(k),
        None => Nip55Admission::Skip,
    }
}

/// Last step: an event that does not decrypt to a request is dropped; otherwise the
/// request is served with the recipient's secret key.
pub fn on_decryption<P, K, Q>(secret_key: K, request: Option<Q>) -> (r: Nip55Admission<P, K, Q>)
    ensures
        match request {
            Some(q) => r == Nip55Admission::<P, K, Q>::Deliver(q, secret_key),
            None => r is Skip,
        },
{
    match request {
        Some(q) => Nip55Admission::Deliver(q, secret_key),
        None => Nip55Admission::Skip,
    }
}

} // verus!
