//! Nostr keys as bytes: the public key that belongs to a secret key.
use vstd::prelude::*;

verus! {

/// The x-only public key (32 bytes) that nostr derives from the secret key with the bytes
/// `secret`, or nothing when the bytes are not a valid secp256k1 secret key.
pub uninterp spec fn nostr_public_key_of(secret: Seq<u8>) -> Option<Seq<u8>>;

/// Calls `nostr_sdk::SecretKey::from_slice` on `secret` and, when it succeeds,
/// `nostr_sdk::Keys::new(..).public_key()`, handing back the key's bytes. The contract
/// claims only that the result is the one that `nostr_public_key_of` names for these
/// bytes: the derivation is a function of the secret key alone.
#[verifier::external_body]
pub fn public_key_of_secret(secret: &[u8]) -> (r: Option<[u8; 32]>)
    ensures
        match r {
            Some(pk) => nostr_public_key_of(secret@) == Some(pk@),
            None => nostr_public_key_of(secret@) is None,
        },
{
    match nostr_sdk::SecretKey::from_slice(secret) {
        Ok(secret_key) => Some(nostr_sdk::Keys::new(secret_key).public_key().to_bytes()),
        Err(_) => None,
    }
}

} // verus!
