//! Text carried in NIP-04 encrypted Nostr events: encrypted for one recipient, tagged with
//! the recipient and signed by the sender.
use vstd::prelude::*;

use nostr_sdk::nips::nip04;
use nostr_sdk::{Event, EventBuilder, Keys, Kind, PublicKey, SecretKey, Tag};

use crate::keys::nostr_public_key_of;

verus! {

/// What NIP-04 decryption gives for the secret key with bytes `secret`, the public key
/// with bytes `author` and the encrypted `content`: nothing when the bytes are no such
/// keys or the content does not decrypt to UTF-8 text.
pub uninterp spec fn nip04_decryption(secret: Seq<u8>, author: Seq<u8>, content: Seq<char>) -> Option<Seq<char>>;

/// Calls `SecretKey::from_slice` on `secret`, `PublicKey::from_slice` on `author` and
/// `nip04::decrypt` with them on `content`. The contract claims that the result is the
/// one `nip04_decryption` names for these arguments: decryption is a function of them alone.
#[verifier::external_body]
fn nip04_decrypt(secret: &[u8; 32], author: &[u8; 32], content: &str) -> (r: Option<String>)
    ensures
        match r {
            Some(t) => nip04_decryption(secret@, author@, content@) == Some(t@),
            None => nip04_decryption(secret@, author@, content@) is None,
        },
{
    let secret_key = SecretKey::from_slice(secret).ok()?;
    let public_key = PublicKey::from_slice(author).ok()?;
    nip04::decrypt(&secret_key, &public_key, content).ok()
}

/// Calls `SecretKey::from_slice` on `secret`, `PublicKey::from_slice` on `recipient` and
/// `nip04::encrypt` with them on `plaintext`. Encryption draws a random IV, so nothing is
/// claimed of the ciphertext; the contract claims only that there is none unless `secret`
/// is a secret key.
#[verifier::external_body]
fn nip04_encrypt(secret: &[u8; 32], recipient: &[u8; 32], plaintext: &str) -> (r: Option<String>)
    ensures
        r is Some ==> nostr_public_key_of(secret@) is Some,
{
    let secret_key = SecretKey::from_slice(secret).ok()?;
    let public_key = PublicKey::from_slice(recipient).ok()?;
    nip04::encrypt(&secret_key, &public_key, plaintext).ok()
}

/// Calls `EventBuilder::new` with the kind numbered `kind` and `content`, `tag` with
/// `Tag::public_key` of `recipient`, and `sign_with_keys` with the key with bytes `secret`.
/// Signing draws random data, so nothing is claimed of the event; the contract claims
/// only that there is none unless `secret` is a secret key.
#[verifier::external_body]
fn signed_event_for(kind: u16, content: String, recipient: &[u8; 32], secret: &[u8; 32]) -> (r: Option<Event>)
    ensures
        r is Some ==> nostr_public_key_of(secret@) is Some,
{
    let keys = Keys::new(SecretKey::from_slice(secret).ok()?);
    let public_key = PublicKey::from_slice(recipient).ok()?;
    EventBuilder::new(Kind::from(kind), content).tag(Tag::public_key(public_key)).sign_with_keys(&keys).ok()
}

/// Hands back the bytes of an event's author (`pubkey.to_bytes()`) and its `content`.
/// An event is opaque here, so nothing is claimed of them.
#[verifier::external_body]
fn event_author_and_content(event: &Event) -> (r: ([u8; 32], String)) {
    (event.pubkey.to_bytes(), event.content.clone())
}

/// The text that NIP-04 content from `author` carries for the key with bytes `recipient`.
pub fn nip04_text(author: &[u8; 32], content: &str, recipient: &[u8; 32]) -> (r: Option<String>)
    ensures
        match r {
            Some(t) => nip04_decryption(recipient@, author@, content@) == Some(t@),
            None => nip04_decryption(recipient@, author@, content@) is None,
        },
{
    nip04_decrypt(recipient, author, content)
}

/// `author` and `content` are the bytes of the author and the content of `event`, as
/// `event_author_and_content` reads them (`pubkey.to_bytes()` and `content`).
pub closed spec fn event_fields(event: Event, author: Seq<u8>, content: Seq<char>) -> bool {
    exists|a: [u8; 32], c: String| #[trigger] call_ensures(event_author_and_content, (&event,), (a, c)) && a@ == author && c@ == content
}

/// The text that an event carries for the key with bytes `recipient`: its own content,
/// decrypted with NIP-04 from its own author.
pub fn nip04_event_text(event: &Event, recipient: &[u8; 32]) -> (r: Option<String>)
    ensures
        exists|author: Seq<u8>, content: Seq<char>| #[trigger] event_fields(*event, author, content)
            && nip04_decryption(recipient@, author, content) == match r {
            Some(t) => Some(t@),
            None => None,
        },
{
    let read = event_author_and_content;
    let (author, content) = read(event);
    assert(event_fields(*event, author@, content@));
    let r = nip04_text(&author, content.as_str(), recipient);
    assert(nip04_decryption(recipient@, author@, content@) == match r {
        Some(t) => Some(t@),
        None => None::<Seq<char>>,
    });
    r
}

/// `content` is a NIP-04 encryption of `text` by the key with bytes `sender` for the key
/// with bytes `recipient`: a ciphertext that `nip04_encrypt` hands back for them.
pub closed spec fn nip04_ciphertext(sender: [u8; 32], recipient: [u8; 32], text: Seq<char>, content: Seq<char>) -> bool {
    exists|t: &str, c: String| #[trigger] call_ensures(nip04_encrypt, (&sender, &recipient, t), Some(c)) && t@ == text && c@ == content
}

/// `event` is the event of the kind numbered `kind` with `content`, whose first tag names
/// the public key with bytes `recipient`, signed by the key with bytes `sender`: an event
/// that `signed_event_for` hands back for them.
pub closed spec fn event_built(event: Event, kind: u16, content: Seq<char>, recipient: [u8; 32], sender: [u8; 32]) -> bool {
    exists|c: String| #[trigger] call_ensures(signed_event_for, (kind, c, &recipient, &sender), Some(event)) && c@ == content
}

/// The NIP-04 encrypted event of the kind numbered `kind` that carries `text` from the
/// key with bytes `sender` to `recipient`: the text encrypted for the recipient, tagged
/// with the recipient and signed by the sender. There is none unless `sender` is a
/// secret key.
pub fn nip04_encrypted_event(kind: u16, text: &str, sender: &[u8; 32], recipient: &[u8; 32]) -> (r: Option<Event>)
    ensures
        r is Some ==> nostr_public_key_of(sender@) is Some,
        r matches Some(e) ==> exists|content: Seq<char>| #[trigger] nip04_ciphertext(*sender, *recipient, text@, content)
            && event_built(e, kind, content, *recipient, *sender),
{
    let encrypt = nip04_encrypt;
    match encrypt(sender, recipient, text) {
        Some(content) => {
            assert(nip04_ciphertext(*sender, *recipient, text@, content@));
            let ghost c = content@;
            let build = signed_event_for;
            let r = build(kind, content, recipient, sender);
            assert(r matches Some(e) ==> event_built(e, kind, c, *recipient, *sender));
            r
        },
        None => None,
    }
}

} // verus!
