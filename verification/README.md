# nip_55

A NIP-55 transport library: JSON-RPC 2.0 over Unix domain sockets (one request per
connection, or pipelined over a persistent connection, one message per line), JSON-RPC
carried in NIP-04 encrypted Nostr events, over relays, and NIP-46 remote signing on top.

## Layout

- `src/` is the library, verified with Verus:
  - `json`, `json_rpc`: a JSON value model, the JSON-RPC messages, their JSON encoding
    and decoding (with round-trip lemmas), and the correlation of responses with requests.
  - `uds_req_res`: line framing (`framing`), the requests in flight of the pipelined client
    (`pipelined_client`) and what the pipelined server does on each connection event.
  - `nostr_connect`: reading JSON-RPC requests as NIP-46 requests, signing the events
    they ask for, and the JSON-RPC forms of NIP-46 requests and responses; a request to
    sign that the client builds reads at the server as one, and a signed reply reads
    back at the client as a signature (`lemma_signed_reply_accepted`).
  - `nip04`: text carried in NIP-04 encrypted events. The calls into
    `nostr-sdk` stand behind `#[verifier::external_body]` wrappers whose contracts say what
    the crate's source shows.
  - `nip46`, `nip_46`: how each request of a batch is answered, and what a client makes of
    the response.
  - `server`, `relay_transport`, `keys`: the admission of request events, the relay
    client's and server's decisions, and the public key of a secret key.
- `app/` holds the I/O: sockets, relays, tasks, and the serde conversion
  between JSON text and the library's values.
- `tests/` runs the library.

## Notes

- The pipelined client keeps the requests in flight in `PendingRequests`, a vector of
  (id, waiter) pairs with the invariant that no id occurs twice, viewed as a map. vstd
  specifies `HashMap` for keys such as integers; for a key that is an enum holding a
  `String`, like a JSON-RPC id, the map's contents would not be specified, so nothing
  about which waiter gets which response could be proved.
- `Cargo.toml` names `nostr` beside `nostr-sdk` only to turn on its `nip04` and `nip46`
  features, whose modules `nostr-sdk` re-exports.
