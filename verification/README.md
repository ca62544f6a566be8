# actinium

Verified core of an anonymous, DHT-backed publishing network.

`src/` is the library, verified with Verus:

- `pow` — SHA-256 Hashcash proof of work: `solve` returns the first nonce whose
  hash has the required leading zero bits; `verify` checks a solution.
- `identity` — Ed25519 identities held as their 32-byte seed, wiped from
  memory on drop (`zeroize`); hex import and
  export, signing, verification.
- `models` — posts, comments, votes and the signed envelope; the bytes a
  signature covers.
- `filter` — the gateway's spam filter (difficulty, proof of work, clock
  drift, signature), specified by `filter_outcome`.
- `envelope` — building an envelope on the client; the envelope built passes
  the filter.
- `cache`, `api`, `network`, `dht` — what the gateway decides about cached
  records, HTTP answers, network ids and mesh synchronisation.
- `crypto`, `hex`, `text` — the calls into `sha2`, `ed25519-dalek`, `mainline`,
  `hex`, `chrono` and `rand`, with their contracts, and small byte helpers.

`app/` is the gateway server (axum, SQLite, the mainline DHT, the mesh sync
loop) and the command-line client. It also holds the bencode form of the
message types, which needs serde derives.
