# embedded_cal

Interface traits for cryptography on embedded targets (`cal`: hashing, HMAC, AEAD,
Diffie-Hellman key agreement and the `Cal` bundle of them), with every method's behaviour stated
as a contract over mathematical models, and implementations proved against those contracts:

* `hkdf` — HKDF (RFC 5869) with HMAC-SHA-256 for every HMAC provider.
* `empty` — a provider of no algorithms.
* `rustcrypto` — SHA-256, HMAC-SHA-256 and AES-CCM-16-64-128/256 added to a base provider, and
  P-256/X25519 key agreement, calling the RustCrypto crates and `x25519-dalek`
  (`rustcrypto/backend.rs` holds those calls and the contracts assumed for them).
* `hw_p256` — fixed-size P-256 secret-to-public and ECDH on a hardware engine.
* `plumbing` — elliptic curve primitives a hardware back-end can offer.
* `util` — `Either` and the CCM B0 block.

`app/` holds what needs a lock and the `libcrux` types: the adapter of a hardware engine to
`libcrux-traits`' `EcdhArrayref`.
