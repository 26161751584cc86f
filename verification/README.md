# fhe_over_nym

Verified building blocks of a private message relay over the Nym mixnet.

- `src/` is the library, verified with Verus:
  - `ecdh`: X25519 keypairs and the per-message stealth input;
  - `kdf`, `hkdf`: HKDF-SHA256 key derivation;
  - `tag`: the on-chain tag (HMAC-SHA256) and its recognition;
  - `binding`: the HMAC-based binding proof and its check at the relay;
  - `types`: keys, tags, proofs and the relay's spent-nullifier set;
  - `nonce`, `salt`: values drawn from the system's random source;
  - `envelopes`: the envelope tagged union and its typed variants;
  - `mixnet`: the decisions of the SURB transport's receive loops;
  - `backend`: every call into the cryptographic crates, with the contract
    the library relies on.
- `app/` holds what does I/O or rests on types the library cannot hold:
  the postcard codec, the Nym transports, the TFHE layer, and error types
  with `thiserror` derives.
- `tests/` runs the library against known HMAC-SHA256 and HKDF-SHA256 values,
  the vectors of RFC 5869 and RFC 7748, and the relay's scenarios.
