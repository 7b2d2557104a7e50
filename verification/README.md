# reallyme_cose

A focused COSE layer for identity systems — COSE_Key construction, parsing,
validation and canonical encoding, Multikey interop, COSE_Sign1 header policy,
the ReallyMe ML-KEM profile for `COSE_Encrypt`, and deterministic CBOR
boundary checks — specified and proved with Verus.

## Layout

- `src/` — the verified library.
  - `limits/` — the deterministic CBOR validator (canonical heads, map key
    order, duplicate labels, tags, depth and size limits) and the byte
    boundaries of COSE_Sign1, COSE_Encrypt and COSE_Key.
  - `cbor.rs` — the CBOR item model, its size bound, and serialization through
    `ciborium`.
  - `algorithm/` — COSE algorithm labels and registrations.
  - `key/` — COSE_Key: construction from raw bytes, parsing, profile
    validation, extraction, canonical encoding, point forms, and the
    construct/extract round trips.
  - `multikey/` — multicodec names and the Multikey ↔ COSE_Key bridge.
  - `encrypt/` — the ML-KEM `COSE_Encrypt` profile: suites, headers, KDF
    context, `Enc_structure`, encoding and decoding, and the decision steps of
    encryption and decryption.
  - `policy/` — the COSE_Sign1 `kid`/algorithm policy.
  - `failure.rs`, `boundary.rs`, `crypto_failure.rs`, `error.rs` — the
    canonical failure classification, its protobuf boundary form, and the
    mapping of provider failures to public errors.
  - `operation.rs` — the enumerated values of the protobuf operation
    contract, their mapping to the native selectors, and the checks a
    response is held to.
- `tests/` — executable tests, including byte-for-byte comparisons with
  `coset` and `ciborium`.
- `app/` — the provider-backed API: it runs the cryptographic checks, key
  derivation, AES-GCM, AES Key Wrap, SHA-256 and Multikey text encoding of the
  ReallyMe crypto and codec providers between the library's steps.

## Trust boundary

Cryptographic validity of key material is decided by the provider: the
library lists, for every key it builds or reads, the provider checks the key
rests on, and `app/` runs them before a key is released. CBOR serialization
and parsing are done by `ciborium` and label registration and key-operation
ordering by `coset`; their results are named or stated in the library's
contracts. The map and array layouts of COSE_Key, COSE headers and
`COSE_Encrypt` are stated as short specifications and built and read by
verified code; the tests compare the bytes with `coset`'s.

Keys are not wiped on drop: `key::wipe::wipe_cose_key` overwrites and empties
every byte-valued field of a key in place, and `app/` holds encoded keys in
zeroizing buffers.
