# bls_encryption_service

Hybrid encryption with contracts proved by Verus.  Data is sealed with
AES-256-GCM under a fresh random key; that key is encapsulated for the
recipient's X25519 public key (an ephemeral key agreement whose shared secret,
hashed with SHA-256, seals the AES key), so that only the recipient's secret
key unwraps it; the SHA-256 digest of the data travels with the envelope and
is checked on decryption.

- `src/` — the verified library: key pairs and key identifiers (`keys`),
  encryption and decryption with the laws that relate them (`encryption`),
  Base64 text (`codec`), the answers of the HTTP service (`service`) and of
  the browser binding (`wasm`), the detection of encrypted-file formats
  (`file_format`), and the trusted calls into `sha2`, `hex`, `aes-gcm`,
  `x25519-dalek`, `rand`, `base64` and std (`primitives`).
- `app/` — the command-line program, the HTTP server, the WebAssembly
  binding, key files, and the JSON form of envelopes.
- `tests/` — the test suite.
