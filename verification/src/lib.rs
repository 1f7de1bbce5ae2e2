//! A hybrid encryption library: data is sealed with AES-256-GCM under a
//! fresh random key, that key is encapsulated for the recipient with an
//! ephemeral X25519 key agreement (so only the recipient's secret key unwraps
//! it), and the SHA-256 digest of the data travels along so that decryption
//! can check it.
//!
//! - `file_format`: telling a JSON envelope from Base64 text;
//! - `primitives`: the hashing, cipher, key agreement, randomness and Base64 calls the
//!   library makes, with the contracts it relies on;
//! - `keys`: key pairs, key identifiers and shared secrets;
//! - `encryption`: encryption and decryption, and the laws that tie them;
//! - `codec`: Base64 text;
//! - `service` and `wasm`: the answers of the HTTP service and of the browser
//!   binding;
//! - `types` and `error`: the records and errors exchanged.
pub mod codec;
pub mod encryption;
pub mod error;
pub mod file_format;
pub mod keys;
pub mod primitives;
pub mod service;
pub mod types;
pub mod wasm;

mod bytes;
