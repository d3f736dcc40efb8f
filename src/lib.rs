//! BIP-119 CHECKTEMPLATEVERIFY: the default template hash of a transaction.
//!
//! The byte layout fed to SHA-256 is built and proved here; the hash itself
//! and the hexadecimal text form come from `bitcoin_hashes`.

pub mod encode;
pub mod digest;
pub mod transaction;
pub mod bip119;
pub mod hex;
pub mod laws;
