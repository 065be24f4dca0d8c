//! Message signing with a key derived from a secret URI.
//!
//! The crate models a `sign` command: it resolves a message, a secret URI and
//! a password from the values a host program gathered (flags, standard input,
//! a file, interactive prompts), derives a keypair for a chosen signature
//! scheme, signs the message, and renders the signature as lowercase hex.
//! The resolution policy, the hex codec and the dispatch over schemes are
//! verified; the cryptographic primitives are called through trusted wrappers.

pub mod cmd;
pub mod errors;
pub mod hexcode;
pub mod resolve;
pub mod signer;
