//! The error kinds of the signing command.

use vstd::prelude::*;

verus! {

/// Why a signing run failed.
#[derive(Clone, Copy, Debug, PartialEq, Eq, Structural)]
pub enum Error {
    /// Malformed hex in the message, or an empty interactively entered URI.
    InvalidInput,
    /// The URI does not derive a valid keypair under the selected scheme.
    InvalidSecret,
    /// Standard input or the named secret file could not be read.
    IoError,
    /// Interactive prompting failed.
    PromptError,
}

} // verus!
