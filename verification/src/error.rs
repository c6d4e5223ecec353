//! The ways in which a run fails.

use vstd::prelude::*;
use vstd::std_specs::convert::FromSpecImpl;

verus! {

/// `std::io::Error`, carried through the library unopened: it is what the
/// filesystem said when a step failed.
#[verifier::external_type_specification]
#[verifier::external_body]
pub struct ExIoError(std::io::Error);

/// Why a run ended early.
#[derive(Debug)]
pub enum RenameError {
    /// The filesystem refused a step; the error is the one it gave.
    Io(std::io::Error),
    /// The target path names nothing that exists.
    InvalidPath,
    /// The path of a file to rename has no parent to put the new name in.
    NoParentDirectory,
}

impl From<std::io::Error> for RenameError {
    fn from(error: std::io::Error) -> (wrapped: Self) {
        RenameError::Io(error)
    }
}

impl FromSpecImpl<std::io::Error> for RenameError {
    open spec fn obeys_from_spec() -> bool {
        true
    }

    open spec fn from_spec(error: std::io::Error) -> Self {
        RenameError::Io(error)
    }
}

} // verus!
