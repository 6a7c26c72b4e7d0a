//! The failures that a session can meet. None of them ends it.

use vstd::prelude::*;

verus! {

/// Declares `std::io::ErrorKind`, the standard library's classification of
/// an input or output failure, which is the same on every platform. The
/// library carries such a value from the failed operation to the state and
/// never looks into it.
#[verifier::external_type_specification]
#[verifier::external_body]
pub struct ExIoErrorKind(std::io::ErrorKind);

/// Why an effect did not succeed.
#[derive(Clone, Copy, Debug, PartialEq, Eq)]
pub enum ErrorKind {
    /// The file dialog was cancelled, or could not be shown.
    DialogError,
    /// Reading or writing the file failed, in the way that the kind names.
    IoError(std::io::ErrorKind),
}

} // verus!
