use vstd::prelude::*;

verus! {

/// Declares std's `io::ErrorKind` so that `Error` can carry the kind of a
/// failed file operation; nothing is assumed of its values.
#[verifier::external_type_specification]
#[verifier::external_body]
pub struct ExIoErrorKind(std::io::ErrorKind);

/// Failures of the application shell around the solver: loading fonts,
/// reading or writing files, parsing JSON, and file dialogs.
#[derive(Debug, Clone, Copy, PartialEq, Eq)]
pub enum Error {
    FontLoadFailed,
    IoError(std::io::ErrorKind),
    JsonParseError,
    DialogClosed,
}

} // verus!
