//! The error produced during a directory tree traversal.
//!
//! Every failure this library surfaces originates in one underlying I/O
//! operation (opening a directory listing, reading one raw entry, or
//! probing an entry's file type) and carries the path at which that
//! operation failed together with the original I/O error.

use vstd::prelude::*;

verus! {

/// Declares `std::path::PathBuf` to the verifier as an opaque value type;
/// the traversal only carries paths through, it never inspects them.
#[verifier::external_type_specification]
#[verifier::external_body]
pub struct ExPathBuf(std::path::PathBuf);

/// Declares `std::io::Error` to the verifier as an opaque value type; the
/// traversal only carries I/O errors through, it never inspects them.
#[verifier::external_type_specification]
#[verifier::external_body]
pub struct ExIoError(std::io::Error);

/// The inner representation of a traversal error.
#[derive(Debug)]
pub enum InnerError {
    /// An error produced during an IO operation.
    Io {
        /// The path in the directory tree where the IO error occured.
        path: std::path::PathBuf,
        /// The IO error.
        source: std::io::Error,
    },
}

/// An error produced during a directory tree traversal.
#[derive(Debug)]
pub struct Error(InnerError);

impl Error {
    /// The wrapped inner error, as the model the contracts speak of.
    pub closed spec fn inner(&self) -> InnerError {
        self.0
    }

    /// Returns the path where the error occured if it applies,
    /// for instance during IO operations.
    pub fn path(&self) -> (r: Option<&std::path::PathBuf>)
        ensures
            r matches Some(p) && *p == self.inner()->path,
    {
        match &self.0 {
            InnerError::Io { path, .. } => Some(path),
        }
    }

    /// Returns the original `std::io::Error` if any.
    pub fn io(&self) -> (r: Option<&std::io::Error>)
        ensures
            r matches Some(e) && *e == self.inner()->source,
    {
        match &self.0 {
            InnerError::Io { source, .. } => Some(source),
        }
    }
}

impl From<InnerError> for Error {
    fn from(inner: InnerError) -> (r: Error) {
        Error(inner)
    }
}

impl vstd::std_specs::convert::FromSpecImpl<InnerError> for Error {
    open spec fn obeys_from_spec() -> bool {
        true
    }

    closed spec fn from_spec(inner: InnerError) -> Error {
        Error(inner)
    }
}

/// Law: wrapping loses nothing.  `Error::from` obeys its specification,
/// and the error it builds reports exactly the inner error it was built
/// from — so `path` and `io` return the path and source that went in.
pub proof fn lemma_from_preserves_inner(inner: InnerError)
    ensures
        <Error as vstd::std_specs::convert::FromSpec<InnerError>>::obeys_from_spec(),
        <Error as vstd::std_specs::convert::FromSpec<InnerError>>::from_spec(inner).inner()
            == inner,
{
}

} // verus!
