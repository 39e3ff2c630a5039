//! The error vocabulary shared by every layer of the library.

use vstd::prelude::*;

verus! {

/// Why the filesystem reader could not list a directory or read a file.
#[derive(Clone, Copy, Debug, PartialEq, Eq, Structural)]
pub enum ReadError {
    /// The directory or file does not exist.
    NotFound,
    /// The caller lacks permission to list the directory or read the file.
    PermissionDenied,
    /// Any other failure of the underlying read.
    IoError,
}

/// Why a query of the library failed.
#[derive(Clone, Copy, Debug, PartialEq, Eq, Structural)]
pub enum Error {
    /// A requested device, attribute directory or file does not exist.
    NotFound,
    /// A directory could not be listed, or a file other than a value file
    /// could not be read, for lack of permission.
    PermissionDenied,
    /// The underlying read failed for another reason.
    IoError,
    /// A type indicator, a constraint field or another required field is
    /// missing or does not have the expected shape.
    MalformedAttribute,
    /// A lookup by name found no attribute of that name.
    NoSuchAttribute,
}

/// The recoverable outcome of reading a value that the caller may not see.
#[derive(Clone, Copy, Debug, PartialEq, Eq, Structural)]
pub struct AccessDenied;

impl Error {
    /// The failure that a reader's error becomes when nothing recovers it.
    pub open spec fn of_read(e: ReadError) -> Error {
        match e {
            ReadError::NotFound => Error::NotFound,
            ReadError::PermissionDenied => Error::PermissionDenied,
            ReadError::IoError => Error::IoError,
        }
    }

    /// What went wrong, in a few words.
    pub open spec fn message_of(self) -> Seq<char> {
        match self {
            Error::NotFound => "not found"@,
            Error::PermissionDenied => "permission denied"@,
            Error::IoError => "input/output error"@,
            Error::MalformedAttribute => "malformed attribute"@,
            Error::NoSuchAttribute => "no such attribute"@,
        }
    }

    /// Says in a few words what went wrong.
    pub fn message(&self) -> (r: &'static str)
        ensures
            r@ == self.message_of(),
    {
        match self {
            Error::NotFound => "not found",
            Error::PermissionDenied => "permission denied",
            Error::IoError => "input/output error",
            Error::MalformedAttribute => "malformed attribute",
            Error::NoSuchAttribute => "no such attribute",
        }
    }

    /// Surfaces a reader's error unchanged in kind.
    pub fn from_read(e: ReadError) -> (r: Error)
        ensures
            r == Error::of_read(e),
    {
        match e {
            ReadError::NotFound => Error::NotFound,
            ReadError::PermissionDenied => Error::PermissionDenied,
            ReadError::IoError => Error::IoError,
        }
    }
}

} // verus!
