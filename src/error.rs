//! Errors of the authorization engine.
use vstd::prelude::*;

verus! {

/// A fatal error: malformed input that the caller must know about.
#[derive(Debug)]
pub enum Error {
    /// An identifier in the event could not be parsed.
    InvalidPdu(String),
    /// The room version id is not one that the engine knows.
    UnsupportedRoomVersion(String),
    /// A mandatory content field could not be deserialized.
    Deserialization(String),
}

/// The kind of an [`Error`], without its message.
#[derive(Debug, Clone, Copy, PartialEq, Eq, Structural)]
pub enum ErrorKind {
    InvalidPdu,
    UnsupportedRoomVersion,
    Deserialization,
}

impl Error {
    pub open spec fn spec_kind(&self) -> ErrorKind {
        match self {
            Error::InvalidPdu(_) => ErrorKind::InvalidPdu,
            Error::UnsupportedRoomVersion(_) => ErrorKind::UnsupportedRoomVersion,
            Error::Deserialization(_) => ErrorKind::Deserialization,
        }
    }

    pub fn kind(&self) -> (r: ErrorKind)
        ensures
            r == self.spec_kind(),
    {
        match self {
            Error::InvalidPdu(_) => ErrorKind::InvalidPdu,
            Error::UnsupportedRoomVersion(_) => ErrorKind::UnsupportedRoomVersion,
            Error::Deserialization(_) => ErrorKind::Deserialization,
        }
    }

    /// The message carried by the error.
    pub fn message(&self) -> (r: &String)
        ensures
            match self {
                Error::InvalidPdu(m) => r == m,
                Error::UnsupportedRoomVersion(m) => r == m,
                Error::Deserialization(m) => r == m,
            },
    {
        match self {
            Error::InvalidPdu(m) => m,
            Error::UnsupportedRoomVersion(m) => m,
            Error::Deserialization(m) => m,
        }
    }
}

/// What a verdict is once the message of an error is set aside.
pub open spec fn outcome(r: Result<bool, Error>) -> Result<bool, ErrorKind> {
    match r {
        Ok(b) => Ok(b),
        Err(e) => Err(e.spec_kind()),
    }
}

} // verus!
