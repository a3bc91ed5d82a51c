use vstd::prelude::*;

verus! {

#[verifier::external_type_specification]
#[verifier::external_body]
pub struct ExIoError(std::io::Error);

#[verifier::external_type_specification]
#[verifier::external_body]
pub struct ExDecodeError(prost::DecodeError);

/// The kind of a failure, without the underlying cause that some kinds carry.
#[derive(PartialEq, Eq, Structural, Debug, Clone, Copy)]
pub enum ErrorClass {
    Storage,
    MissingFile,
    Io,
    InvalidTrailer,
    InvalidMajorVersion(u8),
    ProtoDecode,
    UnsupportedFile,
}

#[derive(Debug)]
#[non_exhaustive]
pub enum ErrorKind {
    StorageError(String),
    MissingFile(String),
    IOError(std::io::Error),
    InvalidTrailer(String),
    InvalidMajorVersion(u8),
    ProtoDecodeError(prost::DecodeError),
    UnsupportedFile(String),
}

impl ErrorKind {
    pub open spec fn spec_class(&self) -> ErrorClass {
        match self {
            ErrorKind::StorageError(_) => ErrorClass::Storage,
            ErrorKind::MissingFile(_) => ErrorClass::MissingFile,
            ErrorKind::IOError(_) => ErrorClass::Io,
            ErrorKind::InvalidTrailer(_) => ErrorClass::InvalidTrailer,
            ErrorKind::InvalidMajorVersion(v) => ErrorClass::InvalidMajorVersion(*v),
            ErrorKind::ProtoDecodeError(_) => ErrorClass::ProtoDecode,
            ErrorKind::UnsupportedFile(_) => ErrorClass::UnsupportedFile,
        }
    }

    /// The kind of this failure.
    pub fn class(&self) -> (r: ErrorClass)
        ensures
            r == self.spec_class(),
    {
        match self {
            ErrorKind::StorageError(_) => ErrorClass::Storage,
            ErrorKind::MissingFile(_) => ErrorClass::MissingFile,
            ErrorKind::IOError(_) => ErrorClass::Io,
            ErrorKind::InvalidTrailer(_) => ErrorClass::InvalidTrailer,
            ErrorKind::InvalidMajorVersion(v) => ErrorClass::InvalidMajorVersion(*v),
            ErrorKind::ProtoDecodeError(_) => ErrorClass::ProtoDecode,
            ErrorKind::UnsupportedFile(_) => ErrorClass::UnsupportedFile,
        }
    }
}

#[derive(Debug)]
pub struct Error {
    pub kind: ErrorKind,
}

impl Error {
    pub open spec fn spec_class(&self) -> ErrorClass {
        self.kind.spec_class()
    }

    pub fn new(kind: ErrorKind) -> (r: Error)
        ensures
            r.kind == kind,
    {
        Error { kind }
    }

    /// A failure that fits no other kind, described by `msg`.
    pub fn any(msg: String) -> (r: Error)
        ensures
            r.kind == ErrorKind::StorageError(msg),
    {
        Error { kind: ErrorKind::StorageError(msg) }
    }

    pub fn kind(&self) -> (r: &ErrorKind)
        ensures
            *r == self.kind,
    {
        &self.kind
    }
}

impl From<std::io::Error> for Error {
    fn from(value: std::io::Error) -> (r: Error)
        ensures
            r.kind == ErrorKind::IOError(value),
    {
        Error::new(ErrorKind::IOError(value))
    }
}

impl vstd::std_specs::convert::FromSpecImpl<std::io::Error> for Error {
    open spec fn obeys_from_spec() -> bool {
        true
    }

    open spec fn from_spec(v: std::io::Error) -> Error {
        Error { kind: ErrorKind::IOError(v) }
    }
}

} // verus!
