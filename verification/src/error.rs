//! The error model: a closed set of kinds, a description for people, and the
//! conversions to and from the native I/O error.

use std::io;
use vstd::pervasive::arbitrary;
use vstd::prelude::*;
use vstd::std_specs::convert::FromSpecImpl;
use vstd::string::to_string_from_display_ensures;

verus! {

/// The kinds of native I/O error, as the standard library classifies them.
/// The verifier reads the variants from the standard library itself.
#[verifier::external_type_specification]
pub struct ExIoErrorKind(std::io::ErrorKind);

/// The native I/O error. Its contents are opaque to the verifier.
#[verifier::external_type_specification]
#[verifier::external_body]
pub struct ExIoError(std::io::Error);

/// The kind of a native I/O error: what `std::io::Error::kind` returns.
pub uninterp spec fn io_error_kind(e: io::Error) -> io::ErrorKind;

/// `std::io::Error::kind` returns the kind that the error holds.
pub assume_specification[ std::io::Error::kind ](e: &std::io::Error) -> (kind:
    std::io::ErrorKind)
    ensures
        kind == io_error_kind(*e),
;

/// The error number of the operating system that a native I/O error holds,
/// if it came from the operating system: what
/// `std::io::Error::raw_os_error` returns.
pub uninterp spec fn io_error_raw_os_error(e: io::Error) -> Option<i32>;

/// `std::io::Error::raw_os_error` returns the error number of the
/// operating system, if the error holds one.
pub assume_specification[ std::io::Error::raw_os_error ](e: &std::io::Error) -> (code: Option<
    i32,
>)
    ensures
        code == io_error_raw_os_error(*e),
;

/// Makes a native I/O error of a given kind that carries `description` as
/// its payload, by `std::io::Error::new`. The kind of the new error is the
/// kind it was made with.
#[verifier::external_body]
fn io_error_new(kind: io::ErrorKind, description: String) -> (e: io::Error)
    ensures
        io_error_kind(e) == kind,
{
    io::Error::new(kind, description)
}

/// Categories of errors that can occur when interacting with serial ports.
///
/// The list may grow over time; callers should handle the kinds they do not
/// name in a general way.
#[derive(Debug, Clone, Copy, PartialEq, Eq)]
#[non_exhaustive]
pub enum ErrorKind {
    /// The device is not available: it is in use by another process, or it
    /// was disconnected.
    NoDevice,
    /// A parameter was incorrect, or the platform cannot represent it.
    InvalidInput,
    /// An unknown error occurred.
    Unknown,
    /// An I/O error occurred; the inner kind says which.
    Io(io::ErrorKind),
}

impl ErrorKind {
    /// The native I/O error kind that stands for this kind.
    pub open spec fn spec_native(self) -> io::ErrorKind {
        match self {
            ErrorKind::NoDevice => io::ErrorKind::NotFound,
            ErrorKind::InvalidInput => io::ErrorKind::InvalidInput,
            ErrorKind::Unknown => io::ErrorKind::Other,
            ErrorKind::Io(kind) => kind,
        }
    }

    /// Returns the native I/O error kind that stands for this kind.
    #[verifier::when_used_as_spec(spec_native)]
    pub fn native(self) -> (kind: io::ErrorKind)
        ensures
            kind == self.spec_native(),
    {
        match self {
            ErrorKind::NoDevice => io::ErrorKind::NotFound,
            ErrorKind::InvalidInput => io::ErrorKind::InvalidInput,
            ErrorKind::Unknown => io::ErrorKind::Other,
            ErrorKind::Io(kind) => kind,
        }
    }
}

/// An error type for serial port operations.
#[derive(Debug)]
pub struct Error {
    /// The kind of error this is.
    pub kind: ErrorKind,
    /// A description of the error suitable for end-users.
    pub description: String,
}

impl Error {
    /// Instantiates a new error.
    pub fn new(kind: ErrorKind, description: &str) -> (error: Error)
        ensures
            error.kind == kind,
            error.description@ == description@,
    {
        Error { kind: kind, description: description.to_owned() }
    }

    /// Returns the corresponding `ErrorKind` for this error.
    pub fn kind(&self) -> (kind: ErrorKind)
        ensures
            kind == self.kind,
    {
        self.kind
    }

    /// Returns the description of this error.
    pub fn description(&self) -> (description: &str)
        ensures
            description@ == self.description@,
    {
        self.description.as_str()
    }

    /// Returns the description of this error, as displaying it would.
    pub fn to_string(&self) -> (text: String)
        ensures
            text@ == self.description@,
    {
        self.description.clone()
    }

    /// Whether `self` is the error of kind `kind` for the native error
    /// `native`: the description is what the native error displays.
    pub open spec fn describes(self, native: io::Error, kind: ErrorKind) -> bool {
        &&& self.kind == kind
        &&& to_string_from_display_ensures::<io::Error>(&native, self.description)
    }

    /// Makes the error of kind `kind` for a native error, whose message
    /// becomes the description.
    pub fn with_kind(native: io::Error, kind: ErrorKind) -> (error: Error)
        ensures
            error.describes(native, kind),
    {
        let description = native.to_string();
        Error { kind: kind, description: description }
    }

    /// Whether `self` is what the conversion from the native error `native`
    /// gives: the native kind is passed through, and the description is what
    /// the native error displays.
    pub open spec fn is_from_native(self, native: io::Error) -> bool {
        self.describes(native, ErrorKind::Io(io_error_kind(native)))
    }

    /// Whether the native error `native` may come of converting `self`: its
    /// kind is the native kind that stands for the kind of `self`.
    pub open spec fn is_native_of(self, native: io::Error) -> bool {
        io_error_kind(native) == self.kind.spec_native()
    }
}

impl From<io::Error> for Error {
    /// Wraps a native I/O error: its kind is passed through and its message
    /// becomes the description.
    fn from(io_error: io::Error) -> (error: Error)
        ensures
            error.is_from_native(io_error),
    {
        let kind = io_error.kind();
        Error::with_kind(io_error, ErrorKind::Io(kind))
    }
}

/// What the conversion gives is stated by the `ensures` of `from`, as a
/// relation: the description is what the native error displays, and no
/// function of the error gives that.
impl FromSpecImpl<io::Error> for Error {
    open spec fn obeys_from_spec() -> bool {
        false
    }

    open spec fn from_spec(v: io::Error) -> Error {
        arbitrary()
    }
}

impl From<Error> for io::Error {
    /// Makes the native I/O error that stands for `error`: `NoDevice`
    /// becomes `NotFound`, `InvalidInput` stays, `Unknown` becomes `Other`,
    /// and an `Io` kind is passed through. The description is the payload.
    fn from(error: Error) -> (io_error: io::Error)
        ensures
            error.is_native_of(io_error),
    {
        let kind = error.kind.native();
        io_error_new(kind, error.description)
    }
}

/// What the conversion gives is stated by the `ensures` of `from`, as a
/// relation: of the native error only the kind is known.
impl FromSpecImpl<Error> for io::Error {
    open spec fn obeys_from_spec() -> bool {
        false
    }

    open spec fn from_spec(v: Error) -> io::Error {
        arbitrary()
    }
}

/// Converting a native I/O error to an `Error` and that back to a native
/// I/O error yields the kind of the first, whatever that kind is.
pub proof fn lemma_native_kind_round_trip(native: io::Error, error: Error, back: io::Error)
    requires
        error.is_from_native(native),
        error.is_native_of(back),
    ensures
        io_error_kind(back) == io_error_kind(native),
{
}

} // verus!
