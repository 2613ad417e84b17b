//! The errors of sandbox setup.
use vstd::prelude::*;

verus! {

#[verifier::external_type_specification]
#[verifier::external_body]
pub struct ExIoError(std::io::Error);

/// The errors of sandbox setup.
#[derive(Debug)]
pub enum Error {
    /// The configuration, or a message of the setup protocol, is not acceptable.
    InvalidConfig(&'static str),
    /// A system call or a file operation failed.
    Io(std::io::Error),
    /// A sandbox process failed while it was setting up.
    ChildSetup,
}

/// The result of a setup step.
pub type Result<T> = core::result::Result<T, Error>;

/// The text by which a failed sandbox setup is described.
pub open spec fn child_setup_text() -> Seq<char> {
    "sandbox process failed during setup"@
}

impl From<std::io::Error> for Error {
    fn from(value: std::io::Error) -> (e: Self) {
        Error::Io(value)
    }
}

impl vstd::std_specs::convert::FromSpecImpl<std::io::Error> for Error {
    open spec fn obeys_from_spec() -> bool {
        true
    }

    open spec fn from_spec(value: std::io::Error) -> Self {
        Error::Io(value)
    }
}

impl Error {
    /// The error that the operating system reports with the error number `code`.
    pub fn from_errno(code: i32) -> (e: Error)
        ensures
            e == Error::Io(os_error_value(code)),
    {
        Error::Io(os_error(code))
    }

    /// The text by which the error is described: the message of an invalid
    /// configuration, the text of the I/O error, or a fixed text for a failed
    /// sandbox process.
    pub fn message(&self) -> (text: String)
        ensures
            self matches Error::InvalidConfig(message) ==> text@ == message@,
            self is ChildSetup ==> text@ == child_setup_text(),
    {
        match self {
            Error::InvalidConfig(message) => (*message).to_owned(),
            Error::Io(error) => io_error_text(error),
            Error::ChildSetup => "sandbox process failed during setup".to_owned(),
        }
    }

    /// The I/O error underneath, if the error is one.
    pub fn io_source(&self) -> (source: Option<&std::io::Error>)
        ensures
            source is Some <==> self is Io,
            self matches Error::Io(inner) ==> source matches Some(s) && *s == inner,
    {
        match self {
            Error::Io(error) => Some(error),
            _ => None,
        }
    }
}

/// The I/O error that `std::io::Error::from_raw_os_error` makes of the
/// operating system's error number `code`.
pub uninterp spec fn os_error_value(code: i32) -> std::io::Error;

/// Calls `std::io::Error::from_raw_os_error`, which wraps the operating
/// system's error number `code` and depends on it alone: the result is named
/// `os_error_value(code)`.
#[verifier::external_body]
fn os_error(code: i32) -> (e: std::io::Error)
    ensures
        e == os_error_value(code),
{
    std::io::Error::from_raw_os_error(code)
}

/// Formats an I/O error with its `Display` implementation. The text comes
/// from the operating system's description of the error, so nothing is
/// claimed about it.
#[verifier::external_body]
fn io_error_text(error: &std::io::Error) -> (text: String) {
    format!("{}", error)
}

} // verus!
