//! Errors of this crate, and how each kind of error is reported.
use vstd::prelude::*;
use vstd::std_specs::cmp::PartialEqSpecImpl;

verus! {

/// Errors of this crate.
#[derive(Debug)]
pub enum Error {
    IOError { error: std::io::ErrorKind },
    Utf8Error { error: std::str::Utf8Error },
    SerdeError { error: serde_json::Error },
    ReqwestError(reqwest::Error),
    /// An address that could not be read as an IP address; holds the parser's message.
    AddrParseError(String),
    LocalError(String),
}

/// `e` is an error of this crate itself that carries the message `m`.
pub open spec fn is_local_error(e: Error, m: Seq<char>) -> bool {
    e matches Error::LocalError(s) && s@ == m
}

/// The message of an error is fixed by its value, except for a JSON error that wraps an
/// I/O error: that one displays the I/O error, whose text the platform decides.
pub open spec fn has_fixed_message(e: Error) -> bool {
    !(e matches Error::SerdeError { error } && json_error_is_io(error))
}

/// The message under which each error is reported: the message that the crate's own errors
/// and address errors carry, and how the other errors display. Of an error without a fixed
/// message (`has_fixed_message`) this says nothing.
pub open spec fn spec_message(e: Error) -> Seq<char> {
    match e {
        Error::IOError { error } => io_kind_text(error),
        Error::Utf8Error { error } => utf8_error_text(error),
        Error::SerdeError { error } => json_error_text(error),
        Error::ReqwestError(error) => http_error_text(error),
        Error::AddrParseError(m) => m@,
        Error::LocalError(m) => m@,
    }
}

/// The reason under which each kind of error is reported.
pub open spec fn spec_reason(e: Error) -> Seq<char> {
    match e {
        Error::IOError { .. } => "IoError"@,
        Error::Utf8Error { .. } => "IoError"@,
        Error::SerdeError { .. } => "JsonError"@,
        Error::ReqwestError(_) => "NetworkError"@,
        Error::AddrParseError(_) => "InvalidAddressError"@,
        Error::LocalError(_) => "InternalError"@,
    }
}

/// The text that the standard library displays for an I/O error kind: a fixed text for
/// each kind.
pub uninterp spec fn io_kind_text(kind: std::io::ErrorKind) -> Seq<char>;

/// The text that the standard library displays for a UTF-8 decoding error, which it builds
/// from the positions that the error holds.
pub uninterp spec fn utf8_error_text(error: std::str::Utf8Error) -> Seq<char>;

/// The text that a `serde_json::Error` other than an I/O error displays, which it builds from
/// the error's code and, where there is one, its line and column.
pub uninterp spec fn json_error_text(error: serde_json::Error) -> Seq<char>;

/// Whether a `serde_json::Error` was raised by a failed read or write on an I/O stream, which
/// its code decides.
pub uninterp spec fn json_error_is_io(error: serde_json::Error) -> bool;

/// The text that `reqwest::Error` displays, which it builds from the error's kind, the
/// status it holds if any, and its URL if any.
pub uninterp spec fn http_error_text(error: reqwest::Error) -> Seq<char>;

/// The text that the standard library displays for an I/O error kind (`Display::fmt`);
/// claimed: the text that the kind determines, `io_kind_text`.
#[verifier::external_body]
fn display_io_kind(kind: &std::io::ErrorKind) -> (r: String)
    ensures
        r@ == io_kind_text(*kind),
{
    format!("{}", kind)
}

/// The text that the standard library displays for a UTF-8 decoding error (`Display::fmt`);
/// claimed: the text that the error determines, `utf8_error_text`.
#[verifier::external_body]
fn display_utf8_error(error: &std::str::Utf8Error) -> (r: String)
    ensures
        r@ == utf8_error_text(*error),
{
    format!("{}", error)
}

/// The text that `serde_json::Error` displays (`Display::fmt`); claimed: for an error that is
/// not an I/O error, the text that the error determines, `json_error_text`. An I/O error
/// displays the `std::io::Error` it wraps, an operating system's message or whatever a custom
/// error prints, so nothing is claimed of its text.
#[verifier::external_body]
fn display_json_error(error: &serde_json::Error) -> (r: String)
    ensures
        !json_error_is_io(*error) ==> r@ == json_error_text(*error),
{
    format!("{}", error)
}

/// Whether a `serde_json::Error` is an I/O error (`serde_json::Error::is_io`, which looks at
/// the error's category); claimed: the answer that the error determines, `json_error_is_io`.
#[verifier::external_body]
fn json_is_io(error: &serde_json::Error) -> (r: bool)
    ensures
        r == json_error_is_io(*error),
{
    error.is_io()
}

/// The text that `reqwest::Error` displays (`Display::fmt`); claimed: the text that the
/// error determines, `http_error_text`.
#[verifier::external_body]
fn display_http_error(error: &reqwest::Error) -> (r: String)
    ensures
        r@ == http_error_text(*error),
{
    format!("{}", error)
}

impl Error {
    /// Creates an error that carries a message of this crate.
    pub fn create_local_error(message: &str) -> (e: Error)
        ensures
            is_local_error(e, message@),
    {
        Error::LocalError(message.to_owned())
    }

    /// The reason field of the error's report: what kind of failure it is.
    pub fn reason(&self) -> (r: &'static str)
        ensures
            r@ == spec_reason(*self),
    {
        match self {
            Error::IOError { .. } => "IoError",
            Error::Utf8Error { .. } => "IoError",
            Error::SerdeError { .. } => "JsonError",
            Error::ReqwestError(_) => "NetworkError",
            Error::AddrParseError(_) => "InvalidAddressError",
            Error::LocalError(_) => "InternalError",
        }
    }

    /// Whether the error's message is fixed by its value (`has_fixed_message`): false only for
    /// a JSON error that wraps an I/O error.
    pub fn has_fixed_message(&self) -> (r: bool)
        ensures
            r == has_fixed_message(*self),
    {
        match self {
            Error::SerdeError { error } => !json_is_io(error),
            _ => true,
        }
    }

    /// The message field of the error's report. For the crate's own errors and for address
    /// errors it is the message they carry; for the others it is how the wrapped error displays,
    /// which is stated wherever the error's value fixes it (`has_fixed_message`).
    pub fn message(&self) -> (r: String)
        ensures
            has_fixed_message(*self) ==> r@ == spec_message(*self),
            self matches Error::LocalError(m) ==> r@ == m@,
            self matches Error::AddrParseError(m) ==> r@ == m@,
    {
        match self {
            Error::IOError { error } => display_io_kind(error),
            Error::Utf8Error { error } => display_utf8_error(error),
            Error::SerdeError { error } => display_json_error(error),
            Error::ReqwestError(error) => display_http_error(error),
            Error::AddrParseError(m) => m.clone(),
            Error::LocalError(m) => m.clone(),
        }
    }

    /// Whether two errors give the same report: the same reason and the same message. Where
    /// both messages are fixed by the errors' values, that is exactly the answer.
    pub fn same_report(&self, other: &Error) -> (r: bool)
        ensures
            spec_reason(*self) != spec_reason(*other) ==> !r,
            has_fixed_message(*self) && has_fixed_message(*other) ==> r == (spec_reason(*self)
                == spec_reason(*other) && spec_message(*self) == spec_message(*other)),
    {
        crate::text::same_text(self.reason(), other.reason()) && self.message() == other.message()
    }
}

/// Two errors are equal when their reports are: the same reason and the same message
/// (`Error::same_report`). No spec function describes `==` on all errors, since a JSON error
/// that wraps an I/O error displays text that the platform decides.
impl PartialEq for Error {
    fn eq(&self, other: &Self) -> (r: bool) {
        self.same_report(other)
    }
}

impl PartialEqSpecImpl for Error {
    open spec fn obeys_eq_spec() -> bool {
        false
    }

    open spec fn eq_spec(&self, other: &Self) -> bool {
        spec_reason(*self) == spec_reason(*other) && spec_message(*self) == spec_message(*other)
    }
}

} // verus!
