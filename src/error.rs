//! Error types
use crate::status::{ResponseStatus, StatusClass};
use vstd::prelude::*;

verus! {

/// std::io::Error, carried unopened by `Error::Io`; nothing of its contents
/// is relied on.
#[verifier::external_type_specification]
#[verifier::external_body]
pub struct ExIoError(std::io::Error);

/// Everything that can go wrong in one exchange with the reader.
#[derive(Debug)]
pub enum Error {
    /// The byte channel failed; fatal for the exchange.
    Io(std::io::Error),
    /// A transient condition reported by the reader; the caller may retry.
    Communication(ResponseStatus),
    /// The tag rejected the operation.
    Protocol(ResponseStatus),
    /// A malformed request, or a response that could not be decoded.
    Program(String),
}

pub type Result<T> = core::result::Result<T, Error>;

/// The message carried by the error for a status of the program class.
pub open spec fn program_message(s: ResponseStatus) -> Seq<char> {
    match s {
        ResponseStatus::WrongLength => "Wrong command length"@,
        ResponseStatus::IllegalCommand => "Illegal command"@,
        ResponseStatus::ParameterError => "Parameter error"@,
        _ => "Invalid status response: "@ + s.spec_name(),
    }
}

/// The error that stands for a status which the caller cannot use as a
/// result: its variant follows the status's class.
pub open spec fn is_status_error(e: Error, s: ResponseStatus) -> bool {
    match s.spec_class() {
        StatusClass::Communication => e == Error::Communication(s),
        StatusClass::Protocol => e == Error::Protocol(s),
        _ => e matches Error::Program(m) && m@ == program_message(s),
    }
}

/// Whether `e` is a program error with the message `m`.
pub open spec fn is_program_error(e: Error, m: Seq<char>) -> bool {
    e matches Error::Program(msg) && msg@ == m
}

/// Whether `r` failed with a program error whose message is `m`.
pub open spec fn fails_with<T>(r: Result<T>, m: Seq<char>) -> bool {
    r matches Err(e) && is_program_error(e, m)
}

/// A program error with the given message.
pub fn program_error(m: &str) -> (e: Error)
    ensures
        is_program_error(e, m@),
{
    Error::Program(String::from_str(m))
}

impl From<std::io::Error> for Error {
    fn from(e: std::io::Error) -> (r: Error) {
        Error::Io(e)
    }
}

impl vstd::std_specs::convert::FromSpecImpl<std::io::Error> for Error {
    open spec fn obeys_from_spec() -> bool {
        true
    }

    open spec fn from_spec(e: std::io::Error) -> Error {
        Error::Io(e)
    }
}

impl From<String> for Error {
    fn from(m: String) -> (r: Error) {
        Error::Program(m)
    }
}

impl vstd::std_specs::convert::FromSpecImpl<String> for Error {
    open spec fn obeys_from_spec() -> bool {
        true
    }

    open spec fn from_spec(m: String) -> Error {
        Error::Program(m)
    }
}

/// The conversion is `Error::from_status`: the variant follows the status's
/// class, and a program error's message is `program_message(s)`.
impl From<ResponseStatus> for Error {
    fn from(s: ResponseStatus) -> (r: Error)
        ensures
            is_status_error(r, s),
    {
        Error::from_status(s)
    }
}

impl vstd::std_specs::convert::FromSpecImpl<ResponseStatus> for Error {
    open spec fn obeys_from_spec() -> bool {
        false
    }

    /// Unused: `obeys_from_spec` is false, since no spec value can name the
    /// message `String` itself; what `from` returns is stated on `from`.
    open spec fn from_spec(s: ResponseStatus) -> Error {
        Error::Communication(s)
    }
}

impl Error {
    /// Turns a status reported by the reader into the error of its class.
    pub fn from_status(s: ResponseStatus) -> (e: Error)
        ensures
            is_status_error(e, s),
    {
        match s {
            ResponseStatus::PoorCommunication => Error::Communication(s),
            ResponseStatus::NoTags => Error::Communication(s),
            ResponseStatus::AccessPasswordError => Error::Protocol(s),
            ResponseStatus::KillTagError => Error::Protocol(s),
            ResponseStatus::KillPasswordZero => Error::Protocol(s),
            ResponseStatus::CommandNotSupported => Error::Protocol(s),
            ResponseStatus::WrongLength => program_error("Wrong command length"),
            ResponseStatus::IllegalCommand => program_error("Illegal command"),
            ResponseStatus::ParameterError => program_error("Parameter error"),
            other => {
                let m = String::from_str("Invalid status response: ").concat(other.name());
                Error::Program(m)
            },
        }
    }
}

/// The error made from a status has the variant of the status's class: a
/// communication or protocol error carries the status itself, and every
/// other code, a successful one included, becomes a program error.
pub proof fn lemma_status_error_follows_class(s: ResponseStatus, e: Error)
    requires
        is_status_error(e, s),
    ensures
        s.spec_class() == StatusClass::Communication <==> e == Error::Communication(s),
        s.spec_class() == StatusClass::Protocol <==> e == Error::Protocol(s),
        s.spec_class() == StatusClass::Program || s.spec_class() == StatusClass::Success
            <==> e is Program,
{
}

} // verus!
