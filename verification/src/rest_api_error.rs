//! The errors of the REST API, their messages, and the HTTP answer that each
//! error of a request gets.
use std::fmt::Write;
use vstd::prelude::*;

use crate::prefixed;

verus! {

/// Declares `std::io::Error`, which the server and command errors carry.
#[verifier::external_type_specification]
#[verifier::external_body]
pub struct ExIoError(std::io::Error);

/// Declares `protobuf::ProtobufError`, which the command errors carry.
#[verifier::external_type_specification]
#[verifier::external_body]
pub struct ExProtobufError(protobuf::ProtobufError);

/// The text that `std::io::Error`'s `Display` writes into a `String`; where
/// the formatter reports an error, what was written up to there. Nothing is
/// stated of it: for an error of the operating system it is the system's own
/// message, which depends on the machine.
#[verifier::external_body]
fn io_error_text(err: &std::io::Error) -> String {
    let mut text = String::new();
    let _ = write!(text, "{}", err);
    text
}

/// The text that `protobuf::ProtobufError`'s `Display` writes into a
/// `String`; where the formatter reports an error, what was written up to
/// there. Nothing is stated of it: it includes the text of the I/O errors
/// that it may carry.
#[verifier::external_body]
fn protobuf_error_text(err: &protobuf::ProtobufError) -> String {
    let mut text = String::new();
    let _ = write!(text, "{}", err);
    text
}

/// An error that stops the REST API server from starting or running.
#[derive(Debug)]
pub enum RestApiServerError {
    StartUpError(String),
    StdError(std::io::Error),
}

impl From<std::io::Error> for RestApiServerError {
    fn from(err: std::io::Error) -> (r: Self) {
        RestApiServerError::StdError(err)
    }
}

impl vstd::std_specs::convert::FromSpecImpl<std::io::Error> for RestApiServerError {
    open spec fn obeys_from_spec() -> bool {
        true
    }

    open spec fn from_spec(v: std::io::Error) -> Self {
        RestApiServerError::StdError(v)
    }
}

/// The message of a server error, where `cause` is the text of the I/O error
/// that a `StdError` wraps.
pub open spec fn server_error_message(e: RestApiServerError, cause: Seq<char>) -> Seq<char> {
    match e {
        RestApiServerError::StartUpError(s) => "Start-up Error: "@ + s@,
        RestApiServerError::StdError(_) => "Std Error: "@ + cause,
    }
}

impl RestApiServerError {
    /// The error that this one wraps: the I/O error of a `StdError`.
    pub fn source(&self) -> (r: Option<&std::io::Error>)
        ensures
            r == match self {
                RestApiServerError::StartUpError(_) => None,
                RestApiServerError::StdError(err) => Some(err),
            },
    {
        match self {
            RestApiServerError::StartUpError(_) => None,
            RestApiServerError::StdError(err) => Some(err),
        }
    }

    /// The message of the error, given `cause`, the text of the I/O error
    /// that a `StdError` wraps.
    pub fn message_with_cause(&self, cause: &str) -> (r: String)
        ensures
            r@ == server_error_message(*self, cause@),
    {
        match self {
            RestApiServerError::StartUpError(e) => prefixed("Start-up Error: ", e.as_str()),
            RestApiServerError::StdError(_) => prefixed("Std Error: ", cause),
        }
    }

    /// The message of the error: that of a `StdError` is `"Std Error: "`
    /// followed by the text that the I/O error's `Display` writes.
    pub fn to_string(&self) -> (r: String)
        ensures
            exists|cause: Seq<char>| r@ == #[trigger] server_error_message(*self, cause),
    {
        let cause = match self {
            RestApiServerError::StartUpError(_) => String::new(),
            RestApiServerError::StdError(e) => io_error_text(e),
        };
        let r = self.message_with_cause(cause.as_str());
        assert(r@ == server_error_message(*self, cause@));
        r
    }
}

/// An error that a request to the REST API ends with. The error of a grid
/// protocol conversion is held as its text.
#[derive(Debug)]
pub enum RestApiResponseError {
    BadRequest(String),
    SawtoothConnectionError(String),
    SawtoothValidatorResponseError(String),
    RequestHandlerError(String),
    DatabaseError(String),
    NotFoundError(String),
    UserError(String),
    GridProtoError(String),
}

/// The HTTP answer to a request that ended with an error: the status code,
/// and the message that the answer carries as its JSON body.
#[derive(Debug)]
pub struct ErrorResponse {
    pub status: u16,
    pub message: String,
}

/// The message that a request's error is answered with where it tells the
/// caller nothing of the cause.
pub open spec fn internal_server_error_message() -> Seq<char> {
    "Internal Server Error"@
}

impl RestApiResponseError {
    /// The message of the error.
    pub fn to_string(&self) -> (r: String)
        ensures
            r@ == match self {
                RestApiResponseError::BadRequest(s) => "Bad Request: "@ + s@,
                RestApiResponseError::SawtoothConnectionError(s) => "Zmq Connection Error: "@ + s@,
                RestApiResponseError::SawtoothValidatorResponseError(s) => "Sawtooth Validator Response Error: "@
                    + s@,
                RestApiResponseError::RequestHandlerError(s) => "Request Handler Error Error: "@ + s@,
                RestApiResponseError::NotFoundError(s) => "Not Found Error: "@ + s@,
                RestApiResponseError::DatabaseError(s) => "Database Error: "@ + s@,
                RestApiResponseError::UserError(s) => "Error: "@ + s@,
                RestApiResponseError::GridProtoError(s) => "Grid Proto Error: "@ + s@,
            },
    {
        match self {
            RestApiResponseError::BadRequest(s) => prefixed("Bad Request: ", s.as_str()),
            RestApiResponseError::SawtoothConnectionError(s) => prefixed("Zmq Connection Error: ", s.as_str()),
            RestApiResponseError::SawtoothValidatorResponseError(s) => prefixed(
                "Sawtooth Validator Response Error: ",
                s.as_str(),
            ),
            RestApiResponseError::RequestHandlerError(s) => prefixed(
                "Request Handler Error Error: ",
                s.as_str(),
            ),
            RestApiResponseError::NotFoundError(s) => prefixed("Not Found Error: ", s.as_str()),
            RestApiResponseError::DatabaseError(s) => prefixed("Database Error: ", s.as_str()),
            RestApiResponseError::UserError(s) => prefixed("Error: ", s.as_str()),
            RestApiResponseError::GridProtoError(s) => prefixed("Grid Proto Error: ", s.as_str()),
        }
    }

    /// The error that this one wraps, as its text: only a grid protocol
    /// error wraps one.
    pub fn source(&self) -> (r: Option<&String>)
        ensures
            r == match self {
                RestApiResponseError::GridProtoError(e) => Some(e),
                _ => None,
            },
    {
        match self {
            RestApiResponseError::GridProtoError(e) => Some(e),
            _ => None,
        }
    }

    /// The HTTP answer to a request that ended with this error: a bad
    /// request (400) or a missing resource (404) with the error's message,
    /// an unavailable service (503) with the message of a connection or
    /// database error, and an internal server error (500) that tells
    /// nothing of the cause otherwise.
    pub fn error_response(&self) -> (r: ErrorResponse)
        ensures
            match self {
                RestApiResponseError::BadRequest(m) => r.status == 400 && r.message@ == m@,
                RestApiResponseError::SawtoothConnectionError(m) => r.status == 503 && r.message@ == m@,
                RestApiResponseError::DatabaseError(m) => r.status == 503 && r.message@ == m@,
                RestApiResponseError::NotFoundError(m) => r.status == 404 && r.message@ == m@,
                _ => r.status == 500 && r.message@ == internal_server_error_message()
                    && r.message@ == "Internal Server Error"@,
            },
    {
        match self {
            RestApiResponseError::BadRequest(m) => ErrorResponse { status: 400, message: m.clone() },
            RestApiResponseError::SawtoothConnectionError(m) => ErrorResponse { status: 503, message: m.clone() },
            RestApiResponseError::DatabaseError(m) => ErrorResponse { status: 503, message: m.clone() },
            RestApiResponseError::NotFoundError(m) => ErrorResponse { status: 404, message: m.clone() },
            _ => {
                ErrorResponse { status: 500, message: String::from_str("Internal Server Error") }
            },
        }
    }

    /// The error of a request whose payload could not be read, from the
    /// text of the payload error.
    pub fn from_payload_error(detail: &str) -> (r: Self)
        ensures
            r matches RestApiResponseError::BadRequest(m) && m@ == "Payload was not well formated. "@
                + detail@,
    {
        RestApiResponseError::BadRequest(prefixed("Payload was not well formated. ", detail))
    }

    /// The error of a request that could not be handed to its handler, from
    /// the text of the mailbox error.
    pub fn from_mailbox_error(detail: &str) -> (r: Self)
        ensures
            r matches RestApiResponseError::RequestHandlerError(m) && m@
                == "Failed to deliver message to request handler. "@ + detail@,
    {
        RestApiResponseError::RequestHandlerError(
            prefixed("Failed to deliver message to request handler. ", detail),
        )
    }

    /// The error of a request whose response URL could not be made, from the
    /// text of the URL generation error.
    pub fn from_url_generation_error(detail: &str) -> (r: Self)
        ensures
            r matches RestApiResponseError::RequestHandlerError(m) && m@ == "Failed generate response URL. "@
                + detail@,
    {
        RestApiResponseError::RequestHandlerError(prefixed("Failed generate response URL. ", detail))
    }

    /// The error of a request whose database work failed, from the text of
    /// the database error.
    pub fn from_database_error(detail: &str) -> (r: Self)
        ensures
            r matches RestApiResponseError::DatabaseError(m) && m@ == "Database Error occured: "@ + detail@,
    {
        RestApiResponseError::DatabaseError(prefixed("Database Error occured: ", detail))
    }

    /// The error of a request whose query failed, from the text of the query
    /// error.
    pub fn from_query_error(detail: &str) -> (r: Self)
        ensures
            r matches RestApiResponseError::DatabaseError(m) && m@ == "Database Result Error occured: "@
                + detail@,
    {
        RestApiResponseError::DatabaseError(prefixed("Database Result Error occured: ", detail))
    }
}

/// An error of the command-line client. The errors of the logger, of
/// signing, of HTTP requests and of the grid and sabre protocol conversions
/// are held as their text.
#[derive(Debug)]
pub enum CliError {
    LoggingInitializationError(String),
    InvalidYamlError(String),
    PayloadError(String),
    UserError(String),
    DatabaseError(String),
    SigningError(String),
    IoError(std::io::Error),
    ProtobufError(protobuf::ProtobufError),
    ReqwestError(String),
    GridProtoError(String),
    SabreProtoError(String),
}

impl From<std::io::Error> for CliError {
    fn from(err: std::io::Error) -> (r: Self) {
        CliError::IoError(err)
    }
}

impl vstd::std_specs::convert::FromSpecImpl<std::io::Error> for CliError {
    open spec fn obeys_from_spec() -> bool {
        true
    }

    open spec fn from_spec(v: std::io::Error) -> Self {
        CliError::IoError(v)
    }
}

impl From<protobuf::ProtobufError> for CliError {
    fn from(err: protobuf::ProtobufError) -> (r: Self) {
        CliError::ProtobufError(err)
    }
}

impl vstd::std_specs::convert::FromSpecImpl<protobuf::ProtobufError> for CliError {
    open spec fn obeys_from_spec() -> bool {
        true
    }

    open spec fn from_spec(v: protobuf::ProtobufError) -> Self {
        CliError::ProtobufError(v)
    }
}

/// The error that a command-line error wraps: the I/O or protobuf error
/// itself, or the text of an error that is held as text.
#[derive(Debug)]
pub enum CliErrorSource<'a> {
    Io(&'a std::io::Error),
    Protobuf(&'a protobuf::ProtobufError),
    Text(&'a String),
}

/// The message of a command-line error, where `cause` is the text of the
/// I/O or protobuf error that it wraps.
pub open spec fn cli_error_message(e: CliError, cause: Seq<char>) -> Seq<char> {
    match e {
        CliError::UserError(s) => "Error: "@ + s@,
        CliError::InvalidYamlError(s) => "InvalidYamlError: "@ + s@,
        CliError::PayloadError(s) => "PayloadError: "@ + s@,
        CliError::IoError(_) => "IoError: "@ + cause,
        CliError::DatabaseError(s) => "DatabaseError: "@ + s@,
        CliError::SigningError(s) => "SigningError: "@ + s@,
        CliError::ProtobufError(_) => "ProtobufError: "@ + cause,
        CliError::LoggingInitializationError(s) => "LoggingInitializationError: "@ + s@,
        CliError::ReqwestError(s) => "Reqwest Error: "@ + s@,
        CliError::GridProtoError(s) => "Grid Proto Error: "@ + s@,
        CliError::SabreProtoError(s) => "Sabre Proto Error: "@ + s@,
    }
}

impl CliError {
    /// The error that this one wraps: none for a YAML, payload, user or
    /// database error; the I/O or protobuf error itself; the text of the
    /// wrapped error for the others.
    pub fn source(&self) -> (r: Option<CliErrorSource<'_>>)
        ensures
            r == match self {
                CliError::InvalidYamlError(_) => None,
                CliError::PayloadError(_) => None,
                CliError::UserError(_) => None,
                CliError::DatabaseError(_) => None,
                CliError::IoError(e) => Some(CliErrorSource::Io(e)),
                CliError::ProtobufError(e) => Some(CliErrorSource::Protobuf(e)),
                CliError::LoggingInitializationError(t) => Some(CliErrorSource::Text(t)),
                CliError::SigningError(t) => Some(CliErrorSource::Text(t)),
                CliError::ReqwestError(t) => Some(CliErrorSource::Text(t)),
                CliError::GridProtoError(t) => Some(CliErrorSource::Text(t)),
                CliError::SabreProtoError(t) => Some(CliErrorSource::Text(t)),
            },
    {
        match self {
            CliError::InvalidYamlError(_) => None,
            CliError::PayloadError(_) => None,
            CliError::UserError(_) => None,
            CliError::DatabaseError(_) => None,
            CliError::IoError(e) => Some(CliErrorSource::Io(e)),
            CliError::ProtobufError(e) => Some(CliErrorSource::Protobuf(e)),
            CliError::LoggingInitializationError(t) => Some(CliErrorSource::Text(t)),
            CliError::SigningError(t) => Some(CliErrorSource::Text(t)),
            CliError::ReqwestError(t) => Some(CliErrorSource::Text(t)),
            CliError::GridProtoError(t) => Some(CliErrorSource::Text(t)),
            CliError::SabreProtoError(t) => Some(CliErrorSource::Text(t)),
        }
    }

    /// The message of the error, given `cause`, the text of the I/O or
    /// protobuf error that it wraps.
    pub fn message_with_cause(&self, cause: &str) -> (r: String)
        ensures
            r@ == cli_error_message(*self, cause@),
    {
        match self {
            CliError::UserError(e) => prefixed("Error: ", e.as_str()),
            CliError::InvalidYamlError(e) => prefixed("InvalidYamlError: ", e.as_str()),
            CliError::PayloadError(e) => prefixed("PayloadError: ", e.as_str()),
            CliError::IoError(_) => prefixed("IoError: ", cause),
            CliError::DatabaseError(e) => prefixed("DatabaseError: ", e.as_str()),
            CliError::SigningError(e) => prefixed("SigningError: ", e.as_str()),
            CliError::ProtobufError(_) => prefixed("ProtobufError: ", cause),
            CliError::LoggingInitializationError(e) => prefixed("LoggingInitializationError: ", e.as_str()),
            CliError::ReqwestError(e) => prefixed("Reqwest Error: ", e.as_str()),
            CliError::GridProtoError(e) => prefixed("Grid Proto Error: ", e.as_str()),
            CliError::SabreProtoError(e) => prefixed("Sabre Proto Error: ", e.as_str()),
        }
    }

    /// The message of the error: that of an I/O or protobuf error is its
    /// prefix followed by the text that the wrapped error's `Display` writes.
    pub fn to_string(&self) -> (r: String)
        ensures
            exists|cause: Seq<char>| r@ == #[trigger] cli_error_message(*self, cause),
    {
        let cause = match self {
            CliError::IoError(e) => io_error_text(e),
            CliError::ProtobufError(e) => protobuf_error_text(e),
            _ => String::new(),
        };
        let r = self.message_with_cause(cause.as_str());
        assert(r@ == cli_error_message(*self, cause@));
        r
    }
}

/// Whether `m` ends with `t`.
pub open spec fn ends_with(m: Seq<char>, t: Seq<char>) -> bool {
    m.len() >= t.len() && m.subrange(m.len() - t.len(), m.len() as int) == t
}

/// The message of a command-line error ends with what it wraps: the text
/// of the I/O or protobuf error for those, the error's own text for the
/// others, which do not depend on that cause.
pub proof fn lemma_cli_message_ends_with_wrapped(e: CliError, cause: Seq<char>, other_cause: Seq<char>)
    ensures
        match e {
            CliError::IoError(_) => ends_with(cli_error_message(e, cause), cause),
            CliError::ProtobufError(_) => ends_with(cli_error_message(e, cause), cause),
            CliError::LoggingInitializationError(s) => ends_with(cli_error_message(e, cause), s@),
            CliError::InvalidYamlError(s) => ends_with(cli_error_message(e, cause), s@),
            CliError::PayloadError(s) => ends_with(cli_error_message(e, cause), s@),
            CliError::UserError(s) => ends_with(cli_error_message(e, cause), s@),
            CliError::DatabaseError(s) => ends_with(cli_error_message(e, cause), s@),
            CliError::SigningError(s) => ends_with(cli_error_message(e, cause), s@),
            CliError::ReqwestError(s) => ends_with(cli_error_message(e, cause), s@),
            CliError::GridProtoError(s) => ends_with(cli_error_message(e, cause), s@),
            CliError::SabreProtoError(s) => ends_with(cli_error_message(e, cause), s@),
        },
        !(e is IoError || e is ProtobufError) ==> cli_error_message(e, cause) == cli_error_message(e, other_cause),
{
    let m = cli_error_message(e, cause);
    let t = match e {
        CliError::IoError(_) => cause,
        CliError::ProtobufError(_) => cause,
        CliError::LoggingInitializationError(s) => s@,
        CliError::InvalidYamlError(s) => s@,
        CliError::PayloadError(s) => s@,
        CliError::UserError(s) => s@,
        CliError::DatabaseError(s) => s@,
        CliError::SigningError(s) => s@,
        CliError::ReqwestError(s) => s@,
        CliError::GridProtoError(s) => s@,
        CliError::SabreProtoError(s) => s@,
    };
    assert(m.subrange(m.len() - t.len(), m.len() as int) =~= t);
}

/// The message of a server error ends with what it wraps: the text of the
/// I/O error for a `StdError`, the start-up error's own text, which does not
/// depend on that cause, for a `StartUpError`.
pub proof fn lemma_server_message_ends_with_wrapped(e: RestApiServerError, cause: Seq<char>, other_cause: Seq<char>)
    ensures
        match e {
            RestApiServerError::StdError(_) => ends_with(server_error_message(e, cause), cause),
            RestApiServerError::StartUpError(s) => ends_with(server_error_message(e, cause), s@)
                && server_error_message(e, cause) == server_error_message(e, other_cause),
        },
{
    let m = server_error_message(e, cause);
    let t = match e {
        RestApiServerError::StdError(_) => cause,
        RestApiServerError::StartUpError(s) => s@,
    };
    assert(m.subrange(m.len() - t.len(), m.len() as int) =~= t);
}

} // verus!
