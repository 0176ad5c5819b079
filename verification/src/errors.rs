//! The failures of an exchange with the server.

use crate::http::HttpError;
use vstd::prelude::*;
use vstd::std_specs::convert::FromSpecImpl;

verus! {

pub type MisskeyConnectionResult<T> = Result<T, MisskeyConnectionError>;

/// The failure that `std` reports for a read or a write.
#[verifier::external_type_specification]
#[verifier::external_body]
pub struct ExIoError(std::io::Error);

/// The failure that `std` reports for bytes that are no UTF-8.
#[verifier::external_type_specification]
#[verifier::external_body]
pub struct ExFromUtf8Error(std::string::FromUtf8Error);

/// The failure that `serde_json` reports for a text that it could not decode.
#[verifier::external_type_specification]
#[verifier::external_body]
pub struct ExJsonError(serde_json::Error);

/// Everything that can go wrong between sending a request and holding its
/// typed answer.
#[derive(Debug)]
pub enum MisskeyConnectionError {
    /// Reading from or writing to the connection failed.
    IoError(std::io::Error),
    /// The peer did not answer with an HTTP response, or the request could
    /// not be framed.
    HttpError(HttpError),
    /// The text given for the server is no authority.
    InvalidAuthorityError,
    /// The body of the response is no UTF-8.
    NotUtf8Error(std::string::FromUtf8Error),
    /// The body is neither the expected answer nor the server's error report.
    SerdeError {
        /// Why the body is not the expected answer.
        parent_error: serde_json::Error,
        /// Why the body is not an error report.
        error: serde_json::Error,
        /// The body as it came.
        raw_string: String,
    },
    /// The server answered with an error report.
    ServerResponseError(ServerError),
}

impl From<std::io::Error> for MisskeyConnectionError {
    fn from(value: std::io::Error) -> (res: Self) {
        MisskeyConnectionError::IoError(value)
    }
}

impl FromSpecImpl<std::io::Error> for MisskeyConnectionError {
    open spec fn obeys_from_spec() -> bool {
        true
    }

    open spec fn from_spec(value: std::io::Error) -> Self {
        MisskeyConnectionError::IoError(value)
    }
}

impl From<HttpError> for MisskeyConnectionError {
    fn from(value: HttpError) -> (res: Self) {
        MisskeyConnectionError::HttpError(value)
    }
}

impl FromSpecImpl<HttpError> for MisskeyConnectionError {
    open spec fn obeys_from_spec() -> bool {
        true
    }

    open spec fn from_spec(value: HttpError) -> Self {
        MisskeyConnectionError::HttpError(value)
    }
}

impl From<std::string::FromUtf8Error> for MisskeyConnectionError {
    fn from(value: std::string::FromUtf8Error) -> (res: Self) {
        MisskeyConnectionError::NotUtf8Error(value)
    }
}

impl FromSpecImpl<std::string::FromUtf8Error> for MisskeyConnectionError {
    open spec fn obeys_from_spec() -> bool {
        true
    }

    open spec fn from_spec(value: std::string::FromUtf8Error) -> Self {
        MisskeyConnectionError::NotUtf8Error(value)
    }
}

impl From<ServerError> for MisskeyConnectionError {
    fn from(value: ServerError) -> (res: Self) {
        MisskeyConnectionError::ServerResponseError(value)
    }
}

impl FromSpecImpl<ServerError> for MisskeyConnectionError {
    open spec fn obeys_from_spec() -> bool {
        true
    }

    open spec fn from_spec(value: ServerError) -> Self {
        MisskeyConnectionError::ServerResponseError(value)
    }
}

impl From<ServerErrorResponse> for MisskeyConnectionError {
    fn from(value: ServerErrorResponse) -> (res: Self) {
        MisskeyConnectionError::ServerResponseError(value.error)
    }
}

impl FromSpecImpl<ServerErrorResponse> for MisskeyConnectionError {
    open spec fn obeys_from_spec() -> bool {
        true
    }

    open spec fn from_spec(value: ServerErrorResponse) -> Self {
        MisskeyConnectionError::ServerResponseError(value.error)
    }
}

/// A text that names no value of the enumeration it was read for.
#[derive(Clone, Copy, Debug, PartialEq, Eq, Structural)]
pub struct InvalidEnumString;

impl InvalidEnumString {
    /// What went wrong, in words.
    pub fn message(&self) -> (res: &'static str)
        ensures
            res@ == "invalid enum string"@,
    {
        "invalid enum string"
    }
}

/// The server's report of a failed call.
#[derive(Debug)]
pub struct ServerError {
    message: String,
    code: String,
    id: String,
    kind: String,
}

/// What a server error says.
pub struct ServerErrorModel {
    pub message: Seq<char>,
    pub code: Seq<char>,
    pub id: Seq<char>,
    pub kind: Seq<char>,
}

impl View for ServerError {
    type V = ServerErrorModel;

    closed spec fn view(&self) -> ServerErrorModel {
        ServerErrorModel {
            message: self.message@,
            code: self.code@,
            id: self.id@,
            kind: self.kind@,
        }
    }
}

impl ServerError {
    pub fn new(message: String, code: String, id: String, kind: String) -> (res: Self)
        ensures
            res@ == (ServerErrorModel { message: message@, code: code@, id: id@, kind: kind@ }),
    {
        ServerError { message, code, id, kind }
    }

    pub fn message(&self) -> (res: &String)
        ensures
            res@ == self@.message,
    {
        &self.message
    }

    pub fn code(&self) -> (res: &String)
        ensures
            res@ == self@.code,
    {
        &self.code
    }

    pub fn id(&self) -> (res: &String)
        ensures
            res@ == self@.id,
    {
        &self.id
    }

    pub fn kind(&self) -> (res: &String)
        ensures
            res@ == self@.kind,
    {
        &self.kind
    }
}

/// The envelope in which the server sends an error report.
#[derive(Debug)]
pub struct ServerErrorResponse {
    pub error: ServerError,
}

} // verus!
