//! Plain response shapes of the service edge: health info, simple
//! message and error bodies, the catcher bodies for the HTTP error
//! pages, timestamped notification records, and the LED vocabulary.

use vstd::prelude::*;

verus! {

/// The health/info body served at the root endpoint.
#[derive(Debug, Clone, PartialEq, Eq)]
pub struct InfoResponse {
    pub health: String,
    pub version: String,
    pub app_name: String,
    pub app_description: String,
}

impl InfoResponse {
    /// A healthy report for the given build identity.
    pub fn healthy(version: String, app_name: String, app_description: String) -> (r:
        InfoResponse)
        ensures
            r.health@ == "healthy"@,
            r.version@ == version@,
            r.app_name@ == app_name@,
            r.app_description@ == app_description@,
    {
        InfoResponse { health: String::from_str("healthy"), version, app_name, app_description }
    }
}

/// A bare human-readable confirmation.
#[derive(Debug, Clone, PartialEq, Eq)]
pub struct MessageResponse {
    pub message: String,
}

impl MessageResponse {
    pub fn new(message: String) -> (r: MessageResponse)
        ensures
            r.message@ == message@,
    {
        MessageResponse { message }
    }
}

/// A bare human-readable failure report.
#[derive(Debug, Clone, PartialEq, Eq)]
pub struct ErrorMessage {
    pub message: String,
}

impl ErrorMessage {
    pub fn new(message: String) -> (r: ErrorMessage)
        ensures
            r.message@ == message@,
    {
        ErrorMessage { message }
    }
}

/// The body of an HTTP error page: the status code and its phrase.
#[derive(Debug, Clone, PartialEq, Eq)]
pub struct ErrorResponse {
    pub code: i32,
    pub message: String,
}

impl ErrorResponse {
    fn with(code: i32, message: &str) -> (r: ErrorResponse)
        ensures
            r.code == code,
            r.message@ == message@,
    {
        ErrorResponse { code, message: String::from_str(message) }
    }
}

pub fn bad_request() -> (r: ErrorResponse)
    ensures
        r.code == 400,
        r.message@ == "Bad Request"@,
{
    ErrorResponse::with(400, "Bad Request")
}

pub fn unauthorized() -> (r: ErrorResponse)
    ensures
        r.code == 401,
        r.message@ == "Unauthorized"@,
{
    ErrorResponse::with(401, "Unauthorized")
}

pub fn forbidden() -> (r: ErrorResponse)
    ensures
        r.code == 403,
        r.message@ == "Forbidden"@,
{
    ErrorResponse::with(403, "Forbidden")
}

pub fn not_found() -> (r: ErrorResponse)
    ensures
        r.code == 404,
        r.message@ == "Not found"@,
{
    ErrorResponse::with(404, "Not found")
}

pub fn unprocessable_entity() -> (r: ErrorResponse)
    ensures
        r.code == 422,
        r.message@ == "Unprocessable Entity"@,
{
    ErrorResponse::with(422, "Unprocessable Entity")
}

pub fn internal_error() -> (r: ErrorResponse)
    ensures
        r.code == 500,
        r.message@ == "Internal Server Error"@,
{
    ErrorResponse::with(500, "Internal Server Error")
}

pub fn not_implemented() -> (r: ErrorResponse)
    ensures
        r.code == 501,
        r.message@ == "Not Implemented"@,
{
    ErrorResponse::with(501, "Not Implemented")
}

/// A timestamped free-text record.
#[derive(Debug, Clone, PartialEq, Eq)]
pub struct NotificationData {
    pub message: String,
    pub timestamp: String,
}

/// The status LEDs and the GPIO pin each one is wired to.
#[derive(Debug, Clone, Copy, PartialEq, Eq, Structural)]
pub enum LEDType {
    RED,
    GREEN,
    BLUE,
}

impl LEDType {
    /// The GPIO pin driving this LED.
    pub fn pin(&self) -> (p: u8)
        ensures
            *self is RED ==> p == 21,
            *self is GREEN ==> p == 20,
            *self is BLUE ==> p == 16,
    {
        match self {
            LEDType::RED => 21,
            LEDType::GREEN => 20,
            LEDType::BLUE => 16,
        }
    }
}

} // verus!
