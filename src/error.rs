use vstd::prelude::*;

verus! {

/// An error to report at the HTTP boundary: a status code and a message.
#[derive(Clone, Debug, PartialEq, Eq)]
pub struct Error {
    pub status_code: u16,
    pub message: String,
}

#[verifier::external_type_specification]
#[verifier::external_body]
pub struct ExStatusCode(http::StatusCode);

/// Relies on http::StatusCode::from_u16, which returns a status code for every value
/// from 100 to 999 and an error only outside that range.
#[verifier::external_body]
fn status_from_u16(code: u16) -> (r: http::StatusCode)
    requires
        100 <= code <= 999,
{
    http::StatusCode::from_u16(code).unwrap()
}

impl Error {
    /// The status code as the HTTP layer takes it.
    pub fn status(&self) -> (r: http::StatusCode)
        requires
            100 <= self.status_code <= 999,
    {
        status_from_u16(self.status_code)
    }
}

/// The error for a malformed request: status 400.
pub fn bad_request(message: &str) -> (r: Error)
    ensures
        r.status_code == 400,
        r.message@ == message@,
{
    Error { status_code: 400, message: message.to_owned() }
}

/// The error for a missing resource: status 404.
pub fn not_found(message: &str) -> (r: Error)
    ensures
        r.status_code == 404,
        r.message@ == message@,
{
    Error { status_code: 404, message: message.to_owned() }
}

/// The error for a failure of the server itself: status 500.
pub fn server_error(message: &str) -> (r: Error)
    ensures
        r.status_code == 500,
        r.message@ == message@,
{
    Error { status_code: 500, message: message.to_owned() }
}

} // verus!
