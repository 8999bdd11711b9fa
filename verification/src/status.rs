//! HTTP status codes as the delivery logic reads them.

use vstd::prelude::*;

verus! {

/// The server refuses the credentials that came with the request.
pub const FORBIDDEN: u16 = 403;

/// The server knows no resource under the requested name.
pub const NOT_FOUND: u16 = 404;

/// The server asks the client to slow down.
pub const TOO_MANY_REQUESTS: u16 = 429;

/// The numbers that are status codes: three decimal digits, the first not zero.
pub open spec fn is_status_code(raw: int) -> bool {
    100 <= raw < 1000
}

/// The status codes with which a server reports a fault of its own.
pub open spec fn is_server_error_code(code: int) -> bool {
    500 <= code < 600
}

/// `http::StatusCode::from_u16`, read back with `as_u16`: the number itself where
/// the `http` crate takes it for a status code, which it does for 100 to 999 and
/// for nothing else.
#[verifier::external_body]
fn checked_status(raw: u16) -> (code: Option<u16>)
    ensures
        code == (if is_status_code(raw as int) { Some(raw) } else { None::<u16> }),
{
    match http::StatusCode::from_u16(raw) {
        Ok(status) => Some(status.as_u16()),
        Err(_) => None,
    }
}

/// `http::StatusCode::is_server_error` on the status code with the given number:
/// true for 500 to 599 and for nothing else.
#[verifier::external_body]
fn server_error_class(code: u16) -> (server_error: bool)
    requires
        is_status_code(code as int),
    ensures
        server_error == is_server_error_code(code as int),
{
    match http::StatusCode::from_u16(code) {
        Ok(status) => status.is_server_error(),
        Err(_) => false,
    }
}

/// What `http::StatusCode` shows through `Display` for the status code with the
/// given number: the number, a space, and the reason phrase that the `http`
/// crate knows for it.
pub uninterp spec fn status_line(code: int) -> Seq<char>;

/// `http::StatusCode`'s `Display`, through `to_string`, on the status code with
/// the given number.
#[verifier::external_body]
fn display_status(code: u16) -> (line: String)
    requires
        is_status_code(code as int),
    ensures
        line@ == status_line(code as int),
{
    match http::StatusCode::from_u16(code) {
        Ok(status) => status.to_string(),
        Err(_) => String::new(),
    }
}

/// A status code that a server can have sent.
#[derive(Clone, Copy, Debug)]
pub struct StatusCode {
    code: u16,
}

impl View for StatusCode {
    type V = int;

    closed spec fn view(&self) -> int {
        self.code as int
    }
}

impl StatusCode {
    #[verifier::type_invariant]
    spec fn in_range(self) -> bool {
        is_status_code(self.code as int)
    }

    /// Takes a raw number for a status code, if it is one.
    pub fn from_u16(raw: u16) -> (parsed: Option<StatusCode>)
        ensures
            parsed is Some <==> is_status_code(raw as int),
            parsed matches Some(status) ==> status@ == raw,
    {
        match checked_status(raw) {
            Some(code) => Some(StatusCode { code }),
            None => None,
        }
    }

    /// The number of the status code.
    pub fn as_u16(&self) -> (code: u16)
        ensures
            code == self@,
            is_status_code(code as int),
    {
        proof {
            use_type_invariant(self);
        }
        self.code
    }

    /// The status as a line of text: its number and its reason phrase.
    pub fn describe(&self) -> (line: String)
        ensures
            line@ == status_line(self@),
    {
        proof {
            use_type_invariant(self);
        }
        display_status(self.code)
    }

    /// Whether the server reports a fault of its own.
    pub fn is_server_error(&self) -> (server_error: bool)
        ensures
            server_error == is_server_error_code(self@),
    {
        proof {
            use_type_invariant(self);
        }
        server_error_class(self.code)
    }
}

} // verus!
