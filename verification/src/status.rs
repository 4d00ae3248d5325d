use vstd::prelude::*;
use vstd::string::StringExecFns;

verus! {

/// A standard HTTP status code, held as its three-digit numeric value.
///
/// The value always lies in the standard range `100..=999`; the only
/// constructor checks it, so `wf` holds of every value the library hands out.
#[derive(Clone, Copy, Debug, PartialEq, Eq, Structural)]
pub struct StatusCode {
    code: u16,
}

/// The canonical reason phrase registered for each standard status code, and
/// `None` for a code without one.  This is exactly the table of the `http`
/// crate, which `canonical_reason_lookup` consults at run time.
pub open spec fn canonical_reason_spec(code: u16) -> Option<Seq<char>> {
    if code == 100 { Some("Continue"@) }
    else if code == 101 { Some("Switching Protocols"@) }
    else if code == 102 { Some("Processing"@) }
    else if code == 103 { Some("Early Hints"@) }
    else if code == 200 { Some("OK"@) }
    else if code == 201 { Some("Created"@) }
    else if code == 202 { Some("Accepted"@) }
    else if code == 203 { Some("Non Authoritative Information"@) }
    else if code == 204 { Some("No Content"@) }
    else if code == 205 { Some("Reset Content"@) }
    else if code == 206 { Some("Partial Content"@) }
    else if code == 207 { Some("Multi-Status"@) }
    else if code == 208 { Some("Already Reported"@) }
    else if code == 226 { Some("IM Used"@) }
    else if code == 300 { Some("Multiple Choices"@) }
    else if code == 301 { Some("Moved Permanently"@) }
    else if code == 302 { Some("Found"@) }
    else if code == 303 { Some("See Other"@) }
    else if code == 304 { Some("Not Modified"@) }
    else if code == 305 { Some("Use Proxy"@) }
    else if code == 307 { Some("Temporary Redirect"@) }
    else if code == 308 { Some("Permanent Redirect"@) }
    else if code == 400 { Some("Bad Request"@) }
    else if code == 401 { Some("Unauthorized"@) }
    else if code == 402 { Some("Payment Required"@) }
    else if code == 403 { Some("Forbidden"@) }
    else if code == 404 { Some("Not Found"@) }
    else if code == 405 { Some("Method Not Allowed"@) }
    else if code == 406 { Some("Not Acceptable"@) }
    else if code == 407 { Some("Proxy Authentication Required"@) }
    else if code == 408 { Some("Request Timeout"@) }
    else if code == 409 { Some("Conflict"@) }
    else if code == 410 { Some("Gone"@) }
    else if code == 411 { Some("Length Required"@) }
    else if code == 412 { Some("Precondition Failed"@) }
    else if code == 413 { Some("Payload Too Large"@) }
    else if code == 414 { Some("URI Too Long"@) }
    else if code == 415 { Some("Unsupported Media Type"@) }
    else if code == 416 { Some("Range Not Satisfiable"@) }
    else if code == 417 { Some("Expectation Failed"@) }
    else if code == 418 { Some("I'm a teapot"@) }
    else if code == 421 { Some("Misdirected Request"@) }
    else if code == 422 { Some("Unprocessable Entity"@) }
    else if code == 423 { Some("Locked"@) }
    else if code == 424 { Some("Failed Dependency"@) }
    else if code == 425 { Some("Too Early"@) }
    else if code == 426 { Some("Upgrade Required"@) }
    else if code == 428 { Some("Precondition Required"@) }
    else if code == 429 { Some("Too Many Requests"@) }
    else if code == 431 { Some("Request Header Fields Too Large"@) }
    else if code == 451 { Some("Unavailable For Legal Reasons"@) }
    else if code == 500 { Some("Internal Server Error"@) }
    else if code == 501 { Some("Not Implemented"@) }
    else if code == 502 { Some("Bad Gateway"@) }
    else if code == 503 { Some("Service Unavailable"@) }
    else if code == 504 { Some("Gateway Timeout"@) }
    else if code == 505 { Some("HTTP Version Not Supported"@) }
    else if code == 506 { Some("Variant Also Negotiates"@) }
    else if code == 507 { Some("Insufficient Storage"@) }
    else if code == 508 { Some("Loop Detected"@) }
    else if code == 510 { Some("Not Extended"@) }
    else if code == 511 { Some("Network Authentication Required"@) }
    else { None }
}

/// The text the default `reason` renders for `status`: the canonical phrase,
/// or nothing when the code has none.
pub open spec fn default_reason_spec(status: StatusCode) -> Seq<char> {
    match canonical_reason_spec(status.spec_code()) {
        Some(phrase) => phrase,
        None => Seq::empty(),
    }
}

/// Relies on `http::StatusCode::canonical_reason`, reached through
/// `http::StatusCode::from_u16` (which accepts exactly `100..=999`): the
/// reason phrase registered for a status code is the table that
/// `canonical_reason_spec` states, and a code outside the standard range has
/// none.
#[verifier::external_body]
fn canonical_reason_lookup(code: u16) -> (r: Option<&'static str>)
    ensures
        match (r, canonical_reason_spec(code)) {
            (Some(s), Some(p)) => s@ == p,
            (None, None) => true,
            _ => false,
        },
{
    match http::StatusCode::from_u16(code) {
        Ok(status) => status.canonical_reason(),
        Err(_) => None,
    }
}

impl StatusCode {
    /// The numeric value of this status code.
    pub closed spec fn spec_code(&self) -> u16 {
        self.code
    }

    /// Every status code the library hands out lies in the standard range.
    pub open spec fn wf(&self) -> bool {
        100 <= self.spec_code() < 1000
    }

    /// Build a status code from its numeric value; rejects values outside the
    /// standard range.
    pub fn from_u16(code: u16) -> (r: Option<StatusCode>)
        ensures
            100 <= code < 1000 ==> (r matches Some(s) && s.spec_code() == code && s.wf()),
            !(100 <= code < 1000) ==> r is None,
    {
        if 100 <= code && code < 1000 {
            Some(StatusCode { code })
        } else {
            None
        }
    }

    /// The numeric value, for callers that need the plain integer.
    pub fn as_u16(&self) -> (r: u16)
        ensures
            r == self.spec_code(),
    {
        self.code
    }

    /// The canonical reason phrase for this code, if one is registered.
    pub fn canonical_reason(&self) -> (r: Option<&'static str>)
        ensures
            match (r, canonical_reason_spec(self.spec_code())) {
                (Some(s), Some(p)) => s@ == p,
                (None, None) => true,
                _ => false,
            },
    {
        canonical_reason_lookup(self.code)
    }

    /// Append the default reason text for this code to `out`: the canonical
    /// phrase, or nothing when the code has none.
    pub fn write_default_reason(&self, out: &mut String)
        ensures
            final(out)@ == old(out)@ + default_reason_spec(*self),
    {
        match self.canonical_reason() {
            Some(phrase) => {
                out.append(phrase);
            }
            None => {
                proof {
                    assert(old(out)@ + default_reason_spec(*self) =~= old(out)@);
                }
            }
        }
    }
}

} // verus!
