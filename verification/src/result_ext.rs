use vstd::prelude::*;

use crate::status::{StatusCode, default_reason_spec};
use crate::{BaseError, HttpError};

verus! {

/// A carrier that tags an existing error with a status code.  Its message
/// delegates to the wrapped error, which is also its causal predecessor; the
/// reason is left at the default, the canonical phrase of the status code.
#[derive(Debug)]
pub struct StatusError<E> {
    status: StatusCode,
    inner: E,
}

impl<E> StatusError<E> {
    /// The status code the carrier attaches.
    pub closed spec fn spec_status(&self) -> StatusCode {
        self.status
    }

    /// The wrapped error.
    pub closed spec fn spec_inner(&self) -> E {
        self.inner
    }

    /// Tag `inner` with `status`.
    pub fn new(status: StatusCode, inner: E) -> (r: StatusError<E>)
        ensures
            r.spec_status() == status,
            r.spec_inner() == inner,
    {
        StatusError { status, inner }
    }

    /// Give the wrapped error back.
    pub fn into_inner(self) -> (r: E)
        ensures
            r == self.spec_inner(),
    {
        self.inner
    }
}

impl<E: BaseError> BaseError for StatusError<E> {
    open spec fn message_spec(&self) -> Seq<char> {
        self.spec_inner().message_spec()
    }

    open spec fn source_spec(&self) -> Option<Seq<char>> {
        Some(self.spec_inner().message_spec())
    }

    fn message(&self) -> (m: String) {
        self.inner.message()
    }

    fn source_message(&self) -> (r: Option<String>) {
        Some(self.inner.message())
    }
}

impl<E: BaseError> HttpError for StatusError<E> {
    open spec fn status_spec(&self) -> StatusCode {
        self.spec_status()
    }

    open spec fn reason_spec(&self) -> Seq<char> {
        default_reason_spec(self.spec_status())
    }

    open spec fn headers_spec(&self) -> Option<Seq<(Seq<char>, Seq<char>)>> {
        None
    }

    open spec fn has_span_spec(&self) -> bool {
        false
    }

    fn status_code(&self) -> (s: StatusCode) {
        self.status
    }

    fn reason(&self, out: &mut String) {
        self.status.write_default_reason(out)
    }

    fn headers(&self) -> (h: Option<Vec<(String, String)>>) {
        None
    }

    fn span(&self) -> (s: Option<&tracing::Span>) {
        None
    }
}

/// What tagging a failed result yields: the success value untouched, else a
/// carrier holding exactly the given status code and the original error.
pub open spec fn tag_err_spec<T, E>(
    res: Result<T, E>,
    code: u16,
    r: Result<T, StatusError<E>>,
) -> bool {
    match res {
        Ok(v) => r == Ok::<T, StatusError<E>>(v),
        Err(inner) => match r {
            Ok(_) => false,
            Err(e) => e.spec_status().spec_code() == code && e.spec_inner() == inner,
        },
    }
}

/// The one generic implementation behind every per-status method.
pub fn tag_err<T, E>(res: Result<T, E>, code: u16) -> (r: Result<T, StatusError<E>>)
    requires
        100 <= code < 1000,
    ensures
        tag_err_spec(res, code, r),
{
    match res {
        Ok(v) => Ok(v),
        Err(inner) => Err(StatusError::new(StatusCode::from_u16(code).unwrap(), inner)),
    }
}

/// Tags the error of a failed result with a fixed status code: one method
/// per standard client- and server-error code, each a thin call of
/// `tag_err`.
pub trait ResultExt<T, E>: Sized {
    /// The result the adapter reads.
    spec fn res_spec(&self) -> Result<T, E>;

    /// 400 Bad Request
    fn bad_request(self) -> (r: Result<T, StatusError<E>>)
        ensures
            tag_err_spec(self.res_spec(), 400, r),
    ;

    /// 401 Unauthorized
    fn unauthorized(self) -> (r: Result<T, StatusError<E>>)
        ensures
            tag_err_spec(self.res_spec(), 401, r),
    ;

    /// 402 Payment Required
    fn payment_required(self) -> (r: Result<T, StatusError<E>>)
        ensures
            tag_err_spec(self.res_spec(), 402, r),
    ;

    /// 403 Forbidden
    fn forbidden(self) -> (r: Result<T, StatusError<E>>)
        ensures
            tag_err_spec(self.res_spec(), 403, r),
    ;

    /// 404 Not Found
    fn not_found(self) -> (r: Result<T, StatusError<E>>)
        ensures
            tag_err_spec(self.res_spec(), 404, r),
    ;

    /// 405 Method Not Allowed
    fn method_not_allowed(self) -> (r: Result<T, StatusError<E>>)
        ensures
            tag_err_spec(self.res_spec(), 405, r),
    ;

    /// 406 Not Acceptable
    fn not_acceptable(self) -> (r: Result<T, StatusError<E>>)
        ensures
            tag_err_spec(self.res_spec(), 406, r),
    ;

    /// 407 Proxy Authentication Required
    fn proxy_authentication_required(self) -> (r: Result<T, StatusError<E>>)
        ensures
            tag_err_spec(self.res_spec(), 407, r),
    ;

    /// 408 Request Timeout
    fn request_timeout(self) -> (r: Result<T, StatusError<E>>)
        ensures
            tag_err_spec(self.res_spec(), 408, r),
    ;

    /// 409 Conflict
    fn conflict(self) -> (r: Result<T, StatusError<E>>)
        ensures
            tag_err_spec(self.res_spec(), 409, r),
    ;

    /// 410 Gone
    fn gone(self) -> (r: Result<T, StatusError<E>>)
        ensures
            tag_err_spec(self.res_spec(), 410, r),
    ;

    /// 411 Length Required
    fn length_required(self) -> (r: Result<T, StatusError<E>>)
        ensures
            tag_err_spec(self.res_spec(), 411, r),
    ;

    /// 412 Precondition Failed
    fn precondition_failed(self) -> (r: Result<T, StatusError<E>>)
        ensures
            tag_err_spec(self.res_spec(), 412, r),
    ;

    /// 413 Payload Too Large
    fn payload_too_large(self) -> (r: Result<T, StatusError<E>>)
        ensures
            tag_err_spec(self.res_spec(), 413, r),
    ;

    /// 414 URI Too Long
    fn uri_too_long(self) -> (r: Result<T, StatusError<E>>)
        ensures
            tag_err_spec(self.res_spec(), 414, r),
    ;

    /// 415 Unsupported Media Type
    fn unsupported_media_type(self) -> (r: Result<T, StatusError<E>>)
        ensures
            tag_err_spec(self.res_spec(), 415, r),
    ;

    /// 416 Range Not Satisfiable
    fn range_not_satisfiable(self) -> (r: Result<T, StatusError<E>>)
        ensures
            tag_err_spec(self.res_spec(), 416, r),
    ;

    /// 417 Expectation Failed
    fn expectation_failed(self) -> (r: Result<T, StatusError<E>>)
        ensures
            tag_err_spec(self.res_spec(), 417, r),
    ;

    /// 418 I'm a teapot
    fn im_a_teapot(self) -> (r: Result<T, StatusError<E>>)
        ensures
            tag_err_spec(self.res_spec(), 418, r),
    ;

    /// 421 Misdirected Request
    fn misdirected_request(self) -> (r: Result<T, StatusError<E>>)
        ensures
            tag_err_spec(self.res_spec(), 421, r),
    ;

    /// 422 Unprocessable Entity
    fn unprocessable_entity(self) -> (r: Result<T, StatusError<E>>)
        ensures
            tag_err_spec(self.res_spec(), 422, r),
    ;

    /// 423 Locked
    fn locked(self) -> (r: Result<T, StatusError<E>>)
        ensures
            tag_err_spec(self.res_spec(), 423, r),
    ;

    /// 424 Failed Dependency
    fn failed_dependency(self) -> (r: Result<T, StatusError<E>>)
        ensures
            tag_err_spec(self.res_spec(), 424, r),
    ;

    /// 426 Upgrade Required
    fn upgrade_required(self) -> (r: Result<T, StatusError<E>>)
        ensures
            tag_err_spec(self.res_spec(), 426, r),
    ;

    /// 428 Precondition Required
    fn precondition_required(self) -> (r: Result<T, StatusError<E>>)
        ensures
            tag_err_spec(self.res_spec(), 428, r),
    ;

    /// 429 Too Many Requests
    fn too_many_requests(self) -> (r: Result<T, StatusError<E>>)
        ensures
            tag_err_spec(self.res_spec(), 429, r),
    ;

    /// 431 Request Header Fields Too Large
    fn request_header_fields_too_large(self) -> (r: Result<T, StatusError<E>>)
        ensures
            tag_err_spec(self.res_spec(), 431, r),
    ;

    /// 451 Unavailable For Legal Reasons
    fn unavailable_for_legal_reasons(self) -> (r: Result<T, StatusError<E>>)
        ensures
            tag_err_spec(self.res_spec(), 451, r),
    ;

    /// 500 Internal Server Error
    fn internal_server_error(self) -> (r: Result<T, StatusError<E>>)
        ensures
            tag_err_spec(self.res_spec(), 500, r),
    ;

    /// 501 Not Implemented
    fn not_implemented(self) -> (r: Result<T, StatusError<E>>)
        ensures
            tag_err_spec(self.res_spec(), 501, r),
    ;

    /// 502 Bad Gateway
    fn bad_gateway(self) -> (r: Result<T, StatusError<E>>)
        ensures
            tag_err_spec(self.res_spec(), 502, r),
    ;

    /// 503 Service Unavailable
    fn service_unavailable(self) -> (r: Result<T, StatusError<E>>)
        ensures
            tag_err_spec(self.res_spec(), 503, r),
    ;

    /// 504 Gateway Timeout
    fn gateway_timeout(self) -> (r: Result<T, StatusError<E>>)
        ensures
            tag_err_spec(self.res_spec(), 504, r),
    ;

    /// 505 HTTP Version Not Supported
    fn http_version_not_supported(self) -> (r: Result<T, StatusError<E>>)
        ensures
            tag_err_spec(self.res_spec(), 505, r),
    ;

    /// 506 Variant Also Negotiates
    fn variant_also_negotiates(self) -> (r: Result<T, StatusError<E>>)
        ensures
            tag_err_spec(self.res_spec(), 506, r),
    ;

    /// 507 Insufficient Storage
    fn insufficient_storage(self) -> (r: Result<T, StatusError<E>>)
        ensures
            tag_err_spec(self.res_spec(), 507, r),
    ;

    /// 508 Loop Detected
    fn loop_detected(self) -> (r: Result<T, StatusError<E>>)
        ensures
            tag_err_spec(self.res_spec(), 508, r),
    ;

    /// 510 Not Extended
    fn not_extended(self) -> (r: Result<T, StatusError<E>>)
        ensures
            tag_err_spec(self.res_spec(), 510, r),
    ;

    /// 511 Network Authentication Required
    fn network_authentication_required(self) -> (r: Result<T, StatusError<E>>)
        ensures
            tag_err_spec(self.res_spec(), 511, r),
    ;
}

impl<T, E> ResultExt<T, E> for Result<T, E> {
    open spec fn res_spec(&self) -> Result<T, E> {
        *self
    }

    fn bad_request(self) -> (r: Result<T, StatusError<E>>) {
        tag_err(self, 400)
    }

    fn unauthorized(self) -> (r: Result<T, StatusError<E>>) {
        tag_err(self, 401)
    }

    fn payment_required(self) -> (r: Result<T, StatusError<E>>) {
        tag_err(self, 402)
    }

    fn forbidden(self) -> (r: Result<T, StatusError<E>>) {
        tag_err(self, 403)
    }

    fn not_found(self) -> (r: Result<T, StatusError<E>>) {
        tag_err(self, 404)
    }

    fn method_not_allowed(self) -> (r: Result<T, StatusError<E>>) {
        tag_err(self, 405)
    }

    fn not_acceptable(self) -> (r: Result<T, StatusError<E>>) {
        tag_err(self, 406)
    }

    fn proxy_authentication_required(self) -> (r: Result<T, StatusError<E>>) {
        tag_err(self, 407)
    }

    fn request_timeout(self) -> (r: Result<T, StatusError<E>>) {
        tag_err(self, 408)
    }

    fn conflict(self) -> (r: Result<T, StatusError<E>>) {
        tag_err(self, 409)
    }

    fn gone(self) -> (r: Result<T, StatusError<E>>) {
        tag_err(self, 410)
    }

    fn length_required(self) -> (r: Result<T, StatusError<E>>) {
        tag_err(self, 411)
    }

    fn precondition_failed(self) -> (r: Result<T, StatusError<E>>) {
        tag_err(self, 412)
    }

    fn payload_too_large(self) -> (r: Result<T, StatusError<E>>) {
        tag_err(self, 413)
    }

    fn uri_too_long(self) -> (r: Result<T, StatusError<E>>) {
        tag_err(self, 414)
    }

    fn unsupported_media_type(self) -> (r: Result<T, StatusError<E>>) {
        tag_err(self, 415)
    }

    fn range_not_satisfiable(self) -> (r: Result<T, StatusError<E>>) {
        tag_err(self, 416)
    }

    fn expectation_failed(self) -> (r: Result<T, StatusError<E>>) {
        tag_err(self, 417)
    }

    fn im_a_teapot(self) -> (r: Result<T, StatusError<E>>) {
        tag_err(self, 418)
    }

    fn misdirected_request(self) -> (r: Result<T, StatusError<E>>) {
        tag_err(self, 421)
    }

    fn unprocessable_entity(self) -> (r: Result<T, StatusError<E>>) {
        tag_err(self, 422)
    }

    fn locked(self) -> (r: Result<T, StatusError<E>>) {
        tag_err(self, 423)
    }

    fn failed_dependency(self) -> (r: Result<T, StatusError<E>>) {
        tag_err(self, 424)
    }

    fn upgrade_required(self) -> (r: Result<T, StatusError<E>>) {
        tag_err(self, 426)
    }

    fn precondition_required(self) -> (r: Result<T, StatusError<E>>) {
        tag_err(self, 428)
    }

    fn too_many_requests(self) -> (r: Result<T, StatusError<E>>) {
        tag_err(self, 429)
    }

    fn request_header_fields_too_large(self) -> (r: Result<T, StatusError<E>>) {
        tag_err(self, 431)
    }

    fn unavailable_for_legal_reasons(self) -> (r: Result<T, StatusError<E>>) {
        tag_err(self, 451)
    }

    fn internal_server_error(self) -> (r: Result<T, StatusError<E>>) {
        tag_err(self, 500)
    }

    fn not_implemented(self) -> (r: Result<T, StatusError<E>>) {
        tag_err(self, 501)
    }

    fn bad_gateway(self) -> (r: Result<T, StatusError<E>>) {
        tag_err(self, 502)
    }

    fn service_unavailable(self) -> (r: Result<T, StatusError<E>>) {
        tag_err(self, 503)
    }

    fn gateway_timeout(self) -> (r: Result<T, StatusError<E>>) {
        tag_err(self, 504)
    }

    fn http_version_not_supported(self) -> (r: Result<T, StatusError<E>>) {
        tag_err(self, 505)
    }

    fn variant_also_negotiates(self) -> (r: Result<T, StatusError<E>>) {
        tag_err(self, 506)
    }

    fn insufficient_storage(self) -> (r: Result<T, StatusError<E>>) {
        tag_err(self, 507)
    }

    fn loop_detected(self) -> (r: Result<T, StatusError<E>>) {
        tag_err(self, 508)
    }

    fn not_extended(self) -> (r: Result<T, StatusError<E>>) {
        tag_err(self, 510)
    }

    fn network_authentication_required(self) -> (r: Result<T, StatusError<E>>) {
        tag_err(self, 511)
    }
}

} // verus!
