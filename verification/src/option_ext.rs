use vstd::prelude::*;

use crate::status::{StatusCode, default_reason_spec};
use crate::{BaseError, HttpError};

verus! {

/// A minimal contract-implementing error: a status code and a static context
/// string, together with the tracing span that was active when it was built.
/// The context is its diagnostic message; the reason is left at the default,
/// the canonical phrase of the status code.
#[derive(Debug)]
pub struct StatusError {
    status: StatusCode,
    context: &'static str,
    span: tracing::Span,
}

impl StatusError {
    /// The status code the error carries.
    pub closed spec fn spec_status(&self) -> StatusCode {
        self.status
    }

    /// The context string the error carries.
    pub closed spec fn spec_context(&self) -> Seq<char> {
        self.context@
    }

    /// Build an error carrying `status` and `context`; captures the tracing
    /// span that is active at this moment.
    pub fn new(status: StatusCode, context: &'static str) -> (r: StatusError)
        ensures
            r.spec_status() == status,
            r.spec_context() == context@,
    {
        StatusError { status, context, span: tracing::Span::current() }
    }
}

impl BaseError for StatusError {
    open spec fn message_spec(&self) -> Seq<char> {
        self.spec_context()
    }

    open spec fn source_spec(&self) -> Option<Seq<char>> {
        None
    }

    fn message(&self) -> (m: String) {
        self.context.to_owned()
    }

    fn source_message(&self) -> (r: Option<String>) {
        None
    }
}

impl HttpError for StatusError {
    open spec fn status_spec(&self) -> StatusCode {
        self.spec_status()
    }

    open spec fn reason_spec(&self) -> Seq<char> {
        default_reason_spec(self.spec_status())
    }

    open spec fn headers_spec(&self) -> Option<Seq<(Seq<char>, Seq<char>)>> {
        None
    }

    open spec fn has_span_spec(&self) -> bool {
        true
    }

    fn status_code(&self) -> (s: StatusCode) {
        self.status
    }

    fn reason(&self, out: &mut String) {
        self.status.write_default_reason(out)
    }

    fn headers(&self) -> (h: Option<Vec<(String, String)>>) {
        None
    }

    fn span(&self) -> (s: Option<&tracing::Span>) {
        Some(&self.span)
    }
}

/// What tagging a missing value yields: the value itself when present, else
/// a `StatusError` carrying exactly the given status code and context.
pub open spec fn ok_or_spec<T>(
    opt: Option<T>,
    code: u16,
    context: Seq<char>,
    r: Result<T, StatusError>,
) -> bool {
    match opt {
        Some(v) => r == Ok::<T, StatusError>(v),
        None => match r {
            Ok(_) => false,
            Err(e) => e.spec_status().spec_code() == code && e.spec_context() == context,
        },
    }
}

/// The one generic implementation behind every per-status method.
pub fn ok_or_status<T>(opt: Option<T>, code: u16, context: &'static str) -> (r: Result<
    T,
    StatusError,
>)
    requires
        100 <= code < 1000,
    ensures
        ok_or_spec(opt, code, context@, r),
{
    match opt {
        Some(v) => Ok(v),
        None => Err(StatusError::new(StatusCode::from_u16(code).unwrap(), context)),
    }
}

/// Turns a missing value into a `StatusError` tagged with a fixed status
/// code: one method per standard client- and server-error code, each a thin
/// call of `ok_or_status`.
pub trait OptionExt<T>: Sized {
    /// The option the adapter reads.
    spec fn opt_spec(&self) -> Option<T>;

    /// 400 Bad Request
    fn ok_or_bad_request(self, context: &'static str) -> (r: Result<T, StatusError>)
        ensures
            ok_or_spec(self.opt_spec(), 400, context@, r),
    ;

    /// 401 Unauthorized
    fn ok_or_unauthorized(self, context: &'static str) -> (r: Result<T, StatusError>)
        ensures
            ok_or_spec(self.opt_spec(), 401, context@, r),
    ;

    /// 402 Payment Required
    fn ok_or_payment_required(self, context: &'static str) -> (r: Result<T, StatusError>)
        ensures
            ok_or_spec(self.opt_spec(), 402, context@, r),
    ;

    /// 403 Forbidden
    fn ok_or_forbidden(self, context: &'static str) -> (r: Result<T, StatusError>)
        ensures
            ok_or_spec(self.opt_spec(), 403, context@, r),
    ;

    /// 404 Not Found
    fn ok_or_not_found(self, context: &'static str) -> (r: Result<T, StatusError>)
        ensures
            ok_or_spec(self.opt_spec(), 404, context@, r),
    ;

    /// 405 Method Not Allowed
    fn ok_or_method_not_allowed(self, context: &'static str) -> (r: Result<T, StatusError>)
        ensures
            ok_or_spec(self.opt_spec(), 405, context@, r),
    ;

    /// 406 Not Acceptable
    fn ok_or_not_acceptable(self, context: &'static str) -> (r: Result<T, StatusError>)
        ensures
            ok_or_spec(self.opt_spec(), 406, context@, r),
    ;

    /// 407 Proxy Authentication Required
    fn ok_or_proxy_authentication_required(self, context: &'static str) -> (r: Result<T, StatusError>)
        ensures
            ok_or_spec(self.opt_spec(), 407, context@, r),
    ;

    /// 408 Request Timeout
    fn ok_or_request_timeout(self, context: &'static str) -> (r: Result<T, StatusError>)
        ensures
            ok_or_spec(self.opt_spec(), 408, context@, r),
    ;

    /// 409 Conflict
    fn ok_or_conflict(self, context: &'static str) -> (r: Result<T, StatusError>)
        ensures
            ok_or_spec(self.opt_spec(), 409, context@, r),
    ;

    /// 410 Gone
    fn ok_or_gone(self, context: &'static str) -> (r: Result<T, StatusError>)
        ensures
            ok_or_spec(self.opt_spec(), 410, context@, r),
    ;

    /// 411 Length Required
    fn ok_or_length_required(self, context: &'static str) -> (r: Result<T, StatusError>)
        ensures
            ok_or_spec(self.opt_spec(), 411, context@, r),
    ;

    /// 412 Precondition Failed
    fn ok_or_precondition_failed(self, context: &'static str) -> (r: Result<T, StatusError>)
        ensures
            ok_or_spec(self.opt_spec(), 412, context@, r),
    ;

    /// 413 Payload Too Large
    fn ok_or_payload_too_large(self, context: &'static str) -> (r: Result<T, StatusError>)
        ensures
            ok_or_spec(self.opt_spec(), 413, context@, r),
    ;

    /// 414 URI Too Long
    fn ok_or_uri_too_long(self, context: &'static str) -> (r: Result<T, StatusError>)
        ensures
            ok_or_spec(self.opt_spec(), 414, context@, r),
    ;

    /// 415 Unsupported Media Type
    fn ok_or_unsupported_media_type(self, context: &'static str) -> (r: Result<T, StatusError>)
        ensures
            ok_or_spec(self.opt_spec(), 415, context@, r),
    ;

    /// 416 Range Not Satisfiable
    fn ok_or_range_not_satisfiable(self, context: &'static str) -> (r: Result<T, StatusError>)
        ensures
            ok_or_spec(self.opt_spec(), 416, context@, r),
    ;

    /// 417 Expectation Failed
    fn ok_or_expectation_failed(self, context: &'static str) -> (r: Result<T, StatusError>)
        ensures
            ok_or_spec(self.opt_spec(), 417, context@, r),
    ;

    /// 418 I'm a teapot
    fn ok_or_im_a_teapot(self, context: &'static str) -> (r: Result<T, StatusError>)
        ensures
            ok_or_spec(self.opt_spec(), 418, context@, r),
    ;

    /// 421 Misdirected Request
    fn ok_or_misdirected_request(self, context: &'static str) -> (r: Result<T, StatusError>)
        ensures
            ok_or_spec(self.opt_spec(), 421, context@, r),
    ;

    /// 422 Unprocessable Entity
    fn ok_or_unprocessable_entity(self, context: &'static str) -> (r: Result<T, StatusError>)
        ensures
            ok_or_spec(self.opt_spec(), 422, context@, r),
    ;

    /// 423 Locked
    fn ok_or_locked(self, context: &'static str) -> (r: Result<T, StatusError>)
        ensures
            ok_or_spec(self.opt_spec(), 423, context@, r),
    ;

    /// 424 Failed Dependency
    fn ok_or_failed_dependency(self, context: &'static str) -> (r: Result<T, StatusError>)
        ensures
            ok_or_spec(self.opt_spec(), 424, context@, r),
    ;

    /// 426 Upgrade Required
    fn ok_or_upgrade_required(self, context: &'static str) -> (r: Result<T, StatusError>)
        ensures
            ok_or_spec(self.opt_spec(), 426, context@, r),
    ;

    /// 428 Precondition Required
    fn ok_or_precondition_required(self, context: &'static str) -> (r: Result<T, StatusError>)
        ensures
            ok_or_spec(self.opt_spec(), 428, context@, r),
    ;

    /// 429 Too Many Requests
    fn ok_or_too_many_requests(self, context: &'static str) -> (r: Result<T, StatusError>)
        ensures
            ok_or_spec(self.opt_spec(), 429, context@, r),
    ;

    /// 431 Request Header Fields Too Large
    fn ok_or_request_header_fields_too_large(self, context: &'static str) -> (r: Result<T, StatusError>)
        ensures
            ok_or_spec(self.opt_spec(), 431, context@, r),
    ;

    /// 451 Unavailable For Legal Reasons
    fn ok_or_unavailable_for_legal_reasons(self, context: &'static str) -> (r: Result<T, StatusError>)
        ensures
            ok_or_spec(self.opt_spec(), 451, context@, r),
    ;

    /// 500 Internal Server Error
    fn ok_or_internal_server_error(self, context: &'static str) -> (r: Result<T, StatusError>)
        ensures
            ok_or_spec(self.opt_spec(), 500, context@, r),
    ;

    /// 501 Not Implemented
    fn ok_or_not_implemented(self, context: &'static str) -> (r: Result<T, StatusError>)
        ensures
            ok_or_spec(self.opt_spec(), 501, context@, r),
    ;

    /// 502 Bad Gateway
    fn ok_or_bad_gateway(self, context: &'static str) -> (r: Result<T, StatusError>)
        ensures
            ok_or_spec(self.opt_spec(), 502, context@, r),
    ;

    /// 503 Service Unavailable
    fn ok_or_service_unavailable(self, context: &'static str) -> (r: Result<T, StatusError>)
        ensures
            ok_or_spec(self.opt_spec(), 503, context@, r),
    ;

    /// 504 Gateway Timeout
    fn ok_or_gateway_timeout(self, context: &'static str) -> (r: Result<T, StatusError>)
        ensures
            ok_or_spec(self.opt_spec(), 504, context@, r),
    ;

    /// 505 HTTP Version Not Supported
    fn ok_or_http_version_not_supported(self, context: &'static str) -> (r: Result<T, StatusError>)
        ensures
            ok_or_spec(self.opt_spec(), 505, context@, r),
    ;

    /// 506 Variant Also Negotiates
    fn ok_or_variant_also_negotiates(self, context: &'static str) -> (r: Result<T, StatusError>)
        ensures
            ok_or_spec(self.opt_spec(), 506, context@, r),
    ;

    /// 507 Insufficient Storage
    fn ok_or_insufficient_storage(self, context: &'static str) -> (r: Result<T, StatusError>)
        ensures
            ok_or_spec(self.opt_spec(), 507, context@, r),
    ;

    /// 508 Loop Detected
    fn ok_or_loop_detected(self, context: &'static str) -> (r: Result<T, StatusError>)
        ensures
            ok_or_spec(self.opt_spec(), 508, context@, r),
    ;

    /// 510 Not Extended
    fn ok_or_not_extended(self, context: &'static str) -> (r: Result<T, StatusError>)
        ensures
            ok_or_spec(self.opt_spec(), 510, context@, r),
    ;

    /// 511 Network Authentication Required
    fn ok_or_network_authentication_required(self, context: &'static str) -> (r: Result<T, StatusError>)
        ensures
            ok_or_spec(self.opt_spec(), 511, context@, r),
    ;
}

impl<T> OptionExt<T> for Option<T> {
    open spec fn opt_spec(&self) -> Option<T> {
        *self
    }

    fn ok_or_bad_request(self, context: &'static str) -> (r: Result<T, StatusError>) {
        ok_or_status(self, 400, context)
    }

    fn ok_or_unauthorized(self, context: &'static str) -> (r: Result<T, StatusError>) {
        ok_or_status(self, 401, context)
    }

    fn ok_or_payment_required(self, context: &'static str) -> (r: Result<T, StatusError>) {
        ok_or_status(self, 402, context)
    }

    fn ok_or_forbidden(self, context: &'static str) -> (r: Result<T, StatusError>) {
        ok_or_status(self, 403, context)
    }

    fn ok_or_not_found(self, context: &'static str) -> (r: Result<T, StatusError>) {
        ok_or_status(self, 404, context)
    }

    fn ok_or_method_not_allowed(self, context: &'static str) -> (r: Result<T, StatusError>) {
        ok_or_status(self, 405, context)
    }

    fn ok_or_not_acceptable(self, context: &'static str) -> (r: Result<T, StatusError>) {
        ok_or_status(self, 406, context)
    }

    fn ok_or_proxy_authentication_required(self, context: &'static str) -> (r: Result<T, StatusError>) {
        ok_or_status(self, 407, context)
    }

    fn ok_or_request_timeout(self, context: &'static str) -> (r: Result<T, StatusError>) {
        ok_or_status(self, 408, context)
    }

    fn ok_or_conflict(self, context: &'static str) -> (r: Result<T, StatusError>) {
        ok_or_status(self, 409, context)
    }

    fn ok_or_gone(self, context: &'static str) -> (r: Result<T, StatusError>) {
        ok_or_status(self, 410, context)
    }

    fn ok_or_length_required(self, context: &'static str) -> (r: Result<T, StatusError>) {
        ok_or_status(self, 411, context)
    }

    fn ok_or_precondition_failed(self, context: &'static str) -> (r: Result<T, StatusError>) {
        ok_or_status(self, 412, context)
    }

    fn ok_or_payload_too_large(self, context: &'static str) -> (r: Result<T, StatusError>) {
        ok_or_status(self, 413, context)
    }

    fn ok_or_uri_too_long(self, context: &'static str) -> (r: Result<T, StatusError>) {
        ok_or_status(self, 414, context)
    }

    fn ok_or_unsupported_media_type(self, context: &'static str) -> (r: Result<T, StatusError>) {
        ok_or_status(self, 415, context)
    }

    fn ok_or_range_not_satisfiable(self, context: &'static str) -> (r: Result<T, StatusError>) {
        ok_or_status(self, 416, context)
    }

    fn ok_or_expectation_failed(self, context: &'static str) -> (r: Result<T, StatusError>) {
        ok_or_status(self, 417, context)
    }

    fn ok_or_im_a_teapot(self, context: &'static str) -> (r: Result<T, StatusError>) {
        ok_or_status(self, 418, context)
    }

    fn ok_or_misdirected_request(self, context: &'static str) -> (r: Result<T, StatusError>) {
        ok_or_status(self, 421, context)
    }

    fn ok_or_unprocessable_entity(self, context: &'static str) -> (r: Result<T, StatusError>) {
        ok_or_status(self, 422, context)
    }

    fn ok_or_locked(self, context: &'static str) -> (r: Result<T, StatusError>) {
        ok_or_status(self, 423, context)
    }

    fn ok_or_failed_dependency(self, context: &'static str) -> (r: Result<T, StatusError>) {
        ok_or_status(self, 424, context)
    }

    fn ok_or_upgrade_required(self, context: &'static str) -> (r: Result<T, StatusError>) {
        ok_or_status(self, 426, context)
    }

    fn ok_or_precondition_required(self, context: &'static str) -> (r: Result<T, StatusError>) {
        ok_or_status(self, 428, context)
    }

    fn ok_or_too_many_requests(self, context: &'static str) -> (r: Result<T, StatusError>) {
        ok_or_status(self, 429, context)
    }

    fn ok_or_request_header_fields_too_large(self, context: &'static str) -> (r: Result<T, StatusError>) {
        ok_or_status(self, 431, context)
    }

    fn ok_or_unavailable_for_legal_reasons(self, context: &'static str) -> (r: Result<T, StatusError>) {
        ok_or_status(self, 451, context)
    }

    fn ok_or_internal_server_error(self, context: &'static str) -> (r: Result<T, StatusError>) {
        ok_or_status(self, 500, context)
    }

    fn ok_or_not_implemented(self, context: &'static str) -> (r: Result<T, StatusError>) {
        ok_or_status(self, 501, context)
    }

    fn ok_or_bad_gateway(self, context: &'static str) -> (r: Result<T, StatusError>) {
        ok_or_status(self, 502, context)
    }

    fn ok_or_service_unavailable(self, context: &'static str) -> (r: Result<T, StatusError>) {
        ok_or_status(self, 503, context)
    }

    fn ok_or_gateway_timeout(self, context: &'static str) -> (r: Result<T, StatusError>) {
        ok_or_status(self, 504, context)
    }

    fn ok_or_http_version_not_supported(self, context: &'static str) -> (r: Result<T, StatusError>) {
        ok_or_status(self, 505, context)
    }

    fn ok_or_variant_also_negotiates(self, context: &'static str) -> (r: Result<T, StatusError>) {
        ok_or_status(self, 506, context)
    }

    fn ok_or_insufficient_storage(self, context: &'static str) -> (r: Result<T, StatusError>) {
        ok_or_status(self, 507, context)
    }

    fn ok_or_loop_detected(self, context: &'static str) -> (r: Result<T, StatusError>) {
        ok_or_status(self, 508, context)
    }

    fn ok_or_not_extended(self, context: &'static str) -> (r: Result<T, StatusError>) {
        ok_or_status(self, 510, context)
    }

    fn ok_or_network_authentication_required(self, context: &'static str) -> (r: Result<T, StatusError>) {
        ok_or_status(self, 511, context)
    }
}

} // verus!
