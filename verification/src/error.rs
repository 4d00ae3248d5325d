use vstd::prelude::*;

use crate::option_ext::StatusError;
use crate::status::StatusCode;

verus! {

/// What every constructor here returns: a `StatusError` carrying exactly the
/// given status code and context.
pub open spec fn tagged_spec(e: StatusError, code: u16, context: Seq<char>) -> bool {
    e.spec_status().spec_code() == code && e.spec_context() == context
}

/// The one generic implementation behind every per-status constructor.
pub fn with_status(code: u16, context: &'static str) -> (r: StatusError)
    requires
        100 <= code < 1000,
    ensures
        tagged_spec(r, code, context@),
{
    StatusError::new(StatusCode::from_u16(code).unwrap(), context)
}

/// 400 Bad Request
pub fn bad_request(context: &'static str) -> (r: StatusError)
    ensures
        tagged_spec(r, 400, context@),
{
    with_status(400, context)
}

/// 401 Unauthorized
pub fn unauthorized(context: &'static str) -> (r: StatusError)
    ensures
        tagged_spec(r, 401, context@),
{
    with_status(401, context)
}

/// 402 Payment Required
pub fn payment_required(context: &'static str) -> (r: StatusError)
    ensures
        tagged_spec(r, 402, context@),
{
    with_status(402, context)
}

/// 403 Forbidden
pub fn forbidden(context: &'static str) -> (r: StatusError)
    ensures
        tagged_spec(r, 403, context@),
{
    with_status(403, context)
}

/// 404 Not Found
pub fn not_found(context: &'static str) -> (r: StatusError)
    ensures
        tagged_spec(r, 404, context@),
{
    with_status(404, context)
}

/// 405 Method Not Allowed
pub fn method_not_allowed(context: &'static str) -> (r: StatusError)
    ensures
        tagged_spec(r, 405, context@),
{
    with_status(405, context)
}

/// 406 Not Acceptable
pub fn not_acceptable(context: &'static str) -> (r: StatusError)
    ensures
        tagged_spec(r, 406, context@),
{
    with_status(406, context)
}

/// 407 Proxy Authentication Required
pub fn proxy_authentication_required(context: &'static str) -> (r: StatusError)
    ensures
        tagged_spec(r, 407, context@),
{
    with_status(407, context)
}

/// 408 Request Timeout
pub fn request_timeout(context: &'static str) -> (r: StatusError)
    ensures
        tagged_spec(r, 408, context@),
{
    with_status(408, context)
}

/// 409 Conflict
pub fn conflict(context: &'static str) -> (r: StatusError)
    ensures
        tagged_spec(r, 409, context@),
{
    with_status(409, context)
}

/// 410 Gone
pub fn gone(context: &'static str) -> (r: StatusError)
    ensures
        tagged_spec(r, 410, context@),
{
    with_status(410, context)
}

/// 411 Length Required
pub fn length_required(context: &'static str) -> (r: StatusError)
    ensures
        tagged_spec(r, 411, context@),
{
    with_status(411, context)
}

/// 412 Precondition Failed
pub fn precondition_failed(context: &'static str) -> (r: StatusError)
    ensures
        tagged_spec(r, 412, context@),
{
    with_status(412, context)
}

/// 413 Payload Too Large
pub fn payload_too_large(context: &'static str) -> (r: StatusError)
    ensures
        tagged_spec(r, 413, context@),
{
    with_status(413, context)
}

/// 414 URI Too Long
pub fn uri_too_long(context: &'static str) -> (r: StatusError)
    ensures
        tagged_spec(r, 414, context@),
{
    with_status(414, context)
}

/// 415 Unsupported Media Type
pub fn unsupported_media_type(context: &'static str) -> (r: StatusError)
    ensures
        tagged_spec(r, 415, context@),
{
    with_status(415, context)
}

/// 416 Range Not Satisfiable
pub fn range_not_satisfiable(context: &'static str) -> (r: StatusError)
    ensures
        tagged_spec(r, 416, context@),
{
    with_status(416, context)
}

/// 417 Expectation Failed
pub fn expectation_failed(context: &'static str) -> (r: StatusError)
    ensures
        tagged_spec(r, 417, context@),
{
    with_status(417, context)
}

/// 418 I'm a teapot
pub fn im_a_teapot(context: &'static str) -> (r: StatusError)
    ensures
        tagged_spec(r, 418, context@),
{
    with_status(418, context)
}

/// 421 Misdirected Request
pub fn misdirected_request(context: &'static str) -> (r: StatusError)
    ensures
        tagged_spec(r, 421, context@),
{
    with_status(421, context)
}

/// 422 Unprocessable Entity
pub fn unprocessable_entity(context: &'static str) -> (r: StatusError)
    ensures
        tagged_spec(r, 422, context@),
{
    with_status(422, context)
}

/// 423 Locked
pub fn locked(context: &'static str) -> (r: StatusError)
    ensures
        tagged_spec(r, 423, context@),
{
    with_status(423, context)
}

/// 424 Failed Dependency
pub fn failed_dependency(context: &'static str) -> (r: StatusError)
    ensures
        tagged_spec(r, 424, context@),
{
    with_status(424, context)
}

/// 426 Upgrade Required
pub fn upgrade_required(context: &'static str) -> (r: StatusError)
    ensures
        tagged_spec(r, 426, context@),
{
    with_status(426, context)
}

/// 428 Precondition Required
pub fn precondition_required(context: &'static str) -> (r: StatusError)
    ensures
        tagged_spec(r, 428, context@),
{
    with_status(428, context)
}

/// 429 Too Many Requests
pub fn too_many_requests(context: &'static str) -> (r: StatusError)
    ensures
        tagged_spec(r, 429, context@),
{
    with_status(429, context)
}

/// 431 Request Header Fields Too Large
pub fn request_header_fields_too_large(context: &'static str) -> (r: StatusError)
    ensures
        tagged_spec(r, 431, context@),
{
    with_status(431, context)
}

/// 451 Unavailable For Legal Reasons
pub fn unavailable_for_legal_reasons(context: &'static str) -> (r: StatusError)
    ensures
        tagged_spec(r, 451, context@),
{
    with_status(451, context)
}

/// 500 Internal Server Error
pub fn internal_server_error(context: &'static str) -> (r: StatusError)
    ensures
        tagged_spec(r, 500, context@),
{
    with_status(500, context)
}

/// 501 Not Implemented
pub fn not_implemented(context: &'static str) -> (r: StatusError)
    ensures
        tagged_spec(r, 501, context@),
{
    with_status(501, context)
}

/// 502 Bad Gateway
pub fn bad_gateway(context: &'static str) -> (r: StatusError)
    ensures
        tagged_spec(r, 502, context@),
{
    with_status(502, context)
}

/// 503 Service Unavailable
pub fn service_unavailable(context: &'static str) -> (r: StatusError)
    ensures
        tagged_spec(r, 503, context@),
{
    with_status(503, context)
}

/// 504 Gateway Timeout
pub fn gateway_timeout(context: &'static str) -> (r: StatusError)
    ensures
        tagged_spec(r, 504, context@),
{
    with_status(504, context)
}

/// 505 HTTP Version Not Supported
pub fn http_version_not_supported(context: &'static str) -> (r: StatusError)
    ensures
        tagged_spec(r, 505, context@),
{
    with_status(505, context)
}

/// 506 Variant Also Negotiates
pub fn variant_also_negotiates(context: &'static str) -> (r: StatusError)
    ensures
        tagged_spec(r, 506, context@),
{
    with_status(506, context)
}

/// 507 Insufficient Storage
pub fn insufficient_storage(context: &'static str) -> (r: StatusError)
    ensures
        tagged_spec(r, 507, context@),
{
    with_status(507, context)
}

/// 508 Loop Detected
pub fn loop_detected(context: &'static str) -> (r: StatusError)
    ensures
        tagged_spec(r, 508, context@),
{
    with_status(508, context)
}

/// 510 Not Extended
pub fn not_extended(context: &'static str) -> (r: StatusError)
    ensures
        tagged_spec(r, 510, context@),
{
    with_status(510, context)
}

/// 511 Network Authentication Required
pub fn network_authentication_required(context: &'static str) -> (r: StatusError)
    ensures
        tagged_spec(r, 511, context@),
{
    with_status(511, context)
}
} // verus!
