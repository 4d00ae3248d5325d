use http_error::reason::CustomError;
use http_error::{BaseError, HttpError, Reason, StatusCode};

fn render_reason<E: HttpError>(e: &E) -> String {
    let mut out = String::new();
    e.reason(&mut out);
    out
}

#[test]
fn status_code_is_pure_across_calls() {
    let e = http_error::error::not_found("user not found");
    let first = e.status_code();
    let second = e.status_code();
    assert_eq!(first.as_u16(), 404);
    assert_eq!(second.as_u16(), 404);
    assert_eq!(first, second);
}

#[test]
fn default_reason_renders_canonical_phrase_404() {
    let e = http_error::error::not_found("whatever text");
    assert_eq!(render_reason(&e), "Not Found");
}

#[test]
fn default_reason_renders_canonical_phrase_429() {
    let e = http_error::error::too_many_requests("busy");
    assert_eq!(render_reason(&e), "Too Many Requests");
}

#[test]
fn default_reason_is_empty_for_unregistered_code() {
    let status = StatusCode::from_u16(420).expect("in range");
    let e = http_error::option_ext::StatusError::new(status, "ctx");
    assert_eq!(render_reason(&e), "");
}

#[test]
fn canonical_reason_lookup_matches_table() {
    let teapot = StatusCode::from_u16(418).expect("in range");
    assert_eq!(teapot.canonical_reason(), Some("I'm a teapot"));
    let ok = StatusCode::from_u16(200).expect("in range");
    assert_eq!(ok.canonical_reason(), Some("OK"));
    let unregistered = StatusCode::from_u16(599).expect("in range");
    assert_eq!(unregistered.canonical_reason(), None);
}

#[test]
fn status_code_rejects_values_outside_standard_range() {
    assert!(StatusCode::from_u16(99).is_none());
    assert!(StatusCode::from_u16(1000).is_none());
    assert!(StatusCode::from_u16(0).is_none());
    assert_eq!(StatusCode::from_u16(100).expect("in range").as_u16(), 100);
    assert_eq!(StatusCode::from_u16(999).expect("in range").as_u16(), 999);
}

#[test]
fn overridden_reason_ignores_canonical_phrase() {
    let status = StatusCode::from_u16(404).expect("in range");
    let e = CustomError::new(status, "lookup failed in backing store", "user vanished");
    assert_eq!(e.status_code().as_u16(), 404);
    assert_eq!(render_reason(&e), "user vanished");
    assert_ne!(render_reason(&e), "Not Found");
    assert_eq!(e.message(), "lookup failed in backing store");
}

#[test]
fn reason_and_message_differ_for_plain_errors() {
    let e = http_error::error::forbidden("token expired");
    assert_eq!(e.message(), "token expired");
    assert_eq!(render_reason(&e), "Forbidden");
}

#[test]
fn headers_default_to_none() {
    let e = http_error::error::bad_request("no body");
    assert!(e.headers().is_none());
}

#[test]
fn span_is_captured_by_status_error_and_absent_elsewhere() {
    let e = http_error::error::gone("deleted");
    assert!(e.span().is_some());
    let status = StatusCode::from_u16(410).expect("in range");
    let c = CustomError::new(status, "m", "r");
    assert!(c.span().is_none());
}

#[test]
fn reason_adapter_renders_only_the_reason() {
    let e = http_error::error::unauthorized("missing cookie");
    let adapter = Reason(e);
    assert_eq!(adapter.render(), "Unauthorized");
}

#[test]
fn reason_adapter_works_over_a_plain_box() {
    let e = http_error::error::method_not_allowed("verb not supported");
    let adapter = Reason(Box::new(e));
    assert_eq!(adapter.render(), "Method Not Allowed");
}

#[test]
fn reason_appends_to_existing_text() {
    let e = http_error::error::conflict("double write");
    let mut out = String::from("status: ");
    e.reason(&mut out);
    assert_eq!(out, "status: Conflict");
}
