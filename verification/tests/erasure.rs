use http_error::any_http_error::ErasedError;
use http_error::{AnyHttpError, BaseError, HttpError, Reason, ResultExt};

fn render_reason<E: HttpError>(e: &E) -> String {
    let mut out = String::new();
    e.reason(&mut out);
    out
}

fn across_a_boundary(e: AnyHttpError) -> AnyHttpError {
    e
}

#[test]
fn scenario_boxed_unavailable_service() {
    let e = http_error::error::service_unavailable("downstream offline");
    let boxed = AnyHttpError::new(e);
    let boxed = across_a_boundary(boxed);
    let raw: Box<ErasedError> = boxed.into_inner();
    assert_eq!(raw.status_code().as_u16(), 503);
    assert_eq!(render_reason(&raw), "Service Unavailable");
}

#[test]
fn erasure_round_trip_keeps_every_observation() {
    let e = http_error::error::precondition_failed("stale etag");
    let direct_status = e.status_code().as_u16();
    let direct_reason = render_reason(&e);
    let direct_message = e.message();
    let boxed = AnyHttpError::new(e);
    assert_eq!(boxed.status_code().as_u16(), direct_status);
    assert_eq!(render_reason(&boxed), direct_reason);
    assert_eq!(boxed.message(), direct_message);
    assert!(boxed.headers().is_none());
    assert!(boxed.source_message().is_none());
    assert!(boxed.span().is_some());
}

#[test]
fn plain_box_delegates_every_operation() {
    let e = http_error::error::payload_too_large("4 GiB upload");
    let direct_status = e.status_code().as_u16();
    let direct_reason = render_reason(&e);
    let direct_message = e.message();
    let boxed = Box::new(e);
    assert_eq!(boxed.status_code().as_u16(), direct_status);
    assert_eq!(render_reason(&boxed), direct_reason);
    assert_eq!(boxed.message(), direct_message);
    assert!(boxed.span().is_some());
}

#[test]
fn erasure_preserves_the_causal_chain() {
    let inner = http_error::error::gateway_timeout("no reply in 30s");
    let failed: Result<(), _> = Err(inner);
    let tagged = failed.bad_gateway().expect_err("stays an error");
    assert_eq!(tagged.source_message(), Some(String::from("no reply in 30s")));
    let boxed = AnyHttpError::new(tagged);
    assert_eq!(boxed.source_message(), Some(String::from("no reply in 30s")));
}

#[test]
fn erased_record_can_be_reboxed() {
    let e = http_error::error::locked("row lock held");
    let boxed = AnyHttpError::new(e);
    let raw = boxed.into_inner();
    let again = AnyHttpError::from_inner(raw);
    assert_eq!(again.status_code().as_u16(), 423);
    assert_eq!(again.message(), "row lock held");
}

#[test]
fn borrowing_the_record_shows_the_same_error() {
    let e = http_error::error::expectation_failed("bad expect header");
    let boxed = AnyHttpError::new(e);
    let record = boxed.as_inner();
    assert_eq!(record.status_code().as_u16(), 417);
    assert_eq!(record.message(), "bad expect header");
    assert_eq!(boxed.status_code().as_u16(), 417);
}

#[test]
fn reason_adapter_works_over_the_erased_box() {
    let e = http_error::error::too_many_requests("burst of 10k calls");
    let boxed = AnyHttpError::new(e);
    let adapter = Reason(boxed);
    assert_eq!(adapter.render(), "Too Many Requests");
}

#[test]
fn erased_box_transfers_across_concurrent_contexts() {
    fn requires_send<T: Send + 'static>(value: T) -> T {
        value
    }
    let e = http_error::error::insufficient_storage("disk full");
    let boxed = requires_send(AnyHttpError::new(e));
    assert_eq!(boxed.status_code().as_u16(), 507);
}

#[test]
fn erasing_an_overridden_reason_keeps_the_override() {
    let status = http_error::StatusCode::from_u16(404).expect("in range");
    let custom = http_error::reason::CustomError::new(status, "diagnostic text", "user vanished");
    let boxed = AnyHttpError::new(custom);
    assert_eq!(render_reason(&boxed), "user vanished");
    assert_eq!(boxed.message(), "diagnostic text");
    assert!(boxed.span().is_none());
}
