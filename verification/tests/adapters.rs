use http_error::{BaseError, HttpError, OptionExt, ResultExt, StatusCode};

fn render_reason<E: HttpError>(e: &E) -> String {
    let mut out = String::new();
    e.reason(&mut out);
    out
}

#[test]
fn scenario_missing_user() {
    let e = http_error::error::not_found("user not found");
    assert_eq!(e.status_code().as_u16(), 404);
    assert_eq!(render_reason(&e), "Not Found");
    assert_eq!(e.message(), "user not found");
}

#[test]
fn scenario_tagged_timeout() {
    let timeout = http_error::error::request_timeout("operation timed out");
    let failed: Result<(), _> = Err(timeout);
    let e = failed.too_many_requests().expect_err("stays an error");
    assert_eq!(e.status_code().as_u16(), 429);
    assert_eq!(e.message(), "operation timed out");
    assert_eq!(e.source_message(), Some(String::from("operation timed out")));
}

#[test]
fn scenario_teapot_reason() {
    let e = http_error::error::im_a_teapot("the kettle is busy");
    let adapter = http_error::Reason(e);
    assert_eq!(adapter.render(), "I'm a teapot");
    assert_eq!(adapter.0.message(), "the kettle is busy");
}

#[test]
fn option_ext_passes_a_present_value_through() {
    let present: Option<u64> = Some(7);
    assert_eq!(present.ok_or_bad_request("absent").expect("present"), 7);
}

#[test]
fn option_ext_tags_a_missing_value() {
    let absent: Option<u64> = None;
    let e = absent.ok_or_not_found("row missing").expect_err("missing");
    assert_eq!(e.status_code().as_u16(), 404);
    assert_eq!(e.message(), "row missing");
    assert!(e.source_message().is_none());
}

#[test]
fn option_ext_covers_the_extreme_codes() {
    let absent: Option<u8> = None;
    let low = absent.ok_or_bad_request("x").expect_err("missing");
    assert_eq!(low.status_code().as_u16(), 400);
    let high = absent
        .ok_or_network_authentication_required("x")
        .expect_err("missing");
    assert_eq!(high.status_code().as_u16(), 511);
}

#[test]
fn ok_or_status_is_the_generic_form() {
    let absent: Option<u8> = None;
    let e = http_error::option_ext::ok_or_status(absent, 503, "backend down").expect_err("missing");
    assert_eq!(e.status_code().as_u16(), 503);
    assert_eq!(render_reason(&e), "Service Unavailable");
}

#[test]
fn result_ext_passes_a_success_through() {
    let fine: Result<u64, http_error::option_ext::StatusError> = Ok(3);
    let tagged = fine.internal_server_error();
    assert_eq!(tagged.expect("still ok"), 3);
}

#[test]
fn result_ext_tags_a_failure() {
    let inner = http_error::error::request_timeout("upstream silent");
    let failed: Result<u64, _> = Err(inner);
    let e = failed.bad_gateway().expect_err("stays an error");
    assert_eq!(e.status_code().as_u16(), 502);
    assert_eq!(render_reason(&e), "Bad Gateway");
    assert_eq!(e.message(), "upstream silent");
}

#[test]
fn tag_err_is_the_generic_form() {
    let inner = http_error::error::conflict("busy row");
    let failed: Result<(), _> = Err(inner);
    let e = http_error::result_ext::tag_err(failed, 409).expect_err("stays an error");
    assert_eq!(e.status_code().as_u16(), 409);
    let back = e.into_inner();
    assert_eq!(back.message(), "busy row");
}

#[test]
fn with_status_is_the_generic_constructor() {
    let e = http_error::error::with_status(451, "court order");
    assert_eq!(e.status_code().as_u16(), 451);
    assert_eq!(render_reason(&e), "Unavailable For Legal Reasons");
    assert_eq!(e.message(), "court order");
}

#[test]
fn every_constructor_matches_its_code() {
    let cases: [(http_error::option_ext::StatusError, u16); 8] = [
        (http_error::error::bad_request("c"), 400),
        (http_error::error::unauthorized("c"), 401),
        (http_error::error::payment_required("c"), 402),
        (http_error::error::misdirected_request("c"), 421),
        (http_error::error::unprocessable_entity("c"), 422),
        (http_error::error::internal_server_error("c"), 500),
        (http_error::error::loop_detected("c"), 508),
        (http_error::error::not_extended("c"), 510),
    ];
    for (e, code) in cases {
        assert_eq!(e.status_code().as_u16(), code);
    }
}

#[test]
fn tagging_keeps_the_reason_of_the_tag_not_the_inner_error() {
    let inner = http_error::error::not_found("missing");
    let failed: Result<(), _> = Err(inner);
    let e = failed.service_unavailable().expect_err("stays an error");
    assert_eq!(render_reason(&e), "Service Unavailable");
    assert_ne!(render_reason(&e), "Not Found");
}

#[test]
fn status_error_new_takes_any_standard_code() {
    let status = StatusCode::from_u16(299).expect("in range");
    let e = http_error::option_ext::StatusError::new(status, "odd code");
    assert_eq!(e.status_code().as_u16(), 299);
    assert_eq!(render_reason(&e), "");
}
