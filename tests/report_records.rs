use website_checker::report::{
    client_error_message, client_failure_outcome, emit_report, request_error_message,
    to_record, CheckOutcome, Elapsed,
};

fn outcome(url: &str, result: Result<u16, String>, secs: u64, nanos: u32) -> CheckOutcome {
    CheckOutcome {
        url: url.to_string(),
        result,
        elapsed: Elapsed::new(secs, nanos).unwrap(),
        timestamp: "t0".to_string(),
    }
}

#[test]
fn ok_outcome_has_code_and_no_error() {
    let r = to_record(&outcome("http://ok.test", Ok(200), 1, 234_567_891));
    assert_eq!(r.url, "http://ok.test");
    assert_eq!(r.status_code, Some(200));
    assert_eq!(r.error, None);
    assert_eq!(r.response_time_ms, 1234);
    assert_eq!(r.timestamp, "t0");
}

#[test]
fn err_outcome_has_error_and_no_code() {
    let r = to_record(&outcome("http://fail.test", Err("Request error: timed out".to_string()), 0, 999_999));
    assert_eq!(r.status_code, None);
    assert_eq!(r.error.as_deref(), Some("Request error: timed out"));
    assert_eq!(r.response_time_ms, 0);
}

#[test]
fn report_keeps_order_and_duplicates() {
    let outs = vec![
        outcome("http://a.test", Ok(500), 0, 5_000_000),
        outcome("http://a.test", Err("boom".to_string()), 2, 0),
    ];
    let rs = emit_report(&outs);
    assert_eq!(rs.len(), 2);
    assert_eq!(rs[0].url, "http://a.test");
    assert_eq!(rs[0].status_code, Some(500));
    assert_eq!(rs[0].response_time_ms, 5);
    assert_eq!(rs[1].error.as_deref(), Some("boom"));
    assert_eq!(rs[1].response_time_ms, 2000);
    for r in &rs {
        assert!(r.status_code.is_some() != r.error.is_some());
    }
}

#[test]
fn empty_report() {
    assert!(emit_report(&Vec::new()).is_empty());
}

#[test]
fn elapsed_rejects_excess_nanos() {
    assert!(Elapsed::new(0, 1_000_000_000).is_none());
    assert_eq!(Elapsed::zero().as_millis(), 0);
    assert_eq!(Elapsed::new(u64::MAX, 999_999_999).unwrap().as_millis(), u64::MAX as u128 * 1000 + 999);
}

#[test]
fn error_messages() {
    assert_eq!(request_error_message("timed out"), "Request error: timed out");
    assert_eq!(client_error_message("bad"), "Failed to create HTTP client: bad");
    let o = client_failure_outcome("http://x.test".to_string(), "bad", "now".to_string());
    assert_eq!(o.result, Err("Failed to create HTTP client: bad".to_string()));
    assert_eq!(o.elapsed.as_millis(), 0);
    assert_eq!(o.url, "http://x.test");
}
