use website_checker::retry::{RetryAction, RetryState, BACKOFF_MS};

fn run(probes: &[Result<u16, String>], retries: u32) -> (u64, Result<u16, String>) {
    let mut st = RetryState::new(retries);
    let mut made: u64 = 0;
    for p in probes {
        made += 1;
        match st.record(p.clone()) {
            RetryAction::Backoff => continue,
            RetryAction::Finish(r) => return (made, r),
        }
    }
    panic!("ran out of probes");
}

#[test]
fn always_failing_probe_makes_retries_plus_one_attempts() {
    let probes: Vec<Result<u16, String>> = (0..10).map(|i| Err(format!("timeout {}", i))).collect();
    for r in 0..5u32 {
        let (made, res) = run(&probes, r);
        assert_eq!(made, r as u64 + 1);
        assert_eq!(res, Err(format!("timeout {}", r)));
    }
}

#[test]
fn zero_retries_means_one_attempt() {
    let (made, res) = run(&[Err("refused".to_string())], 0);
    assert_eq!(made, 1);
    assert_eq!(res, Err("refused".to_string()));
}

#[test]
fn stops_at_first_success() {
    let probes = vec![Err("a".to_string()), Err("b".to_string()), Ok(503), Ok(200)];
    let (made, res) = run(&probes, 5);
    assert_eq!(made, 3);
    assert_eq!(res, Ok(503));
}

#[test]
fn error_status_counts_as_reached() {
    let (made, res) = run(&[Ok(404)], 3);
    assert_eq!(made, 1);
    assert_eq!(res, Ok(404));
}

#[test]
fn counter_tracks_attempts() {
    let mut st = RetryState::new(1);
    assert!(matches!(st.record(Err("x".to_string())), RetryAction::Backoff));
    assert_eq!(st.attempts, 1);
    assert!(!st.finished);
    assert!(matches!(st.record(Err("y".to_string())), RetryAction::Finish(Err(_))));
    assert_eq!(st.attempts, 2);
    assert!(st.finished);
    assert_eq!(BACKOFF_MS, 100);
}
