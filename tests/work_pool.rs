use website_checker::pool::{ConfigError, PoolConfig, Take, WorkPool};
use website_checker::report::{emit_report, Elapsed};
use website_checker::retry::{RetryAction, RetryState};

/// Runs the pool with `workers` simulated workers taking turns round-robin;
/// each check's result comes from `check`.
fn simulate(urls: &[&str], workers: usize, check: fn(&str) -> Result<u16, String>) -> Vec<(String, Result<u16, String>)> {
    let mut p = WorkPool::new();
    for u in urls {
        assert!(p.enqueue(u.to_string()));
    }
    p.close();
    let mut held: Vec<Option<(usize, String)>> = vec![None; workers];
    let mut active = workers;
    let mut alive = vec![true; workers];
    while active > 0 {
        for w in 0..workers {
            if !alive[w] {
                continue;
            }
            if let Some((slot, url)) = held[w].take() {
                assert!(p.complete(slot, check(&url), Elapsed::zero(), "t".to_string()));
                continue;
            }
            match p.take() {
                Take::Target(slot, url) => held[w] = Some((slot, url)),
                Take::Wait => {}
                Take::Closed => {
                    alive[w] = false;
                    active -= 1;
                }
            }
        }
    }
    assert!(p.is_finished());
    let rs = emit_report(&p.into_results());
    rs.into_iter()
        .map(|r| (r.url, match (r.status_code, r.error) {
            (Some(c), None) => Ok(c),
            (None, Some(e)) => Err(e),
            _ => panic!("inconsistent record"),
        }))
        .collect()
}

fn probe(url: &str) -> Result<u16, String> {
    if url.contains("fail") {
        Err("Request error: timed out".to_string())
    } else {
        Ok(200)
    }
}

#[test]
fn one_record_per_target_for_any_worker_count() {
    let urls = ["http://a.test", "http://fail.test", "http://a.test", "http://b.test"];
    for w in 1..=urls.len() + 5 {
        let out = simulate(&urls, w, probe);
        assert_eq!(out.len(), urls.len());
        for (i, (u, _)) in out.iter().enumerate() {
            assert_eq!(u, urls[i]);
        }
    }
}

#[test]
fn one_and_eight_workers_agree() {
    let urls = ["http://ok.test", "http://fail.test", "http://x.test"];
    let mut a = simulate(&urls, 1, probe);
    let mut b = simulate(&urls, 8, probe);
    a.sort();
    b.sort();
    assert_eq!(a, b);
}

#[test]
fn ok_and_fail_example() {
    let out = simulate(&["http://ok.test", "http://fail.test"], 2, probe);
    assert_eq!(out.len(), 2);
    assert_eq!(out[0], ("http://ok.test".to_string(), Ok(200)));
    assert_eq!(out[1], ("http://fail.test".to_string(), Err("Request error: timed out".to_string())));
}

#[test]
fn empty_input_finishes_at_once() {
    let mut p = WorkPool::new();
    p.close();
    assert!(matches!(p.take(), Take::Closed));
    assert!(p.is_finished());
    assert!(p.into_results().is_empty());
}

#[test]
fn completion_is_refused_twice_or_before_handout() {
    let mut p = WorkPool::new();
    assert!(p.enqueue("http://a.test".to_string()));
    assert!(!p.complete(0, Ok(200), Elapsed::zero(), "t".to_string()));
    assert!(matches!(p.take(), Take::Target(0, _)));
    assert!(p.complete(0, Ok(200), Elapsed::zero(), "t".to_string()));
    assert!(!p.complete(0, Ok(201), Elapsed::zero(), "t".to_string()));
    assert!(!p.is_finished());
    assert!(matches!(p.take(), Take::Wait));
    p.close();
    assert!(!p.enqueue("http://b.test".to_string()));
    assert!(p.is_finished());
    let r = p.into_results();
    assert_eq!(r[0].result, Ok(200));
}

#[test]
fn config_validation() {
    assert!(matches!(PoolConfig::new(0, 5, 0), Err(ConfigError::NoWorkers)));
    assert!(matches!(PoolConfig::new(2, 0, 0), Err(ConfigError::ZeroTimeout)));
    let c = PoolConfig::new(8, 5, 1).ok().unwrap();
    assert_eq!((c.worker_count, c.timeout_secs, c.retries), (8, 5, 1));
}

#[test]
fn failing_target_with_one_retry_is_tried_twice() {
    let mut st = RetryState::new(1);
    assert!(matches!(st.record(Err("Request error: timed out".to_string())), RetryAction::Backoff));
    match st.record(Err("Request error: timed out".to_string())) {
        RetryAction::Finish(r) => assert_eq!(r, Err("Request error: timed out".to_string())),
        RetryAction::Backoff => panic!("budget exceeded"),
    }
    assert_eq!(st.attempts, 2);
    let mut ok = RetryState::new(1);
    assert!(matches!(ok.record(Ok(200)), RetryAction::Finish(Ok(200))));
    assert_eq!(ok.attempts, 1);
}
