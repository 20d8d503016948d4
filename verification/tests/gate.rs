//! The shared gate exercised through real locks and the real clock.

use proxy_fetcher::constants::MIN_INTERVAL_MS;
use proxy_fetcher::gate::required_wait_ms;
use proxy_fetcher::fetcher::Session;

#[test]
fn fresh_gate_reads_unmarked() {
    let session = Session::new();
    let fetcher = session.fetcher();
    let gate = fetcher.gate();
    let guard = gate.acquire();
    assert!(guard.elapsed_ms().is_none());
}

#[test]
fn marked_gate_reads_elapsed_time() {
    let session = Session::new();
    let fetcher = session.fetcher();
    let gate = fetcher.gate();
    {
        let mut guard = gate.acquire();
        guard.mark_now();
        assert!(guard.elapsed_ms().is_some());
    }
    // Reacquiring after release still sees the mark.
    let guard = gate.acquire();
    let elapsed = guard.elapsed_ms().expect("the shared gate was marked");
    assert!(elapsed < u128::from(MIN_INTERVAL_MS));
}

#[test]
fn gate_is_shared_across_fetchers_of_one_session() {
    let session = Session::new();
    let fetcher1 = session.fetcher();
    let fetcher2 = session.fetcher();
    {
        let gate1 = fetcher1.gate();
        let mut guard = gate1.acquire();
        guard.mark_now();
    }
    let gate2 = fetcher2.gate();
    let guard = gate2.acquire();
    assert!(guard.elapsed_ms().is_some());
}

#[test]
fn sessions_are_independent_timing_domains() {
    let session1 = Session::new();
    let session2 = Session::new();
    {
        let gate1 = session1.fetcher().gate();
        let mut guard = gate1.acquire();
        guard.mark_now();
    }
    let gate2 = session2.fetcher().gate();
    let guard = gate2.acquire();
    assert!(guard.elapsed_ms().is_none());
}

#[test]
fn required_wait_stretches_to_the_interval() {
    assert_eq!(required_wait_ms(None, MIN_INTERVAL_MS), 0);
    assert_eq!(required_wait_ms(Some(0), MIN_INTERVAL_MS), MIN_INTERVAL_MS);
    assert_eq!(required_wait_ms(Some(400), MIN_INTERVAL_MS), MIN_INTERVAL_MS - 400);
    assert_eq!(required_wait_ms(Some(u128::from(MIN_INTERVAL_MS)), MIN_INTERVAL_MS), 0);
    assert_eq!(required_wait_ms(Some(u128::MAX), MIN_INTERVAL_MS), 0);
    assert_eq!(required_wait_ms(Some(9), 10), 1);
}
