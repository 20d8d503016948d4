//! The coordinator driven as the application drives it, with the remote
//! boundary mocked: every fetch yields exactly `request_size` records, and
//! the shared gate reading is supplied by the test.

use proxy_fetcher::constants::MIN_INTERVAL_MS;
use proxy_fetcher::fetcher::{Fetcher, GrowthAction, Session};
use proxy_fetcher::opts::{Opts, Tier};
use proxy_fetcher::types::{Countries, Level, Protocol, Proxy, Supports};

const FREE_LIMIT: usize = 5;
const PREMIUM_LIMIT: usize = 20;

fn sample_proxy(port: u16) -> Proxy {
    Proxy {
        ip: [1, 2, 3, 4],
        port,
        country: "CA".to_string(),
        last_checked: 1577840461,
        level: Level::Anonymous,
        protocol: Protocol::Http,
        time_to_connect: 21,
        supports: Supports::default(),
    }
}

fn batch(n: usize, first_port: u16) -> Vec<Proxy> {
    let mut records = Vec::new();
    for i in 0..n {
        records.push(sample_proxy(first_port + i as u16));
    }
    records
}

/// A mock of the session-wide gate state a driver would read: `None` until
/// the first rate-limited fetch, `Some(0)` right after one.
struct MockGate {
    marked: bool,
}

/// Runs the growth loop as the application would, with every remote call
/// yielding exactly `request_size` records. Returns the fulfilled records,
/// how many remote calls were issued, and the wait each rate-limited call
/// was told to take first.
fn drive(fetcher: &mut Fetcher, amount: usize, gate: &mut MockGate) -> (Vec<Proxy>, usize, Vec<u64>) {
    if let Some(records) = fetcher.fulfill_from_buffer(amount) {
        return (records, 0, Vec::new());
    }
    let per_call = fetcher.request_size();
    let mut fetches = 0usize;
    let mut waits = Vec::new();
    loop {
        let elapsed = if gate.marked { Some(0u128) } else { None };
        match fetcher.next_action(amount, elapsed) {
            GrowthAction::Finish => break,
            GrowthAction::Fetch => {
                assert_eq!(fetcher.tier(), Tier::Unlimited);
                fetcher.absorb(batch(per_call, 0));
                fetches += 1;
            }
            GrowthAction::WaitThenFetch { wait_ms } => {
                assert_eq!(fetcher.tier(), Tier::RateLimited);
                waits.push(wait_ms);
                fetcher.absorb(batch(per_call, 0));
                fetches += 1;
                gate.marked = true;
            }
        }
    }
    let records = fetcher
        .fulfill_from_buffer(amount)
        .expect("growth finished, so the buffer must satisfy the request");
    (records, fetches, waits)
}

#[test]
fn api_key() {
    let premium_opts = Opts::builder().api_key("<key>".to_string()).build();
    let mut fetcher = Session::new().fetcher_with_opts(premium_opts);
    let mut gate = MockGate { marked: false };

    let (single, _, _) = drive(&mut fetcher, 1, &mut gate);
    let (triple, _, _) = drive(&mut fetcher, 3, &mut gate);
    let the_rest = fetcher.drain();

    assert_eq!(single.len(), 1);
    assert_eq!(triple.len(), 3);
    assert_eq!(PREMIUM_LIMIT, single.len() + triple.len() + the_rest.len());
}

#[test]
fn keyless() {
    let mut fetcher = Session::new().fetcher();
    let mut gate = MockGate { marked: false };

    let (single, _, _) = drive(&mut fetcher, 1, &mut gate);
    let (triple, _, _) = drive(&mut fetcher, 3, &mut gate);
    let the_rest = fetcher.drain();

    assert_eq!(single.len(), 1);
    assert_eq!(triple.len(), 3);
    assert_eq!(FREE_LIMIT, single.len() + triple.len() + the_rest.len());
}

#[test]
fn multiple_requests() {
    for i in 0..=2 * FREE_LIMIT {
        let mut fetcher = Session::new().fetcher();
        let mut gate = MockGate { marked: false };
        let (proxies, _, _) = drive(&mut fetcher, i, &mut gate);
        assert_eq!(proxies.len(), i);
    }
}

#[test]
fn multiple_fetchers() {
    let session = Session::new();
    let mut default = session.fetcher();
    let mut premium =
        session.fetcher_with_opts(Opts::builder().api_key("<key>".to_string()).build());
    let mut codes = Vec::new();
    codes.push("CA".to_string());
    let mut custom = session.fetcher_with_opts(
        Opts::builder()
            .level(Level::Elite)
            .cookies(true)
            .countries(Countries::allow().countries(&codes).build())
            .build(),
    );
    let mut gate = MockGate { marked: false };

    let (single, _, _) = drive(&mut default, 1, &mut gate);
    let (double, _, _) = drive(&mut premium, 2, &mut gate);
    let (triple, _, _) = drive(&mut custom, 3, &mut gate);
    assert_eq!(single.len(), 1);
    assert_eq!(double.len(), 2);
    assert_eq!(triple.len(), 3);
    assert_eq!(default.drain().len(), FREE_LIMIT - single.len());
    assert_eq!(premium.drain().len(), PREMIUM_LIMIT - double.len());
    assert_eq!(custom.drain().len(), FREE_LIMIT - triple.len());
}

#[test]
fn single_fetcher() {
    // Requesting the first FREE_LIMIT records is done in one remote call,
    // with no wait owed on a fresh gate.
    let mut fetcher = Session::new().fetcher();
    let mut gate = MockGate { marked: false };
    let (records, fetches, waits) = drive(&mut fetcher, FREE_LIMIT, &mut gate);
    assert_eq!(records.len(), FREE_LIMIT);
    assert_eq!(fetches, 1);
    assert_eq!(waits, vec![0]);

    // Any more takes another remote call, and now the full interval is owed.
    assert_eq!(
        fetcher.next_action(1, Some(0)),
        GrowthAction::WaitThenFetch { wait_ms: MIN_INTERVAL_MS }
    );
    let (one, fetches, waits) = drive(&mut fetcher, 1, &mut gate);
    assert_eq!(one.len(), 1);
    assert_eq!(fetches, 1);
    assert_eq!(waits, vec![MIN_INTERVAL_MS]);

    // And with records buffered, the next request is served with no remote
    // call and no gate interaction at all.
    let (one, fetches, waits) = drive(&mut fetcher, 1, &mut gate);
    assert_eq!(one.len(), 1);
    assert_eq!(fetches, 0);
    assert!(waits.is_empty());
    assert!(!fetcher.drain().is_empty());
}

#[test]
fn multiple_delays() {
    // Fulfilling four full keyless requests issues four rate-limited remote
    // calls, the first on a fresh gate: three full waits in all. The
    // unlimited fetcher in between owes none.
    let session = Session::new();
    let mut keyless1 = session.fetcher();
    let mut keyless2 = session.fetcher();
    let mut premium =
        session.fetcher_with_opts(Opts::builder().api_key("<key>".to_string()).build());
    let mut gate = MockGate { marked: false };

    let (_, fetches1, waits1) = drive(&mut keyless1, 2 * FREE_LIMIT, &mut gate);
    let (_, fetches_p, waits_p) = drive(&mut premium, 2 * PREMIUM_LIMIT, &mut gate);
    let (_, fetches2, waits2) = drive(&mut keyless2, 2 * FREE_LIMIT, &mut gate);

    assert_eq!(fetches1, 2);
    assert_eq!(fetches_p, 2);
    assert_eq!(fetches2, 2);
    assert!(waits_p.is_empty());
    let total_wait: u64 = waits1.iter().chain(waits2.iter()).sum();
    assert_eq!(total_wait, 3 * MIN_INTERVAL_MS);
}

#[test]
fn fetcher_multiple_fetchers() {
    // Two keyless fetchers sharing a session have their delays coordinated:
    // the second one's first remote call owes the full interval.
    let session = Session::new();
    let mut fetcher1 = session.fetcher();
    let mut fetcher2 = session.fetcher();
    let mut gate = MockGate { marked: false };

    let (_, fetches1, waits1) = drive(&mut fetcher1, 1, &mut gate);
    let (_, fetches2, waits2) = drive(&mut fetcher2, 1, &mut gate);
    assert_eq!(fetches1, 1);
    assert_eq!(fetches2, 1);
    assert_eq!(waits1, vec![0]);
    assert_eq!(waits2, vec![MIN_INTERVAL_MS]);

    // Each now has its own buffered records to pull from with no delay.
    let (_, f1, w1) = drive(&mut fetcher1, 1, &mut gate);
    let (_, f2, w2) = drive(&mut fetcher2, 1, &mut gate);
    assert_eq!(f1, 0);
    assert_eq!(f2, 0);
    assert!(w1.is_empty());
    assert!(w2.is_empty());
    assert!(!fetcher1.drain().is_empty());
    assert!(!fetcher2.drain().is_empty());
}

#[test]
fn fulfill_from_buffer_takes_tail() {
    let mut fetcher = Session::new().fetcher();
    fetcher.absorb(batch(5, 100));
    assert_eq!(fetcher.buffered(), 5);

    let taken = fetcher.fulfill_from_buffer(2).unwrap();
    assert_eq!(taken.len(), 2);
    assert_eq!(taken[0].port, 103);
    assert_eq!(taken[1].port, 104);
    assert_eq!(fetcher.buffered(), 3);

    // Asking for more than is buffered changes nothing.
    assert!(fetcher.fulfill_from_buffer(4).is_none());
    assert_eq!(fetcher.buffered(), 3);

    let rest = fetcher.drain();
    assert_eq!(rest.len(), 3);
    assert_eq!(rest[0].port, 100);
    assert_eq!(rest[2].port, 102);
}

#[test]
fn records_conserved_across_calls() {
    let mut fetcher = Session::new().fetcher();
    let mut gate = MockGate { marked: false };
    let mut returned = 0usize;
    let mut fetched_calls = 0usize;
    for amount in [3usize, 1, 7, 0, 4] {
        let (records, fetches, _) = drive(&mut fetcher, amount, &mut gate);
        assert_eq!(records.len(), amount);
        returned += records.len();
        fetched_calls += fetches;
    }
    let drained = fetcher.drain().len();
    assert_eq!(returned + drained, fetched_calls * FREE_LIMIT);
}

#[test]
fn wait_covers_minimum_interval() {
    // An exhausted rate-limited fetcher is told to wait exactly what is left
    // of the minimum interval since the last remote call.
    let fetcher = Session::new().fetcher();
    assert_eq!(
        fetcher.next_action(1, Some(400)),
        GrowthAction::WaitThenFetch { wait_ms: MIN_INTERVAL_MS - 400 }
    );
    assert_eq!(
        fetcher.next_action(1, Some(u128::from(MIN_INTERVAL_MS) - 1)),
        GrowthAction::WaitThenFetch { wait_ms: 1 }
    );
    assert_eq!(
        fetcher.next_action(1, Some(u128::from(MIN_INTERVAL_MS))),
        GrowthAction::WaitThenFetch { wait_ms: 0 }
    );
    assert_eq!(
        fetcher.next_action(1, Some(u128::MAX)),
        GrowthAction::WaitThenFetch { wait_ms: 0 }
    );
    // A never-marked gate owes nothing.
    assert_eq!(fetcher.next_action(1, None), GrowthAction::WaitThenFetch { wait_ms: 0 });
}

#[test]
fn unlimited_back_to_back() {
    // An unlimited fetcher with a request size of five issues exactly five
    // remote calls for twenty-five records, and is never told to wait,
    // whatever the shared gate reads.
    let opts = Opts::builder().api_key("<key>".to_string()).limit(5).build();
    let mut fetcher = Session::new().fetcher_with_opts(opts);
    let mut gate = MockGate { marked: true };
    let (records, fetches, waits) = drive(&mut fetcher, 25, &mut gate);
    assert_eq!(records.len(), 25);
    assert_eq!(fetches, 5);
    assert!(waits.is_empty());
    assert_eq!(fetcher.drain().len(), 0);
    let fetcher2 = Session::new().fetcher_with_opts(
        Opts::builder().api_key("<key>".to_string()).limit(5).build(),
    );
    assert_eq!(fetcher2.next_action(1, Some(0)), GrowthAction::Fetch);
    assert_eq!(fetcher2.next_action(1, None), GrowthAction::Fetch);
}
