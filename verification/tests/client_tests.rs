use wire::backoff::DefaultBackoff;
use wire::client::Client;
use wire::v2::{Error, V2Framing};

fn refused() -> Error {
    Error::Io(String::from("connection refused"))
}

/// Over n consecutive failures, `retries` is exactly n on the n-th failure
/// and the streak start time never moves.
#[test]
fn retries_count_and_streak_start_stay() {
    let mut c: Client<V2Framing, DefaultBackoff> = Client::new(String::from("pool:3336"));
    let mut now: u64 = 1_000;
    let first_start = now;
    for n in 1..=10u32 {
        let err = c.on_failure(now, now + 5, refused());
        assert_eq!(err.retries, n);
        assert_eq!(err.start_time, first_start);
        now += 1_000;
    }
}

/// After a success, the next failure reports retries = 1 and a new streak
/// start time.
#[test]
fn success_starts_fresh_streak() {
    let mut c: Client<V2Framing, DefaultBackoff> = Client::new(String::from("pool:3336"));
    let e1 = c.on_failure(1_000, 1_005, refused());
    let e2 = c.on_failure(2_000, 2_005, refused());
    assert_eq!(e1.start_time, 1_000);
    assert_eq!(e2.start_time, 1_000);
    assert_eq!(e2.retries, 2);

    c.on_success();

    let e3 = c.on_failure(9_000, 9_005, refused());
    assert_eq!(e3.retries, 1);
    assert_eq!(e3.start_time, 9_000);
}

/// A success also resets the backoff: the delay curve starts over.
#[test]
fn success_resets_backoff_curve() {
    let mut c: Client<V2Framing, DefaultBackoff> = Client::new(String::from("pool:3336"));
    assert_eq!(c.on_failure(0, 0, refused()).next_attempt_in, 100);
    assert_eq!(c.on_failure(0, 0, refused()).next_attempt_in, 100);
    assert_eq!(c.on_failure(0, 0, refused()).next_attempt_in, 200);
    assert_eq!(c.on_failure(0, 0, refused()).next_attempt_in, 300);
    c.on_success();
    assert_eq!(c.on_failure(0, 0, refused()).next_attempt_in, 100);
}

/// The delay reported in the failure record follows the backoff curve up to
/// its cap and never beyond.
#[test]
fn next_attempt_follows_curve_to_cap() {
    let mut c: Client<V2Framing, DefaultBackoff> = Client::new(String::from("pool:3336"));
    let expected = [100, 100, 200, 300, 500, 800, 1300, 2100, 3400, 5000, 5000];
    for &e in expected.iter() {
        assert_eq!(c.on_failure(0, 0, refused()).next_attempt_in, e);
    }
}

/// The wait before an attempt is the unelapsed part of the pending delay.
#[test]
fn wait_before_attempt_remainder() {
    let mut c: Client<V2Framing, DefaultBackoff> = Client::new(String::from("pool:3336"));
    // No failure pending: no wait.
    assert_eq!(c.wait_before_attempt(50), 0);

    // Failure at t=1000 with a 100 ms delay.
    let err = c.on_failure(1_000, 1_000, refused());
    assert_eq!(err.next_attempt_in, 100);
    assert_eq!(c.wait_before_attempt(1_000), 100);
    assert_eq!(c.wait_before_attempt(1_040), 60);
    assert_eq!(c.wait_before_attempt(1_100), 0);
    assert_eq!(c.wait_before_attempt(2_000), 0);
}

/// Asking how long to wait mutates nothing: it can be abandoned freely.
#[test]
fn wait_query_leaves_state_untouched() {
    let mut c: Client<V2Framing, DefaultBackoff> = Client::new(String::from("pool:3336"));
    c.on_failure(1_000, 1_000, refused());
    assert_eq!(c.wait_before_attempt(1_010), 90);
    assert_eq!(c.wait_before_attempt(1_010), 90);
    // The streak is still the same one.
    let err = c.on_failure(3_000, 3_000, refused());
    assert_eq!(err.retries, 2);
    assert_eq!(err.start_time, 1_000);
}

/// Replacing the address affects only later attempts' target; the streak
/// bookkeeping is untouched.
#[test]
fn set_addr_changes_only_the_target() {
    let mut c: Client<V2Framing, DefaultBackoff> = Client::new(String::from("pool-a:3336"));
    assert_eq!(c.addr().as_str(), "pool-a:3336");
    c.on_failure(1_000, 1_000, refused());

    c.set_addr(String::from("pool-b:3336"));
    assert_eq!(c.addr().as_str(), "pool-b:3336");

    let err = c.on_failure(2_000, 2_000, refused());
    assert_eq!(err.retries, 2);
    assert_eq!(err.start_time, 1_000);
}

/// Replacing the backoff strategy takes effect with the next attempt only.
#[test]
fn set_backoff_takes_effect_next_call() {
    let mut c: Client<V2Framing, DefaultBackoff> =
        Client::with_backoff(String::from("pool:3336"), DefaultBackoff::new(100, 5000));
    let e1 = c.on_failure(0, 0, refused());
    assert_eq!(e1.next_attempt_in, 100);

    c.set_backoff(DefaultBackoff::new(700, 5000));
    let e2 = c.on_failure(0, 0, refused());
    assert_eq!(e2.next_attempt_in, 700);
    // The streak bookkeeping survived the swap.
    assert_eq!(e2.retries, 2);
}

/// One whole attempt at a time: a failed outcome yields the failure record,
/// a successful one hands the connection value through and clears the streak.
#[test]
fn next_attempt_routes_the_outcome() {
    let mut c: Client<V2Framing, DefaultBackoff> = Client::new(String::from("pool:3336"));

    let r1 = c.next_attempt::<&str>(1_000, 1_001, Err(refused()));
    let e1 = r1.err().expect("a failed outcome yields the failure record");
    assert_eq!(e1.retries, 1);
    assert_eq!(e1.start_time, 1_000);
    assert_eq!(e1.next_attempt_in, 100);

    let r2 = c.next_attempt(2_000, 2_001, Ok("the connection"));
    assert_eq!(r2.ok(), Some("the connection"));

    // The streak was cleared: the next failure starts over.
    let r3 = c.next_attempt::<&str>(5_000, 5_001, Err(refused()));
    let e3 = r3.err().unwrap();
    assert_eq!(e3.retries, 1);
    assert_eq!(e3.start_time, 5_000);
    assert_eq!(e3.next_attempt_in, 100);
}

/// The failure record carries the connect error through unchanged.
#[test]
fn attempt_error_carries_the_cause() {
    let mut c: Client<V2Framing, DefaultBackoff> = Client::new(String::from("pool:3336"));
    let err = c.on_failure(0, 0, Error::Io(String::from("no route to host")));
    match err.error {
        Error::Io(msg) => assert_eq!(msg, "no route to host"),
        _ => panic!("expected an I/O error"),
    }
}
