use nats_actor::backoff::{backoff, INITIAL_INTERVAL_MS, MAX_INTERVAL_MS};
use nats_actor::connect::{ConnectWithRetry, RetryDecision};
use nats_actor::{InternalError, NatsClientSettings};

#[test]
fn backoff_grows_and_stops_at_budget() {
    let mut p = backoff(Some(600));
    assert_eq!(p.next_delay(), Some(500));
    assert_eq!(p.next_delay(), Some(750));
    assert_eq!(p.next_delay(), None);
    assert_eq!(p.next_delay(), None);
}

#[test]
fn backoff_termination_with_always_failing_connector() {
    // A connector that always fails: the policy must refuse a delay after
    // finitely many grants, and only once the granted total reached the
    // budget.
    let budget: u64 = 30_000;
    let mut p = backoff(Some(budget));
    let mut total: u64 = 0;
    let mut rounds: u64 = 0;
    while let Some(d) = p.next_delay() {
        assert!(d >= INITIAL_INTERVAL_MS);
        assert!(d <= MAX_INTERVAL_MS);
        total += d;
        rounds += 1;
        assert!(rounds < 1_000_000, "backoff failed to terminate");
    }
    assert!(total >= budget, "gave up before the budget was spent");
    assert!(total < budget + MAX_INTERVAL_MS, "overshot by more than one step");
}

#[test]
fn backoff_without_budget_never_gives_up() {
    let mut p = backoff(None);
    for _ in 0..1000 {
        assert!(p.next_delay().is_some());
    }
}

#[test]
fn backoff_interval_caps() {
    let mut p = backoff(None);
    let mut last = 0;
    for _ in 0..50 {
        last = p.next_delay().unwrap();
    }
    assert_eq!(last, MAX_INTERVAL_MS);
}

#[test]
fn connect_retry_gives_up_with_connection_error() {
    let settings = NatsClientSettings {
        addresses: vec!["nats-0:4222".to_string(), "nats-1:4222".to_string()],
        max_reconnects: None,
        retry_timeout_ms: Some(1000),
    };
    let mut m = ConnectWithRetry::new(&settings);
    let mut granted: u64 = 0;
    loop {
        match m.on_attempt_failed() {
            RetryDecision::RetryAfter(ms) => {
                granted += ms;
                assert!(granted <= 1000 + MAX_INTERVAL_MS);
            }
            RetryDecision::GiveUp(e) => {
                assert!(granted >= 1000, "gave up before the retry timeout");
                assert_eq!(
                    e,
                    InternalError::NatsServerConnectionError {
                        address: "nats-0:4222,nats-1:4222".to_string()
                    }
                );
                break;
            }
        }
    }
}

#[test]
fn single_attempt_error_names_addresses() {
    let settings = NatsClientSettings {
        addresses: vec!["localhost:4222".to_string()],
        max_reconnects: Some(3),
        retry_timeout_ms: None,
    };
    let m = ConnectWithRetry::new(&settings);
    let e = m.attempt_error();
    assert_eq!(
        e.message(),
        "Nats server connection failed: localhost:4222".to_string()
    );
}

#[test]
fn connection_string_joins_addresses() {
    let settings = NatsClientSettings {
        addresses: vec!["a".to_string(), "b".to_string(), "c".to_string()],
        max_reconnects: None,
        retry_timeout_ms: None,
    };
    assert_eq!(settings.connection_string(), "a,b,c".to_string());
    let one = NatsClientSettings {
        addresses: vec!["only".to_string()],
        max_reconnects: None,
        retry_timeout_ms: None,
    };
    assert_eq!(one.connection_string(), "only".to_string());
    let none = NatsClientSettings {
        addresses: vec![],
        max_reconnects: None,
        retry_timeout_ms: None,
    };
    assert_eq!(none.connection_string(), "".to_string());
}
