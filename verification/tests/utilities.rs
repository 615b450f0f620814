//! Identifiers, retry decisions, the handler registry and request URLs.

use rustpress_sdk::{
    backoff_delay, compose_id, generate_id, request_url, retry_action, HandlerRegistry,
    RetryAction, RetryOptions,
};
use std::collections::HashSet;

#[test]
fn test_generate_id() {
    let id1 = generate_id(None);
    let id2 = generate_id(None);
    assert_ne!(id1, id2);

    let prefixed = generate_id(Some("order"));
    assert!(prefixed.starts_with("order_"));
}

#[test]
fn generate_id_no_prefix_is_nonempty() {
    let id = generate_id(None);
    assert!(!id.is_empty());
    assert!(!id.contains('_'), "no prefix means no underscore separator");
}

#[test]
fn generate_id_with_prefix_starts_with_prefix() {
    let id = generate_id(Some("order"));
    assert!(id.starts_with("order_"));
    assert!(id.len() > "order_".len());
}

#[test]
fn generate_id_unique_across_many_calls() {
    let mut set = HashSet::new();
    for _ in 0..1000 {
        let id = generate_id(None);
        assert!(set.insert(id), "ID collision in 1000 calls");
    }
}

#[test]
fn generate_id_unique_with_same_prefix() {
    let mut set = HashSet::new();
    for _ in 0..500 {
        let id = generate_id(Some("test"));
        assert!(id.starts_with("test_"));
        assert!(set.insert(id), "Collision with same prefix");
    }
}

#[test]
fn generate_id_format_contains_hex() {
    let id = generate_id(None);
    // Should consist of timestamp-hex + uuid-fragment, all lowercase hex with possible dashes.
    assert!(id.chars().all(|c| c.is_ascii_hexdigit() || c == '-'));
}

#[test]
fn compose_id_exact_values() {
    let uuid = "67e55044-10b1-426f-9247-bb680e5fe0c8";
    assert_eq!(compose_id(None, 255, uuid), "ff67e55044-10b");
    assert_eq!(compose_id(Some("order"), 0, uuid), "order_067e55044-10b");
    assert_eq!(
        compose_id(None, 1_700_000_000_000, uuid),
        format!("{:x}{}", 1_700_000_000_000i64, &uuid[..12])
    );
    // A negative timestamp is written as its two's-complement bits.
    assert_eq!(compose_id(None, -1, uuid), "ffffffffffffffff67e55044-10b");
}

#[test]
fn generate_id_timestamp_part_is_current_time() {
    let before = chrono::Utc::now().timestamp_millis();
    let id = generate_id(Some("p"));
    let after = chrono::Utc::now().timestamp_millis();
    let body = &id["p_".len()..];
    let hex = &body[..body.len() - 12];
    let ts = i64::from_str_radix(hex, 16).unwrap();
    assert!(before <= ts && ts <= after);
    assert_eq!(&body[body.len() - 12 + 8..body.len() - 12 + 9], "-");
}

#[test]
fn retry_options_default_values() {
    let opts = RetryOptions::default();
    assert_eq!(opts.attempts, 3);
    assert_eq!(opts.delay_ms, 1000);
    assert_eq!(opts.max_delay_ms, 30000);
}

#[test]
fn retry_options_can_be_cloned() {
    let opts = RetryOptions {
        attempts: 7,
        delay_ms: 100,
        max_delay_ms: 1000,
    };
    let cloned = opts.clone();
    assert_eq!(cloned.attempts, 7);
    assert_eq!(cloned.delay_ms, 100);
    assert_eq!(cloned.max_delay_ms, 1000);
}

#[test]
fn backoff_doubles_until_the_cap() {
    let opts = RetryOptions::default();
    assert_eq!(backoff_delay(&opts, 0), Some(1000));
    assert_eq!(backoff_delay(&opts, 1), Some(2000));
    assert_eq!(backoff_delay(&opts, 4), Some(16000));
    assert_eq!(backoff_delay(&opts, 5), Some(30000));
    assert_eq!(backoff_delay(&opts, 63), None);
    assert_eq!(backoff_delay(&opts, 64), None);
    let zero = RetryOptions { attempts: 100, delay_ms: 0, max_delay_ms: 5 };
    assert_eq!(backoff_delay(&zero, 63), Some(0));
    assert_eq!(backoff_delay(&zero, 64), None);
}

#[test]
fn retry_action_follows_the_outcome() {
    let opts = RetryOptions { attempts: 3, delay_ms: 10, max_delay_ms: 15 };
    assert_eq!(retry_action(&opts, 0, false), Some(RetryAction::Finish));
    assert_eq!(retry_action(&opts, 0, true), Some(RetryAction::WaitThenRetry(10)));
    assert_eq!(retry_action(&opts, 1, true), Some(RetryAction::WaitThenRetry(15)));
    assert_eq!(retry_action(&opts, 2, true), Some(RetryAction::Finish));
    let single = RetryOptions { attempts: 1, delay_ms: 10_000, max_delay_ms: 30_000 };
    assert_eq!(retry_action(&single, 0, true), Some(RetryAction::Finish));
}

/// Drives the retry decisions over a list of outcomes, as the asynchronous
/// retry does, and counts the attempts and waits.
fn drive(opts: &RetryOptions, fails: &[bool]) -> (usize, Vec<u64>) {
    let mut waits = Vec::new();
    let mut attempt: u32 = 0;
    loop {
        let failed = fails[attempt as usize];
        match retry_action(opts, attempt, failed).expect("no overflow") {
            RetryAction::Finish => return (attempt as usize + 1, waits),
            RetryAction::WaitThenRetry(ms) => {
                waits.push(ms);
                attempt += 1;
            }
        }
    }
}

#[test]
fn retry_stops_at_first_success_or_after_all_attempts() {
    let opts = RetryOptions { attempts: 5, delay_ms: 1, max_delay_ms: 5 };
    assert_eq!(drive(&opts, &[true, true, false, true, true]), (3, vec![1, 2]));
    let opts = RetryOptions { attempts: 4, delay_ms: 1, max_delay_ms: 5 };
    assert_eq!(drive(&opts, &[true, true, true, true]), (4, vec![1, 2, 4]));
    let opts = RetryOptions { attempts: 3, delay_ms: 1, max_delay_ms: 5 };
    assert_eq!(drive(&opts, &[false, true, true]), (1, vec![]));
}

#[test]
fn registry_runs_handlers_per_event_in_order() {
    let mut reg: HandlerRegistry<u32> = HandlerRegistry::new();
    assert!(reg.handlers("a").is_empty());
    reg.on("a", 1);
    reg.on("b", 2);
    reg.on("a", 3);
    assert_eq!(reg.handlers("a"), vec![&1, &3]);
    assert_eq!(reg.handlers("b"), vec![&2]);
    assert!(reg.handlers("nobody-listening").is_empty());
}

#[test]
fn request_url_prepends_the_base() {
    assert_eq!(request_url("http://localhost:8080", "/api/v1/ping"), "http://localhost:8080/api/v1/ping");
    assert_eq!(request_url("http://127.0.0.1:1/", "/anything"), "http://127.0.0.1:1//anything");
}
