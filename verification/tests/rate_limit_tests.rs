use nexus_server::rate_limit::{
    IpKey, RateLimitConfig, RateLimitService, CLEANUP_THRESHOLD, MESSAGE_WINDOW, NANOS_PER_SECOND, REQUEST_WINDOW,
};

fn service(messages: usize, requests: usize) -> RateLimitService {
    RateLimitService::new(RateLimitConfig { messages_per_minute: messages, requests_per_second: requests })
}

#[test]
fn message_limit_admits_up_to_the_limit_then_refuses() {
    let mut s = service(3, 10);
    let user: u128 = 42;
    let t0: u64 = 5 * NANOS_PER_SECOND;
    assert_eq!(s.check_message_rate_limit_at(user, t0), Ok(()));
    assert_eq!(s.check_message_rate_limit_at(user, t0 + 1), Ok(()));
    assert_eq!(s.check_message_rate_limit_at(user, t0 + 2), Ok(()));
    assert_eq!(
        s.check_message_rate_limit_at(user, t0 + 3),
        Err("Rate limit exceeded. Maximum 3 messages per minute.".to_string())
    );
    // A refusal is not counted, and does not open a new window.
    assert!(s.check_message_rate_limit_at(user, t0 + MESSAGE_WINDOW - 1).is_err());
}

#[test]
fn message_window_starts_over_after_a_minute() {
    let mut s = service(1, 10);
    let user: u128 = 7;
    assert_eq!(s.check_message_rate_limit_at(user, 0), Ok(()));
    assert!(s.check_message_rate_limit_at(user, MESSAGE_WINDOW - 1).is_err());
    assert_eq!(s.check_message_rate_limit_at(user, MESSAGE_WINDOW), Ok(()));
    assert!(s.check_message_rate_limit_at(user, MESSAGE_WINDOW + 1).is_err());
}

#[test]
fn message_limits_are_per_user() {
    let mut s = service(1, 10);
    assert_eq!(s.check_message_rate_limit_at(1, 100), Ok(()));
    assert_eq!(s.check_message_rate_limit_at(2, 100), Ok(()));
    assert!(s.check_message_rate_limit_at(1, 101).is_err());
}

#[test]
fn zero_limit_refuses_everything() {
    let mut s = service(0, 0);
    assert_eq!(
        s.check_message_rate_limit_at(9, 0),
        Err("Rate limit exceeded. Maximum 0 messages per minute.".to_string())
    );
    assert_eq!(
        s.check_request_rate_limit_at(IpKey::V4(0x7f000001), 0),
        Err("Rate limit exceeded. Maximum 0 requests per second.".to_string())
    );
}

#[test]
fn request_limit_per_second_and_per_address() {
    let mut s = service(10, 2);
    let a = IpKey::V4(0x0a000001);
    let b = IpKey::V6(1);
    assert_eq!(s.check_request_rate_limit_at(a, 1_000), Ok(()));
    assert_eq!(s.check_request_rate_limit_at(a, 2_000), Ok(()));
    assert_eq!(
        s.check_request_rate_limit_at(a, 3_000),
        Err("Rate limit exceeded. Maximum 2 requests per second.".to_string())
    );
    assert_eq!(s.check_request_rate_limit_at(b, 3_000), Ok(()));
    assert_eq!(s.check_request_rate_limit_at(a, 1_000 + REQUEST_WINDOW), Ok(()));
}

#[test]
fn request_and_message_limits_are_independent() {
    let mut s = service(1, 1);
    assert_eq!(s.check_request_rate_limit_at(IpKey::V4(1), 0), Ok(()));
    assert_eq!(s.check_message_rate_limit_at(1, 0), Ok(()));
    assert!(s.check_request_rate_limit_at(IpKey::V4(1), 1).is_err());
    assert!(s.check_message_rate_limit_at(1, 1).is_err());
}

#[test]
fn cleanup_forgets_old_windows_only() {
    let mut s = service(1, 10);
    assert_eq!(s.check_message_rate_limit_at(1, 0), Ok(()));
    assert_eq!(s.check_message_rate_limit_at(2, CLEANUP_THRESHOLD), Ok(()));
    // Cleanup at the threshold drops user 1's window (two hours old) but keeps user 2's.
    s.cleanup_old_entries_at(CLEANUP_THRESHOLD);
    // User 2's window is still counting: refused within its minute.
    assert!(s.check_message_rate_limit_at(2, CLEANUP_THRESHOLD + 1).is_err());
    // User 1 starts afresh.
    assert_eq!(s.check_message_rate_limit_at(1, CLEANUP_THRESHOLD + 1), Ok(()));
}

#[test]
fn clock_going_backwards_keeps_window() {
    let mut s = service(1, 10);
    assert_eq!(s.check_message_rate_limit_at(5, 1_000_000), Ok(()));
    assert!(s.check_message_rate_limit_at(5, 10).is_err());
}

#[test]
fn clock_checks_count_within_the_current_minute() {
    let mut s = service(1, 5);
    assert_eq!(s.check_message_rate_limit(3), Ok(()));
    assert_eq!(
        s.check_message_rate_limit(3),
        Err("Rate limit exceeded. Maximum 1 messages per minute.".to_string())
    );
    assert_eq!(s.check_message_rate_limit(4), Ok(()));
    assert_eq!(s.check_request_rate_limit(IpKey::V6(9)), Ok(()));
    // A cleanup right away keeps the fresh windows.
    s.cleanup_old_entries();
    assert!(s.check_message_rate_limit(3).is_err());
}

#[test]
fn exactly_the_first_n_checks_in_a_window_pass() {
    let mut s = service(3, 10);
    let mut answers = Vec::new();
    for k in 0..6u64 {
        answers.push(s.check_message_rate_limit_at(11, 1_000 + k * NANOS_PER_SECOND).is_ok());
    }
    assert_eq!(answers, vec![true, true, true, false, false, false]);
    assert_eq!(s.check_message_rate_limit_at(12, 5 * NANOS_PER_SECOND), Ok(()));
}

#[test]
fn a_cleanup_in_between_changes_no_answer() {
    let times = [0u64, 10, CLEANUP_THRESHOLD + 5, CLEANUP_THRESHOLD + 6, CLEANUP_THRESHOLD + 7];
    let run = |cleanup_at: Option<(usize, u64)>| {
        let mut s = service(2, 1);
        let mut answers = Vec::new();
        for (k, t) in times.iter().enumerate() {
            if let Some((at, tc)) = cleanup_at {
                if at == k {
                    s.cleanup_old_entries_at(tc);
                }
            }
            answers.push((s.check_message_rate_limit_at(1, *t), s.check_request_rate_limit_at(IpKey::V4(7), *t)));
        }
        answers
    };
    let plain = run(None);
    assert_eq!(run(Some((2, CLEANUP_THRESHOLD + 1))), plain);
    assert_eq!(run(Some((1, 5))), plain);
    assert_eq!(run(Some((4, CLEANUP_THRESHOLD + 7))), plain);
}
