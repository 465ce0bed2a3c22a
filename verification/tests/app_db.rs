use api_server::repositories::app_db::{
    backoff_seconds, next_connect_step, ConnectStep, MAX_CONNECT_RETRIES,
};

#[test]
fn backoff_is_two_to_the_attempt() {
    assert_eq!(backoff_seconds(0), 1);
    assert_eq!(backoff_seconds(1), 2);
    assert_eq!(backoff_seconds(2), 4);
    assert_eq!(backoff_seconds(3), 8);
    assert_eq!(backoff_seconds(10), 1024);
    assert_eq!(backoff_seconds(63), 1 << 63);
}

#[test]
fn a_connection_ends_the_attempts() {
    for attempt in [0, 1, 5, 10, 11, u32::MAX] {
        assert_eq!(next_connect_step(attempt, true), ConnectStep::Connected);
    }
}

#[test]
fn a_failure_is_followed_by_a_retry_up_to_ten_times() {
    assert_eq!(MAX_CONNECT_RETRIES, 10);
    let mut waits = Vec::new();
    let mut attempt = 1;
    loop {
        match next_connect_step(attempt, false) {
            ConnectStep::RetryAfter { seconds } => waits.push(seconds),
            ConnectStep::GiveUp => break,
            ConnectStep::Connected => panic!("not connected"),
        }
        attempt += 1;
    }
    assert_eq!(waits, vec![2, 4, 8, 16, 32, 64, 128, 256, 512, 1024]);
    assert_eq!(attempt, 11);
    assert_eq!(next_connect_step(12, false), ConnectStep::GiveUp);
    assert_eq!(next_connect_step(u32::MAX, false), ConnectStep::GiveUp);
}
