use statusline::config::{RetryConfig, RetrySettings};
use statusline::retry::{decide_retry, RetryDecision, RetryState};

#[test]
fn file_operations_back_off_by_doubling() {
    let settings = RetryConfig::default().file_ops;
    let mut state = RetryState::start(&settings);
    assert_eq!(state.on_failure(&settings), RetryDecision::RetryAfter { delay_ms: 100 });
    assert_eq!(state.on_failure(&settings), RetryDecision::RetryAfter { delay_ms: 200 });
    assert_eq!(state.on_failure(&settings), RetryDecision::GiveUp);
    assert_eq!(state.failures, 3);
}

#[test]
fn database_operations_back_off_by_a_half() {
    let settings = RetryConfig::default().db_ops;
    let mut state = RetryState::start(&settings);
    assert_eq!(state.on_failure(&settings), RetryDecision::RetryAfter { delay_ms: 50 });
    assert_eq!(state.on_failure(&settings), RetryDecision::RetryAfter { delay_ms: 75 });
    assert_eq!(state.on_failure(&settings), RetryDecision::RetryAfter { delay_ms: 112 });
    assert_eq!(state.on_failure(&settings), RetryDecision::RetryAfter { delay_ms: 168 });
    assert_eq!(state.on_failure(&settings), RetryDecision::GiveUp);
}

#[test]
fn delays_stop_at_the_longest_delay() {
    let settings = RetrySettings {
        max_attempts: 10,
        initial_delay_ms: 200,
        max_delay_ms: 1000,
        backoff_factor: 2000,
    };
    let delays: Vec<RetryDecision> = (1..=10).map(|n| decide_retry(n, &settings)).collect();
    let wait = |delay_ms: u64| RetryDecision::RetryAfter { delay_ms };
    assert_eq!(
        delays,
        vec![
            wait(200),
            wait(400),
            wait(800),
            wait(1000),
            wait(1000),
            wait(1000),
            wait(1000),
            wait(1000),
            wait(1000),
            RetryDecision::GiveUp
        ]
    );
    let capped = RetrySettings { initial_delay_ms: 5000, ..settings };
    assert_eq!(decide_retry(1, &capped), wait(1000));
}

#[test]
fn decisions_agree_with_the_running_state() {
    let settings = RetryConfig::default().db_ops;
    let mut state = RetryState::start(&settings);
    for failures in 1..=6 {
        if failures <= 5 {
            assert_eq!(state.on_failure(&settings), decide_retry(failures, &settings));
        } else {
            assert_eq!(decide_retry(failures, &settings), RetryDecision::GiveUp);
        }
    }
    assert_eq!(decide_retry(u32::MAX, &settings), RetryDecision::GiveUp);
}

#[test]
fn no_attempts_allowed_means_giving_up_at_once() {
    let settings = RetrySettings {
        max_attempts: 0,
        initial_delay_ms: 100,
        max_delay_ms: 5000,
        backoff_factor: 2000,
    };
    assert_eq!(decide_retry(0, &settings), RetryDecision::GiveUp);
    assert_eq!(decide_retry(1, &settings), RetryDecision::GiveUp);
    let one = RetrySettings { max_attempts: 1, ..settings };
    assert_eq!(decide_retry(0, &one), RetryDecision::RetryAfter { delay_ms: 100 });
    assert_eq!(decide_retry(1, &one), RetryDecision::GiveUp);
}

#[test]
fn a_factor_below_one_shrinks_the_delay() {
    let settings = RetrySettings {
        max_attempts: 5,
        initial_delay_ms: 1000,
        max_delay_ms: 5000,
        backoff_factor: 500,
    };
    assert_eq!(decide_retry(1, &settings), RetryDecision::RetryAfter { delay_ms: 1000 });
    assert_eq!(decide_retry(2, &settings), RetryDecision::RetryAfter { delay_ms: 500 });
    assert_eq!(decide_retry(3, &settings), RetryDecision::RetryAfter { delay_ms: 250 });
}
