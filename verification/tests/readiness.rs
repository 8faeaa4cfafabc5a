use kaspa_ng_core::readiness::{
    next_wait_step, wait_is_empty, Announcement, WaitPolicy, WaitStep, TCP_HEALTH_TIMEOUT_MS,
    TCP_PROBE_TIMEOUT_MS,
};

#[test]
fn probe_timeouts_are_short() {
    assert_eq!(TCP_PROBE_TIMEOUT_MS, 300);
    assert_eq!(TCP_HEALTH_TIMEOUT_MS, 500);
}

#[test]
fn database_wait_sleeps_two_then_three_seconds() {
    let p = WaitPolicy::database();
    for attempt in 0..5 {
        match next_wait_step(&p, attempt, true, false) {
            WaitStep::Retry { sleep_secs, .. } => assert_eq!(sleep_secs, 2),
            other => panic!("attempt {attempt}: {other:?}"),
        }
    }
    for attempt in 5..19 {
        match next_wait_step(&p, attempt, true, false) {
            WaitStep::Retry { sleep_secs, .. } => assert_eq!(sleep_secs, 3),
            other => panic!("attempt {attempt}: {other:?}"),
        }
    }
}

#[test]
fn database_wait_gives_up_after_twenty_attempts() {
    let p = WaitPolicy::database();
    assert_eq!(next_wait_step(&p, 18, true, false), WaitStep::Retry { sleep_secs: 3, announce: None });
    assert_eq!(next_wait_step(&p, 19, true, false), WaitStep::GiveUp);
    assert_eq!(next_wait_step(&p, 20, true, false), WaitStep::GiveUp);
    assert_eq!(next_wait_step(&p, u32::MAX, true, false), WaitStep::GiveUp);
}

#[test]
fn success_and_cancellation_end_the_wait() {
    let p = WaitPolicy::database();
    assert_eq!(next_wait_step(&p, 0, true, true), WaitStep::Ready);
    assert_eq!(next_wait_step(&p, 19, true, true), WaitStep::Ready);
    assert_eq!(next_wait_step(&p, 3, false, true), WaitStep::Cancelled);
    assert_eq!(next_wait_step(&p, 3, false, false), WaitStep::Cancelled);
}

#[test]
fn waiting_is_announced_once_and_then_every_tenth_attempt() {
    let p = WaitPolicy::endpoint();
    let mut lines = 0;
    for attempt in 0..101u32 {
        match next_wait_step(&p, attempt, true, false) {
            WaitStep::Retry { sleep_secs, announce } => {
                assert_eq!(sleep_secs, 1);
                let want = if attempt == 0 {
                    Some(Announcement::Waiting)
                } else if attempt % 10 == 0 {
                    Some(Announcement::StillWaiting)
                } else {
                    None
                };
                assert_eq!(announce, want, "attempt {attempt}");
                if announce.is_some() {
                    lines += 1;
                }
            }
            other => panic!("attempt {attempt}: {other:?}"),
        }
    }
    assert_eq!(lines, 11);
}

#[test]
fn endpoint_wait_never_gives_up() {
    let p = WaitPolicy::endpoint();
    assert!(matches!(next_wait_step(&p, u32::MAX, true, false), WaitStep::Retry { .. }));
    assert!(!wait_is_empty(&p));
}

#[test]
fn server_wait_allows_the_given_attempts() {
    let p = WaitPolicy::server(5);
    assert_eq!(p.max_attempts, Some(5));
    assert!(matches!(next_wait_step(&p, 3, true, false), WaitStep::Retry { sleep_secs: 1, .. }));
    assert_eq!(next_wait_step(&p, 4, true, false), WaitStep::GiveUp);
    assert!(wait_is_empty(&WaitPolicy::server(0)));
    assert_eq!(next_wait_step(&WaitPolicy::server(0), 0, true, false), WaitStep::GiveUp);
}
