use kaspa_ng_core::shutdown::{next_stop_step, StopStage, StopStep, SETTLE_MS, STOP_TIMEOUT_MS};

fn run(has_group: bool, exits_after_terminate: bool) -> Vec<StopStep> {
    let mut stage = StopStage::Begin;
    let mut steps = Vec::new();
    for _ in 0..10 {
        let exited = exits_after_terminate && stage == StopStage::Waiting;
        let (step, next) = next_stop_step(stage, has_group, exited);
        if let Some(step) = step {
            steps.push(step);
        }
        stage = next;
        if stage == StopStage::Finished {
            break;
        }
    }
    assert_eq!(stage, StopStage::Finished);
    steps
}

#[test]
fn graceful_stop_ends_after_the_first_wait() {
    assert_eq!(
        run(true, true),
        vec![StopStep::Terminate, StopStep::Await { timeout_ms: STOP_TIMEOUT_MS }]
    );
}

#[test]
fn stubborn_tree_is_killed_after_two_seconds() {
    assert_eq!(STOP_TIMEOUT_MS, 2000);
    assert_eq!(SETTLE_MS, 100);
    assert_eq!(
        run(true, false),
        vec![
            StopStep::Terminate,
            StopStep::Await { timeout_ms: 2000 },
            StopStep::Kill,
            StopStep::Await { timeout_ms: 2000 },
            StopStep::Settle { ms: 100 },
        ]
    );
}

#[test]
fn process_without_group_is_killed_and_reaped() {
    assert_eq!(run(false, false), vec![StopStep::KillProcess, StopStep::Reap]);
}

#[test]
fn finished_stop_does_nothing_more() {
    assert_eq!(next_stop_step(StopStage::Finished, true, false), (None, StopStage::Finished));
}
