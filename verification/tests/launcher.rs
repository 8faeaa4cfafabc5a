use kaspa_ng_core::launcher::{
    binary_name, build_output_candidates, first_existing, Base, Candidate, Platform, Progress,
    StartAttempt,
};

fn place(base: Base, path: &str) -> Candidate {
    Candidate { base, path: path.to_string() }
}

#[test]
fn binary_name_adds_exe_on_windows() {
    assert_eq!(binary_name("kaspa-miner", false), "kaspa-miner");
    assert_eq!(binary_name("kaspa-miner", true), "kaspa-miner.exe");
}

#[test]
fn platform_families() {
    assert!(Platform::Linux.is_unix());
    assert!(Platform::MacOs.is_unix());
    assert!(!Platform::Windows.is_unix());
    assert!(!Platform::Other.is_unix());
    assert!(Platform::Windows.is_windows());
    assert!(!Platform::Linux.is_windows());
}

#[test]
fn build_output_is_searched_in_a_fixed_order() {
    assert_eq!(
        build_output_candidates("tool", "proj"),
        vec![
            place(Base::ExeDir, "tool"),
            place(Base::WorkingDir, "target/debug/tool"),
            place(Base::WorkingDir, "proj/target/debug/tool"),
            place(Base::WorkingDir, "target/release/tool"),
            place(Base::WorkingDir, "proj/target/release/tool"),
        ]
    );
}

#[test]
fn first_existing_candidate_wins() {
    assert_eq!(first_existing(&vec![false, true, true]), Some(1));
    assert_eq!(first_existing(&vec![true]), Some(0));
    assert_eq!(first_existing(&vec![false, false]), None);
    assert_eq!(first_existing(&vec![]), None);
}

#[test]
fn attempt_walks_the_checks_in_order() {
    let mut a = StartAttempt::new(3);
    assert_eq!(a.next(), Progress::Evaluate(0));
    assert_eq!(a.report(true), Progress::Evaluate(1));
    assert_eq!(a.report(true), Progress::Evaluate(2));
    assert_eq!(a.next(), Progress::Evaluate(2));
    assert_eq!(a.report(true), Progress::Spawn);
    assert_eq!(a.report(false), Progress::Spawn);
    assert_eq!(a.next(), Progress::Spawn);
}

#[test]
fn attempt_ends_at_the_first_failed_check() {
    let mut a = StartAttempt::new(3);
    assert_eq!(a.report(true), Progress::Evaluate(1));
    assert_eq!(a.report(false), Progress::Abort(1));
    assert_eq!(a.report(true), Progress::Abort(1));
    assert_eq!(a.next(), Progress::Abort(1));
}

#[test]
fn attempt_without_checks_spawns_at_once() {
    let mut a = StartAttempt::new(0);
    assert_eq!(a.next(), Progress::Spawn);
    assert_eq!(a.report(false), Progress::Spawn);
}
