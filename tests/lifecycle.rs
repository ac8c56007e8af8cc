use command_pipeline::{
    JoinVerdict, Lifecycle, OnDrop, ReleaseStep, SpawnAction, SpawnEvent, Spawner, WaitReport, join_verdict,
    release_plan,
};

const OK: WaitReport = WaitReport { waited: true, success: true };
const FAILED: WaitReport = WaitReport { waited: true, success: false };
const WAIT_ERROR: WaitReport = WaitReport { waited: false, success: false };

#[test]
fn spawn_all_stages_in_order() {
    let (mut s, a) = Spawner::start(3);
    assert_eq!(a, SpawnAction::Launch(0));
    assert_eq!(s.step(SpawnEvent::Launched), SpawnAction::Launch(1));
    assert_eq!(s.step(SpawnEvent::Launched), SpawnAction::Launch(2));
    assert_eq!(s.step(SpawnEvent::Launched), SpawnAction::Finish);
}

#[test]
fn spawn_single_stage() {
    let (mut s, a) = Spawner::start(1);
    assert_eq!(a, SpawnAction::Launch(0));
    assert_eq!(s.step(SpawnEvent::Launched), SpawnAction::Finish);
}

#[test]
fn second_of_three_fails_reaps_first() {
    let (mut s, a) = Spawner::start(3);
    assert_eq!(a, SpawnAction::Launch(0));
    assert_eq!(s.step(SpawnEvent::Launched), SpawnAction::Launch(1));
    assert_eq!(s.step(SpawnEvent::LaunchFailed), SpawnAction::Reap(0));
    assert_eq!(s.step(SpawnEvent::Reaped), SpawnAction::Abort);
}

#[test]
fn tail_fails_reaps_every_earlier_stage() {
    let (mut s, _) = Spawner::start(3);
    s.step(SpawnEvent::Launched);
    s.step(SpawnEvent::Launched);
    assert_eq!(s.step(SpawnEvent::LaunchFailed), SpawnAction::Reap(0));
    assert_eq!(s.step(SpawnEvent::Reaped), SpawnAction::Reap(1));
    assert_eq!(s.step(SpawnEvent::Reaped), SpawnAction::Abort);
}

#[test]
fn first_stage_fails_reports_at_once() {
    let (mut s, _) = Spawner::start(2);
    assert_eq!(s.step(SpawnEvent::LaunchFailed), SpawnAction::Abort);
}

#[test]
fn pipefail_reports_first_failing_stage() {
    // false | true | true
    assert_eq!(join_verdict(true, &[FAILED, OK], OK), JoinVerdict::Status(0));
}

#[test]
fn without_pipefail_reports_tail() {
    // false | true | true
    assert_eq!(join_verdict(false, &[FAILED, OK], OK), JoinVerdict::Status(2));
}

#[test]
fn all_successful_reports_tail() {
    assert_eq!(join_verdict(true, &[OK, OK, OK], OK), JoinVerdict::Status(3));
    assert_eq!(join_verdict(false, &[OK, OK, OK], OK), JoinVerdict::Status(3));
    assert_eq!(join_verdict(true, &[], OK), JoinVerdict::Status(0));
}

#[test]
fn collecting_output_without_pipefail_reports_tail() {
    // printf abc | cat
    assert_eq!(join_verdict(false, &[OK], OK), JoinVerdict::Status(1));
}

#[test]
fn pipefail_falls_back_to_failing_tail() {
    assert_eq!(join_verdict(true, &[OK, OK], FAILED), JoinVerdict::Status(2));
}

#[test]
fn pipefail_first_failure_wins() {
    assert_eq!(join_verdict(true, &[OK, FAILED, FAILED], OK), JoinVerdict::Status(1));
}

#[test]
fn pipefail_wait_error_of_candidate() {
    assert_eq!(join_verdict(true, &[OK, WAIT_ERROR, FAILED], OK), JoinVerdict::Error(1));
}

#[test]
fn pipefail_tail_wait_error_after_failed_stage() {
    assert_eq!(join_verdict(true, &[FAILED], WAIT_ERROR), JoinVerdict::Error(1));
}

#[test]
fn tail_wait_error_without_pipefail() {
    assert_eq!(join_verdict(false, &[WAIT_ERROR], WAIT_ERROR), JoinVerdict::Error(1));
    assert_eq!(join_verdict(false, &[WAIT_ERROR], OK), JoinVerdict::Status(1));
}

#[test]
fn release_kill_targets_every_process() {
    assert_eq!(
        release_plan(OnDrop::Kill, 3),
        vec![ReleaseStep::Kill(0), ReleaseStep::Kill(1), ReleaseStep::Kill(2)]
    );
}

#[test]
fn release_wait_targets_every_process() {
    assert_eq!(release_plan(OnDrop::Wait, 2), vec![ReleaseStep::Wait(0), ReleaseStep::Wait(1)]);
}

#[test]
fn release_forget_does_nothing() {
    assert!(release_plan(OnDrop::Forget, 4).is_empty());
}

#[test]
fn joined_pipeline_releases_nothing() {
    let mut l = Lifecycle::new(3, OnDrop::Kill);
    assert!(!l.is_settled());
    assert_eq!(l.join_order(), vec![0, 1, 2]);
    assert!(l.is_settled());
    assert!(l.release().is_empty());
}

#[test]
fn release_happens_once() {
    let mut l = Lifecycle::new(2, OnDrop::Wait);
    assert_eq!(l.release(), vec![ReleaseStep::Wait(0), ReleaseStep::Wait(1)]);
    assert!(l.release().is_empty());
}

#[test]
fn wait_after_kill_only_when_request_succeeded() {
    assert!(ReleaseStep::Kill(0).waits_after(true));
    assert!(!ReleaseStep::Kill(0).waits_after(false));
    assert!(ReleaseStep::Wait(1).waits_after(false));
    assert_eq!(ReleaseStep::Kill(2).process(), 2);
    assert_eq!(ReleaseStep::Wait(1).process(), 1);
}
