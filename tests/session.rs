use script_runner::errors::{RunCommandError, SpawnFailure};
use script_runner::relay::{Relay, StreamTag};
use script_runner::session::{Action, Event, Phase, RunOutcome, Session};

fn drive(s: &mut Session, events: Vec<Event>) -> Vec<Action> {
    events.into_iter().map(|e| s.step(e)).collect()
}

#[test]
fn hello_script_runs_to_exit_zero() {
    let mut s = Session::new("main", true);
    assert_eq!(s.script_name(), "main.kts");
    let mut out = Relay::new(StreamTag::Stdout);
    let mut err = Relay::new(StreamTag::Stderr);
    let acts = drive(
        &mut s,
        vec![Event::Begin { writable_location: true }, Event::Saved, Event::Spawned],
    );
    assert_eq!(acts, vec![Action::Stage, Action::Spawn, Action::StartRelays]);
    let mut stdout_events = Vec::new();
    stdout_events.extend(out.push(b"hi\n"));
    stdout_events.extend(out.finish());
    let stderr_events: Vec<_> = err.finish().into_iter().collect();
    let acts = drive(&mut s, vec![Event::Exited(Some(0)), Event::Drained, Event::Removed]);
    assert_eq!(acts, vec![Action::JoinRelays, Action::Unstage, Action::Finish]);
    assert_eq!(s.phase(), Phase::Done);
    assert_eq!(s.result(), Some(Ok(RunOutcome::ExitCode(Some(0)))));
    assert_eq!(stdout_events.len(), 1);
    assert_eq!(stdout_events[0].payload, b"hi\n".to_vec());
    assert!(stderr_events.is_empty());
}

#[test]
fn cancel_before_exit_kills_group() {
    let mut s = Session::new("main", true);
    drive(&mut s, vec![Event::Begin { writable_location: true }, Event::Saved, Event::Spawned]);
    let acts = drive(&mut s, vec![Event::CancelRequested, Event::Killed, Event::Drained, Event::Removed]);
    assert_eq!(acts, vec![Action::KillGroup, Action::JoinRelays, Action::Unstage, Action::Finish]);
    assert_eq!(s.result(), Some(Ok(RunOutcome::Cancelled)));
}

#[test]
fn cancel_after_exit_is_ignored() {
    let mut s = Session::new("main", true);
    drive(&mut s, vec![Event::Begin { writable_location: true }, Event::Saved, Event::Spawned]);
    let acts = drive(
        &mut s,
        vec![Event::Exited(Some(3)), Event::CancelRequested, Event::Drained, Event::Removed],
    );
    assert_eq!(acts, vec![Action::JoinRelays, Action::Ignore, Action::Unstage, Action::Finish]);
    assert_eq!(s.result(), Some(Ok(RunOutcome::ExitCode(Some(3)))));
}

#[test]
fn missing_tool_removes_script_without_relays() {
    let mut s = Session::new("main", true);
    let acts = drive(
        &mut s,
        vec![
            Event::Begin { writable_location: true },
            Event::Saved,
            Event::SpawnFailed(SpawnFailure::NotFound, "not found".to_string()),
            Event::Removed,
        ],
    );
    assert_eq!(acts, vec![Action::Stage, Action::Spawn, Action::Unstage, Action::Finish]);
    assert!(!acts.contains(&Action::StartRelays));
    assert_eq!(s.result(), Some(Err(RunCommandError::KotlincNotFound)));
}

#[test]
fn permission_denied_spawn() {
    let mut s = Session::new("main", false);
    drive(&mut s, vec![Event::Begin { writable_location: true }, Event::Saved]);
    drive(&mut s, vec![Event::SpawnFailed(SpawnFailure::PermissionDenied, "denied".to_string())]);
    drive(&mut s, vec![Event::RemoveFailed("gone".to_string())]);
    assert_eq!(s.result(), Some(Err(RunCommandError::KotlincPermissionDenied)));
}

#[test]
fn no_writable_location_is_unsupported() {
    let mut s = Session::new("main", true);
    let acts = drive(&mut s, vec![Event::Begin { writable_location: false }, Event::Saved]);
    assert_eq!(acts, vec![Action::Finish, Action::Ignore]);
    assert_eq!(s.result(), Some(Err(RunCommandError::UnsupportedPlatform)));
}

#[test]
fn save_failure_still_cleans_up() {
    let mut s = Session::new("main", true);
    let acts = drive(
        &mut s,
        vec![
            Event::Begin { writable_location: true },
            Event::SaveFailed("disk full".to_string()),
            Event::RemoveFailed("no such file".to_string()),
        ],
    );
    assert_eq!(acts, vec![Action::Stage, Action::Unstage, Action::Finish]);
    assert_eq!(
        s.result(),
        Some(Err(RunCommandError::SaveError(
            "Failed to save code to temporary file: disk full".to_string()
        )))
    );
}

#[test]
fn wait_failure_is_reported() {
    let mut s = Session::new("main", true);
    drive(&mut s, vec![Event::Begin { writable_location: true }, Event::Saved, Event::Spawned]);
    drive(&mut s, vec![Event::WaitFailed("interrupted".to_string()), Event::Drained]);
    drive(&mut s, vec![Event::RemoveFailed("busy".to_string())]);
    assert_eq!(s.result(), Some(Err(RunCommandError::WaitError("interrupted".to_string()))));
}

#[test]
fn kill_failure_is_reported() {
    let mut s = Session::new("main", true);
    drive(&mut s, vec![Event::Begin { writable_location: true }, Event::Saved, Event::Spawned]);
    let acts = drive(
        &mut s,
        vec![Event::CancelRequested, Event::KillFailed("EPERM".to_string()), Event::Drained, Event::Removed],
    );
    assert_eq!(acts, vec![Action::KillGroup, Action::JoinRelays, Action::Unstage, Action::Finish]);
    assert_eq!(s.result(), Some(Err(RunCommandError::KillError)));
}

#[test]
fn strict_cleanup_failure_replaces_success() {
    let mut s = Session::new("main", true);
    drive(&mut s, vec![Event::Begin { writable_location: true }, Event::Saved, Event::Spawned]);
    drive(&mut s, vec![Event::Exited(Some(0)), Event::Drained, Event::RemoveFailed("busy".to_string())]);
    assert_eq!(
        s.result(),
        Some(Err(RunCommandError::RemoveError("Failed to remove temporary file: busy".to_string())))
    );
}

#[test]
fn lenient_cleanup_failure_keeps_success() {
    let mut s = Session::new("main", false);
    drive(&mut s, vec![Event::Begin { writable_location: true }, Event::Saved, Event::Spawned]);
    drive(&mut s, vec![Event::Exited(None), Event::Drained, Event::RemoveFailed("busy".to_string())]);
    assert_eq!(s.result(), Some(Ok(RunOutcome::ExitCode(None))));
}

#[test]
fn out_of_order_events_change_nothing() {
    let mut s = Session::new("main", true);
    let acts = drive(&mut s, vec![Event::Removed, Event::Killed, Event::Exited(Some(1))]);
    assert_eq!(acts, vec![Action::Ignore, Action::Ignore, Action::Ignore]);
    assert_eq!(s.phase(), Phase::Idle);
    assert_eq!(s.result(), None);
}

#[test]
fn finished_run_takes_no_more_events() {
    let mut s = Session::new("main", true);
    drive(&mut s, vec![Event::Begin { writable_location: false }]);
    let acts = drive(&mut s, vec![Event::Begin { writable_location: true }, Event::Removed]);
    assert_eq!(acts, vec![Action::Ignore, Action::Ignore]);
    assert_eq!(s.phase(), Phase::Done);
}

#[test]
fn two_sessions_stay_apart() {
    let mut a = Session::new("main", true);
    let mut b = Session::new("second", true);
    assert_ne!(a.script_name(), b.script_name());
    let start = || vec![Event::Begin { writable_location: true }, Event::Saved, Event::Spawned];
    drive(&mut a, start());
    drive(&mut b, start());
    let mut out_a = Relay::new(StreamTag::Stdout);
    let mut out_b = Relay::new(StreamTag::Stdout);
    let ea = out_a.push(b"from a\n").unwrap();
    let eb = out_b.push(b"from b\n").unwrap();
    drive(&mut b, vec![Event::Exited(Some(2)), Event::Drained, Event::Removed]);
    drive(&mut a, vec![Event::Exited(Some(0)), Event::Drained, Event::Removed]);
    assert_eq!(ea.payload, b"from a\n".to_vec());
    assert_eq!(eb.payload, b"from b\n".to_vec());
    assert_eq!(a.result(), Some(Ok(RunOutcome::ExitCode(Some(0)))));
    assert_eq!(b.result(), Some(Ok(RunOutcome::ExitCode(Some(2)))));
}
