use vstd::prelude::*;
use crate::errors::{
    describe_spawn_error, map_waiting_error, remove_error, remove_message, save_error,
    save_message, spawn_error_model, ErrorModel, RunCommandError, SpawnFailure,
};
use crate::staging::{script_name, script_name_of};

verus! {

/// How a run ended when it did not fail.
#[derive(Debug, Clone, Copy, PartialEq, Eq, Structural)]
pub enum RunOutcome {
    /// The process ran to its end; the code is absent only where the
    /// platform cannot represent it.
    ExitCode(Option<i32>),
    /// The caller cancelled the run and the process group was terminated.
    Cancelled,
}

pub type RunResult = Result<RunOutcome, RunCommandError>;

pub type ResultModel = Result<RunOutcome, ErrorModel>;

pub open spec fn result_model(r: RunResult) -> ResultModel {
    match r {
        Ok(o) => Ok(o),
        Err(e) => Err(e@),
    }
}

pub open spec fn opt_result_model(r: Option<RunResult>) -> Option<ResultModel> {
    match r {
        Some(x) => Some(result_model(x)),
        None => None,
    }
}

/// Where a run stands.
#[derive(Debug, Clone, Copy, PartialEq, Eq, Structural)]
pub enum Phase {
    Idle,
    Staging,
    Spawning,
    Racing,
    Killing,
    Draining,
    CleaningUp,
    Done,
}

/// What the host reports back: the outcome of the action it was asked to
/// perform, or the caller's cancellation request.
#[derive(Debug, Clone)]
pub enum Event {
    /// The run was submitted; `writable_location` tells whether a location
    /// to stage the script in could be resolved.
    Begin { writable_location: bool },
    Saved,
    /// Writing the script failed; whatever part of it was written is still
    /// removed before the failure is reported.
    SaveFailed(String),
    Spawned,
    SpawnFailed(SpawnFailure, String),
    Exited(Option<i32>),
    WaitFailed(String),
    CancelRequested,
    Killed,
    KillFailed(String),
    Drained,
    Removed,
    RemoveFailed(String),
}

pub enum EventModel {
    Begin { writable_location: bool },
    Saved,
    SaveFailed(Seq<char>),
    Spawned,
    SpawnFailed(SpawnFailure, Seq<char>),
    Exited(Option<i32>),
    WaitFailed(Seq<char>),
    CancelRequested,
    Killed,
    KillFailed(Seq<char>),
    Drained,
    Removed,
    RemoveFailed(Seq<char>),
}

impl View for Event {
    type V = EventModel;

    open spec fn view(&self) -> EventModel {
        match self {
            Event::Begin { writable_location } => EventModel::Begin {
                writable_location: *writable_location,
            },
            Event::Saved => EventModel::Saved,
            Event::SaveFailed(d) => EventModel::SaveFailed(d@),
            Event::Spawned => EventModel::Spawned,
            Event::SpawnFailed(k, d) => EventModel::SpawnFailed(*k, d@),
            Event::Exited(c) => EventModel::Exited(*c),
            Event::WaitFailed(d) => EventModel::WaitFailed(d@),
            Event::CancelRequested => EventModel::CancelRequested,
            Event::Killed => EventModel::Killed,
            Event::KillFailed(d) => EventModel::KillFailed(d@),
            Event::Drained => EventModel::Drained,
            Event::Removed => EventModel::Removed,
            Event::RemoveFailed(d) => EventModel::RemoveFailed(d@),
        }
    }
}

/// What the host is to do next.
#[derive(Debug, Clone, Copy, PartialEq, Eq, Structural)]
pub enum Action {
    /// Write the source to the session's staged script.
    Stage,
    /// Launch the external tool on the staged script as a new process group.
    Spawn,
    /// Start both output relays, then race process exit against cancellation.
    StartRelays,
    /// Terminate the whole process group.
    KillGroup,
    /// Wait until both relays have reached the end of their streams.
    JoinRelays,
    /// Remove the staged script.
    Unstage,
    /// The run is over; its result is available.
    Finish,
    /// The event does not apply in the current phase and changed nothing.
    Ignore,
}

pub struct SessionModel {
    pub phase: Phase,
    pub label: Seq<char>,
    pub strict_cleanup: bool,
    pub verdict: Option<ResultModel>,
    pub result: Option<ResultModel>,
}

/// The result once cleanup has failed: a cleanup failure replaces a
/// successful verdict only under the strict policy, and never hides an
/// earlier failure.
pub open spec fn verdict_after_failed_cleanup(
    verdict: Option<ResultModel>,
    strict: bool,
    detail: Seq<char>,
) -> Option<ResultModel> {
    match verdict {
        Some(Ok(_)) => if strict {
            Some(Err(ErrorModel::RemoveError(remove_message(detail))))
        } else {
            verdict
        },
        _ => verdict,
    }
}

pub open spec fn fresh(label: Seq<char>, strict_cleanup: bool) -> SessionModel {
    SessionModel { phase: Phase::Idle, label, strict_cleanup, verdict: None, result: None }
}

/// The transition of a run on one event: the next state and the action the
/// host is to perform.
pub open spec fn next(s: SessionModel, e: EventModel) -> (SessionModel, Action) {
    let ignored = (s, Action::Ignore);
    match e {
        EventModel::Begin { writable_location } => if s.phase == Phase::Idle {
            if writable_location {
                (SessionModel { phase: Phase::Staging, ..s }, Action::Stage)
            } else {
                (
                    SessionModel {
                        phase: Phase::Done,
                        result: Some(Err(ErrorModel::UnsupportedPlatform)),
                        ..s
                    },
                    Action::Finish,
                )
            }
        } else {
            ignored
        },
        EventModel::Saved => if s.phase == Phase::Staging {
            (SessionModel { phase: Phase::Spawning, ..s }, Action::Spawn)
        } else {
            ignored
        },
        EventModel::SaveFailed(d) => if s.phase == Phase::Staging {
            (
                SessionModel {
                    phase: Phase::CleaningUp,
                    verdict: Some(Err(ErrorModel::SaveError(save_message(d)))),
                    ..s
                },
                Action::Unstage,
            )
        } else {
            ignored
        },
        EventModel::Spawned => if s.phase == Phase::Spawning {
            (SessionModel { phase: Phase::Racing, ..s }, Action::StartRelays)
        } else {
            ignored
        },
        EventModel::SpawnFailed(k, d) => if s.phase == Phase::Spawning {
            (
                SessionModel {
                    phase: Phase::CleaningUp,
                    verdict: Some(Err(spawn_error_model(k, d))),
                    ..s
                },
                Action::Unstage,
            )
        } else {
            ignored
        },
        EventModel::Exited(c) => if s.phase == Phase::Racing {
            (
                SessionModel {
                    phase: Phase::Draining,
                    verdict: Some(Ok(RunOutcome::ExitCode(c))),
                    ..s
                },
                Action::JoinRelays,
            )
        } else {
            ignored
        },
        EventModel::WaitFailed(d) => if s.phase == Phase::Racing {
            (
                SessionModel {
                    phase: Phase::Draining,
                    verdict: Some(Err(ErrorModel::WaitError(d))),
                    ..s
                },
                Action::JoinRelays,
            )
        } else {
            ignored
        },
        EventModel::CancelRequested => if s.phase == Phase::Racing {
            (SessionModel { phase: Phase::Killing, ..s }, Action::KillGroup)
        } else {
            ignored
        },
        EventModel::Killed => if s.phase == Phase::Killing {
            (
                SessionModel {
                    phase: Phase::Draining,
                    verdict: Some(Ok(RunOutcome::Cancelled)),
                    ..s
                },
                Action::JoinRelays,
            )
        } else {
            ignored
        },
        EventModel::KillFailed(_) => if s.phase == Phase::Killing {
            (
                SessionModel {
                    phase: Phase::Draining,
                    verdict: Some(Err(ErrorModel::KillError)),
                    ..s
                },
                Action::JoinRelays,
            )
        } else {
            ignored
        },
        EventModel::Drained => if s.phase == Phase::Draining {
            (SessionModel { phase: Phase::CleaningUp, ..s }, Action::Unstage)
        } else {
            ignored
        },
        EventModel::Removed => if s.phase == Phase::CleaningUp {
            (SessionModel { phase: Phase::Done, result: s.verdict, ..s }, Action::Finish)
        } else {
            ignored
        },
        EventModel::RemoveFailed(d) => if s.phase == Phase::CleaningUp {
            (
                SessionModel {
                    phase: Phase::Done,
                    result: verdict_after_failed_cleanup(s.verdict, s.strict_cleanup, d),
                    ..s
                },
                Action::Finish,
            )
        } else {
            ignored
        },
    }
}

/// One run of a script: the decisions of staging, spawning, racing exit
/// against cancellation, draining and cleanup. The host performs each
/// action and reports its outcome through `step`.
pub struct Session {
    phase: Phase,
    label: String,
    strict_cleanup: bool,
    verdict: Option<RunResult>,
    result: Option<RunResult>,
}

fn copy_result(r: &RunResult) -> (c: RunResult)
    ensures
        result_model(c) == result_model(*r),
{
    match r {
        Ok(o) => Ok(*o),
        Err(e) => Err(e.duplicate()),
    }
}

fn copy_opt_result(r: &Option<RunResult>) -> (c: Option<RunResult>)
    ensures
        opt_result_model(c) == opt_result_model(*r),
{
    match r {
        Some(x) => Some(copy_result(x)),
        None => None,
    }
}

impl View for Session {
    type V = SessionModel;

    closed spec fn view(&self) -> SessionModel {
        SessionModel {
            phase: self.phase,
            label: self.label@,
            strict_cleanup: self.strict_cleanup,
            verdict: opt_result_model(self.verdict),
            result: opt_result_model(self.result),
        }
    }
}

impl Session {
    /// A run for the session `label`. Under `strict_cleanup` a failure to
    /// remove the staged script turns an otherwise successful run into an
    /// error; otherwise it only gets reported through the event.
    pub fn new(label: &str, strict_cleanup: bool) -> (r: Session)
        ensures
            r@ == fresh(label@, strict_cleanup),
    {
        Session {
            phase: Phase::Idle,
            label: String::from_str(label),
            strict_cleanup,
            verdict: None,
            result: None,
        }
    }

    pub fn phase(&self) -> (r: Phase)
        ensures
            r == self@.phase,
    {
        self.phase
    }

    /// The name of this session's staged script.
    pub fn script_name(&self) -> (r: String)
        ensures
            r@ == script_name_of(self@.label),
    {
        script_name(self.label.as_str())
    }

    /// The result of the run, once it is done.
    pub fn result(&self) -> (r: Option<RunResult>)
        ensures
            opt_result_model(r) == self@.result,
    {
        copy_opt_result(&self.result)
    }

    /// Advances the run on `ev` and says what the host is to do next.
    pub fn step(&mut self, ev: Event) -> (a: Action)
        ensures
            (final(self)@, a) == next(old(self)@, ev@),
    {
        match ev {
            Event::Begin { writable_location } => {
                if self.phase != Phase::Idle {
                    return Action::Ignore;
                }
                if writable_location {
                    self.phase = Phase::Staging;
                    Action::Stage
                } else {
                    self.phase = Phase::Done;
                    self.result = Some(Err(RunCommandError::UnsupportedPlatform));
                    Action::Finish
                }
            },
            Event::Saved => {
                if self.phase != Phase::Staging {
                    return Action::Ignore;
                }
                self.phase = Phase::Spawning;
                Action::Spawn
            },
            Event::SaveFailed(d) => {
                if self.phase != Phase::Staging {
                    return Action::Ignore;
                }
                self.phase = Phase::CleaningUp;
                self.verdict = Some(Err(save_error(d.as_str())));
                Action::Unstage
            },
            Event::Spawned => {
                if self.phase != Phase::Spawning {
                    return Action::Ignore;
                }
                self.phase = Phase::Racing;
                Action::StartRelays
            },
            Event::SpawnFailed(k, d) => {
                if self.phase != Phase::Spawning {
                    return Action::Ignore;
                }
                self.phase = Phase::CleaningUp;
                self.verdict = Some(Err(describe_spawn_error(k, d.as_str())));
                Action::Unstage
            },
            Event::Exited(c) => {
                if self.phase != Phase::Racing {
                    return Action::Ignore;
                }
                self.phase = Phase::Draining;
                self.verdict = Some(Ok(RunOutcome::ExitCode(c)));
                Action::JoinRelays
            },
            Event::WaitFailed(d) => {
                if self.phase != Phase::Racing {
                    return Action::Ignore;
                }
                self.phase = Phase::Draining;
                self.verdict = Some(Err(map_waiting_error(d.as_str())));
                Action::JoinRelays
            },
            Event::CancelRequested => {
                if self.phase != Phase::Racing {
                    return Action::Ignore;
                }
                self.phase = Phase::Killing;
                Action::KillGroup
            },
            Event::Killed => {
                if self.phase != Phase::Killing {
                    return Action::Ignore;
                }
                self.phase = Phase::Draining;
                self.verdict = Some(Ok(RunOutcome::Cancelled));
                Action::JoinRelays
            },
            Event::KillFailed(_) => {
                if self.phase != Phase::Killing {
                    return Action::Ignore;
                }
                self.phase = Phase::Draining;
                self.verdict = Some(Err(RunCommandError::KillError));
                Action::JoinRelays
            },
            Event::Drained => {
                if self.phase != Phase::Draining {
                    return Action::Ignore;
                }
                self.phase = Phase::CleaningUp;
                Action::Unstage
            },
            Event::Removed => {
                if self.phase != Phase::CleaningUp {
                    return Action::Ignore;
                }
                self.phase = Phase::Done;
                self.result = copy_opt_result(&self.verdict);
                Action::Finish
            },
            Event::RemoveFailed(d) => {
                if self.phase != Phase::CleaningUp {
                    return Action::Ignore;
                }
                self.phase = Phase::Done;
                let succeeded = match &self.verdict {
                    Some(Ok(_)) => true,
                    _ => false,
                };
                if succeeded && self.strict_cleanup {
                    self.result = Some(Err(remove_error(d.as_str())));
                } else {
                    self.result = copy_opt_result(&self.verdict);
                }
                Action::Finish
            },
        }
    }
}

} // verus!
