use vstd::prelude::*;
use crate::errors::ErrorModel;
use crate::errors::SpawnFailure;
use crate::session::{fresh, next, Action, EventModel, Phase, RunOutcome, SessionModel};

verus! {

/// The state reached and the actions issued when a run takes `evs` in order.
pub open spec fn run(s: SessionModel, evs: Seq<EventModel>) -> (SessionModel, Seq<Action>)
    decreases evs.len(),
{
    if evs.len() == 0 {
        (s, Seq::empty())
    } else {
        let (t, a) = next(s, evs[0]);
        let (u, acts) = run(t, evs.drop_first());
        (u, seq![a] + acts)
    }
}

/// How many times `a` occurs in `acts`.
pub open spec fn count(acts: Seq<Action>, a: Action) -> nat
    decreases acts.len(),
{
    if acts.len() == 0 {
        0
    } else {
        (if acts[0] == a { 1nat } else { 0nat }) + count(acts.drop_first(), a)
    }
}

/// How many of `acts` answer an event that applied.
pub open spec fn handled(acts: Seq<Action>) -> nat
    decreases acts.len(),
{
    if acts.len() == 0 {
        0
    } else {
        (if acts[0] != Action::Ignore { 1nat } else { 0nat }) + handled(acts.drop_first())
    }
}

/// Position of a phase in the order a run goes through them.
pub open spec fn rank(p: Phase) -> nat {
    match p {
        Phase::Idle => 0,
        Phase::Staging => 1,
        Phase::Spawning => 2,
        Phase::Racing => 3,
        Phase::Killing => 4,
        Phase::Draining => 5,
        Phase::CleaningUp => 6,
        Phase::Done => 7,
    }
}

/// The staged script is in place (or being written) and its removal has
/// not been requested yet.
pub open spec fn script_staged(p: Phase) -> bool {
    rank(p) >= 1 && rank(p) <= 5
}

/// The external process is running under supervision.
pub open spec fn process_supervised(p: Phase) -> bool {
    p == Phase::Racing || p == Phase::Killing
}

/// The events that report the outcome of action `a`.
pub open spec fn answers(a: Action, e: EventModel) -> bool {
    match a {
        Action::Stage => e is Saved || e is SaveFailed,
        Action::Spawn => e is Spawned || e is SpawnFailed,
        Action::StartRelays => e is Exited || e is WaitFailed || e is CancelRequested,
        Action::KillGroup => e is Killed || e is KillFailed,
        Action::JoinRelays => e is Drained,
        Action::Unstage => e is Removed || e is RemoveFailed,
        _ => false,
    }
}

proof fn lemma_cons<A>(a: A, rest: Seq<A>)
    ensures
        (seq![a] + rest).len() > 0,
        (seq![a] + rest)[0] == a,
        (seq![a] + rest).drop_first() == rest,
{
    assert((seq![a] + rest).drop_first() =~= rest);
}

/// An event either applies, moving the run strictly forward, or changes
/// nothing; a finished run takes no event.
pub proof fn lemma_step_progress(s: SessionModel, e: EventModel)
    ensures
        next(s, e).1 == Action::Ignore ==> next(s, e).0 == s,
        next(s, e).1 != Action::Ignore ==> rank(next(s, e).0.phase) > rank(s.phase),
        s.phase == Phase::Done ==> next(s, e).1 == Action::Ignore,
        next(s, e).0.label == s.label,
        next(s, e).0.strict_cleanup == s.strict_cleanup,
{
}

/// Whatever events arrive, a run handles at most as many as there are
/// phases left, so it always comes to an end.
pub proof fn lemma_run_is_bounded(s: SessionModel, evs: Seq<EventModel>)
    ensures
        handled(run(s, evs).1) + rank(s.phase) <= rank(run(s, evs).0.phase),
        rank(run(s, evs).0.phase) <= 7,
    decreases evs.len(),
{
    if evs.len() > 0 {
        let (t, a) = next(s, evs[0]);
        lemma_step_progress(s, evs[0]);
        lemma_run_is_bounded(t, evs.drop_first());
        lemma_cons(a, run(t, evs.drop_first()).1);
    }
}

/// After every action the host is asked to perform, each possible outcome
/// of that action applies: a run is never left waiting for an event that
/// cannot come.
pub proof fn lemma_every_outcome_applies(s: SessionModel, e: EventModel, reply: EventModel)
    requires
        answers(next(s, e).1, reply),
    ensures
        next(next(s, e).0, reply).1 != Action::Ignore,
{
}

proof fn lemma_staging_balance(s: SessionModel, evs: Seq<EventModel>)
    ensures
        ({
            let (t, acts) = run(s, evs);
            &&& count(acts, Action::Stage) + (if script_staged(s.phase) { 1int } else { 0 })
                == count(acts, Action::Unstage) + (if script_staged(t.phase) { 1int } else { 0 })
            &&& count(acts, Action::Stage) <= (if s.phase == Phase::Idle { 1nat } else { 0 })
        }),
    decreases evs.len(),
{
    if evs.len() > 0 {
        let (t, a) = next(s, evs[0]);
        lemma_step_progress(s, evs[0]);
        lemma_staging_balance(t, evs.drop_first());
        lemma_cons(a, run(t, evs.drop_first()).1);
    }
}

/// The staged script is written at most once, the process only runs while
/// it is staged, and by the time a run is done it has been removed: every
/// write of it is matched by one removal, whichever way the run ended.
pub proof fn lemma_script_removed_on_every_path(
    label: Seq<char>,
    strict_cleanup: bool,
    evs: Seq<EventModel>,
)
    ensures
        ({
            let (t, acts) = run(fresh(label, strict_cleanup), evs);
            &&& count(acts, Action::Stage) <= 1
            &&& process_supervised(t.phase) ==> script_staged(t.phase)
            &&& t.phase == Phase::Done ==> count(acts, Action::Unstage) == count(
                acts,
                Action::Stage,
            )
        }),
{
    lemma_staging_balance(fresh(label, strict_cleanup), evs);
}

proof fn lemma_verdict_kept(s: SessionModel, evs: Seq<EventModel>)
    requires
        s.phase == Phase::Draining || s.phase == Phase::CleaningUp,
        s.verdict is Some,
    ensures
        ({
            let (t, acts) = run(s, evs);
            &&& count(acts, Action::KillGroup) == 0
            &&& count(acts, Action::StartRelays) == 0
            &&& t.phase != Phase::Done ==> t.verdict == s.verdict
            &&& t.phase == Phase::Done ==> t.result == s.verdict || (s.strict_cleanup
                && s.verdict.unwrap() is Ok && t.result matches Some(
                Err(ErrorModel::RemoveError(_)),
            ))
            &&& t.phase == Phase::Done || t.phase == Phase::Draining || t.phase
                == Phase::CleaningUp
        }),
    decreases evs.len(),
{
    if evs.len() > 0 {
        let (t, a) = next(s, evs[0]);
        lemma_cons(a, run(t, evs.drop_first()).1);
        if t.phase == Phase::Done {
            lemma_done_is_final(t, evs.drop_first());
        } else {
            lemma_verdict_kept(t, evs.drop_first());
        }
    }
}

proof fn lemma_done_is_final(s: SessionModel, evs: Seq<EventModel>)
    requires
        s.phase == Phase::Done,
    ensures
        run(s, evs).0 == s,
        count(run(s, evs).1, Action::KillGroup) == 0,
        count(run(s, evs).1, Action::StartRelays) == 0,
    decreases evs.len(),
{
    if evs.len() > 0 {
        lemma_done_is_final(s, evs.drop_first());
        lemma_cons(Action::Ignore, run(s, evs.drop_first()).1);
    }
}

/// A cancellation that arrives while the process is running wins: the
/// whole process group is killed, both relays are drained, the script is
/// removed and the run ends as cancelled.
pub proof fn lemma_cancel_before_exit(s: SessionModel)
    requires
        s.phase == Phase::Racing,
    ensures
        ({
            let (t, acts) = run(
                s,
                seq![
                    EventModel::CancelRequested,
                    EventModel::Killed,
                    EventModel::Drained,
                    EventModel::Removed,
                ],
            );
            &&& acts == seq![Action::KillGroup, Action::JoinRelays, Action::Unstage, Action::Finish]
            &&& t.phase == Phase::Done
            &&& t.result == Some(Ok::<RunOutcome, ErrorModel>(RunOutcome::Cancelled))
        }),
{
    let evs = seq![
        EventModel::CancelRequested,
        EventModel::Killed,
        EventModel::Drained,
        EventModel::Removed,
    ];
    reveal_with_fuel(run, 5);
    assert(evs.drop_first() =~= seq![EventModel::Killed, EventModel::Drained, EventModel::Removed]);
    assert(evs.drop_first().drop_first() =~= seq![EventModel::Drained, EventModel::Removed]);
    assert(evs.drop_first().drop_first().drop_first() =~= seq![EventModel::Removed]);
    assert(evs.drop_first().drop_first().drop_first().drop_first() =~= Seq::<EventModel>::empty());
    let (t, acts) = run(s, evs);
    assert(acts =~= seq![Action::KillGroup, Action::JoinRelays, Action::Unstage, Action::Finish]);
}

/// Once the process has exited, a cancellation comes too late: nothing is
/// killed any more, and the run ends with the natural exit code (replaced
/// only by a failed removal of the script under the strict policy).
pub proof fn lemma_exit_beats_cancel(s: SessionModel, code: Option<i32>, evs: Seq<EventModel>)
    requires
        s.phase == Phase::Racing,
    ensures
        ({
            let (t, acts) = run(next(s, EventModel::Exited(code)).0, evs);
            &&& count(acts, Action::KillGroup) == 0
            &&& t.phase == Phase::Done ==> t.result == Some(
                Ok::<RunOutcome, ErrorModel>(RunOutcome::ExitCode(code)),
            ) || (s.strict_cleanup && t.result matches Some(Err(ErrorModel::RemoveError(_))))
            &&& t.phase == Phase::Done && !s.strict_cleanup ==> t.result == Some(
                Ok::<RunOutcome, ErrorModel>(RunOutcome::ExitCode(code)),
            )
        }),
{
    lemma_verdict_kept(next(s, EventModel::Exited(code)).0, evs);
}

/// When the tool cannot be found the script is removed at once, no relay
/// is ever started, and a finished run reports exactly that the tool is
/// missing.
pub proof fn lemma_missing_tool(s: SessionModel, detail: Seq<char>, evs: Seq<EventModel>)
    requires
        s.phase == Phase::Spawning,
    ensures
        ({
            let (t1, a1) = next(s, EventModel::SpawnFailed(SpawnFailure::NotFound, detail));
            let (t, acts) = run(t1, evs);
            &&& a1 == Action::Unstage
            &&& count(acts, Action::StartRelays) == 0
            &&& t.phase == Phase::Done ==> t.result == Some(
                Err::<RunOutcome, ErrorModel>(ErrorModel::KotlincNotFound),
            )
        }),
{
    lemma_verdict_kept(next(s, EventModel::SpawnFailed(SpawnFailure::NotFound, detail)).0, evs);
}

} // verus!
