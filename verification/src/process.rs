//! The process-level lifecycle machine.
//!
//! One session per process run, with scoped-acquisition discipline:
//! open once after argument parsing, run the selected scenarios
//! sequentially, close exactly once on every exit path — including
//! the path where a scenario fails, which is process-fatal but still
//! releases the environment.  The machine counts opens and closes,
//! so the pairing is a proved invariant, not a convention.

use vstd::prelude::*;

verus! {

/// Where the process stands in its lifecycle.
#[derive(Clone, Copy, Debug, PartialEq, Eq, Structural)]
pub enum ProcessPhase {
    /// Before the session open was attempted.
    Boot,
    /// The session is open and scenarios run sequentially.
    Running,
    /// All scenario work is over (finished or fatal); the session
    /// must still be released.
    Closing,
    /// Terminal: nothing remains to release.
    Finished,
}

/// The lifecycle state: the phase plus acquisition counters.
#[derive(Clone, Copy, Debug, PartialEq, Eq, Structural)]
pub struct ProcessRun {
    pub phase: ProcessPhase,
    /// Successful session opens so far (0 or 1).
    pub opens: u64,
    /// Completed session closes so far (0 or 1).
    pub closes: u64,
    /// The open was attempted and failed.
    pub open_failed: bool,
}

/// What the driver reports back after performing an action.
#[derive(Clone, Copy, Debug, PartialEq, Eq, Structural)]
pub enum ProcessEvent {
    /// The loader instantiated the environment.
    OpenSucceeded,
    /// Instantiation failed; no session exists.
    OpenFailed,
    /// One scenario ran to its end.  `ok` is whether it reported a
    /// result; `more` is whether further scenarios are selected.
    ScenarioFinished { ok: bool, more: bool },
    /// The session was destroyed.
    CloseFinished,
}

/// What the driver must do next.
#[derive(Clone, Copy, Debug, PartialEq, Eq, Structural)]
pub enum ProcessAction {
    /// Attempt to open the session.
    OpenSession,
    /// Run the next selected scenario.
    RunScenario,
    /// Destroy the session.
    CloseSession,
    /// Terminate the process.
    Exit,
}

/// The state every run starts from.
pub open spec fn spec_process_init() -> ProcessRun {
    ProcessRun { phase: ProcessPhase::Boot, opens: 0, closes: 0, open_failed: false }
}

/// The transition function.  A failed scenario and an exhausted
/// scenario list both lead through `Closing`: failure is
/// process-fatal (no further scenario runs) but never skips the
/// close.  An event that does not belong to the current phase
/// changes nothing.
pub open spec fn spec_process_step(s: ProcessRun, e: ProcessEvent) -> ProcessRun {
    match (s.phase, e) {
        (ProcessPhase::Boot, ProcessEvent::OpenSucceeded) => ProcessRun {
            phase: ProcessPhase::Running,
            opens: if s.opens < u64::MAX { (s.opens + 1) as u64 } else { s.opens },
            ..s
        },
        (ProcessPhase::Boot, ProcessEvent::OpenFailed) => ProcessRun {
            phase: ProcessPhase::Finished,
            open_failed: true,
            ..s
        },
        (ProcessPhase::Running, ProcessEvent::ScenarioFinished { ok, more }) => ProcessRun {
            phase: if ok && more { ProcessPhase::Running } else { ProcessPhase::Closing },
            ..s
        },
        (ProcessPhase::Closing, ProcessEvent::CloseFinished) => ProcessRun {
            phase: ProcessPhase::Finished,
            closes: if s.closes < u64::MAX { (s.closes + 1) as u64 } else { s.closes },
            ..s
        },
        _ => s,
    }
}

/// The action each phase asks of the driver.
pub open spec fn spec_process_action(s: ProcessRun) -> ProcessAction {
    match s.phase {
        ProcessPhase::Boot => ProcessAction::OpenSession,
        ProcessPhase::Running => ProcessAction::RunScenario,
        ProcessPhase::Closing => ProcessAction::CloseSession,
        ProcessPhase::Finished => ProcessAction::Exit,
    }
}

/// The acquisition invariant: at most one open, a close only after
/// the open, the session held exactly in `Running` and `Closing`,
/// and a finished run balanced.
pub open spec fn spec_process_wf(s: ProcessRun) -> bool {
    &&& s.opens <= 1
    &&& s.closes <= s.opens
    &&& (s.phase == ProcessPhase::Boot ==> s.opens == 0 && s.closes == 0 && !s.open_failed)
    &&& (s.phase == ProcessPhase::Running ==> s.opens == 1 && s.closes == 0 && !s.open_failed)
    &&& (s.phase == ProcessPhase::Closing ==> s.opens == 1 && s.closes == 0 && !s.open_failed)
    &&& (s.phase == ProcessPhase::Finished ==> s.closes == s.opens && (s.open_failed <==> s.opens
        == 0))
}

/// A whole run: the state after feeding `es` from `s`.
pub open spec fn spec_process_run(s: ProcessRun, es: Seq<ProcessEvent>) -> ProcessRun
    decreases es.len(),
{
    if es.len() == 0 {
        s
    } else {
        spec_process_run(spec_process_step(s, es[0]), es.drop_first())
    }
}

/// Each step preserves the acquisition invariant.
pub proof fn lemma_process_step_preserves_wf(s: ProcessRun, e: ProcessEvent)
    requires
        spec_process_wf(s),
    ensures
        spec_process_wf(spec_process_step(s, e)),
{
}

/// The acquisition invariant holds along any whole run.
pub proof fn lemma_process_run_preserves_wf(s: ProcessRun, es: Seq<ProcessEvent>)
    requires
        spec_process_wf(s),
    ensures
        spec_process_wf(spec_process_run(s, es)),
    decreases es.len(),
{
    if es.len() > 0 {
        lemma_process_step_preserves_wf(s, es[0]);
        lemma_process_run_preserves_wf(spec_process_step(s, es[0]), es.drop_first());
    }
}

/// Law: a failed scenario is process-fatal.  However many scenarios
/// remain selected, the run proceeds to release the session, never
/// to another scenario.
pub proof fn lemma_scenario_failure_is_process_fatal(s: ProcessRun, more: bool)
    requires
        s.phase == ProcessPhase::Running,
    ensures
        spec_process_step(s, ProcessEvent::ScenarioFinished { ok: false, more }).phase
            == ProcessPhase::Closing,
        spec_process_action(
            spec_process_step(s, ProcessEvent::ScenarioFinished { ok: false, more }),
        ) == ProcessAction::CloseSession,
{
}

/// Law: session open and close are exactly-once-paired.  Whatever
/// events a run observes, once it reaches the terminal phase it has
/// closed exactly as often as it opened — once when the open
/// succeeded, never when it failed — on the success path and on
/// every failure path alike.
pub proof fn lemma_session_exactly_once_paired(es: Seq<ProcessEvent>)
    ensures
        ({
            let f = spec_process_run(spec_process_init(), es);
            f.phase == ProcessPhase::Finished ==> f.closes == f.opens && (f.opens == 1
                <==> !f.open_failed)
        }),
{
    lemma_process_run_preserves_wf(spec_process_init(), es);
}

/// Start a run.
pub fn process_start() -> (s: ProcessRun)
    ensures
        s == spec_process_init(),
        spec_process_wf(s),
{
    ProcessRun { phase: ProcessPhase::Boot, opens: 0, closes: 0, open_failed: false }
}

/// Advance the run by one observed event.
pub fn process_step(s: &mut ProcessRun, e: ProcessEvent)
    ensures
        *final(s) == spec_process_step(*old(s), e),
{
    let next = match (s.phase, e) {
        (ProcessPhase::Boot, ProcessEvent::OpenSucceeded) => ProcessRun {
            phase: ProcessPhase::Running,
            opens: if s.opens < u64::MAX { s.opens + 1 } else { s.opens },
            ..*s
        },
        (ProcessPhase::Boot, ProcessEvent::OpenFailed) => ProcessRun {
            phase: ProcessPhase::Finished,
            open_failed: true,
            ..*s
        },
        (ProcessPhase::Running, ProcessEvent::ScenarioFinished { ok, more }) => ProcessRun {
            phase: if ok && more { ProcessPhase::Running } else { ProcessPhase::Closing },
            ..*s
        },
        (ProcessPhase::Closing, ProcessEvent::CloseFinished) => ProcessRun {
            phase: ProcessPhase::Finished,
            closes: if s.closes < u64::MAX { s.closes + 1 } else { s.closes },
            ..*s
        },
        _ => *s,
    };
    *s = next;
}

/// What the driver must do in the current state.
pub fn process_next_action(s: &ProcessRun) -> (a: ProcessAction)
    ensures
        a == spec_process_action(*s),
{
    match s.phase {
        ProcessPhase::Boot => ProcessAction::OpenSession,
        ProcessPhase::Running => ProcessAction::RunScenario,
        ProcessPhase::Closing => ProcessAction::CloseSession,
        ProcessPhase::Finished => ProcessAction::Exit,
    }
}

} // verus!
