//! The benchmark orchestrator.
//!
//! Each scenario runs as a state machine through Generate, Setup,
//! WarmUp, Measure and Report, terminal on Done or on any failure,
//! with no retry anywhere.  Generation and reporting are the
//! library's own work; setup, warm-up and the timed boundary calls
//! belong to outside collaborators, so the machine hands the driver
//! an action, consumes the outcome as an event, and every decision
//! in between is verified: a failed setup is terminal before any
//! measurement, and a non-success status from a boundary call stops
//! the scenario on the spot.

use vstd::prelude::*;
use crate::block_size::EntryPoint;
use crate::report::{aggregate, spec_sum_ns, BenchmarkResult};
use crate::scenario::{lemma_plan_wf_bounds, plan, plan_wf, spec_plan, spec_plan_error,
    spec_plan_ok, Plan, Scenario};
use crate::status::{BenchError, BoundaryStatus};
use crate::workload::{choose_query_key, generate_corpus, generate_oram_requests, generate_pairs,
    setup_oram, spec_synthetic_byte, Corpus};

verus! {

/// The phases of one scenario run, in order; `Done` and `Failed` are
/// terminal.
#[derive(Clone, Copy, Debug, PartialEq, Eq, Structural)]
pub enum Phase {
    Generate,
    Setup,
    WarmUp,
    Measure,
    Report,
    Done,
    Failed,
}

/// The mathematical state of a scenario run.
#[verifier::ext_equal]
pub struct RunModel {
    pub plan: Plan,
    pub phase: Phase,
    pub setup_ok: bool,
    pub calls_done: int,
    pub timings: Seq<u64>,
    pub failure: Option<BenchError>,
}

/// One scenario run.
pub struct ScenarioRun {
    plan: Plan,
    phase: Phase,
    setup_ok: bool,
    calls_done: usize,
    timings: Vec<u64>,
    failure: Option<BenchError>,
}

impl View for ScenarioRun {
    type V = RunModel;

    closed spec fn view(&self) -> RunModel {
        RunModel {
            plan: self.plan,
            phase: self.phase,
            setup_ok: self.setup_ok,
            calls_done: self.calls_done as int,
            timings: self.timings@,
            failure: self.failure,
        }
    }
}

/// What a driver reports back after performing an action.
#[derive(Clone, Copy, Debug)]
pub enum BenchEvent {
    /// The structure factory finished (or failed to finish) building
    /// the client/server pair and registering its handles.
    SetupFinished { ok: bool },
    /// The warm-up lookups ran.
    WarmUpFinished,
    /// One boundary call returned, with its status and the elapsed
    /// wall-clock time around the call.
    CallFinished { status: BoundaryStatus, elapsed_ns: u64 },
}

/// What the machine asks the driver to do next.
#[derive(Clone, Copy, Debug, PartialEq, Eq, Structural)]
pub enum BenchAction {
    /// Call [`generate`].
    PerformGenerate,
    /// Build the oblivious structure with this factory capacity.
    PerformSetup { capacity: usize },
    /// Run this many non-timed lookups.
    PerformWarmUp { reps: usize },
    /// Issue boundary call number `index` (zero-based) of the
    /// scenario's entry point, timing it.
    IssueCall { entry_point: EntryPoint, index: usize },
    /// Call [`report`].
    EmitReport,
    /// The run is terminal; do nothing further.
    Halt,
}

/// The state a fresh run starts in.
pub open spec fn spec_init(p: Plan) -> RunModel {
    RunModel {
        plan: p,
        phase: Phase::Generate,
        setup_ok: false,
        calls_done: 0,
        timings: Seq::empty(),
        failure: None,
    }
}

/// The transition function for driver-reported events.  A successful
/// setup proceeds to warm-up only when the plan asks for any; a
/// failed setup is terminal and recorded as the setup-failure error.  A successful call records its time and
/// leaves Measure once the planned calls are done; a non-success
/// status is terminal and records the boundary error.  Events that do
/// not belong to the current phase change nothing, and the terminal
/// phases absorb every event.
pub open spec fn spec_step(m: RunModel, e: BenchEvent) -> RunModel {
    match (m.phase, e) {
        (Phase::Setup, BenchEvent::SetupFinished { ok }) => if ok {
            RunModel {
                phase: if m.plan.warm_up_reps > 0 {
                    Phase::WarmUp
                } else {
                    Phase::Measure
                },
                setup_ok: true,
                ..m
            }
        } else {
            RunModel { phase: Phase::Failed, failure: Some(BenchError::SetupFailure), ..m }
        },
        (Phase::WarmUp, BenchEvent::WarmUpFinished) => RunModel { phase: Phase::Measure, ..m },
        (Phase::Measure, BenchEvent::CallFinished { status, elapsed_ns }) => if status
            == BoundaryStatus::Success {
            RunModel {
                phase: if m.calls_done + 1 == m.plan.n_calls {
                    Phase::Report
                } else {
                    Phase::Measure
                },
                calls_done: m.calls_done + 1,
                timings: m.timings.push(elapsed_ns),
                ..m
            }
        } else {
            RunModel {
                phase: Phase::Failed,
                failure: Some(BenchError::BoundaryCall { status }),
                ..m
            }
        },
        _ => m,
    }
}

/// The action each state asks of the driver.
pub open spec fn spec_action(m: RunModel) -> BenchAction {
    match m.phase {
        Phase::Generate => BenchAction::PerformGenerate,
        Phase::Setup => BenchAction::PerformSetup { capacity: m.plan.capacity },
        Phase::WarmUp => BenchAction::PerformWarmUp { reps: m.plan.warm_up_reps },
        Phase::Measure => BenchAction::IssueCall {
            entry_point: m.plan.entry_point,
            index: m.calls_done as usize,
        },
        Phase::Report => BenchAction::EmitReport,
        Phase::Done => BenchAction::Halt,
        Phase::Failed => BenchAction::Halt,
    }
}

/// The run invariant: phases appear in order, measurement happens
/// only after a successful setup, one timing is recorded per
/// completed call, and a failed run carries its error.
pub open spec fn run_wf(m: RunModel) -> bool {
    &&& plan_wf(m.plan)
    &&& 0 <= m.calls_done <= m.plan.n_calls
    &&& m.timings.len() == m.calls_done
    &&& (m.phase == Phase::Generate ==> m.calls_done == 0 && !m.setup_ok && m.failure is None)
    &&& (m.phase == Phase::Setup ==> m.calls_done == 0 && !m.setup_ok && m.failure is None)
    &&& (m.phase == Phase::WarmUp ==> m.setup_ok && m.calls_done == 0 && m.failure is None)
    &&& (m.phase == Phase::Measure ==> m.setup_ok && m.calls_done < m.plan.n_calls && m.failure
        is None)
    &&& (m.phase == Phase::Report ==> m.setup_ok && m.calls_done == m.plan.n_calls && m.failure
        is None)
    &&& (m.phase == Phase::Done ==> m.setup_ok && m.calls_done == m.plan.n_calls && m.failure
        is None)
    &&& (m.phase == Phase::Failed ==> m.failure is Some)
}

/// Each event step preserves the run invariant.
pub proof fn lemma_step_preserves_wf(m: RunModel, e: BenchEvent)
    requires
        run_wf(m),
    ensures
        run_wf(spec_step(m, e)),
{
    lemma_plan_wf_bounds(m.plan);
}

/// The state after feeding a whole event sequence.
pub open spec fn spec_run(m: RunModel, es: Seq<BenchEvent>) -> RunModel
    decreases es.len(),
{
    if es.len() == 0 {
        m
    } else {
        spec_run(spec_step(m, es[0]), es.drop_first())
    }
}

/// A terminal state absorbs every further event unchanged.
pub proof fn lemma_terminal_absorbing(m: RunModel, es: Seq<BenchEvent>)
    requires
        m.phase == Phase::Failed || m.phase == Phase::Done,
    ensures
        spec_run(m, es) == m,
    decreases es.len(),
{
    if es.len() > 0 {
        lemma_terminal_absorbing(m, es.drop_first());
    }
}

/// Law: a scenario that fails its Setup phase never reaches Measure
/// or Report.  The failed step is terminal, and along every possible
/// continuation the run stays failed — no call is ever issued and no
/// timing recorded.
pub proof fn lemma_setup_failure_never_measures(m: RunModel, es: Seq<BenchEvent>)
    requires
        m.phase == Phase::Setup,
    ensures
        ({
            let failed = spec_step(m, BenchEvent::SetupFinished { ok: false });
            &&& failed.phase == Phase::Failed
            &&& failed.failure == Some(BenchError::SetupFailure)
            &&& forall|k: int|
                0 <= k <= es.len() ==> (#[trigger] spec_run(failed, es.take(k))).phase
                    == Phase::Failed && spec_run(failed, es.take(k)).timings == m.timings
        }),
{
    let failed = spec_step(m, BenchEvent::SetupFinished { ok: false });
    assert forall|k: int|
        0 <= k <= es.len() implies (#[trigger] spec_run(failed, es.take(k))).phase == Phase::Failed
        && spec_run(failed, es.take(k)).timings == m.timings by {
        lemma_terminal_absorbing(failed, es.take(k));
    };
}

/// Law: a boundary call that returns a non-success status stops the
/// scenario.  The step is terminal with the call's status recorded
/// as the failure, and along every possible continuation the machine
/// demands no further call: its action stays `Halt` and the call
/// count never moves again.
pub proof fn lemma_boundary_failure_halts(
    m: RunModel,
    status: BoundaryStatus,
    elapsed_ns: u64,
    es: Seq<BenchEvent>,
)
    requires
        m.phase == Phase::Measure,
        status != BoundaryStatus::Success,
    ensures
        ({
            let failed = spec_step(m, BenchEvent::CallFinished { status, elapsed_ns });
            &&& failed.phase == Phase::Failed
            &&& failed.failure == Some(BenchError::BoundaryCall { status })
            &&& failed.calls_done == m.calls_done
            &&& forall|k: int|
                0 <= k <= es.len() ==> spec_action(
                    #[trigger] spec_run(failed, es.take(k)),
                ) == BenchAction::Halt && spec_run(failed, es.take(k)).calls_done == m.calls_done
        }),
{
    let failed = spec_step(m, BenchEvent::CallFinished { status, elapsed_ns });
    assert forall|k: int|
        0 <= k <= es.len() implies spec_action(#[trigger] spec_run(failed, es.take(k)))
        == BenchAction::Halt && spec_run(failed, es.take(k)).calls_done == m.calls_done by {
        lemma_terminal_absorbing(failed, es.take(k));
    };
}

/// Law: measurement issues exactly the planned number of boundary
/// calls.  A run in Measure that observes one successful call
/// outcome per remaining planned call ends in Report — not before,
/// not beyond — with the call count at the plan's total and one
/// recorded timing per call, in order.
pub proof fn lemma_measure_completes_after_planned_calls(m: RunModel, times: Seq<u64>)
    requires
        run_wf(m),
        m.phase == Phase::Measure,
        times.len() == m.plan.n_calls - m.calls_done,
    ensures
        ({
            let f = spec_run(
                m,
                times.map_values(
                    |t: u64| BenchEvent::CallFinished {
                        status: BoundaryStatus::Success,
                        elapsed_ns: t,
                    },
                ),
            );
            &&& f.phase == Phase::Report
            &&& f.calls_done == m.plan.n_calls
            &&& f.timings == m.timings + times
        }),
    decreases times.len(),
{
    let events = times.map_values(
        |t: u64| BenchEvent::CallFinished { status: BoundaryStatus::Success, elapsed_ns: t },
    );
    let m1 = spec_step(m, events[0]);
    lemma_step_preserves_wf(m, events[0]);
    if times.len() == 1 {
        assert(spec_run(m1, events.drop_first()) == m1);
        assert(m1.timings =~= m.timings + times);
    } else {
        lemma_measure_completes_after_planned_calls(m1, times.drop_first());
        assert(times.drop_first().map_values(
            |t: u64| BenchEvent::CallFinished { status: BoundaryStatus::Success, elapsed_ns: t },
        ) =~= events.drop_first());
        assert(m1.timings + times.drop_first() =~= m.timings + times);
    }
}

/// Start a run on an accepted plan.
pub fn start(p: Plan) -> (r: ScenarioRun)
    requires
        plan_wf(p),
    ensures
        r@ == spec_init(p),
        run_wf(r@),
{
    let r = ScenarioRun {
        plan: p,
        phase: Phase::Generate,
        setup_ok: false,
        calls_done: 0,
        timings: Vec::new(),
        failure: None,
    };
    proof {
        assert(r@ =~= spec_init(p));
    }
    r
}

/// Advance the run by one driver-reported event.
pub fn step(run: &mut ScenarioRun, event: BenchEvent)
    requires
        run_wf(old(run)@),
    ensures
        final(run)@ == spec_step(old(run)@, event),
        run_wf(final(run)@),
{
    proof {
        lemma_step_preserves_wf(old(run)@, event);
        lemma_plan_wf_bounds(old(run)@.plan);
    }
    match (run.phase, event) {
        (Phase::Setup, BenchEvent::SetupFinished { ok }) => {
            if ok {
                run.phase = if run.plan.warm_up_reps > 0 {
                    Phase::WarmUp
                } else {
                    Phase::Measure
                };
                run.setup_ok = true;
            } else {
                run.phase = Phase::Failed;
                run.failure = Some(BenchError::SetupFailure);
            }
        },
        (Phase::WarmUp, BenchEvent::WarmUpFinished) => {
            run.phase = Phase::Measure;
        },
        (Phase::Measure, BenchEvent::CallFinished { status, elapsed_ns }) => {
            if status.is_success() {
                run.calls_done = run.calls_done + 1;
                run.timings.push(elapsed_ns);
                run.phase = if run.calls_done == run.plan.n_calls {
                    Phase::Report
                } else {
                    Phase::Measure
                };
            } else {
                run.phase = Phase::Failed;
                run.failure = Some(BenchError::BoundaryCall { status });
            }
        },
        _ => {},
    }
    proof {
        assert(run@ =~= spec_step(old(run)@, event));
    }
}

/// What the driver must do in the current state.
pub fn next_action(run: &ScenarioRun) -> (a: BenchAction)
    ensures
        a == spec_action(run@),
{
    match run.phase {
        Phase::Generate => BenchAction::PerformGenerate,
        Phase::Setup => BenchAction::PerformSetup { capacity: run.plan.capacity },
        Phase::WarmUp => BenchAction::PerformWarmUp { reps: run.plan.warm_up_reps },
        Phase::Measure => BenchAction::IssueCall {
            entry_point: run.plan.entry_point,
            index: run.calls_done,
        },
        Phase::Report => BenchAction::EmitReport,
        Phase::Done => BenchAction::Halt,
        Phase::Failed => BenchAction::Halt,
    }
}

/// The error a failed run carries, if any.
pub fn failure(run: &ScenarioRun) -> (r: Option<BenchError>)
    ensures
        r == run@.failure,
{
    run.failure
}

/// The plan the run is committed to.
pub fn current_plan(run: &ScenarioRun) -> (p: Plan)
    ensures
        p == run@.plan,
{
    run.plan
}

/// The encoding width of the plan's resolved handlers (0 when the
/// scenario is not block-size-parameterized).
pub open spec fn spec_plan_width(p: Plan) -> usize {
    match p.handlers {
        Some(h) => h.encoding_width,
        None => 0,
    }
}

/// Everything the Generate phase produced for one scenario.
pub struct GeneratedWorkload {
    /// The corpus the structure factory is seeded with.
    pub corpus: Corpus,
    /// The (key, value) pairs the mutation calls cross with: fresh
    /// draws for the insert scenarios, existing corpus pairs for the
    /// delete sweep.
    pub mutation_pairs: Vec<(u64, u64)>,
    /// The query key for search scenarios, drawn from the corpus.
    pub query_key: Option<u64>,
    /// Logical block keys for the ORAM request slice.
    pub oram_keys: Vec<u64>,
    /// The initial ORAM data map for the ORAM scenarios.
    pub oram_data: Vec<(u64, Vec<u8>)>,
}

/// First `n` pairs of a corpus, for the delete sweep's mutation
/// targets.
fn take_pairs(v: &Vec<(u64, u64)>, n: usize) -> (r: Vec<(u64, u64)>)
    requires
        n <= v@.len(),
    ensures
        r@ == v@.take(n as int),
{
    let mut out: Vec<(u64, u64)> = Vec::new();
    let mut i: usize = 0;
    while i < n
        invariant
            i <= n <= v@.len(),
            out@ == v@.take(i as int),
        decreases n - i,
    {
        let p = v[i];
        out.push(p);
        proof {
            assert(out@ =~= v@.take(i + 1));
        }
        i = i + 1;
    }
    out
}

/// Run the Generate phase: produce the scenario's whole workload and
/// advance to Setup.  The corpus has exactly the planned number of
/// key groups and fan-out; the query key of a search scenario comes
/// from the corpus's actual key set; the delete sweep's mutation
/// pairs are the corpus's own first pairs, every other mutation pair
/// is a fresh draw; and the ORAM scenarios get in-range request keys
/// and a consecutively-keyed synthetic data map.
pub fn generate(run: &mut ScenarioRun) -> (w: GeneratedWorkload)
    requires
        run_wf(old(run)@),
        old(run)@.phase == Phase::Generate,
    ensures
        final(run)@ == (RunModel { phase: Phase::Setup, ..old(run)@ }),
        run_wf(final(run)@),
        w.corpus.wf(),
        w.corpus.keys@.len() == old(run)@.plan.corpus_groups,
        w.corpus.vals_per_key == old(run)@.plan.vals_per_key,
        w.corpus.pairs@.len() == old(run)@.plan.corpus_groups * old(run)@.plan.vals_per_key,
        match old(run)@.plan.scenario {
            Scenario::RangeSearch { .. } => w.query_key matches Some(k) && w.corpus.has_key(k),
            _ => w.query_key is None,
        },
        match old(run)@.plan.scenario {
            Scenario::SingleDelete { initial_size, n_keys } => w.mutation_pairs@
                == w.corpus.pairs@.take(n_keys as int),
            _ => w.mutation_pairs@.len() == old(run)@.plan.fresh_pairs,
        },
        match old(run)@.plan.scenario {
            Scenario::PositionMapReset { .. } | Scenario::OramAccess { .. } => {
                &&& w.oram_keys@.len() == old(run)@.plan.trials
                &&& forall|i: int|
                    0 <= i < w.oram_keys@.len() ==> #[trigger] w.oram_keys@[i] < old(
                        run,
                    )@.plan.oram_items
                &&& w.oram_data@.len() == old(run)@.plan.oram_items
                &&& forall|i: int|
                    0 <= i < w.oram_data@.len() ==> (#[trigger] w.oram_data@[i]).0 == i
                        && w.oram_data@[i].1@ == Seq::new(
                        spec_plan_width(old(run)@.plan) as nat,
                        |j: int| spec_synthetic_byte(i as u64),
                    )
            },
            _ => w.oram_keys@.len() == 0 && w.oram_data@.len() == 0,
        },
{
    proof {
        lemma_plan_wf_bounds(run.plan);
    }
    let corpus = generate_corpus(run.plan.corpus_groups, run.plan.vals_per_key);
    let mut mutation_pairs: Vec<(u64, u64)> = Vec::new();
    let mut query_key: Option<u64> = None;
    let mut oram_keys: Vec<u64> = Vec::new();
    let mut oram_data: Vec<(u64, Vec<u8>)> = Vec::new();
    match run.plan.scenario {
        Scenario::RangeSearch { n_keys, vals_per_key, range } => {
            proof {
                assert(corpus.pairs@.len() > 0) by (nonlinear_arith)
                    requires
                        corpus.pairs@.len() == corpus.keys@.len() * corpus.vals_per_key,
                        corpus.keys@.len() > 0,
                        corpus.vals_per_key > 0,
                ;
            }
            query_key = match choose_query_key(&corpus) {
                Ok(k) => Some(k),
                Err(_) => {
                    proof {
                        assert(false);
                    }
                    None
                },
            };
        },
        Scenario::BulkInsert { initial_size, n_keys } => {
            mutation_pairs = generate_pairs(n_keys);
        },
        Scenario::SingleInsert { initial_size, n_keys } => {
            mutation_pairs = generate_pairs(n_keys);
        },
        Scenario::SingleDelete { initial_size, n_keys } => {
            proof {
                assert(corpus.pairs@.len() == initial_size) by (nonlinear_arith)
                    requires
                        corpus.pairs@.len() == corpus.keys@.len() * corpus.vals_per_key,
                        corpus.keys@.len() == initial_size,
                        corpus.vals_per_key == 1,
                ;
            }
            mutation_pairs = take_pairs(&corpus.pairs, n_keys);
        },
        Scenario::PositionMapReset { initial_size } => {
            let width = match run.plan.handlers {
                Some(h) => h.encoding_width,
                None => 0,
            };
            oram_keys = generate_oram_requests(run.plan.oram_items as u64, run.plan.trials);
            oram_data = setup_oram(run.plan.oram_items as u64, width);
        },
        Scenario::OramAccess { initial_size, block_size } => {
            let width = match run.plan.handlers {
                Some(h) => h.encoding_width,
                None => 0,
            };
            oram_keys = generate_oram_requests(run.plan.oram_items as u64, run.plan.trials);
            oram_data = setup_oram(run.plan.oram_items as u64, width);
        },
    }
    run.phase = Phase::Setup;
    proof {
        assert(run@ =~= (RunModel { phase: Phase::Setup, ..old(run)@ }));
    }
    GeneratedWorkload { corpus, mutation_pairs, query_key, oram_keys, oram_data }
}

/// Run the Report phase: aggregate the recorded timings into the
/// scenario's result — average nanoseconds per operation as the
/// timing total divided by the planned trial count, plus the whole
/// per-call sequence for per-key sweeps — and finish the run.
pub fn report(run: &mut ScenarioRun) -> (r: BenchmarkResult)
    requires
        run_wf(old(run)@),
        old(run)@.phase == Phase::Report,
    ensures
        final(run)@ == (RunModel { phase: Phase::Done, ..old(run)@ }),
        run_wf(final(run)@),
        r.scenario == old(run)@.plan.scenario,
        r.trials == old(run)@.plan.trials,
        r.avg_ns == spec_sum_ns(old(run)@.timings) / (old(run)@.plan.trials as int),
        old(run)@.plan.per_call_timing ==> r.per_call_ns@ == old(run)@.timings,
        !old(run)@.plan.per_call_timing ==> r.per_call_ns@ == Seq::<u64>::empty(),
{
    proof {
        lemma_plan_wf_bounds(run.plan);
    }
    let result = aggregate(
        run.plan.scenario,
        run.plan.trials,
        run.plan.per_call_timing,
        &run.timings,
    );
    run.phase = Phase::Done;
    proof {
        assert(run@ =~= (RunModel { phase: Phase::Done, ..old(run)@ }));
    }
    result
}

/// Prepare the repeated-range-lookup scenario: `n_keys` corpus keys
/// with `vals_per_key` values each, one timed boundary call
/// performing the planned number of lookups of one corpus key.
pub fn search(n_keys: usize, vals_per_key: usize, range: usize) -> (r: Result<
    ScenarioRun,
    BenchError,
>)
    ensures
        r is Ok <==> spec_plan_ok(Scenario::RangeSearch { n_keys, vals_per_key, range }),
        r matches Ok(run) ==> run@ == spec_init(
            spec_plan(Scenario::RangeSearch { n_keys, vals_per_key, range }),
        ) && run_wf(run@),
        r matches Err(e) ==> e == spec_plan_error(
            Scenario::RangeSearch { n_keys, vals_per_key, range },
        ),
{
    match plan(Scenario::RangeSearch { n_keys, vals_per_key, range }) {
        Ok(p) => Ok(start(p)),
        Err(e) => Err(e),
    }
}

/// Prepare the batched-insert scenario: one timed boundary call
/// inserting `n_keys` fresh pairs into a map seeded with
/// `initial_size` pairs and built with double that capacity.
pub fn insert_many(initial_size: usize, n_keys: usize) -> (r: Result<ScenarioRun, BenchError>)
    ensures
        r is Ok <==> spec_plan_ok(Scenario::BulkInsert { initial_size, n_keys }),
        r matches Ok(run) ==> run@ == spec_init(
            spec_plan(Scenario::BulkInsert { initial_size, n_keys }),
        ) && run_wf(run@),
        r matches Err(e) ==> e == spec_plan_error(Scenario::BulkInsert { initial_size, n_keys }),
{
    match plan(Scenario::BulkInsert { initial_size, n_keys }) {
        Ok(p) => Ok(start(p)),
        Err(e) => Err(e),
    }
}

/// Prepare the single-insert sweep: `n_keys` timed boundary calls,
/// one per fresh pair, against a map seeded with `initial_size`
/// pairs and built with double that capacity as growth headroom.
pub fn insert_one(initial_size: usize, n_keys: usize) -> (r: Result<ScenarioRun, BenchError>)
    ensures
        r is Ok <==> spec_plan_ok(Scenario::SingleInsert { initial_size, n_keys }),
        r matches Ok(run) ==> run@ == spec_init(
            spec_plan(Scenario::SingleInsert { initial_size, n_keys }),
        ) && run_wf(run@),
        r matches Err(e) ==> e == spec_plan_error(Scenario::SingleInsert { initial_size, n_keys }),
{
    match plan(Scenario::SingleInsert { initial_size, n_keys }) {
        Ok(p) => Ok(start(p)),
        Err(e) => Err(e),
    }
}

/// Prepare the single-delete sweep: `n_keys` timed boundary calls,
/// one per existing corpus pair.
pub fn delete_one(initial_size: usize, n_keys: usize) -> (r: Result<ScenarioRun, BenchError>)
    ensures
        r is Ok <==> spec_plan_ok(Scenario::SingleDelete { initial_size, n_keys }),
        r matches Ok(run) ==> run@ == spec_init(
            spec_plan(Scenario::SingleDelete { initial_size, n_keys }),
        ) && run_wf(run@),
        r matches Err(e) ==> e == spec_plan_error(Scenario::SingleDelete { initial_size, n_keys }),
{
    match plan(Scenario::SingleDelete { initial_size, n_keys }) {
        Ok(p) => Ok(start(p)),
        Err(e) => Err(e),
    }
}

/// Prepare the position-map-reset exercise over the 8-byte ORAM
/// specialization.
pub fn zerotrace(initial_size: usize) -> (r: Result<ScenarioRun, BenchError>)
    ensures
        r is Ok <==> spec_plan_ok(Scenario::PositionMapReset { initial_size }),
        r matches Ok(run) ==> run@ == spec_init(
            spec_plan(Scenario::PositionMapReset { initial_size }),
        ) && run_wf(run@),
        r matches Err(e) ==> e == spec_plan_error(Scenario::PositionMapReset { initial_size }),
{
    match plan(Scenario::PositionMapReset { initial_size }) {
        Ok(p) => Ok(start(p)),
        Err(e) => Err(e),
    }
}

/// Prepare the generic ORAM access exercise at a requested block
/// size; a size outside the closed variant set is rejected up front
/// with the dispatch error.
pub fn doram(initial_size: usize, block_size: usize) -> (r: Result<ScenarioRun, BenchError>)
    ensures
        r is Ok <==> spec_plan_ok(Scenario::OramAccess { initial_size, block_size }),
        r matches Ok(run) ==> run@ == spec_init(
            spec_plan(Scenario::OramAccess { initial_size, block_size }),
        ) && run_wf(run@),
        r matches Err(e) ==> e == spec_plan_error(Scenario::OramAccess { initial_size, block_size }),
{
    match plan(Scenario::OramAccess { initial_size, block_size }) {
        Ok(p) => Ok(start(p)),
        Err(e) => Err(e),
    }
}

} // verus!
