//! Benchmark scenarios and their plans.
//!
//! A scenario names one benchmark shape with its numeric parameters.
//! Planning validates the parameters and fixes, up front, everything
//! the state machine will do: how much workload to generate, the
//! factory capacity to request, how many boundary calls the Measure
//! phase issues, and what the elapsed time is divided by in Report.

use vstd::prelude::*;
use crate::block_size::{resolve, supported_block_size, EntryPoint, VariantHandlers};
use crate::status::BenchError;

verus! {

/// Repeated range lookups the range-search entry point performs
/// inside one boundary call, and the divisor for its average.
pub const RANGE_SEARCH_READS: usize = 2000;

/// ORAM requests per position-map-reset or block-access call.
pub const ORAM_READS: usize = 1000;

/// Non-timed lookups performed before measuring a search scenario,
/// to populate working-set state and avoid first-access skew.
pub const WARM_UP_REPS: usize = 30000;

/// One benchmark scenario with its parameters.
#[derive(Clone, Copy, Debug, PartialEq, Eq, Structural)]
pub enum Scenario {
    /// Repeated range lookups for one key drawn from a corpus of
    /// `n_keys` keys with `vals_per_key` values each.
    RangeSearch { n_keys: usize, vals_per_key: usize, range: usize },
    /// One batched insert of `n_keys` fresh pairs into a map of
    /// `initial_size` pairs.
    BulkInsert { initial_size: usize, n_keys: usize },
    /// `n_keys` single-pair inserts, timed one by one, into a map of
    /// `initial_size` pairs built with growth headroom.
    SingleInsert { initial_size: usize, n_keys: usize },
    /// `n_keys` single-pair deletes of existing pairs, timed one by
    /// one.
    SingleDelete { initial_size: usize, n_keys: usize },
    /// Position-map reset and re-derivation over the 8-byte ORAM
    /// specialization.
    PositionMapReset { initial_size: usize },
    /// Raw ORAM access at a requested block size.
    OramAccess { initial_size: usize, block_size: usize },
}

/// Everything a scenario run is committed to before it starts.
#[derive(Clone, Copy, Debug)]
pub struct Plan {
    pub scenario: Scenario,
    /// The boundary entry point Measure invokes.
    pub entry_point: EntryPoint,
    /// Key groups the corpus generator draws.
    pub corpus_groups: usize,
    /// Values generated per key group.
    pub vals_per_key: usize,
    /// Fresh (key, value) pairs generated apart from the corpus.
    pub fresh_pairs: usize,
    /// Capacity requested from the structure factory.
    pub capacity: usize,
    /// Non-timed lookups before Measure (0 skips WarmUp).
    pub warm_up_reps: usize,
    /// Boundary calls Measure issues.
    pub n_calls: usize,
    /// Operations the total elapsed time is divided by.
    pub trials: usize,
    /// Report a per-call timing sequence rather than one batch time.
    pub per_call_timing: bool,
    /// Resolved block-size handlers, for the ORAM scenarios.
    pub handlers: Option<VariantHandlers>,
    /// Logical blocks in the ORAM under test (0 for map scenarios).
    pub oram_items: usize,
}

/// Whether a scenario's parameters are acceptable: no zero-sized
/// corpus or zero-length sweep, no corpus or capacity beyond the
/// address space, deletes only of pairs that exist, and a block size
/// from the closed variant set.
pub open spec fn spec_plan_ok(s: Scenario) -> bool {
    match s {
        Scenario::RangeSearch { n_keys, vals_per_key, range } => {
            &&& n_keys > 0
            &&& vals_per_key > 0
            &&& n_keys * vals_per_key <= usize::MAX
        },
        Scenario::BulkInsert { initial_size, n_keys } => {
            &&& initial_size > 0
            &&& n_keys > 0
            &&& initial_size * 2 <= usize::MAX
        },
        Scenario::SingleInsert { initial_size, n_keys } => {
            &&& initial_size > 0
            &&& n_keys > 0
            &&& initial_size * 2 <= usize::MAX
        },
        Scenario::SingleDelete { initial_size, n_keys } => {
            &&& initial_size > 0
            &&& n_keys > 0
            &&& n_keys <= initial_size
        },
        Scenario::PositionMapReset { initial_size } => initial_size > 0,
        Scenario::OramAccess { initial_size, block_size } => {
            &&& supported_block_size(block_size)
            &&& initial_size > 0
        },
    }
}

/// The error a rejected scenario reports: the dispatch error for a
/// block size outside the variant set, a configuration error for
/// everything else.
pub open spec fn spec_plan_error(s: Scenario) -> BenchError {
    match s {
        Scenario::OramAccess { initial_size, block_size } => if !supported_block_size(
            block_size,
        ) {
            BenchError::UnsupportedBlockSize { requested: block_size }
        } else {
            BenchError::Configuration
        },
        _ => BenchError::Configuration,
    }
}

/// The handlers an ORAM scenario runs with: the 8-byte variant for
/// the position-map reset, the requested size otherwise.
pub open spec fn spec_plan_handlers(s: Scenario) -> Option<VariantHandlers> {
    match s {
        Scenario::PositionMapReset { .. } => Some(
            VariantHandlers {
                variant: crate::block_size::BlockSizeVariant::B8,
                entry_point: EntryPoint::GenericBlockAccess,
                encoding_width: 8,
            },
        ),
        Scenario::OramAccess { initial_size, block_size } => if supported_block_size(block_size) {
            Some(
                VariantHandlers {
                    variant: crate::block_size::spec_variant_for(block_size),
                    entry_point: EntryPoint::GenericBlockAccess,
                    encoding_width: block_size,
                },
            )
        } else {
            None
        },
        _ => None,
    }
}

/// The plan an accepted scenario is committed to.
pub open spec fn spec_plan(s: Scenario) -> Plan {
    match s {
        Scenario::RangeSearch { n_keys, vals_per_key, range } => Plan {
            scenario: s,
            entry_point: EntryPoint::RangeSearch,
            corpus_groups: n_keys,
            vals_per_key: vals_per_key,
            fresh_pairs: 0,
            capacity: (n_keys * vals_per_key) as usize,
            warm_up_reps: WARM_UP_REPS,
            n_calls: 1,
            trials: RANGE_SEARCH_READS,
            per_call_timing: false,
            handlers: None,
            oram_items: 0,
        },
        Scenario::BulkInsert { initial_size, n_keys } => Plan {
            scenario: s,
            entry_point: EntryPoint::BulkInsert,
            corpus_groups: initial_size,
            vals_per_key: 1,
            fresh_pairs: n_keys,
            capacity: (initial_size * 2) as usize,
            warm_up_reps: 0,
            n_calls: 1,
            trials: n_keys,
            per_call_timing: false,
            handlers: None,
            oram_items: 0,
        },
        Scenario::SingleInsert { initial_size, n_keys } => Plan {
            scenario: s,
            entry_point: EntryPoint::SingleInsert,
            corpus_groups: initial_size,
            vals_per_key: 1,
            fresh_pairs: n_keys,
            capacity: (initial_size * 2) as usize,
            warm_up_reps: 0,
            n_calls: n_keys,
            trials: n_keys,
            per_call_timing: true,
            handlers: None,
            oram_items: 0,
        },
        Scenario::SingleDelete { initial_size, n_keys } => Plan {
            scenario: s,
            entry_point: EntryPoint::SingleDelete,
            corpus_groups: initial_size,
            vals_per_key: 1,
            fresh_pairs: 0,
            capacity: initial_size,
            warm_up_reps: 0,
            n_calls: n_keys,
            trials: n_keys,
            per_call_timing: true,
            handlers: None,
            oram_items: 0,
        },
        Scenario::PositionMapReset { initial_size } => Plan {
            scenario: s,
            entry_point: EntryPoint::PositionMapReset,
            corpus_groups: 0,
            vals_per_key: 1,
            fresh_pairs: 0,
            capacity: initial_size,
            warm_up_reps: 0,
            n_calls: 1,
            trials: ORAM_READS,
            per_call_timing: false,
            handlers: spec_plan_handlers(s),
            oram_items: initial_size,
        },
        Scenario::OramAccess { initial_size, block_size } => Plan {
            scenario: s,
            entry_point: EntryPoint::GenericBlockAccess,
            corpus_groups: 0,
            vals_per_key: 1,
            fresh_pairs: 0,
            capacity: initial_size,
            warm_up_reps: 0,
            n_calls: 1,
            trials: ORAM_READS,
            per_call_timing: false,
            handlers: spec_plan_handlers(s),
            oram_items: initial_size,
        },
    }
}

/// What the state machine relies on of every accepted plan.
pub open spec fn plan_wf(p: Plan) -> bool {
    &&& spec_plan_ok(p.scenario)
    &&& p == spec_plan(p.scenario)
}

/// Consequences of [`plan_wf`] the machine and the generator use.
pub proof fn lemma_plan_wf_bounds(p: Plan)
    requires
        plan_wf(p),
    ensures
        p.vals_per_key > 0,
        p.trials > 0,
        1 <= p.n_calls <= p.trials,
        p.per_call_timing ==> p.n_calls == p.trials,
        !p.per_call_timing ==> p.n_calls == 1,
        p.corpus_groups * p.vals_per_key <= usize::MAX,
        p.entry_point == EntryPoint::PositionMapReset || p.entry_point
            == EntryPoint::GenericBlockAccess ==> p.handlers is Some && p.oram_items > 0,
{
    match p.scenario {
        Scenario::RangeSearch { n_keys, vals_per_key, range } => {},
        Scenario::BulkInsert { initial_size, n_keys } => {
            assert(initial_size * 1 <= usize::MAX) by (nonlinear_arith)
                requires
                    initial_size * 2 <= usize::MAX,
                    initial_size >= 0,
            ;
        },
        Scenario::SingleInsert { initial_size, n_keys } => {
            assert(initial_size * 1 == initial_size) by (nonlinear_arith);
        },
        Scenario::SingleDelete { initial_size, n_keys } => {
            assert(initial_size * 1 == initial_size) by (nonlinear_arith);
        },
        Scenario::PositionMapReset { initial_size } => {
            assert(0 * 1 == 0) by (nonlinear_arith);
        },
        Scenario::OramAccess { initial_size, block_size } => {
            assert(0 * 1 == 0) by (nonlinear_arith);
        },
    }
}

/// Validate a scenario and commit to its plan.  Accepted exactly on
/// the parameters [`spec_plan_ok`] allows; a rejected scenario
/// reports [`spec_plan_error`]: the dispatch failure for an
/// unsupported block size, the configuration error otherwise.
pub fn plan(s: Scenario) -> (r: Result<Plan, BenchError>)
    ensures
        r is Ok <==> spec_plan_ok(s),
        r matches Ok(p) ==> p == spec_plan(s) && plan_wf(p),
        r matches Err(e) ==> e == spec_plan_error(s),
{
    match s {
        Scenario::RangeSearch { n_keys, vals_per_key, range } => {
            if n_keys == 0 || vals_per_key == 0 {
                return Err(BenchError::Configuration);
            }
            let corpus = match n_keys.checked_mul(vals_per_key) {
                Some(c) => c,
                None => {
                    return Err(BenchError::Configuration);
                },
            };
            Ok(
                Plan {
                    scenario: s,
                    entry_point: EntryPoint::RangeSearch,
                    corpus_groups: n_keys,
                    vals_per_key,
                    fresh_pairs: 0,
                    capacity: corpus,
                    warm_up_reps: WARM_UP_REPS,
                    n_calls: 1,
                    trials: RANGE_SEARCH_READS,
                    per_call_timing: false,
                    handlers: None,
                    oram_items: 0,
                },
            )
        },
        Scenario::BulkInsert { initial_size, n_keys } => {
            if initial_size == 0 || n_keys == 0 {
                return Err(BenchError::Configuration);
            }
            let capacity = match initial_size.checked_mul(2) {
                Some(c) => c,
                None => {
                    return Err(BenchError::Configuration);
                },
            };
            Ok(
                Plan {
                    scenario: s,
                    entry_point: EntryPoint::BulkInsert,
                    corpus_groups: initial_size,
                    vals_per_key: 1,
                    fresh_pairs: n_keys,
                    capacity,
                    warm_up_reps: 0,
                    n_calls: 1,
                    trials: n_keys,
                    per_call_timing: false,
                    handlers: None,
                    oram_items: 0,
                },
            )
        },
        Scenario::SingleInsert { initial_size, n_keys } => {
            if initial_size == 0 || n_keys == 0 {
                return Err(BenchError::Configuration);
            }
            let capacity = match initial_size.checked_mul(2) {
                Some(c) => c,
                None => {
                    return Err(BenchError::Configuration);
                },
            };
            Ok(
                Plan {
                    scenario: s,
                    entry_point: EntryPoint::SingleInsert,
                    corpus_groups: initial_size,
                    vals_per_key: 1,
                    fresh_pairs: n_keys,
                    capacity,
                    warm_up_reps: 0,
                    n_calls: n_keys,
                    trials: n_keys,
                    per_call_timing: true,
                    handlers: None,
                    oram_items: 0,
                },
            )
        },
        Scenario::SingleDelete { initial_size, n_keys } => {
            if initial_size == 0 || n_keys == 0 || n_keys > initial_size {
                return Err(BenchError::Configuration);
            }
            Ok(
                Plan {
                    scenario: s,
                    entry_point: EntryPoint::SingleDelete,
                    corpus_groups: initial_size,
                    vals_per_key: 1,
                    fresh_pairs: 0,
                    capacity: initial_size,
                    warm_up_reps: 0,
                    n_calls: n_keys,
                    trials: n_keys,
                    per_call_timing: true,
                    handlers: None,
                    oram_items: 0,
                },
            )
        },
        Scenario::PositionMapReset { initial_size } => {
            if initial_size == 0 {
                return Err(BenchError::Configuration);
            }
            let handlers = match resolve(8) {
                Ok(h) => h,
                Err(_) => {
                    return Err(BenchError::Configuration);
                },
            };
            Ok(
                Plan {
                    scenario: s,
                    entry_point: EntryPoint::PositionMapReset,
                    corpus_groups: 0,
                    vals_per_key: 1,
                    fresh_pairs: 0,
                    capacity: initial_size,
                    warm_up_reps: 0,
                    n_calls: 1,
                    trials: ORAM_READS,
                    per_call_timing: false,
                    handlers: Some(handlers),
                    oram_items: initial_size,
                },
            )
        },
        Scenario::OramAccess { initial_size, block_size } => {
            let handlers = match resolve(block_size) {
                Ok(h) => h,
                Err(e) => {
                    return Err(e);
                },
            };
            if initial_size == 0 {
                return Err(BenchError::Configuration);
            }
            Ok(
                Plan {
                    scenario: s,
                    entry_point: EntryPoint::GenericBlockAccess,
                    corpus_groups: 0,
                    vals_per_key: 1,
                    fresh_pairs: 0,
                    capacity: initial_size,
                    warm_up_reps: 0,
                    n_calls: 1,
                    trials: ORAM_READS,
                    per_call_timing: false,
                    handlers: Some(handlers),
                    oram_items: initial_size,
                },
            )
        },
    }
}

} // verus!
