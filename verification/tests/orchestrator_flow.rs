use osm_microbenchmarks::block_size::{BlockSizeVariant, EntryPoint};
use osm_microbenchmarks::orchestrator::{
    current_plan, delete_one, doram, failure, generate, insert_many, insert_one, next_action,
    report, search, step, zerotrace, BenchAction, BenchEvent,
};
use osm_microbenchmarks::status::{BenchError, BoundaryStatus};

#[test]
fn bulk_insert_scenario_issues_one_batched_call() {
    // bulk-insert, initial_size=1024, n_keys=10
    let mut run = insert_many(1024, 10).expect("valid parameters");
    let plan = current_plan(&run);
    assert_eq!(plan.corpus_groups, 1024);
    assert_eq!(plan.fresh_pairs, 10);
    assert!(plan.capacity >= 2048);
    assert_eq!(plan.n_calls, 1);
    assert_eq!(plan.trials, 10);

    assert_eq!(next_action(&run), BenchAction::PerformGenerate);
    let w = generate(&mut run);
    assert_eq!(w.corpus.pairs.len(), 1024);
    assert_eq!(w.mutation_pairs.len(), 10);
    assert!(w.query_key.is_none());

    assert_eq!(next_action(&run), BenchAction::PerformSetup { capacity: 2048 });
    step(&mut run, BenchEvent::SetupFinished { ok: true });

    // exactly one boundary call for the whole batch
    assert_eq!(
        next_action(&run),
        BenchAction::IssueCall { entry_point: EntryPoint::BulkInsert, index: 0 }
    );
    step(
        &mut run,
        BenchEvent::CallFinished { status: BoundaryStatus::Success, elapsed_ns: 12340 },
    );
    assert_eq!(next_action(&run), BenchAction::EmitReport);
    let result = report(&mut run);
    // one average-per-key duration: total elapsed divided by 10
    assert_eq!(result.trials, 10);
    assert_eq!(result.avg_ns, 1234);
    assert!(result.per_call_ns.is_empty());
    assert_eq!(next_action(&run), BenchAction::Halt);
}

#[test]
fn single_delete_scenario_issues_one_call_per_pair() {
    // single-delete, initial_size=64, n_keys=5
    let mut run = delete_one(64, 5).expect("valid parameters");
    let plan = current_plan(&run);
    assert_eq!(plan.n_calls, 5);
    assert_eq!(plan.trials, 5);
    assert!(plan.per_call_timing);

    let w = generate(&mut run);
    assert_eq!(w.corpus.pairs.len(), 64);
    // deletes target existing pairs: the corpus's own first five
    assert_eq!(w.mutation_pairs.len(), 5);
    assert_eq!(w.mutation_pairs[..], w.corpus.pairs[..5]);

    step(&mut run, BenchEvent::SetupFinished { ok: true });
    let mut issued = 0usize;
    loop {
        match next_action(&run) {
            BenchAction::IssueCall { entry_point, index } => {
                assert_eq!(entry_point, EntryPoint::SingleDelete);
                assert_eq!(index, issued);
                issued += 1;
                step(
                    &mut run,
                    BenchEvent::CallFinished {
                        status: BoundaryStatus::Success,
                        elapsed_ns: 100 * issued as u64,
                    },
                );
            }
            BenchAction::EmitReport => break,
            other => panic!("unexpected action {:?}", other),
        }
    }
    // exactly 5 boundary calls, one per (key, value) pair
    assert_eq!(issued, 5);
    let result = report(&mut run);
    // the per-key timing sequence has length 5
    assert_eq!(result.per_call_ns, vec![100, 200, 300, 400, 500]);
    assert_eq!(result.avg_ns, (100 + 200 + 300 + 400 + 500) / 5);
}

#[test]
fn setup_failure_never_reaches_measure_or_report() {
    let mut run = insert_one(16, 2).expect("valid parameters");
    let _ = generate(&mut run);
    step(&mut run, BenchEvent::SetupFinished { ok: false });
    assert_eq!(next_action(&run), BenchAction::Halt);
    assert_eq!(failure(&run), Some(BenchError::SetupFailure));
    // whatever is fed afterwards, no measurement or report happens
    for _ in 0..3 {
        step(
            &mut run,
            BenchEvent::CallFinished { status: BoundaryStatus::Success, elapsed_ns: 1 },
        );
        step(&mut run, BenchEvent::WarmUpFinished);
        assert_eq!(next_action(&run), BenchAction::Halt);
    }
}

#[test]
fn single_insert_requests_doubled_capacity() {
    let run = insert_one(512, 4).expect("valid parameters");
    let plan = current_plan(&run);
    assert_eq!(plan.corpus_groups, 512);
    // insert-heavy scenarios leave headroom for growth
    assert_eq!(plan.capacity, 1024);
    assert_eq!(plan.n_calls, 4);
}

#[test]
fn boundary_failure_stops_the_scenario_and_propagates() {
    let mut run = insert_one(8, 3).expect("valid parameters");
    let _ = generate(&mut run);
    step(&mut run, BenchEvent::SetupFinished { ok: true });
    // first call succeeds, second reports a non-success status
    step(
        &mut run,
        BenchEvent::CallFinished { status: BoundaryStatus::Success, elapsed_ns: 10 },
    );
    step(
        &mut run,
        BenchEvent::CallFinished { status: BoundaryStatus::InternalError, elapsed_ns: 10 },
    );
    assert_eq!(next_action(&run), BenchAction::Halt);
    assert_eq!(
        failure(&run),
        Some(BenchError::BoundaryCall { status: BoundaryStatus::InternalError })
    );
    // no further calls are issued
    step(
        &mut run,
        BenchEvent::CallFinished { status: BoundaryStatus::Success, elapsed_ns: 10 },
    );
    assert_eq!(next_action(&run), BenchAction::Halt);
}

#[test]
fn range_search_warms_up_and_queries_a_corpus_key() {
    let mut run = search(4, 3, 10).expect("valid parameters");
    let w = generate(&mut run);
    assert_eq!(w.corpus.pairs.len(), 12);
    let key = w.query_key.expect("search scenarios pick a query key");
    assert!(w.corpus.pairs.iter().any(|(k, _)| *k == key));

    step(&mut run, BenchEvent::SetupFinished { ok: true });
    match next_action(&run) {
        BenchAction::PerformWarmUp { reps } => assert!(reps > 0),
        other => panic!("search must warm up, got {:?}", other),
    }
    step(&mut run, BenchEvent::WarmUpFinished);
    assert_eq!(
        next_action(&run),
        BenchAction::IssueCall { entry_point: EntryPoint::RangeSearch, index: 0 }
    );
    step(
        &mut run,
        BenchEvent::CallFinished { status: BoundaryStatus::Success, elapsed_ns: 2000_000 },
    );
    let result = report(&mut run);
    assert_eq!(result.trials, 2000);
    assert_eq!(result.avg_ns, 1000);
}

#[test]
fn zerotrace_prepares_the_8_byte_variant() {
    let mut run = zerotrace(32).expect("valid parameters");
    let plan = current_plan(&run);
    let handlers = plan.handlers.expect("oram scenarios resolve handlers");
    assert_eq!(handlers.variant, BlockSizeVariant::B8);
    assert_eq!(plan.n_calls, 1);
    assert_eq!(plan.trials, 1000);

    let w = generate(&mut run);
    assert_eq!(w.oram_keys.len(), 1000);
    assert!(w.oram_keys.iter().all(|k| *k < 32));
    assert_eq!(w.oram_data.len(), 32);
    assert!(w.oram_data.iter().all(|(_, c)| c.len() == 8));
}

#[test]
fn doram_resolves_the_requested_size_or_rejects_it() {
    let run = doram(16, 64).expect("supported size");
    let plan = current_plan(&run);
    assert_eq!(plan.handlers.unwrap().variant, BlockSizeVariant::B64);
    assert_eq!(plan.entry_point, EntryPoint::GenericBlockAccess);

    assert_eq!(
        doram(16, 160).err(),
        Some(BenchError::UnsupportedBlockSize { requested: 160 })
    );
}

#[test]
fn malformed_parameters_are_configuration_errors() {
    assert_eq!(insert_many(0, 10).err(), Some(BenchError::Configuration));
    assert_eq!(insert_many(10, 0).err(), Some(BenchError::Configuration));
    assert_eq!(insert_one(0, 1).err(), Some(BenchError::Configuration));
    assert_eq!(delete_one(4, 9).err(), Some(BenchError::Configuration));
    assert_eq!(search(0, 4, 10).err(), Some(BenchError::Configuration));
    assert_eq!(zerotrace(0).err(), Some(BenchError::Configuration));
    assert_eq!(doram(0, 64).err(), Some(BenchError::Configuration));
}
