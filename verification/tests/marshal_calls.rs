use osm_microbenchmarks::block_size::{BlockSizeVariant, EntryPoint};
use osm_microbenchmarks::marshal::{
    marshal_block_access, marshal_bulk_insert, marshal_position_map_reset, marshal_range_search,
    marshal_single_pair, osm_search, validate_call, BoundaryCall, HandleRegistry, SliceElem,
    TypeTag,
};
use osm_microbenchmarks::orchestrator::{
    generate, insert_many, next_action, report, step, BenchAction, BenchEvent,
};
use osm_microbenchmarks::status::BoundaryStatus;

#[test]
fn registered_handles_are_live_with_their_tag() {
    let mut reg = HandleRegistry::new();
    let c = reg.register(TypeTag::OsmClientRef);
    let s = reg.register(TypeTag::OsmServerRef);
    assert!(reg.check(c, TypeTag::OsmClientRef));
    assert!(reg.check(s, TypeTag::OsmServerRef));
    assert!(!reg.check(c, TypeTag::OsmServerRef));
    assert!(!reg.check(99, TypeTag::OsmClientRef));
}

#[test]
fn revoked_handles_are_dead() {
    let mut reg = HandleRegistry::new();
    let c = reg.register(TypeTag::OsmClientRef);
    assert!(reg.check(c, TypeTag::OsmClientRef));
    reg.revoke(c);
    assert!(!reg.check(c, TypeTag::OsmClientRef));
    assert_eq!(reg.tag_at(c), None);
}

#[test]
fn osm_search_accepts_well_typed_handles() {
    let mut reg = HandleRegistry::new();
    let c = reg.register(TypeTag::OsmClientRef);
    let s = reg.register(TypeTag::OsmServerRef);
    let k = reg.register(TypeTag::KeyRef);
    assert_eq!(osm_search(&reg, c, s, k, 10), BoundaryStatus::Success);
}

#[test]
fn osm_search_rejects_mistyped_handles() {
    let mut reg = HandleRegistry::new();
    let c = reg.register(TypeTag::OsmClientRef);
    let s = reg.register(TypeTag::OsmServerRef);
    let k = reg.register(TypeTag::KeyRef);
    // arguments swapped: live handles of the wrong type
    assert_eq!(osm_search(&reg, s, c, k, 10), BoundaryStatus::TypeMismatch);
}

#[test]
fn osm_search_rejects_dead_handles() {
    let mut reg = HandleRegistry::new();
    let c = reg.register(TypeTag::OsmClientRef);
    let s = reg.register(TypeTag::OsmServerRef);
    let k = reg.register(TypeTag::KeyRef);
    reg.revoke(k);
    assert_eq!(osm_search(&reg, c, s, k, 10), BoundaryStatus::InvalidHandle);
    assert_eq!(osm_search(&reg, c, s, 77, 10), BoundaryStatus::InvalidHandle);
}

#[test]
fn marshaled_calls_validate() {
    let mut reg = HandleRegistry::new();
    let c = reg.register(TypeTag::OsmClientRef);
    let s = reg.register(TypeTag::OsmServerRef);
    let k = reg.register(TypeTag::KeyRef);
    let v = reg.register(TypeTag::ValueRef);
    let keys = reg.register(TypeTag::SliceRef { elem: SliceElem::Keys, len: 10 });
    let vals = reg.register(TypeTag::SliceRef { elem: SliceElem::Vals, len: 10 });

    let call = marshal_range_search(&reg, c, s, k, 10);
    assert_eq!(call.args, vec![c, s, k, 10]);
    assert_eq!(validate_call(&reg, &call), BoundaryStatus::Success);

    let call = marshal_bulk_insert(&reg, c, s, keys, vals, 10);
    assert_eq!(call.args, vec![c, s, keys, 10, vals, 10]);
    assert_eq!(validate_call(&reg, &call), BoundaryStatus::Success);

    let call = marshal_single_pair(&reg, EntryPoint::SingleInsert, c, s, k, v);
    assert_eq!(validate_call(&reg, &call), BoundaryStatus::Success);
    let call = marshal_single_pair(&reg, EntryPoint::SingleDelete, c, s, k, v);
    assert_eq!(validate_call(&reg, &call), BoundaryStatus::Success);
}

#[test]
fn oram_calls_validate_against_their_variant() {
    let mut reg = HandleRegistry::new();
    let c8 = reg.register(TypeTag::OramClientRef { variant: BlockSizeVariant::B8 });
    let s8 = reg.register(TypeTag::OramServerRef { variant: BlockSizeVariant::B8 });
    let c64 = reg.register(TypeTag::OramClientRef { variant: BlockSizeVariant::B64 });
    let s64 = reg.register(TypeTag::OramServerRef { variant: BlockSizeVariant::B64 });
    let kp = reg.register(TypeTag::SliceRef { elem: SliceElem::KeyPos, len: 1000 });

    let call = marshal_position_map_reset(&reg, c8, s8, kp, 1000);
    assert_eq!(validate_call(&reg, &call), BoundaryStatus::Success);

    let call = marshal_block_access(&reg, BlockSizeVariant::B64, c64, s64, kp, 1000);
    assert_eq!(call.args, vec![c64, s64, kp, 1000, 64]);
    assert_eq!(validate_call(&reg, &call), BoundaryStatus::Success);

    // a 64-byte call against the 8-byte structures is a type error
    let mismatched = BoundaryCall {
        entry_point: EntryPoint::GenericBlockAccess,
        args: vec![c8, s8, kp, 1000, 64],
    };
    assert_eq!(validate_call(&reg, &mismatched), BoundaryStatus::TypeMismatch);
}

#[test]
fn tampered_lengths_fail_validation() {
    let mut reg = HandleRegistry::new();
    let c = reg.register(TypeTag::OsmClientRef);
    let s = reg.register(TypeTag::OsmServerRef);
    let keys = reg.register(TypeTag::SliceRef { elem: SliceElem::Keys, len: 10 });
    let vals = reg.register(TypeTag::SliceRef { elem: SliceElem::Vals, len: 10 });

    // length argument disagreeing with the registered true length
    let lying = BoundaryCall {
        entry_point: EntryPoint::BulkInsert,
        args: vec![c, s, keys, 12, vals, 12],
    };
    assert_ne!(validate_call(&reg, &lying), BoundaryStatus::Success);

    // parallel slices of different claimed lengths
    let skewed = BoundaryCall {
        entry_point: EntryPoint::BulkInsert,
        args: vec![c, s, keys, 10, vals, 12],
    };
    assert_eq!(validate_call(&reg, &skewed), BoundaryStatus::LengthMismatch);
}

#[test]
fn marshaled_bulk_insert_drives_a_whole_measurement() {
    let mut run = insert_many(16, 4).expect("valid parameters");
    let w = generate(&mut run);

    // the host registers the structures and the mutation slices
    let mut reg = HandleRegistry::new();
    let c = reg.register(TypeTag::OsmClientRef);
    let s = reg.register(TypeTag::OsmServerRef);
    let len = w.mutation_pairs.len();
    let keys = reg.register(TypeTag::SliceRef { elem: SliceElem::Keys, len });
    let vals = reg.register(TypeTag::SliceRef { elem: SliceElem::Vals, len });
    step(&mut run, BenchEvent::SetupFinished { ok: true });

    // each issued call is marshaled, checked by the callee side, and
    // its status fed back
    let mut issued = 0usize;
    loop {
        match next_action(&run) {
            BenchAction::IssueCall { .. } => {
                let call = marshal_bulk_insert(&reg, c, s, keys, vals, len);
                let status = validate_call(&reg, &call);
                issued += 1;
                step(&mut run, BenchEvent::CallFinished { status, elapsed_ns: 4000 });
            }
            BenchAction::EmitReport => break,
            other => panic!("unexpected action {:?}", other),
        }
    }
    assert_eq!(issued, 1);
    let result = report(&mut run);
    assert_eq!(result.avg_ns, 1000);
}

#[test]
fn unsupported_block_size_in_a_raw_call_is_rejected() {
    let mut reg = HandleRegistry::new();
    let c8 = reg.register(TypeTag::OramClientRef { variant: BlockSizeVariant::B8 });
    let s8 = reg.register(TypeTag::OramServerRef { variant: BlockSizeVariant::B8 });
    let kp = reg.register(TypeTag::SliceRef { elem: SliceElem::KeyPos, len: 5 });
    let call = BoundaryCall {
        entry_point: EntryPoint::GenericBlockAccess,
        args: vec![c8, s8, kp, 5, 160],
    };
    assert_eq!(validate_call(&reg, &call), BoundaryStatus::TypeMismatch);
}
