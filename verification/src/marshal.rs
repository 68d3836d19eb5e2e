//! The boundary marshaling protocol.
//!
//! Every boundary call carries only primitive machine words.  Instead
//! of raw addresses cast to integers, the host issues opaque handles
//! from a typed, capability-scoped registry: each handle names one
//! live, type-tagged host-resident value, and the callee checks a
//! handle's tag before reconstructing a reference, so a malformed or
//! stale handle fails a validity check instead of causing undefined
//! behavior.  Slice-shaped arguments travel as a (handle, length)
//! pair whose length is recorded in the registry at registration
//! time, so a length argument can be checked against the true length.

use vstd::prelude::*;
use crate::block_size::{BlockSizeVariant, EntryPoint};
use crate::status::BoundaryStatus;

verus! {

/// The element kind of a slice-shaped argument.
#[derive(Clone, Copy, Debug, PartialEq, Eq, Structural)]
pub enum SliceElem {
    /// Keys to insert.
    Keys,
    /// Values parallel to a key slice.
    Vals,
    /// (logical key, tree position) pairs for ORAM exercises.
    KeyPos,
}

/// The type a registered handle refers to.  A callee accepts a handle
/// only when its registered tag is exactly the tag the entry point
/// expects for that argument position.
#[derive(Clone, Copy, Debug, PartialEq, Eq, Structural)]
pub enum TypeTag {
    /// The oblivious map's client-side index.
    OsmClientRef,
    /// The block store backing the oblivious map.
    OsmServerRef,
    /// An ORAM client specialized to one block-size variant.
    OramClientRef { variant: BlockSizeVariant },
    /// An ORAM block store specialized to one block-size variant.
    OramServerRef { variant: BlockSizeVariant },
    /// A single query or mutation key.
    KeyRef,
    /// A single value.
    ValueRef,
    /// A slice of `len` elements of the given kind.
    SliceRef { elem: SliceElem, len: usize },
}

/// The tag a registry associates with handle `h`: `None` when the
/// handle was never issued or has been revoked.
pub open spec fn spec_tag_at(reg: Seq<Option<TypeTag>>, h: usize) -> Option<TypeTag> {
    if h < reg.len() {
        reg[h as int]
    } else {
        None
    }
}

/// The host-side issuer of typed handles.  Handles are indices into a
/// grow-only table; revocation clears an entry without reusing its
/// index, so a revoked handle can never silently alias a newer value.
pub struct HandleRegistry {
    entries: Vec<Option<TypeTag>>,
}

impl View for HandleRegistry {
    type V = Seq<Option<TypeTag>>;

    closed spec fn view(&self) -> Seq<Option<TypeTag>> {
        self.entries@
    }
}

impl HandleRegistry {
    /// Handle `h` currently refers to a value of type `tag`.
    pub open spec fn live(&self, h: usize, tag: TypeTag) -> bool {
        spec_tag_at(self@, h) == Some(tag)
    }

    /// An empty registry: no handle is live.
    pub fn new() -> (r: Self)
        ensures
            r@ == Seq::<Option<TypeTag>>::empty(),
    {
        HandleRegistry { entries: Vec::new() }
    }

    /// Issue a fresh handle for a value of type `tag`.  The new
    /// handle is live with exactly that tag; no existing entry moves.
    pub fn register(&mut self, tag: TypeTag) -> (h: usize)
        ensures
            final(self)@ == old(self)@.push(Some(tag)),
            h == old(self)@.len(),
            final(self).live(h, tag),
    {
        let h = self.entries.len();
        self.entries.push(Some(tag));
        h
    }

    /// Revoke a handle: its entry is cleared and its index is never
    /// reissued.
    pub fn revoke(&mut self, h: usize)
        requires
            h < old(self)@.len(),
        ensures
            final(self)@ == old(self)@.update(h as int, None),
    {
        self.entries.set(h, None);
    }

    /// The registered tag of `h`, if any.
    pub fn tag_at(&self, h: usize) -> (t: Option<TypeTag>)
        ensures
            t == spec_tag_at(self@, h),
    {
        if h < self.entries.len() {
            self.entries[h]
        } else {
            None
        }
    }

    /// Executable liveness check, for callers that cannot establish
    /// liveness statically.
    pub fn check(&self, h: usize, tag: TypeTag) -> (r: bool)
        ensures
            r == self.live(h, tag),
    {
        match self.tag_at(h) {
            Some(t) => t == tag,
            None => false,
        }
    }
}

/// One marshaled boundary call: the entry point to invoke and its
/// fixed, primitive-typed argument list.
pub struct BoundaryCall {
    pub entry_point: EntryPoint,
    pub args: Vec<usize>,
}

/// What a well-formed argument list looks like for each entry point,
/// against a registry state: every handle argument live with exactly
/// the expected tag, every slice length argument equal to the
/// registered true length, and parallel slices of equal length.
pub open spec fn spec_call_well_formed(
    reg: Seq<Option<TypeTag>>,
    ep: EntryPoint,
    args: Seq<usize>,
) -> bool {
    match ep {
        EntryPoint::RangeSearch => {
            &&& args.len() == 4
            &&& spec_tag_at(reg, args[0]) == Some(TypeTag::OsmClientRef)
            &&& spec_tag_at(reg, args[1]) == Some(TypeTag::OsmServerRef)
            &&& spec_tag_at(reg, args[2]) == Some(TypeTag::KeyRef)
        },
        EntryPoint::BulkInsert => {
            &&& args.len() == 6
            &&& spec_tag_at(reg, args[0]) == Some(TypeTag::OsmClientRef)
            &&& spec_tag_at(reg, args[1]) == Some(TypeTag::OsmServerRef)
            &&& spec_tag_at(reg, args[2]) == Some(
                TypeTag::SliceRef { elem: SliceElem::Keys, len: args[3] },
            )
            &&& spec_tag_at(reg, args[4]) == Some(
                TypeTag::SliceRef { elem: SliceElem::Vals, len: args[5] },
            )
            &&& args[3] == args[5]
        },
        EntryPoint::SingleInsert => {
            &&& args.len() == 4
            &&& spec_tag_at(reg, args[0]) == Some(TypeTag::OsmClientRef)
            &&& spec_tag_at(reg, args[1]) == Some(TypeTag::OsmServerRef)
            &&& spec_tag_at(reg, args[2]) == Some(TypeTag::KeyRef)
            &&& spec_tag_at(reg, args[3]) == Some(TypeTag::ValueRef)
        },
        EntryPoint::SingleDelete => {
            &&& args.len() == 4
            &&& spec_tag_at(reg, args[0]) == Some(TypeTag::OsmClientRef)
            &&& spec_tag_at(reg, args[1]) == Some(TypeTag::OsmServerRef)
            &&& spec_tag_at(reg, args[2]) == Some(TypeTag::KeyRef)
            &&& spec_tag_at(reg, args[3]) == Some(TypeTag::ValueRef)
        },
        EntryPoint::PositionMapReset => {
            &&& args.len() == 4
            &&& spec_tag_at(reg, args[0]) == Some(
                TypeTag::OramClientRef { variant: BlockSizeVariant::B8 },
            )
            &&& spec_tag_at(reg, args[1]) == Some(
                TypeTag::OramServerRef { variant: BlockSizeVariant::B8 },
            )
            &&& spec_tag_at(reg, args[2]) == Some(
                TypeTag::SliceRef { elem: SliceElem::KeyPos, len: args[3] },
            )
        },
        EntryPoint::GenericBlockAccess => {
            &&& args.len() == 5
            &&& exists|v: BlockSizeVariant|
                {
                    &&& spec_tag_at(reg, args[0]) == Some(TypeTag::OramClientRef { variant: v })
                    &&& spec_tag_at(reg, args[1]) == Some(TypeTag::OramServerRef { variant: v })
                    &&& v.spec_bytes() == args[4]
                }
            &&& spec_tag_at(reg, args[2]) == Some(
                TypeTag::SliceRef { elem: SliceElem::KeyPos, len: args[3] },
            )
        },
    }
}

/// The fixed argument count of each entry point's transport.
pub open spec fn spec_arg_count(ep: EntryPoint) -> int {
    match ep {
        EntryPoint::RangeSearch => 4,
        EntryPoint::BulkInsert => 6,
        EntryPoint::SingleInsert => 4,
        EntryPoint::SingleDelete => 4,
        EntryPoint::PositionMapReset => 4,
        EntryPoint::GenericBlockAccess => 5,
    }
}

/// Caller side: marshal a range-search call.  The query key crosses
/// as a handle, the range as a plain scalar.
pub fn marshal_range_search(
    reg: &HandleRegistry,
    client_h: usize,
    server_h: usize,
    key_h: usize,
    range: usize,
) -> (call: BoundaryCall)
    requires
        reg.live(client_h, TypeTag::OsmClientRef),
        reg.live(server_h, TypeTag::OsmServerRef),
        reg.live(key_h, TypeTag::KeyRef),
    ensures
        call.entry_point == EntryPoint::RangeSearch,
        call.args@ == seq![client_h, server_h, key_h, range],
        spec_call_well_formed(reg@, call.entry_point, call.args@),
{
    let mut args: Vec<usize> = Vec::new();
    args.push(client_h);
    args.push(server_h);
    args.push(key_h);
    args.push(range);
    proof {
        assert(args@ =~= seq![client_h, server_h, key_h, range]);
    }
    BoundaryCall { entry_point: EntryPoint::RangeSearch, args }
}

/// Caller side: marshal a bulk insert of two parallel slices.  The
/// length arguments are the registered true lengths, and they must
/// agree with each other.
pub fn marshal_bulk_insert(
    reg: &HandleRegistry,
    client_h: usize,
    server_h: usize,
    keys_h: usize,
    vals_h: usize,
    len: usize,
) -> (call: BoundaryCall)
    requires
        reg.live(client_h, TypeTag::OsmClientRef),
        reg.live(server_h, TypeTag::OsmServerRef),
        reg.live(keys_h, TypeTag::SliceRef { elem: SliceElem::Keys, len: len }),
        reg.live(vals_h, TypeTag::SliceRef { elem: SliceElem::Vals, len: len }),
    ensures
        call.entry_point == EntryPoint::BulkInsert,
        call.args@ == seq![client_h, server_h, keys_h, len, vals_h, len],
        spec_call_well_formed(reg@, call.entry_point, call.args@),
{
    let mut args: Vec<usize> = Vec::new();
    args.push(client_h);
    args.push(server_h);
    args.push(keys_h);
    args.push(len);
    args.push(vals_h);
    args.push(len);
    proof {
        assert(args@ =~= seq![client_h, server_h, keys_h, len, vals_h, len]);
    }
    BoundaryCall { entry_point: EntryPoint::BulkInsert, args }
}

/// Caller side: marshal a single-pair mutation (insert or delete).
pub fn marshal_single_pair(
    reg: &HandleRegistry,
    ep: EntryPoint,
    client_h: usize,
    server_h: usize,
    key_h: usize,
    value_h: usize,
) -> (call: BoundaryCall)
    requires
        ep == EntryPoint::SingleInsert || ep == EntryPoint::SingleDelete,
        reg.live(client_h, TypeTag::OsmClientRef),
        reg.live(server_h, TypeTag::OsmServerRef),
        reg.live(key_h, TypeTag::KeyRef),
        reg.live(value_h, TypeTag::ValueRef),
    ensures
        call.entry_point == ep,
        call.args@ == seq![client_h, server_h, key_h, value_h],
        spec_call_well_formed(reg@, call.entry_point, call.args@),
{
    let mut args: Vec<usize> = Vec::new();
    args.push(client_h);
    args.push(server_h);
    args.push(key_h);
    args.push(value_h);
    proof {
        assert(args@ =~= seq![client_h, server_h, key_h, value_h]);
    }
    BoundaryCall { entry_point: ep, args }
}

/// Caller side: marshal a position-map reset over a slice of
/// (key, position) pairs against the 8-byte ORAM specialization.
pub fn marshal_position_map_reset(
    reg: &HandleRegistry,
    client_h: usize,
    server_h: usize,
    key_pos_h: usize,
    len: usize,
) -> (call: BoundaryCall)
    requires
        reg.live(client_h, TypeTag::OramClientRef { variant: BlockSizeVariant::B8 }),
        reg.live(server_h, TypeTag::OramServerRef { variant: BlockSizeVariant::B8 }),
        reg.live(key_pos_h, TypeTag::SliceRef { elem: SliceElem::KeyPos, len: len }),
    ensures
        call.entry_point == EntryPoint::PositionMapReset,
        call.args@ == seq![client_h, server_h, key_pos_h, len],
        spec_call_well_formed(reg@, call.entry_point, call.args@),
{
    let mut args: Vec<usize> = Vec::new();
    args.push(client_h);
    args.push(server_h);
    args.push(key_pos_h);
    args.push(len);
    proof {
        assert(args@ =~= seq![client_h, server_h, key_pos_h, len]);
    }
    BoundaryCall { entry_point: EntryPoint::PositionMapReset, args }
}

/// Caller side: marshal a generic block access at a resolved
/// block-size variant.  The structure handles must be specializations
/// of exactly that variant.
pub fn marshal_block_access(
    reg: &HandleRegistry,
    variant: BlockSizeVariant,
    client_h: usize,
    server_h: usize,
    key_pos_h: usize,
    len: usize,
) -> (call: BoundaryCall)
    requires
        reg.live(client_h, TypeTag::OramClientRef { variant: variant }),
        reg.live(server_h, TypeTag::OramServerRef { variant: variant }),
        reg.live(key_pos_h, TypeTag::SliceRef { elem: SliceElem::KeyPos, len: len }),
    ensures
        call.entry_point == EntryPoint::GenericBlockAccess,
        call.args@ == seq![client_h, server_h, key_pos_h, len, variant.spec_bytes()],
        spec_call_well_formed(reg@, call.entry_point, call.args@),
{
    let block_size = variant.bytes();
    let mut args: Vec<usize> = Vec::new();
    args.push(client_h);
    args.push(server_h);
    args.push(key_pos_h);
    args.push(len);
    args.push(block_size);
    proof {
        assert(args@ =~= seq![client_h, server_h, key_pos_h, len, variant.spec_bytes()]);
    }
    BoundaryCall { entry_point: EntryPoint::GenericBlockAccess, args }
}

/// Callee side, one argument: accept `h` only if it is live with
/// exactly `expected`.  Distinguishes a dead handle from a live one
/// of the wrong type.
fn require_tag(reg: &HandleRegistry, h: usize, expected: TypeTag) -> (st: BoundaryStatus)
    ensures
        st == BoundaryStatus::Success <==> reg.live(h, expected),
        st == BoundaryStatus::InvalidHandle <==> spec_tag_at(reg@, h) is None,
        st == BoundaryStatus::TypeMismatch <==> (spec_tag_at(reg@, h) matches Some(t) && t
            != expected),
{
    match reg.tag_at(h) {
        Some(t) => {
            if t == expected {
                BoundaryStatus::Success
            } else {
                BoundaryStatus::TypeMismatch
            }
        },
        None => BoundaryStatus::InvalidHandle,
    }
}

/// Callee side of the range-search entry point: reconstruct the three
/// typed references behind their handles, for the duration of the
/// call only.  Success exactly when every handle is live with the
/// type this entry point expects; a dead handle reports
/// `InvalidHandle`, a live handle of the wrong type `TypeMismatch`,
/// with dead handles taking precedence.
pub fn osm_search(
    reg: &HandleRegistry,
    osm_client_ref: usize,
    server_ref: usize,
    key_ref: usize,
    range: usize,
) -> (st: BoundaryStatus)
    ensures
        st == BoundaryStatus::Success <==> {
            &&& reg.live(osm_client_ref, TypeTag::OsmClientRef)
            &&& reg.live(server_ref, TypeTag::OsmServerRef)
            &&& reg.live(key_ref, TypeTag::KeyRef)
        },
        st == BoundaryStatus::InvalidHandle <==> {
            ||| spec_tag_at(reg@, osm_client_ref) is None
            ||| spec_tag_at(reg@, server_ref) is None
            ||| spec_tag_at(reg@, key_ref) is None
        },
        st == BoundaryStatus::Success || st == BoundaryStatus::InvalidHandle || st
            == BoundaryStatus::TypeMismatch,
{
    if reg.tag_at(osm_client_ref).is_none() || reg.tag_at(server_ref).is_none() || reg.tag_at(
        key_ref,
    ).is_none() {
        return BoundaryStatus::InvalidHandle;
    }
    let c = require_tag(reg, osm_client_ref, TypeTag::OsmClientRef);
    if !c.is_success() {
        return c;
    }
    let s = require_tag(reg, server_ref, TypeTag::OsmServerRef);
    if !s.is_success() {
        return s;
    }
    let k = require_tag(reg, key_ref, TypeTag::KeyRef);
    if !k.is_success() {
        return k;
    }
    BoundaryStatus::Success
}

/// Callee side, any entry point: check a marshaled call's argument
/// list against the registry before any reference is reconstructed.
/// Success exactly when the list is well-formed for its entry point;
/// otherwise one of the closed failure categories, never success.
pub fn validate_call(reg: &HandleRegistry, call: &BoundaryCall) -> (st: BoundaryStatus)
    ensures
        st == BoundaryStatus::Success <==> spec_call_well_formed(
            reg@,
            call.entry_point,
            call.args@,
        ),
        st == BoundaryStatus::Success || st == BoundaryStatus::InvalidHandle || st
            == BoundaryStatus::TypeMismatch || st == BoundaryStatus::LengthMismatch || st
            == BoundaryStatus::InternalError,
        st == BoundaryStatus::InternalError <==> call.args@.len() != spec_arg_count(
            call.entry_point,
        ),
{
    match call.entry_point {
        EntryPoint::RangeSearch => {
            if call.args.len() != 4 {
                return BoundaryStatus::InternalError;
            }
            let c = require_tag(reg, call.args[0], TypeTag::OsmClientRef);
            if !c.is_success() {
                return c;
            }
            let s = require_tag(reg, call.args[1], TypeTag::OsmServerRef);
            if !s.is_success() {
                return s;
            }
            require_tag(reg, call.args[2], TypeTag::KeyRef)
        },
        EntryPoint::BulkInsert => {
            if call.args.len() != 6 {
                return BoundaryStatus::InternalError;
            }
            let c = require_tag(reg, call.args[0], TypeTag::OsmClientRef);
            if !c.is_success() {
                return c;
            }
            let s = require_tag(reg, call.args[1], TypeTag::OsmServerRef);
            if !s.is_success() {
                return s;
            }
            if call.args[3] != call.args[5] {
                return BoundaryStatus::LengthMismatch;
            }
            let k = require_tag(
                reg,
                call.args[2],
                TypeTag::SliceRef { elem: SliceElem::Keys, len: call.args[3] },
            );
            if !k.is_success() {
                return k;
            }
            require_tag(
                reg,
                call.args[4],
                TypeTag::SliceRef { elem: SliceElem::Vals, len: call.args[5] },
            )
        },
        EntryPoint::SingleInsert => {
            if call.args.len() != 4 {
                return BoundaryStatus::InternalError;
            }
            let c = require_tag(reg, call.args[0], TypeTag::OsmClientRef);
            if !c.is_success() {
                return c;
            }
            let s = require_tag(reg, call.args[1], TypeTag::OsmServerRef);
            if !s.is_success() {
                return s;
            }
            let k = require_tag(reg, call.args[2], TypeTag::KeyRef);
            if !k.is_success() {
                return k;
            }
            require_tag(reg, call.args[3], TypeTag::ValueRef)
        },
        EntryPoint::SingleDelete => {
            if call.args.len() != 4 {
                return BoundaryStatus::InternalError;
            }
            let c = require_tag(reg, call.args[0], TypeTag::OsmClientRef);
            if !c.is_success() {
                return c;
            }
            let s = require_tag(reg, call.args[1], TypeTag::OsmServerRef);
            if !s.is_success() {
                return s;
            }
            let k = require_tag(reg, call.args[2], TypeTag::KeyRef);
            if !k.is_success() {
                return k;
            }
            require_tag(reg, call.args[3], TypeTag::ValueRef)
        },
        EntryPoint::PositionMapReset => {
            if call.args.len() != 4 {
                return BoundaryStatus::InternalError;
            }
            let c = require_tag(
                reg,
                call.args[0],
                TypeTag::OramClientRef { variant: BlockSizeVariant::B8 },
            );
            if !c.is_success() {
                return c;
            }
            let s = require_tag(
                reg,
                call.args[1],
                TypeTag::OramServerRef { variant: BlockSizeVariant::B8 },
            );
            if !s.is_success() {
                return s;
            }
            require_tag(
                reg,
                call.args[2],
                TypeTag::SliceRef { elem: SliceElem::KeyPos, len: call.args[3] },
            )
        },
        EntryPoint::GenericBlockAccess => {
            if call.args.len() != 5 {
                return BoundaryStatus::InternalError;
            }
            let variant = match crate::block_size::resolve(call.args[4]) {
                Ok(h) => h.variant,
                Err(_) => {
                    proof {
                        assert(!spec_call_well_formed(reg@, call.entry_point, call.args@));
                    }
                    return BoundaryStatus::TypeMismatch;
                },
            };
            let c = require_tag(reg, call.args[0], TypeTag::OramClientRef { variant });
            if !c.is_success() {
                proof {
                    assert(!spec_call_well_formed(reg@, call.entry_point, call.args@));
                }
                return c;
            }
            let s = require_tag(reg, call.args[1], TypeTag::OramServerRef { variant });
            if !s.is_success() {
                proof {
                    assert(!spec_call_well_formed(reg@, call.entry_point, call.args@));
                }
                return s;
            }
            let kp = require_tag(
                reg,
                call.args[2],
                TypeTag::SliceRef { elem: SliceElem::KeyPos, len: call.args[3] },
            );
            proof {
                if kp == BoundaryStatus::Success {
                    assert(spec_call_well_formed(reg@, call.entry_point, call.args@));
                }
            }
            kp
        },
    }
}

} // verus!
