//! The closed block-size variant set and the dispatch table.
//!
//! The oblivious block codec is generated per fixed size at build
//! time, so a runtime size parameter must be translated, in exactly
//! one place, into a compile-time-selected implementation.  That
//! place is [`resolve`]: total on the seven supported sizes, a fast
//! failure on everything else.

use vstd::prelude::*;
use crate::status::BenchError;

verus! {

/// One compiled specialization of the oblivious block encoding.
/// The set is closed: each variant names a distinct code path and a
/// distinct boundary entry point on the callee side.
#[derive(Clone, Copy, Debug, PartialEq, Eq, Structural)]
pub enum BlockSizeVariant {
    B8,
    B16,
    B32,
    B64,
    B128,
    B256,
    B512,
}

impl BlockSizeVariant {
    /// The block size in bytes that this variant encodes.
    pub open spec fn spec_bytes(self) -> usize {
        match self {
            BlockSizeVariant::B8 => 8,
            BlockSizeVariant::B16 => 16,
            BlockSizeVariant::B32 => 32,
            BlockSizeVariant::B64 => 64,
            BlockSizeVariant::B128 => 128,
            BlockSizeVariant::B256 => 256,
            BlockSizeVariant::B512 => 512,
        }
    }

    /// Executable form of [`Self::spec_bytes`].
    pub fn bytes(&self) -> (r: usize)
        ensures
            r == self.spec_bytes(),
    {
        match self {
            BlockSizeVariant::B8 => 8,
            BlockSizeVariant::B16 => 16,
            BlockSizeVariant::B32 => 32,
            BlockSizeVariant::B64 => 64,
            BlockSizeVariant::B128 => 128,
            BlockSizeVariant::B256 => 256,
            BlockSizeVariant::B512 => 512,
        }
    }
}

/// The boundary entry points the callee exports.  One per benchmark
/// shape; the block-size-parameterized ORAM access is a single entry
/// point taking the resolved size as an argument.
#[derive(Clone, Copy, Debug, PartialEq, Eq, Structural)]
pub enum EntryPoint {
    RangeSearch,
    BulkInsert,
    SingleInsert,
    SingleDelete,
    PositionMapReset,
    GenericBlockAccess,
}

/// What the dispatch table associates with one supported block size:
/// the variant tag (which names the monomorphized structure
/// constructor on the host side), the boundary entry point for
/// generic ORAM access at that size, and the encoding width used when
/// generating synthetic block content.
#[derive(Clone, Copy, Debug, PartialEq, Eq, Structural)]
pub struct VariantHandlers {
    pub variant: BlockSizeVariant,
    pub entry_point: EntryPoint,
    pub encoding_width: usize,
}

/// True exactly on the seven supported block sizes.
pub open spec fn supported_block_size(n: usize) -> bool {
    n == 8 || n == 16 || n == 32 || n == 64 || n == 128 || n == 256 || n == 512
}

/// The variant encoding a supported block size (meaningful only on
/// the supported set).
pub open spec fn spec_variant_for(n: usize) -> BlockSizeVariant {
    if n == 16 {
        BlockSizeVariant::B16
    } else if n == 32 {
        BlockSizeVariant::B32
    } else if n == 64 {
        BlockSizeVariant::B64
    } else if n == 128 {
        BlockSizeVariant::B128
    } else if n == 256 {
        BlockSizeVariant::B256
    } else if n == 512 {
        BlockSizeVariant::B512
    } else {
        BlockSizeVariant::B8
    }
}

/// Dispatch: translate a runtime block-size request into the compiled
/// variant's handlers.  Total on the supported set; any other input
/// fails fast instead of defaulting.
pub fn resolve(block_size: usize) -> (r: Result<VariantHandlers, BenchError>)
    ensures
        r is Ok <==> supported_block_size(block_size),
        r matches Ok(h) ==> {
            &&& h == (VariantHandlers {
                variant: spec_variant_for(block_size),
                entry_point: EntryPoint::GenericBlockAccess,
                encoding_width: block_size,
            })
            &&& h.variant.spec_bytes() == block_size
        },
        !supported_block_size(block_size) ==> r == Err::<VariantHandlers, BenchError>(
            BenchError::UnsupportedBlockSize { requested: block_size },
        ),
{
    let variant = match block_size {
        8 => BlockSizeVariant::B8,
        16 => BlockSizeVariant::B16,
        32 => BlockSizeVariant::B32,
        64 => BlockSizeVariant::B64,
        128 => BlockSizeVariant::B128,
        256 => BlockSizeVariant::B256,
        512 => BlockSizeVariant::B512,
        _ => {
            return Err(BenchError::UnsupportedBlockSize { requested: block_size });
        },
    };
    Ok(VariantHandlers { variant, entry_point: EntryPoint::GenericBlockAccess, encoding_width: block_size })
}

} // verus!
