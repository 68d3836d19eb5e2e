use osm_microbenchmarks::block_size::{resolve, BlockSizeVariant, EntryPoint};
use osm_microbenchmarks::status::BenchError;

#[test]
fn resolve_accepts_every_supported_size() {
    let expected = [
        (8usize, BlockSizeVariant::B8),
        (16, BlockSizeVariant::B16),
        (32, BlockSizeVariant::B32),
        (64, BlockSizeVariant::B64),
        (128, BlockSizeVariant::B128),
        (256, BlockSizeVariant::B256),
        (512, BlockSizeVariant::B512),
    ];
    for (size, variant) in expected {
        let h = resolve(size).expect("supported size must resolve");
        assert_eq!(h.variant, variant);
        assert_eq!(h.variant.bytes(), size);
        assert_eq!(h.entry_point, EntryPoint::GenericBlockAccess);
        assert_eq!(h.encoding_width, size);
    }
}

#[test]
fn resolve_rejects_everything_else() {
    for size in [0usize, 1, 7, 9, 24, 160, 255, 511, 513, 1024, usize::MAX] {
        let r = resolve(size);
        assert_eq!(r, Err(BenchError::UnsupportedBlockSize { requested: size }));
    }
}

#[test]
fn resolve_does_not_default_near_misses() {
    // the legacy map scenarios use a 160-byte internal encoding; it is
    // deliberately not part of the dispatch set
    assert_eq!(
        resolve(160),
        Err(BenchError::UnsupportedBlockSize { requested: 160 })
    );
}
