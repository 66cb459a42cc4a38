use taffy::geometry::Size;
use taffy::layout::{AvailableSpace, Cache, RunMode, SizingMode};
use taffy::node::SizeCache;
use taffy::scalar::Scalar;

fn s(units: i32) -> Scalar {
    Scalar::from_int(units)
}

fn entry(width: i32) -> Cache {
    Cache {
        known_dimensions: Size { width: Some(s(width)), height: None },
        available_space: Size { width: AvailableSpace::MaxContent, height: AvailableSpace::Definite(s(1)) },
        run_mode: RunMode::ComputeSize,
        sizing_mode: SizingMode::InherentSize,
        cached_size: Size { width: s(width), height: s(width * 2) },
    }
}

fn lookup(cache: &SizeCache, key: Cache) -> Option<Size<Scalar>> {
    cache.lookup(key.known_dimensions, key.available_space, key.run_mode, key.sizing_mode)
}

#[test]
fn a_new_cache_is_empty() {
    let cache = SizeCache::new();
    assert!(cache.is_empty());
    assert_eq!(cache.0.len(), 7);
    assert_eq!(lookup(&cache, entry(1)), None);
    assert!(SizeCache::default().is_empty());
}

#[test]
fn what_is_stored_is_found() {
    let mut cache = SizeCache::new();
    cache.store(entry(1));
    assert!(!cache.is_empty());
    assert_eq!(lookup(&cache, entry(1)), Some(Size { width: s(1), height: s(2) }));
    assert_eq!(lookup(&cache, entry(2)), None);
    assert_eq!(cache.0[0], Some(entry(1)));
    assert_eq!(cache.0[1], None);
}

#[test]
fn every_part_of_the_key_counts() {
    let mut cache = SizeCache::new();
    let stored = entry(1);
    cache.store(stored);
    assert!(stored.matches(stored.known_dimensions, stored.available_space, stored.run_mode, stored.sizing_mode));
    assert_eq!(lookup(&cache, Cache { known_dimensions: Size { width: Some(s(1)), height: Some(s(1)) }, ..stored }), None);
    assert_eq!(lookup(&cache, Cache { known_dimensions: Size { width: None, height: None }, ..stored }), None);
    assert_eq!(
        lookup(
            &cache,
            Cache {
                available_space: Size { width: AvailableSpace::MinContent, height: AvailableSpace::Definite(s(1)) },
                ..stored
            }
        ),
        None
    );
    assert_eq!(
        lookup(
            &cache,
            Cache {
                available_space: Size { width: AvailableSpace::MaxContent, height: AvailableSpace::Definite(s(2)) },
                ..stored
            }
        ),
        None
    );
    assert_eq!(lookup(&cache, Cache { run_mode: RunMode::PerformLayout, ..stored }), None);
    assert_eq!(lookup(&cache, Cache { sizing_mode: SizingMode::ContentSize, ..stored }), None);
    assert_eq!(lookup(&cache, Cache { cached_size: Size { width: s(9), height: s(9) }, ..stored }), Some(stored.cached_size));
}

#[test]
fn the_same_request_keeps_its_slot() {
    let mut cache = SizeCache::new();
    cache.store(entry(1));
    cache.store(entry(2));
    let again = Cache { cached_size: Size { width: s(40), height: s(50) }, ..entry(1) };
    cache.store(again);
    assert_eq!(cache.0[0], Some(again));
    assert_eq!(cache.0[1], Some(entry(2)));
    assert_eq!(cache.0[2], None);
    assert_eq!(lookup(&cache, entry(1)), Some(Size { width: s(40), height: s(50) }));
}

#[test]
fn a_full_cache_gives_up_its_first_slot() {
    let mut cache = SizeCache::new();
    for width in 1..=7 {
        cache.store(entry(width));
    }
    for width in 1..=7 {
        assert_eq!(lookup(&cache, entry(width)), Some(entry(width).cached_size));
    }
    cache.store(entry(8));
    assert_eq!(cache.0[0], Some(entry(8)));
    assert_eq!(lookup(&cache, entry(1)), None);
    assert_eq!(lookup(&cache, entry(8)), Some(entry(8).cached_size));
    assert_eq!(lookup(&cache, entry(7)), Some(entry(7).cached_size));
}

#[test]
fn clearing_forgets_everything() {
    let mut cache = SizeCache::new();
    cache.store(entry(1));
    cache.store(entry(2));
    cache.clear();
    assert!(cache.is_empty());
    assert_eq!(lookup(&cache, entry(1)), None);
    assert_eq!(cache, SizeCache::new());
}
