//! The group hierarchy resolver: path accumulation, cache hits, and the
//! append-only cache.

use gitlab_tokens::gitlab::group::{Group, GroupCache, PathResolver, ResolveStep};

fn group(id: usize, parent_id: Option<usize>, path: &str) -> Group {
    Group {
        id,
        parent_id,
        path: path.to_string(),
        web_url: format!("https://example.com/groups/{id}"),
    }
}

#[test]
fn three_level_chain_resolves_with_two_fetches() {
    // A (no parent) <- B (parent A) <- C (parent B)
    let a = group(1, None, "A");
    let b = group(2, Some(1), "B");
    let c = group(3, Some(2), "C");

    let mut cache = GroupCache::new();
    let mut resolver = PathResolver::start(&c, &mut cache);
    let mut fetches: usize = 0;
    let path = loop {
        match resolver.step(&cache) {
            ResolveStep::Done => break resolver.into_path(),
            ResolveStep::Advanced => continue,
            ResolveStep::NeedFetch(pid) => {
                // Stand in for the network: hand the requested record over.
                fetches += 1;
                let fetched = if pid == 1 { a.clone() } else { b.clone() };
                assert_eq!(fetched.id, pid);
                resolver.supply_parent(&mut cache, fetched);
            }
        }
    };
    assert_eq!(path, "A/B/C");
    assert_eq!(fetches, 2);

    // Resolving B afterward, sequentially, is answered from the cache
    // alone: no step asks for a fetch.
    let mut resolver = PathResolver::start(&b, &mut cache);
    let path = loop {
        match resolver.step(&cache) {
            ResolveStep::Done => break resolver.into_path(),
            ResolveStep::Advanced => continue,
            ResolveStep::NeedFetch(pid) => panic!("unexpected fetch of group {pid}"),
        }
    };
    assert_eq!(path, "A/B");
}

#[test]
fn single_group_without_parent() {
    let a = group(10, None, "solo");
    let mut cache = GroupCache::new();
    let mut resolver = PathResolver::start(&a, &mut cache);
    match resolver.step(&cache) {
        ResolveStep::Done => {}
        other => panic!("expected the walk to be done, got {other:?}"),
    }
    assert_eq!(resolver.into_path(), "solo");
}

#[test]
fn cached_record_stays_authoritative() {
    // Once an id is cached, a later fetched record for the same id is
    // ignored: the cache is append-only.
    let child = group(21, Some(20), "child");
    let parent_cached = group(20, None, "first");
    let parent_refetched = group(20, None, "second");

    let mut cache = GroupCache::new();
    cache.ensure_entry(&parent_cached);

    let mut resolver = PathResolver::start(&child, &mut cache);
    match resolver.step(&cache) {
        ResolveStep::Advanced => {}
        other => panic!("expected a cache hit, got {other:?}"),
    }
    match resolver.step(&cache) {
        ResolveStep::Done => {}
        other => panic!("expected the walk to be done, got {other:?}"),
    }
    assert_eq!(resolver.into_path(), "first/child");

    // Supplying a conflicting record for a cached id advances through the
    // cached one.
    let mut resolver = PathResolver::start(&child, &mut cache);
    resolver.supply_parent(&mut cache, parent_refetched);
    assert_eq!(resolver.into_path(), "first/child");

    // The cache still answers lookups with the first record.
    assert_eq!(cache.get(20).unwrap().path, "first");
}
