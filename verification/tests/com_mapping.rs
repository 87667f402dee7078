use std::cell::Cell;

use dxproxy::com_error::ComError;
use dxproxy::com_error::E_INVALIDARG;
use dxproxy::com_mapping_tracker::ComMappingTracker;
use dxproxy::device_context::DX9ProxyConfig;
use dxproxy::device_context::DX9ProxyDeviceContext;

#[test]
fn test_query_proxy_basic_properties() {
    // Basic mapping lifecycle on identities standing for live objects
    let mut tracker = ComMappingTracker::default();

    let target_ptr: usize = 42;
    let proxy_ptr: usize = 24;

    // Record the pair, then check that the target resolves to its proxy
    let created = tracker.ensure_proxy(target_ptr, |_target| proxy_ptr);
    assert_eq!(created, proxy_ptr);
    assert_eq!(tracker.get_proxy(target_ptr), Some(proxy_ptr));
}

#[test]
fn test_com_mapping_with_dx9_objects() {
    let context = DX9ProxyDeviceContext::new(DX9ProxyConfig::default());

    let target_ptr: usize = 42;
    let proxy_ptr: usize = 24;

    // Record the pair through the shared context
    let created = context.ensure_proxy(target_ptr, |_target| proxy_ptr);
    assert_eq!(created, proxy_ptr);

    // Verify mappings in both directions
    assert_eq!(context.get_proxy(target_ptr), Some(proxy_ptr));
    assert_eq!(context.get_target(Some(proxy_ptr)).unwrap().as_raw(), target_ptr);
}

#[test]
fn scenario_ensure_reuse_remove_rebuild() {
    let mut tracker = ComMappingTracker::new();
    let o1: usize = 101;
    let w1: usize = 201;
    let w2: usize = 202;
    let builds = Cell::new(0u32);

    // First ensure builds once and records the pair both ways
    let r1 = tracker
        .try_ensure_proxy(o1, |_target| {
            builds.set(builds.get() + 1);
            Ok(w1)
        })
        .unwrap();
    assert_eq!(r1, w1);
    assert_eq!(builds.get(), 1);
    assert_eq!(tracker.get_proxy(o1), Some(w1));
    assert_eq!(tracker.get_target(Some(w1)).unwrap().as_raw(), o1);

    // A second ensure returns the same wrapper; its constructor never runs
    let r2 = tracker
        .try_ensure_proxy(o1, |_target| {
            builds.set(builds.get() + 100);
            Ok(w2)
        })
        .unwrap();
    assert_eq!(r2, w1);
    assert_eq!(builds.get(), 1);

    // Removal empties both directions
    tracker.on_proxy_destroy(o1);
    assert_eq!(tracker.get_proxy(o1), None);
    assert!(tracker.get_target(Some(w1)).is_none());

    // A later ensure builds again and installs a fresh pair
    let r3 = tracker.ensure_proxy(o1, |_target| {
        builds.set(builds.get() + 1);
        w2
    });
    assert_eq!(r3, w2);
    assert_eq!(builds.get(), 2);
    assert_eq!(tracker.get_proxy(o1), Some(w2));
    assert_eq!(tracker.get_target(Some(w2)).unwrap().as_raw(), o1);
}

#[test]
fn null_tolerance_divergence() {
    let mut tracker = ComMappingTracker::new();
    tracker.ensure_proxy(7, |_target| 8);

    // Strict variant: a null proxy reference is reported absent
    assert!(tracker.get_target(None).is_none());

    // Tolerant variant: a null proxy reference yields the explicit null
    // identity, distinct from a lookup miss
    let out = tracker.get_target_nullable(None).unwrap();
    assert!(out.is_null());
    assert_eq!(out.as_raw(), 0);

    // A present but unmapped proxy misses in both variants
    assert!(tracker.get_target(Some(99)).is_none());
    assert!(tracker.get_target_nullable(Some(99)).is_none());

    // A mapped proxy resolves in both variants
    assert_eq!(tracker.get_target(Some(8)).unwrap().as_raw(), 7);
    assert_eq!(tracker.get_target_nullable(Some(8)).unwrap().as_raw(), 7);
}

#[test]
fn remove_unmapped_is_noop() {
    let mut tracker = ComMappingTracker::new();
    tracker.ensure_proxy(1, |_target| 2);

    // Removing an unmapped identity changes nothing and does not error
    tracker.on_proxy_destroy(33);
    assert_eq!(tracker.get_proxy(1), Some(2));
    assert_eq!(tracker.get_target(Some(2)).unwrap().as_raw(), 1);

    // A second teardown of the same pair is tolerated the same way
    tracker.on_proxy_destroy(1);
    tracker.on_proxy_destroy(1);
    assert_eq!(tracker.get_proxy(1), None);
}

#[test]
fn failed_build_inserts_nothing() {
    let mut tracker = ComMappingTracker::new();

    // The constructor's error is surfaced unchanged and nothing is recorded
    let r = tracker.try_ensure_proxy(5, |_target| Err(ComError::from_code(E_INVALIDARG)));
    assert_eq!(r.unwrap_err().code(), E_INVALIDARG);
    assert_eq!(tracker.get_proxy(5), None);
    assert!(tracker.get_target(Some(5)).is_none());

    // A later ensure for the same identity still works
    let w = tracker.try_ensure_proxy(5, |_target| Ok(6)).unwrap();
    assert_eq!(w, 6);
    assert_eq!(tracker.get_proxy(5), Some(6));
}

#[test]
fn context_serializes_one_shared_tracker() {
    let context = DX9ProxyDeviceContext::new(DX9ProxyConfig::default());
    let builds = Cell::new(0u32);

    // Two ensure calls for the same original, as two racing callers would
    // issue them one after the other under the context's lock: only the
    // first constructor's effect is observable, and both callers get the
    // same wrapper identity
    let first = context.ensure_proxy(301, |_target| {
        builds.set(builds.get() + 1);
        401
    });
    let second = context.ensure_proxy(301, |_target| {
        builds.set(builds.get() + 1);
        402
    });
    assert_eq!(first, 401);
    assert_eq!(second, 401);
    assert_eq!(builds.get(), 1);

    // A clone of the handle shares the same tracker
    let sibling = context.clone();
    assert_eq!(sibling.get_proxy(301), Some(401));
    assert_eq!(sibling.get_target(Some(401)).unwrap().as_raw(), 301);

    // Null handling through the context keeps the two-variant split
    assert!(context.get_target(None).is_none());
    assert!(context.get_target_nullable(None).unwrap().is_null());

    // Teardown through the clone is visible to the original handle
    sibling.on_proxy_destroy(301);
    assert_eq!(context.get_proxy(301), None);
    assert!(context.get_target(Some(401)).is_none());
}

#[test]
fn context_try_ensure_propagates_errors() {
    let context = DX9ProxyDeviceContext::new(DX9ProxyConfig::default());

    let r = context.try_ensure_proxy(11, |_target| Err(ComError::from_code(E_INVALIDARG)));
    assert_eq!(r.unwrap_err().code(), E_INVALIDARG);
    assert_eq!(context.get_proxy(11), None);

    let w = context.try_ensure_proxy(11, |_target| Ok(12)).unwrap();
    assert_eq!(w, 12);
    assert_eq!(context.get_proxy(11), Some(12));

    // The configuration is reachable from the handle
    let _config = context.get_config();
}
