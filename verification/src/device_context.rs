//! Shared device context: configuration plus one mapping tracker behind a
//! lock.
//!
//! One context belongs to one top-level session (one device); every proxy
//! of that session holds a clone of the reference-counted handle and reaches
//! the one shared [`ComMappingTracker`] only through it.  Each operation
//! acquires the context's single lock, delegates to the tracker, and
//! releases — so concurrent callers are serialized and none observes a
//! partially updated pair.  The lock carries the pairing invariant
//! ([`maps_paired`]) itself: whatever interleaving happens, the tracker a
//! caller acquires is paired, and only a paired tracker can be released.
//!
//! The exact value-level behavior of each operation is specified and proved
//! on [`ComMappingTracker`]; the operations here are verified to delegate
//! to it under the lock while keeping that invariant.
//!
//! [`maps_paired`]: crate::com_mapping_tracker::maps_paired

use std::sync::Arc;

use vstd::prelude::*;
use vstd::rwlock::RwLock;
use vstd::rwlock::RwLockPredicate;

use crate::com_error::ComError;
use crate::com_mapping_tracker::ComMappingTracker;
use crate::com_mapping_tracker::NullableInterfaceOut;
use crate::com_mapping_tracker::lemma_paired_insert;
use crate::com_mapping_tracker::lemma_paired_remove;

verus! {

/// Static configuration for the proxy layer, shared by every proxy of one
/// session.  Extend it with whatever settings the surrounding layer needs;
/// the identity-tracking core only carries it.
#[derive(Debug, Clone)]
pub struct DX9ProxyConfig;

impl Default for DX9ProxyConfig {
    /// The default configuration.
    fn default() -> (c: Self)
        ensures
            c == DX9ProxyConfig,
    {
        DX9ProxyConfig
    }
}

/// The lock invariant of a context's tracker: its two directions pair up.
pub struct TrackerPairing;

impl RwLockPredicate<ComMappingTracker> for TrackerPairing {
    open spec fn inv(self, t: ComMappingTracker) -> bool {
        t.wf()
    }
}

/// The state one context owns: the configuration and the mapping tracker
/// behind the context's single lock.
pub struct DX9ProxyDeviceContextImpl {
    config: DX9ProxyConfig,
    tracker: RwLock<ComMappingTracker, TrackerPairing>,
}

/// Thread-safe, reference-counted handle to one session's shared state.
///
/// Cloning the handle is cheap and shares the same tracker; the handle is
/// the only thing proxy objects depend on.
#[derive(Clone)]
pub struct DX9ProxyDeviceContext(Arc<DX9ProxyDeviceContextImpl>);

impl DX9ProxyDeviceContext {
    /// The configuration this context was created with.
    pub closed spec fn config(&self) -> DX9ProxyConfig {
        (*self.0).config
    }

    /// Creates a context with the given configuration and an empty mapping.
    pub fn new(config: DX9ProxyConfig) -> (c: Self)
        ensures
            c.config() == config,
    {
        let tracker = ComMappingTracker::new();
        DX9ProxyDeviceContext(
            Arc::new(
                DX9ProxyDeviceContextImpl {
                    config,
                    tracker: RwLock::new(tracker, Ghost(TrackerPairing)),
                },
            ),
        )
    }

    /// A reference to the configuration.
    pub fn get_config(&self) -> (c: &DX9ProxyConfig)
        ensures
            *c == self.config(),
    {
        let inner = &*self.0;
        &inner.config
    }

    /// Ensures a proxy exists for `target` in the shared tracker, creating
    /// one with `create_proxy_fn` if `target` is unmapped; see
    /// [`ComMappingTracker::ensure_proxy`] for the per-call contract.  The
    /// constructor must build a new wrapper: an identity it returns that
    /// already names a live proxy cannot arise through the normal protocol,
    /// and is returned without being recorded, so that the pairing
    /// invariant outlives the call.
    pub fn ensure_proxy<F: FnOnce(usize) -> usize>(&self, target: usize, create_proxy_fn: F) -> (r:
        usize)
        requires
            call_requires(create_proxy_fn, (target,)),
    {
        let inner = &*self.0;
        let (mut tracker, handle) = inner.tracker.acquire_write();
        let r = match tracker.get_proxy(target) {
            Some(proxy) => proxy,
            None => {
                let proxy = create_proxy_fn(target);
                if !tracker.contains_proxy(proxy) {
                    proof {
                        lemma_paired_insert(
                            tracker.target_map(),
                            tracker.proxy_map(),
                            target,
                            proxy,
                        );
                    }
                    tracker.insert_pair(target, proxy);
                }
                proxy
            },
        };
        handle.release_write(tracker);
        r
    }

    /// Ensures a proxy exists for `target`, with a fallible constructor: a
    /// constructor error is surfaced unchanged and nothing is recorded; see
    /// [`ComMappingTracker::try_ensure_proxy`] for the per-call contract.
    pub fn try_ensure_proxy<F: FnOnce(usize) -> Result<usize, ComError>>(
        &self,
        target: usize,
        try_create_proxy_fn: F,
    ) -> (r: Result<usize, ComError>)
        requires
            call_requires(try_create_proxy_fn, (target,)),
        ensures
            r matches Err(e) ==> call_ensures(try_create_proxy_fn, (target,), Err(e)),
    {
        let inner = &*self.0;
        let (mut tracker, handle) = inner.tracker.acquire_write();
        let r = match tracker.get_proxy(target) {
            Some(proxy) => Ok(proxy),
            None => match try_create_proxy_fn(target) {
                Ok(proxy) => {
                    if !tracker.contains_proxy(proxy) {
                        proof {
                            lemma_paired_insert(
                                tracker.target_map(),
                                tracker.proxy_map(),
                                target,
                                proxy,
                            );
                        }
                        tracker.insert_pair(target, proxy);
                    }
                    Ok(proxy)
                },
                Err(e) => Err(e),
            },
        };
        handle.release_write(tracker);
        r
    }

    /// Pure lookup of the proxy recorded for `target` in the shared
    /// tracker; see [`ComMappingTracker::get_proxy`].
    pub fn get_proxy(&self, target: usize) -> (r: Option<usize>) {
        let inner = &*self.0;
        let (mut tracker, handle) = inner.tracker.acquire_write();
        let r = tracker.get_proxy(target);
        handle.release_write(tracker);
        r
    }

    /// Reverse lookup that treats a null proxy reference as absent; see
    /// [`ComMappingTracker::get_target`].
    pub fn get_target(&self, proxy: Option<usize>) -> (r: Option<NullableInterfaceOut>)
        ensures
            proxy is None ==> r is None,
    {
        let inner = &*self.0;
        let (mut tracker, handle) = inner.tracker.acquire_write();
        let r = tracker.get_target(proxy);
        handle.release_write(tracker);
        r
    }

    /// Reverse lookup that maps a null proxy reference to the explicit null
    /// identity; see [`ComMappingTracker::get_target_nullable`].
    pub fn get_target_nullable(&self, proxy: Option<usize>) -> (r: Option<NullableInterfaceOut>)
        ensures
            proxy is None ==> (r matches Some(out) && out@ == 0),
    {
        let inner = &*self.0;
        let (mut tracker, handle) = inner.tracker.acquire_write();
        let r = tracker.get_target_nullable(proxy);
        handle.release_write(tracker);
        r
    }

    /// Removes the pair recorded for `target` from the shared tracker when
    /// the proxy's lifetime ends; a tolerated no-op when no mapping exists.
    /// See [`ComMappingTracker::on_proxy_destroy`].
    pub fn on_proxy_destroy(&self, target: usize) {
        let inner = &*self.0;
        let (mut tracker, handle) = inner.tracker.acquire_write();
        proof {
            if tracker.target_map().contains_key(target) {
                lemma_paired_remove(tracker.target_map(), tracker.proxy_map(), target);
            }
        }
        tracker.on_proxy_destroy(target);
        handle.release_write(tracker);
    }
}

} // verus!
