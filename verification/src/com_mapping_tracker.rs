//! Bidirectional mapping between original objects and their proxy wrappers.
//!
//! The tracker keys both directions by an opaque, pointer-sized identity
//! (the object's address or handle) and never dereferences or owns the
//! objects those identities name.  Holding an identity here implies nothing
//! about the object's liveness: the entries are weak by design, so the
//! tracker can never be the reason an original/proxy pair stays alive.
//!
//! Both directions are always modified together — insert both entries or
//! remove both — and that pairing ([`maps_paired`]) is the central
//! invariant of the whole layer.  The tracker itself holds no
//! synchronization; serialization is the job of the shared device context.

use std::collections::HashMap;

use vstd::prelude::*;

use crate::com_error::ComError;

verus! {

broadcast use vstd::std_specs::hash::group_hash_axioms;

/// A nullable identity handed back by the proxy-to-target lookups.
///
/// The raw value is the identity of the found target, or `0` — the null
/// identity — when a null proxy reference was looked up through the
/// null-tolerant variant.  No reference count is touched for it: the value
/// is only valid to use for as long as the caller already keeps the
/// underlying object alive through the normal protocol.
#[derive(Debug, Clone, Copy, PartialEq, Eq, Structural)]
pub struct NullableInterfaceOut {
    raw: usize,
}

impl View for NullableInterfaceOut {
    type V = usize;

    closed spec fn view(&self) -> usize {
        self.raw
    }
}

impl NullableInterfaceOut {
    /// Wraps a raw identity value; `0` stands for the null identity.
    pub fn new(raw: usize) -> (r: Self)
        ensures
            r@ == raw,
    {
        NullableInterfaceOut { raw }
    }

    /// The raw identity value, `0` for the null identity.
    pub fn as_raw(&self) -> (r: usize)
        ensures
            r == self@,
    {
        self.raw
    }

    /// Whether this is the null identity.
    pub fn is_null(&self) -> (r: bool)
        ensures
            r == (self@ == 0),
    {
        self.raw == 0
    }
}

/// The pairing invariant of the two directions: every entry `(o, w)` of the
/// target-to-proxy direction has exactly the entry `(w, o)` in the
/// proxy-to-target direction, and vice versa.  No identity is keyed twice in
/// the same direction (maps cannot repeat keys), so each direction
/// determines the other.
pub open spec fn maps_paired(t2p: Map<usize, usize>, p2t: Map<usize, usize>) -> bool {
    &&& forall|o: usize| #[trigger]
        t2p.contains_key(o) ==> p2t.contains_key(t2p[o]) && p2t[t2p[o]] == o
    &&& forall|w: usize| #[trigger]
        p2t.contains_key(w) ==> t2p.contains_key(p2t[w]) && t2p[p2t[w]] == w
}

/// Tracks bidirectional mappings between original objects and their proxy
/// wrappers, keyed by opaque identity in both directions.
#[derive(Debug)]
pub struct ComMappingTracker {
    target_to_proxy: HashMap<usize, usize>,
    proxy_to_target: HashMap<usize, usize>,
}

impl ComMappingTracker {
    /// The target-to-proxy direction: original identity to proxy identity.
    pub closed spec fn target_map(&self) -> Map<usize, usize> {
        self.target_to_proxy@
    }

    /// The proxy-to-target direction: proxy identity to original identity.
    pub closed spec fn proxy_map(&self) -> Map<usize, usize> {
        self.proxy_to_target@
    }

    /// Well-formedness: the two directions pair up ([`maps_paired`]).
    pub open spec fn wf(&self) -> bool {
        maps_paired(self.target_map(), self.proxy_map())
    }

    /// An empty tracker: no pair is mapped.
    pub fn new() -> (t: Self)
        ensures
            t.target_map() == Map::<usize, usize>::empty(),
            t.proxy_map() == Map::<usize, usize>::empty(),
            t.wf(),
    {
        ComMappingTracker { target_to_proxy: HashMap::new(), proxy_to_target: HashMap::new() }
    }

    /// Pure lookup of the proxy recorded for `target`; no creation, and no
    /// change to the mapping.  The surrounding layer promotes a found proxy
    /// to an owned reference; the tracker itself counts nothing.
    pub fn get_proxy(&mut self, target: usize) -> (r: Option<usize>)
        ensures
            final(self).target_map() == old(self).target_map(),
            final(self).proxy_map() == old(self).proxy_map(),
            r == if old(self).target_map().contains_key(target) {
                Some(old(self).target_map()[target])
            } else {
                None::<usize>
            },
    {
        match self.target_to_proxy.get(&target) {
            Some(proxy) => Some(*proxy),
            None => None,
        }
    }

    /// Whether `proxy` is currently recorded as a proxy identity.
    pub fn contains_proxy(&self, proxy: usize) -> (r: bool)
        ensures
            r == self.proxy_map().contains_key(proxy),
    {
        self.proxy_to_target.contains_key(&proxy)
    }

    /// Reverse pure lookup: the original behind `proxy`.  A null proxy
    /// reference (`None`) is treated as an error and reported as absent,
    /// exactly like a present-but-unmapped proxy; see
    /// [`Self::get_target_nullable`] for the null-tolerant variant.  No
    /// reference count changes: the returned identity is borrowed.
    pub fn get_target(&mut self, proxy: Option<usize>) -> (r: Option<NullableInterfaceOut>)
        ensures
            final(self).target_map() == old(self).target_map(),
            final(self).proxy_map() == old(self).proxy_map(),
            match proxy {
                None => r is None,
                Some(p) => match r {
                    Some(out) => old(self).proxy_map().contains_key(p) && out@ == old(
                        self,
                    ).proxy_map()[p],
                    None => !old(self).proxy_map().contains_key(p),
                },
            },
    {
        let p = match proxy {
            Some(p) => p,
            None => {
                return None;
            },
        };
        match self.proxy_to_target.get(&p) {
            Some(target) => Some(NullableInterfaceOut::new(*target)),
            None => None,
        }
    }

    /// Reverse pure lookup that tolerates a null proxy reference: `None`
    /// yields the explicit null identity — distinguishable from a lookup
    /// miss — while a present-but-unmapped proxy still yields absent.
    pub fn get_target_nullable(&mut self, proxy: Option<usize>) -> (r: Option<
        NullableInterfaceOut,
    >)
        ensures
            final(self).target_map() == old(self).target_map(),
            final(self).proxy_map() == old(self).proxy_map(),
            match proxy {
                None => r matches Some(out) && out@ == 0,
                Some(p) => match r {
                    Some(out) => old(self).proxy_map().contains_key(p) && out@ == old(
                        self,
                    ).proxy_map()[p],
                    None => !old(self).proxy_map().contains_key(p),
                },
            },
    {
        let p = match proxy {
            Some(p) => p,
            None => {
                return Some(NullableInterfaceOut::new(0));
            },
        };
        match self.proxy_to_target.get(&p) {
            Some(target) => Some(NullableInterfaceOut::new(*target)),
            None => None,
        }
    }

    /// Ensures a proxy exists for `target`, creating one if necessary.
    ///
    /// When `target` is already mapped the recorded proxy identity is
    /// returned and the mapping is untouched — the constructor is never
    /// invoked, and the surrounding layer promotes the returned identity to
    /// an owned reference.  Otherwise `try_create_proxy_fn` is invoked once
    /// on `target`; on success both directions are recorded, and on failure
    /// the error is surfaced unchanged with nothing inserted.
    pub fn try_ensure_proxy<F: FnOnce(usize) -> Result<usize, ComError>>(
        &mut self,
        target: usize,
        try_create_proxy_fn: F,
    ) -> (r: Result<usize, ComError>)
        requires
            !old(self).target_map().contains_key(target) ==> call_requires(
                try_create_proxy_fn,
                (target,),
            ),
        ensures
            old(self).target_map().contains_key(target) ==> {
                &&& r == Ok::<usize, ComError>(old(self).target_map()[target])
                &&& final(self).target_map() == old(self).target_map()
                &&& final(self).proxy_map() == old(self).proxy_map()
            },
            !old(self).target_map().contains_key(target) ==> match r {
                Ok(proxy) => {
                    &&& call_ensures(try_create_proxy_fn, (target,), Ok(proxy))
                    &&& final(self).target_map() == old(self).target_map().insert(target, proxy)
                    &&& final(self).proxy_map() == old(self).proxy_map().insert(proxy, target)
                },
                Err(e) => {
                    &&& call_ensures(try_create_proxy_fn, (target,), Err(e))
                    &&& final(self).target_map() == old(self).target_map()
                    &&& final(self).proxy_map() == old(self).proxy_map()
                },
            },
    {
        match self.target_to_proxy.get(&target) {
            Some(proxy) => {
                return Ok(*proxy);
            },
            None => {},
        }
        let proxy = match try_create_proxy_fn(target) {
            Ok(proxy) => proxy,
            Err(e) => {
                return Err(e);
            },
        };
        self.target_to_proxy.insert(target, proxy);
        self.proxy_to_target.insert(proxy, target);
        Ok(proxy)
    }

    /// Ensures a proxy exists for `target`, creating one with an infallible
    /// constructor if necessary; the same contract as
    /// [`Self::try_ensure_proxy`] without the failure path.
    pub fn ensure_proxy<F: FnOnce(usize) -> usize>(
        &mut self,
        target: usize,
        create_proxy_fn: F,
    ) -> (r: usize)
        requires
            !old(self).target_map().contains_key(target) ==> call_requires(
                create_proxy_fn,
                (target,),
            ),
        ensures
            old(self).target_map().contains_key(target) ==> {
                &&& r == old(self).target_map()[target]
                &&& final(self).target_map() == old(self).target_map()
                &&& final(self).proxy_map() == old(self).proxy_map()
            },
            !old(self).target_map().contains_key(target) ==> {
                &&& call_ensures(create_proxy_fn, (target,), r)
                &&& final(self).target_map() == old(self).target_map().insert(target, r)
                &&& final(self).proxy_map() == old(self).proxy_map().insert(r, target)
            },
    {
        match self.target_to_proxy.get(&target) {
            Some(proxy) => {
                return *proxy;
            },
            None => {},
        }
        let proxy = create_proxy_fn(target);
        self.target_to_proxy.insert(target, proxy);
        self.proxy_to_target.insert(proxy, target);
        proxy
    }

    /// Records the pair `(target, proxy)` in both directions.
    pub(crate) fn insert_pair(&mut self, target: usize, proxy: usize)
        ensures
            final(self).target_map() == old(self).target_map().insert(target, proxy),
            final(self).proxy_map() == old(self).proxy_map().insert(proxy, target),
    {
        self.target_to_proxy.insert(target, proxy);
        self.proxy_to_target.insert(proxy, target);
    }

    /// Removes both entries of the pair keyed by `target`, called when the
    /// proxy recorded for `target` is being destroyed.  When no mapping
    /// exists — a proxy torn down twice, or one whose insertion never
    /// happened — this is a tolerated no-op.
    pub fn on_proxy_destroy(&mut self, target: usize)
        ensures
            old(self).target_map().contains_key(target) ==> {
                &&& final(self).target_map() == old(self).target_map().remove(target)
                &&& final(self).proxy_map() == old(self).proxy_map().remove(
                    old(self).target_map()[target],
                )
            },
            !old(self).target_map().contains_key(target) ==> {
                &&& final(self).target_map() == old(self).target_map()
                &&& final(self).proxy_map() == old(self).proxy_map()
            },
    {
        match self.target_to_proxy.remove(&target) {
            Some(proxy) => {
                self.proxy_to_target.remove(&proxy);
            },
            None => {},
        }
    }
}

/// Ensuring a fresh pair preserves the pairing invariant: recording
/// `(o, w)` in both directions keeps the two maps paired, provided `o` was
/// not yet a target key and `w` not yet a proxy key — which is exactly the
/// state in which `try_ensure_proxy` inserts, with a constructor that built
/// a new wrapper rather than reusing a live identity.
pub proof fn lemma_paired_insert(t2p: Map<usize, usize>, p2t: Map<usize, usize>, o: usize, w: usize)
    requires
        maps_paired(t2p, p2t),
        !t2p.contains_key(o),
        !p2t.contains_key(w),
    ensures
        maps_paired(t2p.insert(o, w), p2t.insert(w, o)),
{
    let t2 = t2p.insert(o, w);
    let p2 = p2t.insert(w, o);
    assert forall|o2: usize| #[trigger] t2.contains_key(o2) implies p2.contains_key(t2[o2])
        && p2[t2[o2]] == o2 by {
        if o2 != o {
            assert(t2p.contains_key(o2));
            assert(t2p[o2] != w);
        }
    }
    assert forall|w2: usize| #[trigger] p2.contains_key(w2) implies t2.contains_key(p2[w2])
        && t2[p2[w2]] == w2 by {
        if w2 != w {
            assert(p2t.contains_key(w2));
            assert(p2t[w2] != o);
        }
    }
}

/// Removing a pair preserves the pairing invariant: dropping `o` from the
/// target direction together with its recorded proxy `t2p[o]` from the
/// proxy direction — the two entries `on_proxy_destroy` removes — keeps the
/// remaining maps paired.
pub proof fn lemma_paired_remove(t2p: Map<usize, usize>, p2t: Map<usize, usize>, o: usize)
    requires
        maps_paired(t2p, p2t),
        t2p.contains_key(o),
    ensures
        maps_paired(t2p.remove(o), p2t.remove(t2p[o])),
{
    let w = t2p[o];
    let t2 = t2p.remove(o);
    let p2 = p2t.remove(w);
    assert forall|o2: usize| #[trigger] t2.contains_key(o2) implies p2.contains_key(t2[o2])
        && p2[t2[o2]] == o2 by {
        assert(t2p.contains_key(o2));
        assert(t2p[o2] != w);
    }
    assert forall|w2: usize| #[trigger] p2.contains_key(w2) implies t2.contains_key(p2[w2])
        && t2[p2[w2]] == w2 by {
        assert(p2t.contains_key(w2));
        assert(p2t[w2] != o);
    }
}

/// Paired maps have equal cardinality: the pairing makes the target
/// direction injective and makes the proxy keys exactly its values.
pub proof fn lemma_paired_equal_len(t2p: Map<usize, usize>, p2t: Map<usize, usize>)
    requires
        maps_paired(t2p, p2t),
        t2p.dom().finite(),
        p2t.dom().finite(),
    ensures
        t2p.dom().len() == p2t.dom().len(),
{
    assert(t2p.is_injective()) by {
        assert forall|x: usize, y: usize|
            x != y && t2p.dom().contains(x) && t2p.dom().contains(y) implies #[trigger] t2p[x]
            != #[trigger] t2p[y] by {
            assert(t2p.contains_key(x));
            assert(t2p.contains_key(y));
        }
    }
    assert(p2t.dom() =~= t2p.values()) by {
        assert forall|w: usize| #[trigger] p2t.dom().contains(w) implies t2p.values().contains(
            w,
        ) by {
            assert(p2t.contains_key(w));
            assert(t2p.contains_key(p2t[w]) && t2p[p2t[w]] == w);
            assert(t2p.contains_value(w));
        }
        assert forall|w: usize| #[trigger] t2p.values().contains(w) implies p2t.dom().contains(
            w,
        ) by {
            let o = choose|o: usize| #[trigger] t2p.dom().contains(o) && t2p[o] == w;
            assert(t2p.contains_key(o));
        }
    }
    t2p.lemma_injective_values_len();
}

/// Uniqueness of the wrapper for one original: the only ensure call that
/// runs its constructor for `o` is one that finds `o` unmapped, and the
/// state it leaves records the wrapper `w` that constructor built.  From
/// that state on, `o` is a mapped key, so by the contract of
/// `try_ensure_proxy` every later ensure for `o` — whatever constructor it
/// is handed, from whichever caller the serialization lets in next —
/// returns `w` again and leaves the mapping unchanged.
pub proof fn lemma_ensure_unique(t2p: Map<usize, usize>, o: usize, w: usize)
    requires
        !t2p.contains_key(o),
    ensures
        t2p.insert(o, w).contains_key(o),
        t2p.insert(o, w)[o] == w,
{
}

/// Both lookups miss after a removal: once `on_proxy_destroy(o)` has
/// dropped the pair `(o, w)`, neither direction holds its key any more —
/// `get_proxy(o)` and `get_target(Some(w))` both report absent — and no
/// other target still claims `w` as its proxy.
pub proof fn lemma_lookups_absent_after_remove(
    t2p: Map<usize, usize>,
    p2t: Map<usize, usize>,
    o: usize,
)
    requires
        maps_paired(t2p, p2t),
        t2p.contains_key(o),
    ensures
        !t2p.remove(o).contains_key(o),
        !p2t.remove(t2p[o]).contains_key(t2p[o]),
        forall|o2: usize| #[trigger]
            t2p.remove(o).contains_key(o2) ==> t2p.remove(o)[o2] != t2p[o],
{
    let w = t2p[o];
    assert forall|o2: usize| #[trigger] t2p.remove(o).contains_key(o2) implies t2p.remove(o)[o2]
        != w by {
        assert(t2p.contains_key(o2));
    }
}

impl Default for ComMappingTracker {
    /// An empty tracker, as [`ComMappingTracker::new`] builds it.
    fn default() -> (t: Self)
        ensures
            t.target_map() == Map::<usize, usize>::empty(),
            t.proxy_map() == Map::<usize, usize>::empty(),
            t.wf(),
    {
        ComMappingTracker::new()
    }
}

} // verus!
