//! The registry of live connections: each supervisor registers when it
//! starts and hands its handle back when it ends, whatever the outcome.

use vstd::prelude::*;

verus! {

/// The token a supervisor holds while its connection is live. It can be
/// neither copied nor cloned, so it is handed back at most once.
#[derive(Debug)]
pub struct ConnectionHandle {
    id: u64,
}

impl ConnectionHandle {
    pub closed spec fn spec_id(&self) -> u64 {
        self.id
    }

    pub fn id(&self) -> (r: u64)
        ensures
            r == self.spec_id(),
    {
        self.id
    }
}

/// What happened to a registry.
pub ghost enum RegistryOp {
    /// A handle with this id was issued.
    Register(u64),
    /// The handle with this id was handed back.
    Unregister(u64),
}

/// The live ids and the number issued, after some operations on a new
/// registry.
pub open spec fn registry_run(ops: Seq<RegistryOp>) -> (Set<u64>, nat)
    decreases ops.len(),
{
    if ops.len() == 0 {
        (Set::empty(), 0)
    } else {
        let (live, issued) = registry_run(ops.drop_last());
        match ops.last() {
            RegistryOp::Register(id) => (live.insert(id), issued + 1),
            RegistryOp::Unregister(id) => (live.remove(id), issued),
        }
    }
}

/// The ids ever issued by these operations.
pub open spec fn registered(ops: Seq<RegistryOp>) -> Set<u64> {
    Set::new(|id: u64| exists|i: int| 0 <= i < ops.len() && ops[i] == RegistryOp::Register(id))
}

/// The ids ever handed back by these operations.
pub open spec fn unregistered(ops: Seq<RegistryOp>) -> Set<u64> {
    Set::new(|id: u64| exists|i: int| 0 <= i < ops.len() && ops[i] == RegistryOp::Unregister(id))
}

/// Each operation issues the next id in turn, and hands back one that was
/// issued before it and not yet handed back.
pub open spec fn well_ordered(ops: Seq<RegistryOp>) -> bool
    decreases ops.len(),
{
    if ops.len() == 0 {
        true
    } else {
        &&& well_ordered(ops.drop_last())
        &&& match ops.last() {
            RegistryOp::Register(id) => id == registry_run(ops.drop_last()).1,
            RegistryOp::Unregister(id) => registry_run(ops.drop_last()).0.contains(id),
        }
    }
}

/// A connection's handle is live exactly while its supervisor runs: after
/// any well-ordered operations, the live ids are those registered and not
/// yet handed back, and the ids issued are exactly those below the count.
pub proof fn lemma_live_iff_running(ops: Seq<RegistryOp>)
    requires
        well_ordered(ops),
    ensures
        registry_run(ops).0 == registered(ops).difference(unregistered(ops)),
        forall|id: u64| #[trigger] registered(ops).contains(id) <==> id < registry_run(ops).1,
        unregistered(ops).subset_of(registered(ops)),
    decreases ops.len(),
{
    if ops.len() > 0 {
        let p = ops.drop_last();
        lemma_live_iff_running(p);
        let (live, issued) = registry_run(p);
        assert forall|id: u64| #[trigger] registered(p).contains(id) implies registered(ops).contains(id) by {
            let i = choose|i: int| 0 <= i < p.len() && p[i] == RegistryOp::Register(id);
            assert(ops[i] == p[i]);
        }
        assert forall|id: u64| #[trigger] unregistered(p).contains(id) implies unregistered(ops).contains(id) by {
            let i = choose|i: int| 0 <= i < p.len() && p[i] == RegistryOp::Unregister(id);
            assert(ops[i] == p[i]);
        }
        let last_i = ops.len() - 1;
        match ops.last() {
            RegistryOp::Register(n) => {
                assert(ops[last_i] == RegistryOp::Register(n));
                assert(registered(ops) =~= registered(p).insert(n)) by {
                    assert forall|id: u64| #[trigger] registered(ops).contains(id) implies registered(p).insert(n).contains(id) by {
                        let i = choose|i: int| 0 <= i < ops.len() && ops[i] == RegistryOp::Register(id);
                        if i < last_i {
                            assert(p[i] == ops[i]);
                        }
                    }
                }
                assert(unregistered(ops) =~= unregistered(p)) by {
                    assert forall|id: u64| #[trigger] unregistered(ops).contains(id) implies unregistered(p).contains(id) by {
                        let i = choose|i: int| 0 <= i < ops.len() && ops[i] == RegistryOp::Unregister(id);
                        assert(i != last_i);
                        assert(p[i] == ops[i]);
                    }
                }
                assert(!registered(p).contains(n));
                assert(registry_run(ops).0 =~= registered(ops).difference(unregistered(ops)));
            },
            RegistryOp::Unregister(n) => {
                assert(ops[last_i] == RegistryOp::Unregister(n));
                assert(registered(ops) =~= registered(p)) by {
                    assert forall|id: u64| #[trigger] registered(ops).contains(id) implies registered(p).contains(id) by {
                        let i = choose|i: int| 0 <= i < ops.len() && ops[i] == RegistryOp::Register(id);
                        assert(i != last_i);
                        assert(p[i] == ops[i]);
                    }
                }
                assert(unregistered(ops) =~= unregistered(p).insert(n)) by {
                    assert forall|id: u64| #[trigger] unregistered(ops).contains(id) implies unregistered(p).insert(n).contains(id) by {
                        let i = choose|i: int| 0 <= i < ops.len() && ops[i] == RegistryOp::Unregister(id);
                        if i < last_i {
                            assert(p[i] == ops[i]);
                        }
                    }
                }
                assert(registry_run(ops).0 =~= registered(ops).difference(unregistered(ops)));
            },
        }
    } else {
        assert(registered(ops) =~= Set::empty());
        assert(unregistered(ops) =~= Set::empty());
        assert(registry_run(ops).0 =~= registered(ops).difference(unregistered(ops)));
    }
}

/// The registry issued its handles in turn and took back only live ones.
pub proof fn lemma_registry_tracks_connections(r: &Registry)
    requires
        r.wf(),
    ensures
        r.live() == registered(r.ops()).difference(unregistered(r.ops())),
        forall|id: u64| #[trigger] registered(r.ops()).contains(id) <==> id < r.issued(),
{
    lemma_live_iff_running(r.ops());
}

/// The set of connections that a registry holds.
pub struct Registry {
    live: Vec<u64>,
    next: u64,
    ops: Ghost<Seq<RegistryOp>>,
}

impl Registry {
    /// The ids of the live connections.
    pub closed spec fn live(&self) -> Set<u64> {
        self.live@.to_set()
    }

    /// How many handles have been issued.
    pub closed spec fn issued(&self) -> nat {
        self.next as nat
    }

    /// Everything that happened to this registry, in order.
    pub closed spec fn ops(&self) -> Seq<RegistryOp> {
        self.ops@
    }

    pub closed spec fn wf(&self) -> bool {
        &&& self.live@.no_duplicates()
        &&& forall|i: int| 0 <= i < self.live@.len() ==> self.live@[i] < self.next
        &&& registry_run(self.ops@) == (self.live@.to_set(), self.next as nat)
        &&& well_ordered(self.ops@)
    }

    pub fn new() -> (r: Registry)
        ensures
            r.wf(),
            r.live() == Set::<u64>::empty(),
            r.issued() == 0,
            r.ops() == Seq::<RegistryOp>::empty(),
    {
        let r = Registry { live: Vec::new(), next: 0, ops: Ghost(Seq::empty()) };
        assert(r.live@.to_set() =~= Set::<u64>::empty());
        r
    }

    /// Issues a fresh handle and records it as live; `None` only once every
    /// id has been issued.
    pub fn register(&mut self) -> (r: Option<ConnectionHandle>)
        requires
            old(self).wf(),
        ensures
            final(self).wf(),
            r is Some <==> old(self).issued() < u64::MAX,
            r is None ==> *final(self) == *old(self),
            r is Some ==> {
                let id = r->0.spec_id();
                &&& id == old(self).issued()
                &&& !old(self).live().contains(id)
                &&& final(self).live() == old(self).live().insert(id)
                &&& final(self).issued() == old(self).issued() + 1
                &&& final(self).ops() == old(self).ops().push(RegistryOp::Register(id))
            },
    {
        if self.next == u64::MAX {
            return None;
        }
        let id = self.next;
        let ghost before = self.ops@;
        let ghost old_live = self.live@;
        proof {
            if old_live.to_set().contains(id) {
                let i = choose|i: int| 0 <= i < old_live.len() && old_live[i] == id;
            }
        }
        self.live.push(id);
        self.next = id + 1;
        self.ops = Ghost(self.ops@.push(RegistryOp::Register(id)));
        proof {
            assert(self.ops@.drop_last() =~= before);
            assert(self.live@.to_set() =~= old_live.to_set().insert(id)) by {
                assert forall|x: u64| self.live@.to_set().contains(x) implies old_live.to_set().insert(
                    x,
                ).contains(x) by {}
                assert forall|x: u64| #[trigger] old_live.to_set().insert(id).contains(x) implies self.live@.to_set().contains(x) by {
                    if x == id {
                        assert(self.live@[old_live.len() as int] == id);
                    } else {
                        let i = choose|i: int| 0 <= i < old_live.len() && old_live[i] == x;
                        assert(self.live@[i] == x);
                    }
                }
            }
            assert forall|i: int, j: int|
                0 <= i < self.live@.len() && 0 <= j < self.live@.len() && i != j implies self.live@[i]
                != self.live@[j] by {
                if i < old_live.len() && j < old_live.len() {
                } else if i < old_live.len() {
                    assert(old_live[i] < id);
                } else {
                    assert(old_live[j] < id);
                }
            }
        }
        Some(ConnectionHandle { id })
    }

    /// Whether the connection with this handle is live.
    pub fn contains(&self, h: &ConnectionHandle) -> (r: bool)
        requires
            self.wf(),
        ensures
            r == self.live().contains(h.spec_id()),
    {
        let mut i: usize = 0;
        while i < self.live.len()
            invariant
                0 <= i <= self.live@.len(),
                forall|k: int| 0 <= k < i ==> self.live@[k] != h.id,
            decreases self.live@.len() - i,
        {
            if self.live[i] == h.id {
                assert(self.live@.to_set().contains(h.id));
                return true;
            }
            i = i + 1;
        }
        false
    }

    /// Hands a handle back, ending its connection's registration. Returns
    /// whether it was live, which it is for every handle this registry
    /// issued, since a handle is handed back only once. A handle is known
    /// by its id alone: one that another registry issued counts as live
    /// here if an id of this registry's live handles equals it.
    pub fn unregister(&mut self, h: ConnectionHandle) -> (r: bool)
        requires
            old(self).wf(),
        ensures
            final(self).wf(),
            r == old(self).live().contains(h.spec_id()),
            final(self).live() == old(self).live().remove(h.spec_id()),
            final(self).issued() == old(self).issued(),
            r ==> final(self).ops() == old(self).ops().push(RegistryOp::Unregister(h.spec_id())),
            !r ==> final(self).ops() == old(self).ops(),
    {
        let mut i: usize = 0;
        while i < self.live.len()
            invariant
                0 <= i <= self.live@.len(),
                forall|k: int| 0 <= k < i ==> self.live@[k] != h.id,
                *self == *old(self),
                self.wf(),
            decreases self.live@.len() - i,
        {
            if self.live[i] == h.id {
                let ghost before = self.ops@;
                let ghost old_live = self.live@;
                self.live.remove(i);
                self.ops = Ghost(self.ops@.push(RegistryOp::Unregister(h.id)));
                proof {
                    assert(self.ops@.drop_last() =~= before);
                    assert(old_live.to_set().contains(h.id));
                    assert forall|k: int| 0 <= k < self.live@.len() implies self.live@[k]
                        == if k < i { old_live[k] } else { old_live[k + 1] } by {}
                    assert(self.live@.to_set() =~= old_live.to_set().remove(h.id)) by {
                        assert forall|x: u64| #[trigger] old_live.to_set().remove(h.id).contains(x) implies self.live@.to_set().contains(x) by {
                            let k = choose|k: int| 0 <= k < old_live.len() && old_live[k] == x;
                            if k < i {
                                assert(self.live@[k] == x);
                            } else {
                                assert(k != i);
                                assert(self.live@[k - 1] == x);
                            }
                        }
                        assert forall|x: u64| self.live@.to_set().contains(x) implies #[trigger] old_live.to_set().remove(h.id).contains(x) by {
                            let k = choose|k: int| 0 <= k < self.live@.len() && self.live@[k] == x;
                            if k < i {
                                assert(old_live[k] == x);
                                assert(old_live[k] != old_live[i as int]);
                            } else {
                                assert(old_live[k + 1] == x);
                                assert(old_live[k + 1] != old_live[i as int]);
                            }
                        }
                    }
                    assert forall|a: int, b: int|
                        0 <= a < self.live@.len() && 0 <= b < self.live@.len() && a != b implies self.live@[a]
                        != self.live@[b] by {
                        let oa = if a < i { a } else { a + 1 };
                        let ob = if b < i { b } else { b + 1 };
                        assert(old_live[oa] != old_live[ob]);
                    }
                    assert forall|k: int| 0 <= k < self.live@.len() implies self.live@[k] < self.next by {
                        let ok = if k < i { k } else { k + 1 };
                        assert(old_live[ok] < self.next);
                    }
                }
                return true;
            }
            i = i + 1;
        }
        proof {
            assert(!self.live@.to_set().contains(h.id));
            assert(self.live@.to_set().remove(h.id) =~= self.live@.to_set());
        }
        false
    }

    /// How many connections are live.
    pub fn len(&self) -> (r: usize)
        requires
            self.wf(),
        ensures
            r == self.live().len(),
            self.live().finite(),
    {
        proof {
            self.live@.unique_seq_to_set();
            vstd::seq_lib::seq_to_set_is_finite(self.live@);
        }
        self.live.len()
    }

    /// Whether no connection is live.
    pub fn is_empty(&self) -> (r: bool)
        requires
            self.wf(),
        ensures
            r == (self.live() == Set::<u64>::empty()),
    {
        proof {
            self.live@.unique_seq_to_set();
            if self.live@.len() > 0 {
                assert(self.live@.to_set().contains(self.live@[0]));
            } else {
                assert(self.live@.to_set() =~= Set::<u64>::empty());
            }
        }
        self.live.len() == 0
    }
}

} // verus!
