use std::collections::HashSet;
use vstd::prelude::*;
use vstd::std_specs::hash::spec_hash_keys_iter;
use vstd::std_specs::iter::IteratorSpec;

verus! {

broadcast use vstd::std_specs::hash::group_hash_axioms;

/// The set of process identifiers believed to be running and tracked for
/// termination.
pub struct ProcessRegistry {
    ids: HashSet<u32>,
}

impl View for ProcessRegistry {
    type V = Set<u32>;

    closed spec fn view(&self) -> Set<u32> {
        self.ids@
    }
}

impl ProcessRegistry {
    /// An empty registry.
    pub fn new() -> (r: Self)
        ensures
            r@ == Set::<u32>::empty(),
    {
        ProcessRegistry { ids: HashSet::new() }
    }

    /// Adds `pid`; returns whether it was absent before.
    pub fn insert(&mut self, pid: u32) -> (added: bool)
        ensures
            final(self)@ == old(self)@.insert(pid),
            added == !old(self)@.contains(pid),
    {
        self.ids.insert(pid)
    }

    /// Removes `pid`; returns whether it was present before.
    pub fn remove(&mut self, pid: u32) -> (removed: bool)
        ensures
            final(self)@ == old(self)@.remove(pid),
            removed == old(self)@.contains(pid),
    {
        self.ids.remove(&pid)
    }

    pub fn contains(&self, pid: u32) -> (r: bool)
        ensures
            r == self@.contains(pid),
    {
        self.ids.contains(&pid)
    }

    /// Forgets every tracked identifier.
    pub fn clear(&mut self)
        ensures
            final(self)@ == Set::<u32>::empty(),
    {
        self.ids.clear()
    }

    /// A point-in-time copy of the tracked identifiers, each listed once.
    pub fn snapshot(&self) -> (r: Vec<u32>)
        ensures
            r@.to_set() == self@,
            r@.no_duplicates(),
    {
        let mut out: Vec<u32> = Vec::new();
        let ghost keys = spec_hash_keys_iter(&self.ids).remaining().unref();
        for id in it: self.ids.iter()
            invariant
                keys == it.seq().unref(),
                out@ == keys.take(it.index()),
        {
            out.push(*id);
        }
        assert(out@ =~= keys);
        out
    }
}


/// Records a freshly spawned child in the registry.
pub fn track_process(registry: &mut ProcessRegistry, pid: u32)
    ensures
        final(registry)@ == old(registry)@.insert(pid),
{
    registry.insert(pid);
}

/// One mutation of the registry, as performed under its lock.
pub enum RegistryOp {
    Insert(u32),
    Remove(u32),
    Clear,
}

pub open spec fn apply_op(s: Set<u32>, op: RegistryOp) -> Set<u32> {
    match op {
        RegistryOp::Insert(p) => s.insert(p),
        RegistryOp::Remove(p) => s.remove(p),
        RegistryOp::Clear => Set::empty(),
    }
}

/// The set reached by performing `ops` one after another, starting from `s`.
pub open spec fn apply_ops(s: Set<u32>, ops: Seq<RegistryOp>) -> Set<u32>
    decreases ops.len(),
{
    if ops.len() == 0 {
        s
    } else {
        apply_op(apply_ops(s, ops.drop_last()), ops.last())
    }
}

/// Whether some operation in `ops` at or after index `from` removes `pid`.
pub open spec fn later_drops(ops: Seq<RegistryOp>, from: int, pid: u32) -> bool {
    exists|j: int|
        from <= j < ops.len() && (#[trigger] ops[j] == RegistryOp::Remove(pid) || ops[j]
            == RegistryOp::Clear)
}

impl ProcessRegistry {
    /// Performs one operation.
    pub fn apply(&mut self, op: RegistryOp)
        ensures
            final(self)@ == apply_op(old(self)@, op),
    {
        match op {
            RegistryOp::Insert(p) => {
                self.insert(p);
            },
            RegistryOp::Remove(p) => {
                self.remove(p);
            },
            RegistryOp::Clear => self.clear(),
        }
    }
}

/// No lost updates: once the operations are serialised, an identifier
/// inserted by one of them is present at the end unless a later operation
/// removes it or clears the registry, and an identifier removed (or cleared)
/// is absent at the end unless a later operation inserts it again.
pub proof fn lemma_serial_ops_keep_updates(s: Set<u32>, ops: Seq<RegistryOp>, i: int, pid: u32)
    requires
        0 <= i < ops.len(),
    ensures
        ops[i] == RegistryOp::Insert(pid) && !later_drops(ops, i + 1, pid) ==> apply_ops(
            s,
            ops,
        ).contains(pid),
        (ops[i] == RegistryOp::Remove(pid) || ops[i] == RegistryOp::Clear) && !(exists|j: int|
            i < j < ops.len() && #[trigger] ops[j] == RegistryOp::Insert(pid)) ==> !apply_ops(
            s,
            ops,
        ).contains(pid),
    decreases ops.len(),
{
    if i < ops.len() - 1 {
        let init = ops.drop_last();
        lemma_serial_ops_keep_updates(s, init, i, pid);
        assert(init[i] == ops[i]);
        if ops[i] == RegistryOp::Insert(pid) && !later_drops(ops, i + 1, pid) {
            assert(!later_drops(init, i + 1, pid)) by {
                if later_drops(init, i + 1, pid) {
                    let j = choose|j: int|
                        i + 1 <= j < init.len() && (#[trigger] init[j] == RegistryOp::Remove(pid)
                            || init[j] == RegistryOp::Clear);
                    assert(ops[j] == init[j]);
                }
            }
            let k = ops.len() - 1;
            assert(ops[k] != RegistryOp::Remove(pid) && ops[k] != RegistryOp::Clear);
        }
        if (ops[i] == RegistryOp::Remove(pid) || ops[i] == RegistryOp::Clear) && !(exists|j: int|
            i < j < ops.len() && #[trigger] ops[j] == RegistryOp::Insert(pid)) {
            assert(!(exists|j: int| i < j < init.len() && #[trigger] init[j] == RegistryOp::Insert(pid))) by {
                if exists|j: int| i < j < init.len() && #[trigger] init[j] == RegistryOp::Insert(pid) {
                    let j = choose|j: int| i < j < init.len() && #[trigger] init[j] == RegistryOp::Insert(pid);
                    assert(ops[j] == init[j]);
                }
            }
            let k = ops.len() - 1;
            assert(ops[k] != RegistryOp::Insert(pid));
        }
    }
}

/// A sweep's clear racing with inserts: in whatever serial order the lock
/// admits them, once the clear has run and only inserts follow it, the
/// registry holds exactly the identifiers inserted after the clear. The
/// clear never removes part of the set, and an insert ordered after it is
/// never lost.
pub proof fn lemma_clear_then_inserts(s: Set<u32>, ops: Seq<RegistryOp>, c: int)
    requires
        0 <= c < ops.len(),
        ops[c] == RegistryOp::Clear,
        forall|j: int| c < j < ops.len() ==> (#[trigger] ops[j]) is Insert,
    ensures
        forall|q: u32|
            apply_ops(s, ops).contains(q) <==> exists|j: int|
                c < j < ops.len() && #[trigger] ops[j] == RegistryOp::Insert(q),
    decreases ops.len(),
{
    let init = ops.drop_last();
    if c < ops.len() - 1 {
        assert forall|j: int| c < j < init.len() implies (#[trigger] init[j]) is Insert by {
            assert(init[j] == ops[j]);
        }
        assert(init[c] == ops[c]);
        lemma_clear_then_inserts(s, init, c);
        let k = ops.len() - 1;
        assert(ops[k] is Insert);
        assert forall|q: u32|
            apply_ops(s, ops).contains(q) <==> exists|j: int|
                c < j < ops.len() && #[trigger] ops[j] == RegistryOp::Insert(q) by {
            if apply_ops(s, ops).contains(q) {
                if ops[k] != RegistryOp::Insert(q) {
                    assert(apply_ops(s, init).contains(q));
                    let j = choose|j: int| c < j < init.len() && #[trigger] init[j] == RegistryOp::Insert(q);
                    assert(ops[j] == init[j]);
                }
            }
            if exists|j: int| c < j < ops.len() && #[trigger] ops[j] == RegistryOp::Insert(q) {
                let j = choose|j: int| c < j < ops.len() && #[trigger] ops[j] == RegistryOp::Insert(q);
                if j < k {
                    assert(init[j] == RegistryOp::Insert(q));
                    assert(apply_ops(s, init).contains(q));
                }
                assert(apply_ops(s, ops).contains(q));
            }
        }
    } else {
        assert(apply_ops(s, ops) == Set::<u32>::empty());
    }
}

} // verus!
