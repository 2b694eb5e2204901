use vstd::prelude::*;
use crate::mem::in_mem;
use crate::header::{gc_state, jl_gc_bits};
use crate::runtime::{Runtime, same_handles, jl_gc_queue_root};

verus! {

/// The generational invariant's trigger: the parent sits in the oldest,
/// most stable generation (state 3) while the child has not yet been
/// marked reachable in the current cycle (lowest state bit clear).  Only
/// this combination requires reporting the parent to the collector.
pub open spec fn needs_barrier(parent_state: u64, child_state: u64) -> bool {
    parent_state == 3 && child_state & 1 == 0
}

/// Decides, from two decoded collector states, whether the store must be
/// reported to the collector's write queue.
pub fn wb_required(parent_state: u64, child_state: u64) -> (r: bool)
    ensures
        r == needs_barrier(parent_state, child_state),
{
    parent_state == 3 && child_state & 1 == 0
}

/// The write barrier: call this when a reference to `child` is about to be
/// stored into a field of `parent`.  Exactly when the parent is in the
/// oldest generation and the child is not yet marked, the parent is
/// reported to the collector's write queue; in every other state
/// combination nothing is reported.  The heap image itself is untouched.
pub fn jl_gc_wb(rt: &mut Runtime, parent: u64, child: u64)
    requires
        in_mem(old(rt).heap.mem@, parent, 0),
        in_mem(old(rt).heap.mem@, child, 0),
    ensures
        final(rt).heap == old(rt).heap,
        final(rt).initialized == old(rt).initialized,
        final(rt).exception == old(rt).exception,
        same_handles(final(rt), old(rt)),
        needs_barrier(
            gc_state(old(rt).heap.mem@, parent),
            gc_state(old(rt).heap.mem@, child),
        ) ==> final(rt).write_queue@ == old(rt).write_queue@.push(parent),
        !needs_barrier(
            gc_state(old(rt).heap.mem@, parent),
            gc_state(old(rt).heap.mem@, child),
        ) ==> final(rt).write_queue@ == old(rt).write_queue@,
{
    let ps = jl_gc_bits(rt, parent);
    let cs = jl_gc_bits(rt, child);
    if wb_required(ps, cs) {
        jl_gc_queue_root(rt, parent);
    }
}

} // verus!
