use vstd::prelude::*;
use crate::mem::{in_mem, word_at};
use crate::runtime::Runtime;

verus! {

/// The type descriptor encoded in `v`'s header word: the word just before
/// `v` with its low tag nibble cleared.  A null value has no header; its
/// type resolves to null.
pub open spec fn type_of(mem: Seq<u8>, v: u64) -> u64 {
    if v == 0 {
        0
    } else {
        word_at(mem, v - 8) & 0xffff_ffff_ffff_fff0u64
    }
}

/// The raw collector-state bits of `v`: the low nibble of its header word,
/// uninterpreted.
pub open spec fn gc_state(mem: Seq<u8>, v: u64) -> u64 {
    word_at(mem, v - 8) & 15
}

/// `v` is null or its header slot lies inside the image.
pub open spec fn readable_value(mem: Seq<u8>, v: u64) -> bool {
    v == 0 || in_mem(mem, v, 0)
}

/// Splitting a header word built from a 16-aligned descriptor address and
/// a state nibble recovers both parts exactly.
pub proof fn lemma_header_fields(t: u64, b: u64)
    requires
        t % 16 == 0,
        b < 16,
    ensures
        (t | b) & 0xffff_ffff_ffff_fff0u64 == t,
        (t | b) & 15 == b,
        t | 0 == t,
    {
    assert((t | b) & 0xffff_ffff_ffff_fff0u64 == t && (t | b) & 15 == b && t | 0 == t)
        by (bit_vector)
        requires
            t % 16 == 0,
            b < 16,
    ;
}

/// Steps from a value address back to its header slot, the machine word
/// immediately preceding it.  An address at or below the header size would
/// underflow: that is a caller contract violation, ruled out here.
pub fn jl_astaggedvalue(v: u64) -> (t: u64)
    requires
        v > 8,
    ensures
        t == v - 8,
{
    v - 8
}

/// Steps from a header slot forward to the value it heads; null stays
/// null, the context-dependent "no data" sentinel.
pub fn jl_valueof(v: u64) -> (r: u64)
    requires
        v + 8 <= u64::MAX,
    ensures
        r == (if v == 0 { 0u64 } else { (v + 8) as u64 }),
{
    if v == 0 {
        0
    } else {
        v + 8
    }
}

/// Resolves the type descriptor of `v` by masking the tag nibble out of
/// its header word; a null value resolves to null, meaning absence.
pub fn jl_typeof(rt: &Runtime, v: u64) -> (t: u64)
    requires
        readable_value(rt.heap.mem@, v),
    ensures
        t == type_of(rt.heap.mem@, v),
{
    if v == 0 {
        0
    } else {
        let h = rt.heap.read_word(v - 8);
        h & 0xffff_ffff_ffff_fff0u64
    }
}

/// Reads the raw collector-state bits of a non-null value: the low nibble
/// of its header word, without interpretation.
pub fn jl_gc_bits(rt: &Runtime, v: u64) -> (b: u64)
    requires
        in_mem(rt.heap.mem@, v, 0),
    ensures
        b == gc_state(rt.heap.mem@, v),
        b < 16,
{
    let h = rt.heap.read_word(v - 8);
    proof {
        assert(h & 15 < 16) by (bit_vector);
    }
    h & 15
}

/// Overwrites the collector-state nibble of `v`'s header, leaving its type
/// descriptor and every other byte of the image as they were.
pub fn jl_set_gc_bits(rt: &mut Runtime, v: u64, bits: u64)
    requires
        in_mem(old(rt).heap.mem@, v, 0),
        bits < 16,
    ensures
        final(rt).heap.mem@.len() == old(rt).heap.mem@.len(),
        gc_state(final(rt).heap.mem@, v) == bits,
        type_of(final(rt).heap.mem@, v) == type_of(old(rt).heap.mem@, v),
        forall|i: int|
            0 <= i < final(rt).heap.mem@.len() && !(v - 8 <= i < v) ==> final(rt).heap.mem@[i]
                == old(rt).heap.mem@[i],
        crate::runtime::same_except_heap(final(rt), old(rt)),
        final(rt).heap.wf() == old(rt).heap.wf(),
{
    let h = rt.heap.read_word(v - 8);
    let nh = (h & 0xffff_ffff_ffff_fff0u64) | bits;
    rt.heap.write_word(v - 8, nh);
    proof {
        assert(((h & 0xffff_ffff_ffff_fff0u64) | bits) & 15 == bits && ((h
            & 0xffff_ffff_ffff_fff0u64) | bits) & 0xffff_ffff_ffff_fff0u64 == h
            & 0xffff_ffff_ffff_fff0u64) by (bit_vector)
            requires
                bits < 16,
        ;
    }
}

/// Whether `v`'s resolved type descriptor is exactly `t`; null resolves to
/// null and so matches no descriptor singleton.
pub fn jl_typeis(rt: &Runtime, v: u64, t: u64) -> (r: bool)
    requires
        readable_value(rt.heap.mem@, v),
    ensures
        r == (type_of(rt.heap.mem@, v) == t),
{
    let ty = jl_typeof(rt, v);
    ty == t
}

} // verus!
