use vstd::prelude::*;
use crate::mem::{in_mem, word_at, lemma_word_frame};
use crate::header::{type_of, gc_state, lemma_header_fields};
use crate::runtime::{Runtime, valid_handle, same_except_heap};

verus! {

/// The host value a boxed 8-bit signed integer cell unboxes to.
pub open spec fn unboxed_int8(mem: Seq<u8>, v: u64) -> i8 {
    (word_at(mem, v as int) as u8) as i8
}

/// The host value a boxed 16-bit signed integer cell unboxes to.
pub open spec fn unboxed_int16(mem: Seq<u8>, v: u64) -> i16 {
    (word_at(mem, v as int) as u16) as i16
}

/// The host value a boxed 32-bit signed integer cell unboxes to.
pub open spec fn unboxed_int32(mem: Seq<u8>, v: u64) -> i32 {
    (word_at(mem, v as int) as u32) as i32
}

/// The host value a boxed 64-bit signed integer cell unboxes to.
pub open spec fn unboxed_int64(mem: Seq<u8>, v: u64) -> i64 {
    word_at(mem, v as int) as i64
}

/// The host value a boxed 8-bit unsigned integer cell unboxes to.
pub open spec fn unboxed_uint8(mem: Seq<u8>, v: u64) -> u8 {
    word_at(mem, v as int) as u8
}

/// The host value a boxed 16-bit unsigned integer cell unboxes to.
pub open spec fn unboxed_uint16(mem: Seq<u8>, v: u64) -> u16 {
    word_at(mem, v as int) as u16
}

/// The host value a boxed 32-bit unsigned integer cell unboxes to.
pub open spec fn unboxed_uint32(mem: Seq<u8>, v: u64) -> u32 {
    word_at(mem, v as int) as u32
}

/// The host value a boxed 64-bit unsigned integer cell unboxes to.
pub open spec fn unboxed_uint64(mem: Seq<u8>, v: u64) -> u64 {
    word_at(mem, v as int)
}

/// The host value a boxed boolean cell unboxes to.
pub open spec fn unboxed_bool(mem: Seq<u8>, v: u64) -> bool {
    word_at(mem, v as int) != 0
}

/// The code point a boxed character cell unboxes to.
pub open spec fn unboxed_char(mem: Seq<u8>, v: u64) -> u32 {
    word_at(mem, v as int) as u32
}

/// The IEEE-754 bit pattern a boxed single-float cell unboxes to.
pub open spec fn unboxed_float32_bits(mem: Seq<u8>, v: u64) -> u32 {
    word_at(mem, v as int) as u32
}

/// The IEEE-754 bit pattern a boxed double-float cell unboxes to.
pub open spec fn unboxed_float64_bits(mem: Seq<u8>, v: u64) -> u64 {
    word_at(mem, v as int)
}

/// Allocates one boxed cell of type `ty` whose single payload word is `w`.
fn box_word(rt: &mut Runtime, ty: u64, w: u64) -> (a: u64)
    requires
        old(rt).wf(),
        ty % 16 == 0,
        old(rt).heap.mem@.len() + 48 <= usize::MAX,
    ensures
        final(rt).wf(),
        same_except_heap(final(rt), old(rt)),
        valid_handle(final(rt).heap.mem@, a, 1),
        a != 0,
        a == old(rt).heap.mem@.len() + 8,
        type_of(final(rt).heap.mem@, a) == ty,
        gc_state(final(rt).heap.mem@, a) == 0,
        word_at(final(rt).heap.mem@, a as int) == w,
        old(rt).heap.mem@.len() < final(rt).heap.mem@.len() <= old(rt).heap.mem@.len() + 32,
        forall|i: int|
            0 <= i < old(rt).heap.mem@.len() ==> final(rt).heap.mem@[i] == old(rt).heap.mem@[i],
{
    let a = rt.heap.allocate(1);
    rt.heap.write_word(a - 8, ty);
    let ghost m1 = rt.heap.mem@;
    rt.heap.write_word(a, w);
    proof {
        lemma_word_frame(rt.heap.mem@, m1, a - 8);
        lemma_header_fields(ty, 0);
    }
    a
}

/// Boxes a host boolean.  Round trip: the cell always unboxes to `x`.
pub fn jl_box_bool(rt: &mut Runtime, x: bool) -> (a: u64)
    requires
        old(rt).wf(),
        old(rt).heap.mem@.len() + 48 <= usize::MAX,
    ensures
        final(rt).wf(),
        same_except_heap(final(rt), old(rt)),
        a != 0,
        type_of(final(rt).heap.mem@, a) == final(rt).bool_type,
        in_mem(final(rt).heap.mem@, a, 1),
        gc_state(final(rt).heap.mem@, a) == 0,
        final(rt).heap.mem@.len() <= old(rt).heap.mem@.len() + 48,
        old(rt).heap.mem@.len() <= final(rt).heap.mem@.len(),
        old(rt).heap.mem@.len() + 8 <= a,
        forall|i: int|
            0 <= i < old(rt).heap.mem@.len() ==> final(rt).heap.mem@[i] == old(rt).heap.mem@[i],
        unboxed_bool(final(rt).heap.mem@, a) == x,
{
    let ty = rt.bool_type;
    box_word(rt, ty, if x { 1 } else { 0 })
}

/// Boxes a host character code point.  Round trip: the cell always
/// unboxes to `x`.
pub fn jl_box_char(rt: &mut Runtime, x: u32) -> (a: u64)
    requires
        old(rt).wf(),
        old(rt).heap.mem@.len() + 48 <= usize::MAX,
    ensures
        final(rt).wf(),
        same_except_heap(final(rt), old(rt)),
        a != 0,
        type_of(final(rt).heap.mem@, a) == final(rt).char_type,
        in_mem(final(rt).heap.mem@, a, 1),
        gc_state(final(rt).heap.mem@, a) == 0,
        final(rt).heap.mem@.len() <= old(rt).heap.mem@.len() + 48,
        old(rt).heap.mem@.len() <= final(rt).heap.mem@.len(),
        old(rt).heap.mem@.len() + 8 <= a,
        forall|i: int|
            0 <= i < old(rt).heap.mem@.len() ==> final(rt).heap.mem@[i] == old(rt).heap.mem@[i],
        unboxed_char(final(rt).heap.mem@, a) == x,
{
    let ty = rt.char_type;
    box_word(rt, ty, x as u64)
}

/// Boxes a host 8-bit signed integer.  Round trip: the cell always
/// unboxes to `x`.
pub fn jl_box_int8(rt: &mut Runtime, x: i8) -> (a: u64)
    requires
        old(rt).wf(),
        old(rt).heap.mem@.len() + 48 <= usize::MAX,
    ensures
        final(rt).wf(),
        same_except_heap(final(rt), old(rt)),
        a != 0,
        type_of(final(rt).heap.mem@, a) == final(rt).int8_type,
        in_mem(final(rt).heap.mem@, a, 1),
        gc_state(final(rt).heap.mem@, a) == 0,
        final(rt).heap.mem@.len() <= old(rt).heap.mem@.len() + 48,
        old(rt).heap.mem@.len() <= final(rt).heap.mem@.len(),
        old(rt).heap.mem@.len() + 8 <= a,
        forall|i: int|
            0 <= i < old(rt).heap.mem@.len() ==> final(rt).heap.mem@[i] == old(rt).heap.mem@[i],
        unboxed_int8(final(rt).heap.mem@, a) == x,
{
    let ty = rt.int8_type;
    let w = #[verifier::truncate] (x as u8) as u64;
    let a = box_word(rt, ty, w);
    proof {
        assert((((x as u8) as u64) as u8) as i8 == x) by (bit_vector);
    }
    a
}

/// Boxes a host 16-bit signed integer.  Round trip: the cell always
/// unboxes to `x`.
pub fn jl_box_int16(rt: &mut Runtime, x: i16) -> (a: u64)
    requires
        old(rt).wf(),
        old(rt).heap.mem@.len() + 48 <= usize::MAX,
    ensures
        final(rt).wf(),
        same_except_heap(final(rt), old(rt)),
        a != 0,
        type_of(final(rt).heap.mem@, a) == final(rt).int16_type,
        in_mem(final(rt).heap.mem@, a, 1),
        gc_state(final(rt).heap.mem@, a) == 0,
        final(rt).heap.mem@.len() <= old(rt).heap.mem@.len() + 48,
        old(rt).heap.mem@.len() <= final(rt).heap.mem@.len(),
        old(rt).heap.mem@.len() + 8 <= a,
        forall|i: int|
            0 <= i < old(rt).heap.mem@.len() ==> final(rt).heap.mem@[i] == old(rt).heap.mem@[i],
        unboxed_int16(final(rt).heap.mem@, a) == x,
{
    let ty = rt.int16_type;
    let w = #[verifier::truncate] (x as u16) as u64;
    let a = box_word(rt, ty, w);
    proof {
        assert((((x as u16) as u64) as u16) as i16 == x) by (bit_vector);
    }
    a
}

/// Boxes a host 32-bit signed integer.  Round trip: the cell always
/// unboxes to `x`.
pub fn jl_box_int32(rt: &mut Runtime, x: i32) -> (a: u64)
    requires
        old(rt).wf(),
        old(rt).heap.mem@.len() + 48 <= usize::MAX,
    ensures
        final(rt).wf(),
        same_except_heap(final(rt), old(rt)),
        a != 0,
        type_of(final(rt).heap.mem@, a) == final(rt).int32_type,
        in_mem(final(rt).heap.mem@, a, 1),
        gc_state(final(rt).heap.mem@, a) == 0,
        final(rt).heap.mem@.len() <= old(rt).heap.mem@.len() + 48,
        old(rt).heap.mem@.len() <= final(rt).heap.mem@.len(),
        old(rt).heap.mem@.len() + 8 <= a,
        forall|i: int|
            0 <= i < old(rt).heap.mem@.len() ==> final(rt).heap.mem@[i] == old(rt).heap.mem@[i],
        unboxed_int32(final(rt).heap.mem@, a) == x,
{
    let ty = rt.int32_type;
    let w = #[verifier::truncate] (x as u32) as u64;
    let a = box_word(rt, ty, w);
    proof {
        assert((((x as u32) as u64) as u32) as i32 == x) by (bit_vector);
    }
    a
}

/// Boxes a host 64-bit signed integer.  Round trip: the cell always
/// unboxes to `x`.
pub fn jl_box_int64(rt: &mut Runtime, x: i64) -> (a: u64)
    requires
        old(rt).wf(),
        old(rt).heap.mem@.len() + 48 <= usize::MAX,
    ensures
        final(rt).wf(),
        same_except_heap(final(rt), old(rt)),
        a != 0,
        type_of(final(rt).heap.mem@, a) == final(rt).int64_type,
        in_mem(final(rt).heap.mem@, a, 1),
        gc_state(final(rt).heap.mem@, a) == 0,
        final(rt).heap.mem@.len() <= old(rt).heap.mem@.len() + 48,
        old(rt).heap.mem@.len() <= final(rt).heap.mem@.len(),
        old(rt).heap.mem@.len() + 8 <= a,
        forall|i: int|
            0 <= i < old(rt).heap.mem@.len() ==> final(rt).heap.mem@[i] == old(rt).heap.mem@[i],
        unboxed_int64(final(rt).heap.mem@, a) == x,
{
    let ty = rt.int64_type;
    let w = #[verifier::truncate] (x as u64);
    let a = box_word(rt, ty, w);
    proof {
        assert(((x as u64) as i64) == x) by (bit_vector);
    }
    a
}

/// Boxes a host 8-bit unsigned integer.  Round trip: the cell always
/// unboxes to `x`.
pub fn jl_box_uint8(rt: &mut Runtime, x: u8) -> (a: u64)
    requires
        old(rt).wf(),
        old(rt).heap.mem@.len() + 48 <= usize::MAX,
    ensures
        final(rt).wf(),
        same_except_heap(final(rt), old(rt)),
        a != 0,
        type_of(final(rt).heap.mem@, a) == final(rt).uint8_type,
        in_mem(final(rt).heap.mem@, a, 1),
        gc_state(final(rt).heap.mem@, a) == 0,
        final(rt).heap.mem@.len() <= old(rt).heap.mem@.len() + 48,
        old(rt).heap.mem@.len() <= final(rt).heap.mem@.len(),
        old(rt).heap.mem@.len() + 8 <= a,
        forall|i: int|
            0 <= i < old(rt).heap.mem@.len() ==> final(rt).heap.mem@[i] == old(rt).heap.mem@[i],
        unboxed_uint8(final(rt).heap.mem@, a) == x,
{
    let ty = rt.uint8_type;
    box_word(rt, ty, x as u64)
}

/// Boxes a host 16-bit unsigned integer.  Round trip: the cell always
/// unboxes to `x`.
pub fn jl_box_uint16(rt: &mut Runtime, x: u16) -> (a: u64)
    requires
        old(rt).wf(),
        old(rt).heap.mem@.len() + 48 <= usize::MAX,
    ensures
        final(rt).wf(),
        same_except_heap(final(rt), old(rt)),
        a != 0,
        type_of(final(rt).heap.mem@, a) == final(rt).uint16_type,
        in_mem(final(rt).heap.mem@, a, 1),
        gc_state(final(rt).heap.mem@, a) == 0,
        final(rt).heap.mem@.len() <= old(rt).heap.mem@.len() + 48,
        old(rt).heap.mem@.len() <= final(rt).heap.mem@.len(),
        old(rt).heap.mem@.len() + 8 <= a,
        forall|i: int|
            0 <= i < old(rt).heap.mem@.len() ==> final(rt).heap.mem@[i] == old(rt).heap.mem@[i],
        unboxed_uint16(final(rt).heap.mem@, a) == x,
{
    let ty = rt.uint16_type;
    box_word(rt, ty, x as u64)
}

/// Boxes a host 32-bit unsigned integer.  Round trip: the cell always
/// unboxes to `x`.
pub fn jl_box_uint32(rt: &mut Runtime, x: u32) -> (a: u64)
    requires
        old(rt).wf(),
        old(rt).heap.mem@.len() + 48 <= usize::MAX,
    ensures
        final(rt).wf(),
        same_except_heap(final(rt), old(rt)),
        a != 0,
        type_of(final(rt).heap.mem@, a) == final(rt).uint32_type,
        in_mem(final(rt).heap.mem@, a, 1),
        gc_state(final(rt).heap.mem@, a) == 0,
        final(rt).heap.mem@.len() <= old(rt).heap.mem@.len() + 48,
        old(rt).heap.mem@.len() <= final(rt).heap.mem@.len(),
        old(rt).heap.mem@.len() + 8 <= a,
        forall|i: int|
            0 <= i < old(rt).heap.mem@.len() ==> final(rt).heap.mem@[i] == old(rt).heap.mem@[i],
        unboxed_uint32(final(rt).heap.mem@, a) == x,
{
    let ty = rt.uint32_type;
    box_word(rt, ty, x as u64)
}

/// Boxes a host 64-bit unsigned integer.  Round trip: the cell always
/// unboxes to `x`.
pub fn jl_box_uint64(rt: &mut Runtime, x: u64) -> (a: u64)
    requires
        old(rt).wf(),
        old(rt).heap.mem@.len() + 48 <= usize::MAX,
    ensures
        final(rt).wf(),
        same_except_heap(final(rt), old(rt)),
        a != 0,
        type_of(final(rt).heap.mem@, a) == final(rt).uint64_type,
        in_mem(final(rt).heap.mem@, a, 1),
        gc_state(final(rt).heap.mem@, a) == 0,
        final(rt).heap.mem@.len() <= old(rt).heap.mem@.len() + 48,
        old(rt).heap.mem@.len() <= final(rt).heap.mem@.len(),
        old(rt).heap.mem@.len() + 8 <= a,
        forall|i: int|
            0 <= i < old(rt).heap.mem@.len() ==> final(rt).heap.mem@[i] == old(rt).heap.mem@[i],
        unboxed_uint64(final(rt).heap.mem@, a) == x,
{
    let ty = rt.uint64_type;
    box_word(rt, ty, x)
}

/// Boxes a host single float, given as its IEEE-754 bit pattern; the
/// binding converts with the host language's to-bits primitive.  Round
/// trip: the cell always unboxes to the same bit pattern.
pub fn jl_box_float32_bits(rt: &mut Runtime, x: u32) -> (a: u64)
    requires
        old(rt).wf(),
        old(rt).heap.mem@.len() + 48 <= usize::MAX,
    ensures
        final(rt).wf(),
        same_except_heap(final(rt), old(rt)),
        a != 0,
        type_of(final(rt).heap.mem@, a) == final(rt).float32_type,
        in_mem(final(rt).heap.mem@, a, 1),
        gc_state(final(rt).heap.mem@, a) == 0,
        final(rt).heap.mem@.len() <= old(rt).heap.mem@.len() + 48,
        old(rt).heap.mem@.len() <= final(rt).heap.mem@.len(),
        old(rt).heap.mem@.len() + 8 <= a,
        forall|i: int|
            0 <= i < old(rt).heap.mem@.len() ==> final(rt).heap.mem@[i] == old(rt).heap.mem@[i],
        unboxed_float32_bits(final(rt).heap.mem@, a) == x,
{
    let ty = rt.float32_type;
    box_word(rt, ty, x as u64)
}

/// Boxes a host double float, given as its IEEE-754 bit pattern; the
/// binding converts with the host language's to-bits primitive.  Round
/// trip: the cell always unboxes to the same bit pattern.
pub fn jl_box_float64_bits(rt: &mut Runtime, x: u64) -> (a: u64)
    requires
        old(rt).wf(),
        old(rt).heap.mem@.len() + 48 <= usize::MAX,
    ensures
        final(rt).wf(),
        same_except_heap(final(rt), old(rt)),
        a != 0,
        type_of(final(rt).heap.mem@, a) == final(rt).float64_type,
        in_mem(final(rt).heap.mem@, a, 1),
        gc_state(final(rt).heap.mem@, a) == 0,
        final(rt).heap.mem@.len() <= old(rt).heap.mem@.len() + 48,
        old(rt).heap.mem@.len() <= final(rt).heap.mem@.len(),
        old(rt).heap.mem@.len() + 8 <= a,
        forall|i: int|
            0 <= i < old(rt).heap.mem@.len() ==> final(rt).heap.mem@[i] == old(rt).heap.mem@[i],
        unboxed_float64_bits(final(rt).heap.mem@, a) == x,
{
    let ty = rt.float64_type;
    box_word(rt, ty, x)
}

/// Unboxes an 8-bit signed integer cell.  No type check happens here:
/// callers must have established the cell's type already.
pub fn jl_unbox_int8(rt: &Runtime, v: u64) -> (r: i8)
    requires
        in_mem(rt.heap.mem@, v, 1),
    ensures
        r == unboxed_int8(rt.heap.mem@, v),
{
    let w = rt.heap.read_word(v);
    #[verifier::truncate] ((#[verifier::truncate] (w as u8)) as i8)
}

/// Unboxes a 16-bit signed integer cell; no type check happens here.
pub fn jl_unbox_int16(rt: &Runtime, v: u64) -> (r: i16)
    requires
        in_mem(rt.heap.mem@, v, 1),
    ensures
        r == unboxed_int16(rt.heap.mem@, v),
{
    let w = rt.heap.read_word(v);
    #[verifier::truncate] ((#[verifier::truncate] (w as u16)) as i16)
}

/// Unboxes a 32-bit signed integer cell; no type check happens here.
pub fn jl_unbox_int32(rt: &Runtime, v: u64) -> (r: i32)
    requires
        in_mem(rt.heap.mem@, v, 1),
    ensures
        r == unboxed_int32(rt.heap.mem@, v),
{
    let w = rt.heap.read_word(v);
    #[verifier::truncate] ((#[verifier::truncate] (w as u32)) as i32)
}

/// Unboxes a 64-bit signed integer cell; no type check happens here.
pub fn jl_unbox_int64(rt: &Runtime, v: u64) -> (r: i64)
    requires
        in_mem(rt.heap.mem@, v, 1),
    ensures
        r == unboxed_int64(rt.heap.mem@, v),
{
    let w = rt.heap.read_word(v);
    #[verifier::truncate] (w as i64)
}

/// Unboxes an 8-bit unsigned integer cell; no type check happens here.
pub fn jl_unbox_uint8(rt: &Runtime, v: u64) -> (r: u8)
    requires
        in_mem(rt.heap.mem@, v, 1),
    ensures
        r == unboxed_uint8(rt.heap.mem@, v),
{
    let w = rt.heap.read_word(v);
    #[verifier::truncate] (w as u8)
}

/// Unboxes a 16-bit unsigned integer cell; no type check happens here.
pub fn jl_unbox_uint16(rt: &Runtime, v: u64) -> (r: u16)
    requires
        in_mem(rt.heap.mem@, v, 1),
    ensures
        r == unboxed_uint16(rt.heap.mem@, v),
{
    let w = rt.heap.read_word(v);
    #[verifier::truncate] (w as u16)
}

/// Unboxes a 32-bit unsigned integer cell; no type check happens here.
pub fn jl_unbox_uint32(rt: &Runtime, v: u64) -> (r: u32)
    requires
        in_mem(rt.heap.mem@, v, 1),
    ensures
        r == unboxed_uint32(rt.heap.mem@, v),
{
    let w = rt.heap.read_word(v);
    #[verifier::truncate] (w as u32)
}

/// Unboxes a 64-bit unsigned integer cell; no type check happens here.
pub fn jl_unbox_uint64(rt: &Runtime, v: u64) -> (r: u64)
    requires
        in_mem(rt.heap.mem@, v, 1),
    ensures
        r == unboxed_uint64(rt.heap.mem@, v),
{
    rt.heap.read_word(v)
}

/// Unboxes a boolean cell; no type check happens here.
pub fn jl_unbox_bool(rt: &Runtime, v: u64) -> (r: bool)
    requires
        in_mem(rt.heap.mem@, v, 1),
    ensures
        r == unboxed_bool(rt.heap.mem@, v),
{
    let w = rt.heap.read_word(v);
    w != 0
}

/// Unboxes a character cell to its code point; no type check happens here.
pub fn jl_unbox_char(rt: &Runtime, v: u64) -> (r: u32)
    requires
        in_mem(rt.heap.mem@, v, 1),
    ensures
        r == unboxed_char(rt.heap.mem@, v),
{
    let w = rt.heap.read_word(v);
    #[verifier::truncate] (w as u32)
}

/// Unboxes a single-float cell to its IEEE-754 bit pattern; no type check
/// happens here.
pub fn jl_unbox_float32_bits(rt: &Runtime, v: u64) -> (r: u32)
    requires
        in_mem(rt.heap.mem@, v, 1),
    ensures
        r == unboxed_float32_bits(rt.heap.mem@, v),
{
    let w = rt.heap.read_word(v);
    #[verifier::truncate] (w as u32)
}

/// Unboxes a double-float cell to its IEEE-754 bit pattern; no type check
/// happens here.
pub fn jl_unbox_float64_bits(rt: &Runtime, v: u64) -> (r: u64)
    requires
        in_mem(rt.heap.mem@, v, 1),
    ensures
        r == unboxed_float64_bits(rt.heap.mem@, v),
{
    rt.heap.read_word(v)
}

} // verus!
