use vstd::prelude::*;
use crate::mem::{Heap, in_mem, word_at, lemma_word_frame};
use crate::runtime::Runtime;
use crate::header::type_of;

verus! {

// A string stores its byte length in the word at its address and its data
// immediately after; a simple vector stores its length in the word at its
// address and its value slots after; a symbol's name bytes start at a
// fixed alignment-padded offset past its three-word header; an array
// stores its data pointer, total element count and flags word (dimension
// count in bits 2 through 10) followed by its dimension words, the first
// of which doubles as the row count; a type descriptor stores its
// identity (typename), field-layout pointer, field-type list, field-name
// list and is-primitive flag; a typename stores the family's field-name
// list and a fallback field-type list.

/// Byte length of a string: the machine word at its address.
pub open spec fn string_len_of(mem: Seq<u8>, s: u64) -> u64 {
    word_at(mem, s as int)
}

/// The `i`-th data byte of a string.
pub open spec fn string_byte(mem: Seq<u8>, s: u64, i: int) -> u8 {
    mem[s + 8 + i]
}

/// Length of a simple vector: the machine word at its address.
pub open spec fn svec_len_of(mem: Seq<u8>, t: u64) -> u64 {
    word_at(mem, t as int)
}

/// The `i`-th value slot of a simple vector.
pub open spec fn svec_slot(mem: Seq<u8>, t: u64, i: int) -> u64 {
    word_at(mem, t + 8 + 8 * i)
}

/// An array's data pointer: its first payload word.
pub open spec fn array_data_of(mem: Seq<u8>, a: u64) -> u64 {
    word_at(mem, a as int)
}

/// An array's total element count: its second payload word.
pub open spec fn array_len_of(mem: Seq<u8>, a: u64) -> u64 {
    word_at(mem, a + 8)
}

/// An array's dimension count: bits 2 through 10 of its flags word.
pub open spec fn array_ndims_of(mem: Seq<u8>, a: u64) -> u16 {
    ((word_at(mem, a + 16) >> 2) & 0x1ff) as u16
}

/// The `i`-th dimension of an array; dimension 0 is also its row count.
pub open spec fn array_dim_of(mem: Seq<u8>, a: u64, i: int) -> u64 {
    word_at(mem, a + 24 + 8 * i)
}

/// The `i`-th field slot of a struct or tuple instance.
pub open spec fn field_slot(mem: Seq<u8>, v: u64, i: int) -> u64 {
    word_at(mem, v + 8 * i)
}

/// A type descriptor's identity: its typename handle.
pub open spec fn dt_name(mem: Seq<u8>, t: u64) -> u64 {
    word_at(mem, t as int)
}

/// A type descriptor's field-layout pointer.
pub open spec fn dt_layout(mem: Seq<u8>, t: u64) -> u64 {
    word_at(mem, t + 8)
}

/// A type descriptor's field-type list; 0 when not yet materialized.
pub open spec fn dt_types(mem: Seq<u8>, t: u64) -> u64 {
    word_at(mem, t + 16)
}

/// A type descriptor's own field-name list; 0 when absent.
pub open spec fn dt_names(mem: Seq<u8>, t: u64) -> u64 {
    word_at(mem, t + 24)
}

/// A type descriptor's is-primitive (bit-representable) flag word.
pub open spec fn dt_isbits(mem: Seq<u8>, t: u64) -> u64 {
    word_at(mem, t + 32)
}

/// A typename's field-name list.
pub open spec fn tn_names(mem: Seq<u8>, tn: u64) -> u64 {
    word_at(mem, tn as int)
}

/// A typename's fallback field-type list, consulted when a descriptor's
/// own list has not been materialized.
pub open spec fn tn_fieldtypes(mem: Seq<u8>, tn: u64) -> u64 {
    word_at(mem, tn + 8)
}

/// A field-layout record's field count: the word at its address.
pub open spec fn layout_nfields(mem: Seq<u8>, l: u64) -> u64 {
    word_at(mem, l as int)
}

/// A word assembled from zero bytes is zero.
pub proof fn lemma_zero_word(m: Seq<u8>, a: int)
    requires
        0 <= a,
        a + 8 <= m.len(),
        forall|i: int| a <= i < a + 8 ==> m[i] == 0,
    ensures
        word_at(m, a) == 0,
{
    assert(m[a] == 0 && m[a + 1] == 0 && m[a + 2] == 0 && m[a + 3] == 0 && m[a + 4] == 0 && m[a + 5]
        == 0 && m[a + 6] == 0 && m[a + 7] == 0);
    assert((0u64) | ((0u64) << 8) | ((0u64) << 16) | ((0u64) << 24) | ((0u64) << 32) | ((0u64)
        << 40) | ((0u64) << 48) | ((0u64) << 56) == 0) by (bit_vector);
}

/// Rounds `x` up to the next multiple of the power of two `sz`.
pub fn llt_align(x: u64, sz: u64) -> (r: u64)
    requires
        1 <= sz,
        sz & ((sz - 1) as u64) == 0,
        x + sz <= u64::MAX,
    ensures
        r == ((x + sz - 1) as u64) & !((sz - 1) as u64),
{
    (x + (sz - 1)) & !(sz - 1)
}

/// Copies `src` into the image starting at byte address `dst`.
pub(crate) fn write_bytes(h: &mut Heap, dst: u64, src: &Vec<u8>)
    requires
        dst + src@.len() <= old(h).mem@.len(),
    ensures
        final(h).mem@.len() == old(h).mem@.len(),
        forall|i: int| 0 <= i < src@.len() ==> final(h).mem@[dst + i] == src@[i],
        forall|i: int|
            0 <= i < final(h).mem@.len() && !(dst <= i < dst + src@.len()) ==> final(h).mem@[i]
                == old(h).mem@[i],
{
    let hl = h.size();
    let n = src.len();
    let mut j: usize = 0;
    while j < n
        invariant
            j <= n,
            n == src@.len(),
            dst + n <= h.mem@.len(),
            h.mem@.len() == old(h).mem@.len(),
            h.mem@.len() == hl,
            forall|i: int| 0 <= i < j ==> h.mem@[dst + i] == src@[i],
            forall|i: int|
                0 <= i < h.mem@.len() && !(dst <= i < dst + j) ==> h.mem@[i] == old(h).mem@[i],
        decreases n - j,
    {
        h.write_byte(dst + j as u64, src[j]);
        j = j + 1;
    }
}

/// Stores `src` as consecutive machine words starting at byte address `dst`.
pub(crate) fn write_words(h: &mut Heap, dst: u64, src: &Vec<u64>)
    requires
        dst + 8 * src@.len() <= old(h).mem@.len(),
    ensures
        final(h).mem@.len() == old(h).mem@.len(),
        forall|i: int| 0 <= i < src@.len() ==> word_at(final(h).mem@, dst + 8 * i) == src@[i],
        forall|i: int|
            0 <= i < final(h).mem@.len() && !(dst <= i < dst + 8 * src@.len()) ==> final(h).mem@[i]
                == old(h).mem@[i],
{
    let hl = h.size();
    let n = src.len();
    let mut j: usize = 0;
    while j < n
        invariant
            j <= n,
            n == src@.len(),
            dst + 8 * n <= h.mem@.len(),
            h.mem@.len() == old(h).mem@.len(),
            h.mem@.len() == hl,
            forall|i: int| 0 <= i < j ==> word_at(h.mem@, dst + 8 * i) == src@[i],
            forall|i: int|
                0 <= i < h.mem@.len() && !(dst <= i < dst + 8 * j) ==> h.mem@[i] == old(h).mem@[i],
        decreases n - j,
    {
        let ghost mp = h.mem@;
        h.write_word(dst + 8 * (j as u64), src[j]);
        proof {
            assert forall|i: int| 0 <= i < j implies word_at(h.mem@, dst + 8 * i) == src@[i] by {
                lemma_word_frame(h.mem@, mp, dst + 8 * i);
            }
        }
        j = j + 1;
    }
}

/// String reader, length half: the machine word immediately before the
/// data.  A null string reads as length 0 rather than failing.
pub fn jl_string_len(rt: &Runtime, s: u64) -> (r: u64)
    requires
        s == 0 || in_mem(rt.heap.mem@, s, 1),
    ensures
        r == (if s == 0 { 0u64 } else { string_len_of(rt.heap.mem@, s) }),
{
    if s == 0 {
        return 0;
    }
    rt.heap.read_word(s)
}

/// String reader, data half: the address one machine word past the
/// length.  A null string reads as a null data pointer rather than
/// failing.
pub fn jl_string_data(s: u64) -> (r: u64)
    requires
        s + 8 <= u64::MAX,
    ensures
        r == (if s == 0 { 0u64 } else { (s + 8) as u64 }),
{
    if s == 0 {
        return 0;
    }
    s + 8
}

/// Symbol reader: name bytes start at the alignment-padded end of the
/// symbol's three-word header.  The name's extent is not returned: the
/// bytes are NUL-free interned data whose end the caller's own scan or
/// compare convention finds; symbols themselves are compared by identity.
/// A null symbol reads as a null name pointer.
pub fn jl_symbol_name(s: u64) -> (r: u64)
    requires
        s + 32 <= u64::MAX,
    ensures
        r == (if s == 0 { 0u64 } else { (s + 24) as u64 }),
{
    if s == 0 {
        return 0;
    }
    proof {
        assert(8u64 & ((8u64 - 1) as u64) == 0) by (bit_vector);
    }
    let off = llt_align(24, 8);
    proof {
        assert(((24u64 + 8 - 1) as u64) & !((8u64 - 1) as u64) == 24) by (bit_vector);
    }
    s + off
}

/// Simple-vector reader, length half: the first machine word of the
/// vector.  A null vector reads as length 0 rather than failing.
pub fn jl_svec_len(rt: &Runtime, t: u64) -> (r: u64)
    requires
        t == 0 || in_mem(rt.heap.mem@, t, 1),
    ensures
        r == (if t == 0 { 0u64 } else { svec_len_of(rt.heap.mem@, t) }),
{
    if t == 0 {
        return 0;
    }
    rt.heap.read_word(t)
}

/// Simple-vector reader, base half: the first value slot starts right
/// after the length word.  A null vector reads as a null base pointer.
pub fn jl_svec_data(t: u64) -> (r: u64)
    requires
        t + 8 <= u64::MAX,
    ensures
        r == (if t == 0 { 0u64 } else { (t + 8) as u64 }),
{
    if t == 0 {
        return 0;
    }
    t + 8
}

/// Reads slot `i` of a simple vector.
pub fn jl_svecref(rt: &Runtime, t: u64, i: u64) -> (r: u64)
    requires
        t != 0,
        in_mem(rt.heap.mem@, t, i + 2),
    ensures
        r == svec_slot(rt.heap.mem@, t, i as int),
{
    let _hl = rt.heap.size();
    rt.heap.read_word(t + 8 + 8 * i)
}

/// Stores `x` into slot `i` of a simple vector, leaving its length, its
/// type and every other slot as they were.
pub fn jl_svecset(rt: &mut Runtime, t: u64, i: u64, x: u64)
    requires
        t != 0,
        in_mem(old(rt).heap.mem@, t, i + 2),
    ensures
        final(rt).heap.mem@.len() == old(rt).heap.mem@.len(),
        svec_slot(final(rt).heap.mem@, t, i as int) == x,
        svec_len_of(final(rt).heap.mem@, t) == svec_len_of(old(rt).heap.mem@, t),
        type_of(final(rt).heap.mem@, t) == type_of(old(rt).heap.mem@, t),
        forall|j: int|
            0 <= j && j != i && t + 8 + 8 * j + 8 <= final(rt).heap.mem@.len() ==> svec_slot(
                final(rt).heap.mem@,
                t,
                j,
            ) == svec_slot(old(rt).heap.mem@, t, j),
        crate::runtime::same_except_heap(final(rt), old(rt)),
        final(rt).heap.wf() == old(rt).heap.wf(),
{
    let _hl = rt.heap.size();
    let ghost m0 = rt.heap.mem@;
    rt.heap.write_word(t + 8 + 8 * i, x);
    proof {
        lemma_word_frame(rt.heap.mem@, m0, t as int);
        lemma_word_frame(rt.heap.mem@, m0, t - 8);
        assert forall|j: int|
            0 <= j && j != i && t + 8 + 8 * j + 8 <= rt.heap.mem@.len() implies svec_slot(
            rt.heap.mem@,
            t,
            j,
        ) == svec_slot(m0, t, j) by {
            lemma_word_frame(rt.heap.mem@, m0, t + 8 + 8 * j);
        }
    }
}

/// Array reader, data half: the array's data pointer.  A null array reads
/// as a null data pointer rather than failing.
pub fn jl_array_data(rt: &Runtime, a: u64) -> (r: u64)
    requires
        a == 0 || in_mem(rt.heap.mem@, a, 1),
    ensures
        r == (if a == 0 { 0u64 } else { array_data_of(rt.heap.mem@, a) }),
{
    if a == 0 {
        return 0;
    }
    rt.heap.read_word(a)
}

/// Array reader, shape half: the dimension count held in the flags word.
/// A null array reads as zero-dimensional rather than failing.
pub fn jl_array_ndims(rt: &Runtime, a: u64) -> (r: u16)
    requires
        a == 0 || in_mem(rt.heap.mem@, a, 3),
    ensures
        r == (if a == 0 { 0u16 } else { array_ndims_of(rt.heap.mem@, a) }),
{
    if a == 0 {
        return 0;
    }
    let _hl = rt.heap.size();
    let w = rt.heap.read_word(a + 16);
    proof {
        assert((w >> 2) & 0x1ff < 0x200) by (bit_vector);
    }
    ((w >> 2) & 0x1ff) as u16
}

/// Reads dimension `i` of an array; the dimension words sit right after
/// the fixed header region.  A null array reads as extent 0.
pub fn jl_array_dim(rt: &Runtime, a: u64, i: u64) -> (r: u64)
    requires
        a == 0 || in_mem(rt.heap.mem@, a, i + 4),
    ensures
        r == (if a == 0 { 0u64 } else { array_dim_of(rt.heap.mem@, a, i as int) }),
{
    if a == 0 {
        return 0;
    }
    let _hl = rt.heap.size();
    rt.heap.read_word(a + 24 + 8 * i)
}

/// Reconstructs the dimensions of an array as a vector of `ndims`
/// extents.  A null array reads as no dimensions at all.
pub fn jl_array_dims(rt: &Runtime, a: u64, ndims: u64) -> (r: Vec<u64>)
    requires
        a == 0 || in_mem(rt.heap.mem@, a, ndims + 3),
    ensures
        a == 0 ==> r@.len() == 0,
        a != 0 ==> r@.len() == ndims,
        forall|i: int| 0 <= i < r@.len() ==> r@[i] == array_dim_of(rt.heap.mem@, a, i),
{
    let mut r: Vec<u64> = Vec::new();
    if a == 0 {
        return r;
    }
    let _hl = rt.heap.size();
    let mut j: u64 = 0;
    while j < ndims
        invariant
            j <= ndims,
            a != 0,
            in_mem(rt.heap.mem@, a, ndims + 3),
            rt.heap.mem@.len() <= u64::MAX,
            r@.len() == j,
            forall|i: int| 0 <= i < j ==> r@[i] == array_dim_of(rt.heap.mem@, a, i),
        decreases ndims - j,
    {
        let d = rt.heap.read_word(a + 24 + 8 * j);
        r.push(d);
        j = j + 1;
    }
    r
}

/// Dimension 0 of an array, exposed directly for the common
/// one-dimensional case.  A null array reads as extent 0.
pub fn jl_array_dim0(rt: &Runtime, a: u64) -> (r: u64)
    requires
        a == 0 || in_mem(rt.heap.mem@, a, 4),
    ensures
        r == (if a == 0 { 0u64 } else { array_dim_of(rt.heap.mem@, a, 0) }),
{
    if a == 0 {
        return 0;
    }
    let _hl = rt.heap.size();
    rt.heap.read_word(a + 24)
}

/// An array's row count, which is its dimension 0.  A null array reads as
/// no rows.
pub fn jl_array_nrows(rt: &Runtime, a: u64) -> (r: u64)
    requires
        a == 0 || in_mem(rt.heap.mem@, a, 4),
    ensures
        r == (if a == 0 { 0u64 } else { array_dim_of(rt.heap.mem@, a, 0) }),
{
    if a == 0 {
        return 0;
    }
    let _hl = rt.heap.size();
    rt.heap.read_word(a + 24)
}

/// Reads field `i` of a struct or tuple instance through the runtime's
/// field-access path; the instance must be non-null (an established
/// caller precondition, not re-checked here).
pub fn jl_fieldref(rt: &Runtime, v: u64, i: u64) -> (r: u64)
    requires
        v != 0,
        in_mem(rt.heap.mem@, v, i + 1),
    ensures
        r == field_slot(rt.heap.mem@, v, i as int),
{
    let _hl = rt.heap.size();
    rt.heap.read_word(v + 8 * i)
}

/// Reads field `i` of an instance on the guarantee that no allocation is
/// needed; every field of the model is a stored word, so this reads the
/// same slot as the allocating variant.
pub fn jl_fieldref_noalloc(rt: &Runtime, v: u64, i: u64) -> (r: u64)
    requires
        v != 0,
        in_mem(rt.heap.mem@, v, i + 1),
    ensures
        r == field_slot(rt.heap.mem@, v, i as int),
{
    let _hl = rt.heap.size();
    rt.heap.read_word(v + 8 * i)
}

/// Number of fields recorded in a type descriptor's field-layout record.
pub fn jl_datatype_nfields(rt: &Runtime, t: u64) -> (r: u64)
    requires
        in_mem(rt.heap.mem@, t, 2),
        in_mem(rt.heap.mem@, dt_layout(rt.heap.mem@, t), 1),
    ensures
        r == layout_nfields(rt.heap.mem@, dt_layout(rt.heap.mem@, t)),
{
    let _hl = rt.heap.size();
    let l = rt.heap.read_word(t + 8);
    rt.heap.read_word(l)
}

/// Number of fields of a value, read from its resolved type descriptor's
/// field-layout record.
pub fn jl_nfields(rt: &Runtime, v: u64) -> (r: u64)
    requires
        v != 0,
        in_mem(rt.heap.mem@, v, 0),
        in_mem(rt.heap.mem@, type_of(rt.heap.mem@, v), 2),
        in_mem(rt.heap.mem@, dt_layout(rt.heap.mem@, type_of(rt.heap.mem@, v)), 1),
    ensures
        r == layout_nfields(rt.heap.mem@, dt_layout(rt.heap.mem@, type_of(rt.heap.mem@, v))),
{
    let t = crate::header::jl_typeof(rt, v);
    jl_datatype_nfields(rt, t)
}

/// The field-name list of a type descriptor: its own list when present,
/// otherwise the list shared through its typename.  A null descriptor
/// reads as a null list.
pub fn jl_field_names(rt: &Runtime, st: u64) -> (r: u64)
    requires
        st == 0 || in_mem(rt.heap.mem@, st, 4),
        st != 0 && dt_names(rt.heap.mem@, st) == 0 ==> in_mem(
            rt.heap.mem@,
            dt_name(rt.heap.mem@, st),
            1,
        ),
    ensures
        r == (if st == 0 {
            0u64
        } else if dt_names(rt.heap.mem@, st) != 0 {
            dt_names(rt.heap.mem@, st)
        } else {
            tn_names(rt.heap.mem@, dt_name(rt.heap.mem@, st))
        }),
{
    if st == 0 {
        return 0;
    }
    let _hl = rt.heap.size();
    let names = rt.heap.read_word(st + 24);
    if names != 0 {
        return names;
    }
    let tn = rt.heap.read_word(st);
    rt.heap.read_word(tn)
}

/// The runtime's field-type computation primitive: materializes a
/// descriptor's field-type list from its typename's fallback list and
/// caches it in the descriptor (caching is the runtime's burden, not the
/// reader's).
pub fn jl_compute_fieldtypes(rt: &mut Runtime, st: u64) -> (r: u64)
    requires
        in_mem(old(rt).heap.mem@, st, 3),
        in_mem(old(rt).heap.mem@, dt_name(old(rt).heap.mem@, st), 2),
    ensures
        r == tn_fieldtypes(old(rt).heap.mem@, dt_name(old(rt).heap.mem@, st)),
        dt_types(final(rt).heap.mem@, st) == r,
        final(rt).heap.mem@.len() == old(rt).heap.mem@.len(),
        forall|i: int|
            0 <= i < final(rt).heap.mem@.len() && !(st + 16 <= i < st + 24)
                ==> final(rt).heap.mem@[i] == old(rt).heap.mem@[i],
        crate::runtime::same_except_heap(final(rt), old(rt)),
        final(rt).heap.wf() == old(rt).heap.wf(),
{
    let _hl = rt.heap.size();
    let tn = rt.heap.read_word(st);
    let ft = rt.heap.read_word(tn + 8);
    rt.heap.write_word(st + 16, ft);
    ft
}

/// A descriptor's field-type list: the stored list when already
/// materialized, otherwise the result of the runtime's fallback
/// computation, which also caches it.
pub fn jl_get_fieldtypes(rt: &mut Runtime, st: u64) -> (r: u64)
    requires
        in_mem(old(rt).heap.mem@, st, 3),
        dt_types(old(rt).heap.mem@, st) == 0 ==> in_mem(
            old(rt).heap.mem@,
            dt_name(old(rt).heap.mem@, st),
            2,
        ),
    ensures
        r == (if dt_types(old(rt).heap.mem@, st) != 0 {
            dt_types(old(rt).heap.mem@, st)
        } else {
            tn_fieldtypes(old(rt).heap.mem@, dt_name(old(rt).heap.mem@, st))
        }),
        dt_types(final(rt).heap.mem@, st) == r,
        final(rt).heap.mem@.len() == old(rt).heap.mem@.len(),
        forall|i: int|
            0 <= i < final(rt).heap.mem@.len() && !(st + 16 <= i < st + 24)
                ==> final(rt).heap.mem@[i] == old(rt).heap.mem@[i],
        crate::runtime::same_except_heap(final(rt), old(rt)),
        final(rt).heap.wf() == old(rt).heap.wf(),
{
    let _hl = rt.heap.size();
    let t = rt.heap.read_word(st + 16);
    if t != 0 {
        t
    } else {
        jl_compute_fieldtypes(rt, st)
    }
}

} // verus!
