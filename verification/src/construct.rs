use vstd::prelude::*;
use crate::mem::{in_mem, word_at, lemma_word_frame};
use crate::header::{type_of, gc_state, lemma_header_fields};
use crate::runtime::{Runtime, valid_handle, same_except_heap};
use crate::layout::{
    string_len_of, string_byte, svec_len_of, svec_slot, array_data_of, array_len_of,
    array_ndims_of, array_dim_of, field_slot, dt_name, dt_layout, dt_types, dt_names, dt_isbits,
    tn_names, tn_fieldtypes, layout_nfields, lemma_zero_word, write_bytes, write_words,
};

verus! {

/// Allocates a fresh, zero-filled object of `payload_words` words whose
/// header marks it as of type `ty` with collector state 0.
fn alloc_object(rt: &mut Runtime, ty: u64, payload_words: u64) -> (a: u64)
    requires
        old(rt).wf(),
        ty % 16 == 0,
        old(rt).heap.mem@.len() + 8 * payload_words + 32 <= usize::MAX,
    ensures
        final(rt).wf(),
        same_except_heap(final(rt), old(rt)),
        valid_handle(final(rt).heap.mem@, a, payload_words as int),
        a == old(rt).heap.mem@.len() + 8,
        type_of(final(rt).heap.mem@, a) == ty,
        gc_state(final(rt).heap.mem@, a) == 0,
        a + 8 * payload_words <= final(rt).heap.mem@.len(),
        final(rt).heap.mem@.len() <= a + 8 * payload_words + 8,
        forall|i: int|
            0 <= i < old(rt).heap.mem@.len() ==> final(rt).heap.mem@[i] == old(rt).heap.mem@[i],
        forall|i: int| a <= i < a + 8 * payload_words ==> final(rt).heap.mem@[i] == 0,
{
    let a = rt.heap.allocate(payload_words);
    rt.heap.write_word(a - 8, ty);
    proof {
        lemma_header_fields(ty, 0);
    }
    a
}

/// Builds a string from the given byte sequence: a length word followed by
/// the bytes themselves, owned by the modeled collector.
pub fn jl_pchar_to_string(rt: &mut Runtime, bytes: &Vec<u8>) -> (s: u64)
    requires
        old(rt).wf(),
        old(rt).heap.mem@.len() + bytes@.len() + 64 <= usize::MAX,
    ensures
        final(rt).wf(),
        same_except_heap(final(rt), old(rt)),
        s != 0,
        valid_handle(final(rt).heap.mem@, s, 1),
        s + 8 + bytes@.len() <= final(rt).heap.mem@.len(),
        type_of(final(rt).heap.mem@, s) == final(rt).string_type,
        string_len_of(final(rt).heap.mem@, s) == bytes@.len(),
        final(rt).heap.mem@.len() <= old(rt).heap.mem@.len() + bytes@.len() + 64,
        old(rt).heap.mem@.len() <= final(rt).heap.mem@.len(),
        old(rt).heap.mem@.len() + 8 <= s,
        forall|i: int|
            0 <= i < old(rt).heap.mem@.len() ==> final(rt).heap.mem@[i] == old(rt).heap.mem@[i],
        forall|i: int|
            0 <= i < bytes@.len() ==> string_byte(final(rt).heap.mem@, s, i) == bytes@[i],
{
    let nbytes = bytes.len();
    let nb64 = nbytes as u64;
    let pw = 1 + (nb64 + 8) / 8;
    proof {
        vstd::arithmetic::div_mod::lemma_fundamental_div_mod((nb64 + 8) as int, 8);
        vstd::arithmetic::div_mod::lemma_mod_bound((nb64 + 8) as int, 8);
    }
    let ty = rt.string_type;
    let a = alloc_object(rt, ty, pw);
    rt.heap.write_word(a, nb64);
    let ghost m2 = rt.heap.mem@;
    write_bytes(&mut rt.heap, a + 8, bytes);
    proof {
        lemma_word_frame(rt.heap.mem@, m2, a - 8);
        lemma_word_frame(rt.heap.mem@, m2, a as int);
    }
    a
}

/// Builds a symbol whose interned, NUL-free name bytes start right after
/// the symbol's three-word header; a zero byte follows them, so a caller's
/// scan convention finds their extent.
pub fn jl_symbol(rt: &mut Runtime, name: &Vec<u8>) -> (s: u64)
    requires
        old(rt).wf(),
        old(rt).heap.mem@.len() + name@.len() + 96 <= usize::MAX,
    ensures
        final(rt).wf(),
        same_except_heap(final(rt), old(rt)),
        s != 0,
        valid_handle(final(rt).heap.mem@, s, 3),
        s + 24 + name@.len() < final(rt).heap.mem@.len(),
        type_of(final(rt).heap.mem@, s) == final(rt).symbol_type,
        final(rt).heap.mem@.len() <= old(rt).heap.mem@.len() + name@.len() + 96,
        old(rt).heap.mem@.len() <= final(rt).heap.mem@.len(),
        old(rt).heap.mem@.len() + 8 <= s,
        forall|i: int|
            0 <= i < old(rt).heap.mem@.len() ==> final(rt).heap.mem@[i] == old(rt).heap.mem@[i],
        forall|i: int|
            0 <= i < name@.len() ==> final(rt).heap.mem@[s + 24 + i] == name@[i],
        final(rt).heap.mem@[s + 24 + name@.len()] == 0,
{
    let nbytes = name.len();
    let nb64 = nbytes as u64;
    let pw = 3 + (nb64 + 8) / 8;
    proof {
        vstd::arithmetic::div_mod::lemma_fundamental_div_mod((nb64 + 8) as int, 8);
        vstd::arithmetic::div_mod::lemma_mod_bound((nb64 + 8) as int, 8);
    }
    let ty = rt.symbol_type;
    let a = alloc_object(rt, ty, pw);
    let ghost m2 = rt.heap.mem@;
    write_bytes(&mut rt.heap, a + 24, name);
    proof {
        lemma_word_frame(rt.heap.mem@, m2, a - 8);
    }
    a
}

/// Allocates a simple vector of `n` value slots, all initially null, after
/// its length word.
pub fn jl_alloc_svec(rt: &mut Runtime, n: u64) -> (t: u64)
    requires
        old(rt).wf(),
        old(rt).heap.mem@.len() + 8 * n + 64 <= usize::MAX,
    ensures
        final(rt).wf(),
        same_except_heap(final(rt), old(rt)),
        t != 0,
        valid_handle(final(rt).heap.mem@, t, n + 1),
        type_of(final(rt).heap.mem@, t) == final(rt).simplevector_type,
        svec_len_of(final(rt).heap.mem@, t) == n,
        final(rt).heap.mem@.len() <= old(rt).heap.mem@.len() + 8 * n + 64,
        old(rt).heap.mem@.len() <= final(rt).heap.mem@.len(),
        old(rt).heap.mem@.len() + 8 <= t,
        forall|i: int|
            0 <= i < old(rt).heap.mem@.len() ==> final(rt).heap.mem@[i] == old(rt).heap.mem@[i],
        forall|i: int| 0 <= i < n ==> svec_slot(final(rt).heap.mem@, t, i) == 0,
{
    let ty = rt.simplevector_type;
    let a = alloc_object(rt, ty, n + 1);
    let ghost m1 = rt.heap.mem@;
    rt.heap.write_word(a, n);
    proof {
        lemma_word_frame(rt.heap.mem@, m1, a - 8);
        assert forall|i: int| 0 <= i < n implies svec_slot(rt.heap.mem@, a, i) == 0 by {
            lemma_zero_word(rt.heap.mem@, a + 8 + 8 * i);
        }
    }
    a
}

/// Allocates an array object of the given concrete array datatype: a
/// zero-filled data region of `nelems` element words, then the array
/// header holding the data pointer, the element count, the flags word
/// carrying the dimension count, and the dimension words themselves.
pub fn jl_alloc_array(rt: &mut Runtime, atype: u64, dims: &Vec<u64>, nelems: u64) -> (a: u64)
    requires
        old(rt).wf(),
        atype % 16 == 0,
        dims@.len() < 512,
        old(rt).heap.mem@.len() + 8 * nelems + 8 * dims@.len() + 128 <= usize::MAX,
    ensures
        final(rt).wf(),
        same_except_heap(final(rt), old(rt)),
        a != 0,
        valid_handle(final(rt).heap.mem@, a, 3 + dims@.len() as int),
        type_of(final(rt).heap.mem@, a) == atype,
        array_data_of(final(rt).heap.mem@, a) != 0,
        in_mem(final(rt).heap.mem@, array_data_of(final(rt).heap.mem@, a), nelems as int),
        array_len_of(final(rt).heap.mem@, a) == nelems,
        final(rt).heap.mem@.len() <= old(rt).heap.mem@.len() + 8 * nelems + 8 * dims@.len()
            + 128,
        old(rt).heap.mem@.len() <= final(rt).heap.mem@.len(),
        old(rt).heap.mem@.len() + 8 <= a,
        forall|i: int|
            0 <= i < old(rt).heap.mem@.len() ==> final(rt).heap.mem@[i] == old(rt).heap.mem@[i],
        array_ndims_of(final(rt).heap.mem@, a) == dims@.len(),
        forall|i: int|
            0 <= i < dims@.len() ==> array_dim_of(final(rt).heap.mem@, a, i) == dims@[i],
{
    let data = rt.heap.allocate(nelems);
    let nd = dims.len() as u64;
    let a = alloc_object(rt, atype, 3 + nd);
    rt.heap.write_word(a, data);
    let ghost g1 = rt.heap.mem@;
    rt.heap.write_word(a + 8, nelems);
    let ghost g2 = rt.heap.mem@;
    let fl = nd << 2;
    rt.heap.write_word(a + 16, fl);
    let ghost g3 = rt.heap.mem@;
    write_words(&mut rt.heap, a + 24, dims);
    proof {
        // the header and the three leading words survive each later write
        lemma_word_frame(g2, g1, a - 8);
        lemma_word_frame(g3, g2, a - 8);
        lemma_word_frame(rt.heap.mem@, g3, a - 8);
        lemma_word_frame(g2, g1, a as int);
        lemma_word_frame(g3, g2, a as int);
        lemma_word_frame(rt.heap.mem@, g3, a as int);
        lemma_word_frame(g3, g2, a + 8);
        lemma_word_frame(rt.heap.mem@, g3, a + 8);
        lemma_word_frame(rt.heap.mem@, g3, a + 16);
        assert(((nd << 2) >> 2) & 0x1ff == nd) by (bit_vector)
            requires
                nd < 512,
        ;
    }
    a
}

/// Allocates a typename: the stable identity of a parameterized type
/// family, carrying the family's field-name list and its fallback
/// field-type list.
pub fn jl_new_typename(rt: &mut Runtime, names_svec: u64, fieldtypes: u64) -> (tn: u64)
    requires
        old(rt).wf(),
        old(rt).heap.mem@.len() + 64 <= usize::MAX,
    ensures
        final(rt).wf(),
        same_except_heap(final(rt), old(rt)),
        tn != 0,
        valid_handle(final(rt).heap.mem@, tn, 2),
        tn_names(final(rt).heap.mem@, tn) == names_svec,
        final(rt).heap.mem@.len() <= old(rt).heap.mem@.len() + 64,
        old(rt).heap.mem@.len() <= final(rt).heap.mem@.len(),
        old(rt).heap.mem@.len() + 8 <= tn,
        forall|i: int|
            0 <= i < old(rt).heap.mem@.len() ==> final(rt).heap.mem@[i] == old(rt).heap.mem@[i],
        tn_fieldtypes(final(rt).heap.mem@, tn) == fieldtypes,
{
    let ty = rt.datatype_type;
    let a = alloc_object(rt, ty, 2);
    rt.heap.write_word(a, names_svec);
    let ghost g1 = rt.heap.mem@;
    rt.heap.write_word(a + 8, fieldtypes);
    proof {
        lemma_word_frame(rt.heap.mem@, g1, a as int);
    }
    a
}

/// Allocates a type descriptor: a fresh field-layout record holding the
/// field count, then the descriptor itself with its identity (typename),
/// layout pointer, field-type list, field-name list and is-primitive
/// flag.
pub fn jl_new_datatype(
    rt: &mut Runtime,
    name_tn: u64,
    nfields: u64,
    fieldtypes: u64,
    names_svec: u64,
    isbits: bool,
) -> (t: u64)
    requires
        old(rt).wf(),
        old(rt).heap.mem@.len() + 160 <= usize::MAX,
    ensures
        final(rt).wf(),
        same_except_heap(final(rt), old(rt)),
        t != 0,
        valid_handle(final(rt).heap.mem@, t, 5),
        type_of(final(rt).heap.mem@, t) == final(rt).datatype_type,
        final(rt).heap.mem@.len() <= old(rt).heap.mem@.len() + 160,
        old(rt).heap.mem@.len() <= final(rt).heap.mem@.len(),
        old(rt).heap.mem@.len() + 8 <= t,
        forall|i: int|
            0 <= i < old(rt).heap.mem@.len() ==> final(rt).heap.mem@[i] == old(rt).heap.mem@[i],
        dt_name(final(rt).heap.mem@, t) == name_tn,
        dt_types(final(rt).heap.mem@, t) == fieldtypes,
        dt_names(final(rt).heap.mem@, t) == names_svec,
        dt_isbits(final(rt).heap.mem@, t) == (if isbits { 1u64 } else { 0u64 }),
        dt_layout(final(rt).heap.mem@, t) != 0,
        in_mem(final(rt).heap.mem@, dt_layout(final(rt).heap.mem@, t), 1),
        layout_nfields(final(rt).heap.mem@, dt_layout(final(rt).heap.mem@, t)) == nfields,
{
    let layout_rec = alloc_object(rt, 0, 1);
    rt.heap.write_word(layout_rec, nfields);
    let ghost g1 = rt.heap.mem@;
    let ty = rt.datatype_type;
    let a = alloc_object(rt, ty, 5);
    let ghost g2 = rt.heap.mem@;
    let mut ws: Vec<u64> = Vec::new();
    ws.push(name_tn);
    ws.push(layout_rec);
    ws.push(fieldtypes);
    ws.push(names_svec);
    ws.push(if isbits {
        1
    } else {
        0
    });
    write_words(&mut rt.heap, a, &ws);
    proof {
        lemma_word_frame(g2, g1, layout_rec as int);
        lemma_word_frame(rt.heap.mem@, g2, layout_rec as int);
        lemma_word_frame(rt.heap.mem@, g2, a - 8);
        assert(word_at(rt.heap.mem@, a + 8 * 0) == ws@[0]);
        assert(word_at(rt.heap.mem@, a + 8 * 1) == ws@[1]);
        assert(word_at(rt.heap.mem@, a + 8 * 2) == ws@[2]);
        assert(word_at(rt.heap.mem@, a + 8 * 3) == ws@[3]);
        assert(word_at(rt.heap.mem@, a + 8 * 4) == ws@[4]);
    }
    a
}

/// Allocates a struct or tuple instance of type `ty` whose field slots
/// hold the given values in order.
pub fn jl_new_struct(rt: &mut Runtime, ty: u64, fields: &Vec<u64>) -> (v: u64)
    requires
        old(rt).wf(),
        ty % 16 == 0,
        old(rt).heap.mem@.len() + 8 * fields@.len() + 64 <= usize::MAX,
    ensures
        final(rt).wf(),
        same_except_heap(final(rt), old(rt)),
        v != 0,
        valid_handle(final(rt).heap.mem@, v, fields@.len() as int),
        type_of(final(rt).heap.mem@, v) == ty,
        final(rt).heap.mem@.len() <= old(rt).heap.mem@.len() + 8 * fields@.len() + 64,
        old(rt).heap.mem@.len() <= final(rt).heap.mem@.len(),
        old(rt).heap.mem@.len() + 8 <= v,
        forall|i: int|
            0 <= i < old(rt).heap.mem@.len() ==> final(rt).heap.mem@[i] == old(rt).heap.mem@[i],
        forall|i: int|
            0 <= i < fields@.len() ==> field_slot(final(rt).heap.mem@, v, i) == fields@[i],
{
    let n = fields.len() as u64;
    let a = alloc_object(rt, ty, n);
    let ghost g1 = rt.heap.mem@;
    write_words(&mut rt.heap, a, fields);
    proof {
        lemma_word_frame(rt.heap.mem@, g1, a - 8);
    }
    a
}

} // verus!
