use julia_repr::runtime::jl_init;
use julia_repr::header::{jl_astaggedvalue, jl_valueof, jl_typeof, jl_typeis, jl_gc_bits,
    jl_set_gc_bits};
use julia_repr::barrier::{jl_gc_wb, wb_required};
use julia_repr::construct::{
    jl_pchar_to_string, jl_symbol, jl_alloc_svec, jl_alloc_array, jl_new_typename,
    jl_new_datatype, jl_new_struct,
};
use julia_repr::layout::{
    jl_string_len, jl_string_data, jl_symbol_name, jl_svec_len, jl_svec_data, jl_array_data,
    jl_array_ndims, jl_array_dim, jl_array_dims, jl_array_dim0, jl_array_nrows, jl_field_names,
};
use julia_repr::predicate::{
    jl_is_nothing, jl_is_tuple, jl_is_namedtuple, jl_is_svec, jl_is_datatype, jl_is_array_type,
    jl_is_array, jl_is_string, jl_is_symbol, jl_is_task, jl_isbits,
};
use julia_repr::scalar::{jl_box_int64, jl_box_uint8};

#[test]
fn header_slot_sits_one_word_before_the_value() {
    let mut rt = jl_init();
    let v = jl_box_int64(&mut rt, 5);
    let tagged = jl_astaggedvalue(v);
    assert_eq!(tagged, v - 8);
    assert_eq!(jl_valueof(tagged), v);
    assert_eq!(jl_valueof(0), 0);
}

#[test]
fn old_parent_with_unmarked_child_is_reported() {
    let mut rt = jl_init();
    let parent = jl_box_uint8(&mut rt, 1);
    let child = jl_box_uint8(&mut rt, 2);
    jl_set_gc_bits(&mut rt, parent, 3);
    jl_set_gc_bits(&mut rt, child, 0);
    assert_eq!(jl_gc_bits(&rt, parent), 3);
    assert_eq!(jl_gc_bits(&rt, child), 0);
    jl_gc_wb(&mut rt, parent, child);
    assert_eq!(rt.write_queue, vec![parent]);
}

#[test]
fn young_parent_is_never_reported() {
    let mut rt = jl_init();
    let parent = jl_box_uint8(&mut rt, 1);
    let child = jl_box_uint8(&mut rt, 2);
    jl_set_gc_bits(&mut rt, parent, 2);
    jl_set_gc_bits(&mut rt, child, 0);
    jl_gc_wb(&mut rt, parent, child);
    assert!(rt.write_queue.is_empty());
}

#[test]
fn marked_child_is_never_reported() {
    let mut rt = jl_init();
    let parent = jl_box_uint8(&mut rt, 1);
    let child = jl_box_uint8(&mut rt, 2);
    jl_set_gc_bits(&mut rt, parent, 3);
    jl_set_gc_bits(&mut rt, child, 1);
    jl_gc_wb(&mut rt, parent, child);
    assert!(rt.write_queue.is_empty());
}

#[test]
fn barrier_decision_matches_the_state_table() {
    assert!(wb_required(3, 0));
    assert!(wb_required(3, 2));
    assert!(!wb_required(3, 1));
    assert!(!wb_required(3, 3));
    assert!(!wb_required(0, 0));
    assert!(!wb_required(1, 0));
    assert!(!wb_required(2, 0));
    assert!(!wb_required(7, 0));
}

#[test]
fn predicates_match_each_singleton() {
    let mut rt = jl_init();
    let s = jl_pchar_to_string(&mut rt, &b"abc".to_vec());
    let sym = jl_symbol(&mut rt, &b"sym".to_vec());
    let sv = jl_alloc_svec(&mut rt, 1);
    assert!(jl_is_string(&rt, s));
    assert!(!jl_is_symbol(&rt, s));
    assert!(!jl_is_task(&rt, s));
    assert!(jl_is_symbol(&rt, sym));
    assert!(!jl_is_string(&rt, sym));
    assert!(jl_is_svec(&rt, sv));
    assert!(!jl_is_svec(&rt, s));
    assert!(jl_is_nothing(&rt, rt.nothing));
    assert!(!jl_is_nothing(&rt, s));
    assert!(jl_typeis(&rt, s, rt.string_type));
    assert!(!jl_typeis(&rt, s, rt.symbol_type));
    assert_eq!(jl_typeof(&rt, rt.nothing), rt.nothing_type);
}

#[test]
fn family_identity_recognizes_tuples_and_arrays() {
    let mut rt = jl_init();
    let tuple_tn = rt.tuple_typename;
    let tuple_dt = jl_new_datatype(&mut rt, tuple_tn, 2, 0, 0, false);
    let pair: Vec<u64> = vec![10, 20];
    let tup = jl_new_struct(&mut rt, tuple_dt, &pair);
    assert!(jl_is_tuple(&rt, tup));
    assert!(!jl_is_namedtuple(&rt, tup));

    let nt_tn = rt.namedtuple_typename;
    let nt_dt = jl_new_datatype(&mut rt, nt_tn, 2, 0, 0, false);
    let nt = jl_new_struct(&mut rt, nt_dt, &pair);
    assert!(jl_is_namedtuple(&rt, nt));
    assert!(!jl_is_tuple(&rt, nt));

    let arr_tn = rt.array_typename;
    let arr_dt = jl_new_datatype(&mut rt, arr_tn, 0, 0, 0, false);
    assert!(jl_is_array_type(&rt, arr_dt));
    assert!(!jl_is_array_type(&rt, tuple_dt));
    let dims: Vec<u64> = vec![2, 2];
    let arr = jl_alloc_array(&mut rt, arr_dt, &dims, 4);
    assert!(jl_is_array(&rt, arr));
    assert!(!jl_is_array(&rt, tup));
    assert!(jl_is_datatype(&rt, arr_dt));
    assert!(!jl_is_datatype(&rt, arr));
}

#[test]
fn isbits_follows_the_primitive_flag() {
    let mut rt = jl_init();
    let tn = jl_new_typename(&mut rt, 0, 0);
    let plain = jl_new_datatype(&mut rt, tn, 0, 0, 0, false);
    let prim = jl_new_datatype(&mut rt, tn, 0, 0, 0, true);
    assert!(!jl_isbits(&rt, plain));
    assert!(jl_isbits(&rt, prim));
    let inst = jl_new_struct(&mut rt, plain, &Vec::new());
    assert!(!jl_isbits(&rt, inst));
}

#[test]
fn null_reads_as_absence_everywhere() {
    let rt = jl_init();
    assert_eq!(jl_typeof(&rt, 0), 0);
    assert_eq!(jl_string_len(&rt, 0), 0);
    assert_eq!(jl_string_data(0), 0);
    assert_eq!(jl_symbol_name(0), 0);
    assert_eq!(jl_svec_len(&rt, 0), 0);
    assert_eq!(jl_svec_data(0), 0);
    assert_eq!(jl_array_data(&rt, 0), 0);
    assert_eq!(jl_array_ndims(&rt, 0), 0);
    assert_eq!(jl_array_dim(&rt, 0, 1), 0);
    assert_eq!(jl_array_dims(&rt, 0, 3), Vec::<u64>::new());
    assert_eq!(jl_array_dim0(&rt, 0), 0);
    assert_eq!(jl_array_nrows(&rt, 0), 0);
    assert_eq!(jl_field_names(&rt, 0), 0);
    assert!(!jl_is_string(&rt, 0));
    assert!(!jl_is_symbol(&rt, 0));
    assert!(!jl_is_svec(&rt, 0));
    assert!(!jl_is_datatype(&rt, 0));
    assert!(!jl_is_task(&rt, 0));
    assert!(!jl_is_tuple(&rt, 0));
    assert!(!jl_is_namedtuple(&rt, 0));
    assert!(!jl_is_array_type(&rt, 0));
    assert!(!jl_is_array(&rt, 0));
    assert!(!jl_isbits(&rt, 0));
    assert!(!jl_is_nothing(&rt, 0));
}
