use julia_repr::runtime::jl_init;
use julia_repr::header::jl_typeof;
use julia_repr::construct::{
    jl_pchar_to_string, jl_symbol, jl_alloc_svec, jl_alloc_array, jl_new_typename,
    jl_new_datatype, jl_new_struct,
};
use julia_repr::layout::{
    jl_string_len, jl_string_data, jl_symbol_name, jl_svec_len, jl_svec_data, jl_svecref,
    jl_svecset, jl_array_data, jl_array_ndims, jl_array_dim, jl_array_dims, jl_array_dim0,
    jl_array_nrows, jl_fieldref, jl_fieldref_noalloc, jl_datatype_nfields, jl_nfields,
    jl_field_names, jl_get_fieldtypes, jl_compute_fieldtypes, llt_align,
};

#[test]
fn string_reports_its_bytes_exactly() {
    let mut rt = jl_init();
    let src: Vec<u8> = b"heap bytes, exactly".to_vec();
    let s = jl_pchar_to_string(&mut rt, &src);
    assert_eq!(jl_string_len(&rt, s), src.len() as u64);
    let data = jl_string_data(s);
    assert_ne!(data, 0);
    for (i, b) in src.iter().enumerate() {
        assert_eq!(rt.heap.read_byte(data + i as u64), *b);
    }
    assert_eq!(jl_typeof(&rt, s), rt.string_type);
}

#[test]
fn empty_string_has_length_zero() {
    let mut rt = jl_init();
    let src: Vec<u8> = Vec::new();
    let s = jl_pchar_to_string(&mut rt, &src);
    assert_eq!(jl_string_len(&rt, s), 0);
    assert_ne!(jl_string_data(s), 0);
}

#[test]
fn symbol_name_bytes_follow_the_padded_header() {
    let mut rt = jl_init();
    let name: Vec<u8> = b"kernel!".to_vec();
    let s = jl_symbol(&mut rt, &name);
    let p = jl_symbol_name(s);
    assert_eq!(p, s + 24);
    let mut scanned: Vec<u8> = Vec::new();
    let mut i: u64 = 0;
    loop {
        let b = rt.heap.read_byte(p + i);
        if b == 0 {
            break;
        }
        scanned.push(b);
        i += 1;
    }
    assert_eq!(scanned, name);
    assert_eq!(jl_typeof(&rt, s), rt.symbol_type);
}

#[test]
fn align_rounds_up_to_the_given_power_of_two() {
    assert_eq!(llt_align(24, 8), 24);
    assert_eq!(llt_align(25, 8), 32);
    assert_eq!(llt_align(0, 16), 0);
    assert_eq!(llt_align(1, 16), 16);
}

#[test]
fn svec_reports_length_and_slots_read_independently() {
    let mut rt = jl_init();
    let n: u64 = 5;
    let t = jl_alloc_svec(&mut rt, n);
    assert_eq!(jl_svec_len(&rt, t), n);
    assert_eq!(jl_svec_data(t), t + 8);
    for i in 0..n {
        assert_eq!(jl_svecref(&rt, t, i), 0);
    }
    for i in 0..n {
        jl_svecset(&mut rt, t, i, 100 + i);
    }
    jl_svecset(&mut rt, t, 2, 777);
    for i in 0..n {
        let expect = if i == 2 { 777 } else { 100 + i };
        assert_eq!(jl_svecref(&rt, t, i), expect);
    }
    assert_eq!(jl_svec_len(&rt, t), n);
    assert_eq!(jl_typeof(&rt, t), rt.simplevector_type);
}

#[test]
fn array_reports_its_shape_exactly() {
    let mut rt = jl_init();
    let atype = jl_new_typename(&mut rt, 0, 0);
    // a concrete three-dimensional array type stands behind `atype` in the
    // family-identity test file; here only the shape is read back
    let dims: Vec<u64> = vec![3, 4, 5];
    let a = jl_alloc_array(&mut rt, atype, &dims, 60);
    assert_ne!(jl_array_data(&rt, a), 0);
    assert_eq!(jl_array_ndims(&rt, a), 3);
    assert_eq!(jl_array_dim(&rt, a, 0), 3);
    assert_eq!(jl_array_dim(&rt, a, 1), 4);
    assert_eq!(jl_array_dim(&rt, a, 2), 5);
    assert_eq!(jl_array_dims(&rt, a, 3), dims);
    assert_eq!(jl_array_dim0(&rt, a), 3);
    assert_eq!(jl_array_nrows(&rt, a), 3);
}

#[test]
fn one_dimensional_array_exposes_its_rows_directly() {
    let mut rt = jl_init();
    let atype = jl_new_typename(&mut rt, 0, 0);
    let dims: Vec<u64> = vec![17];
    let a = jl_alloc_array(&mut rt, atype, &dims, 17);
    assert_eq!(jl_array_ndims(&rt, a), 1);
    assert_eq!(jl_array_dim0(&rt, a), 17);
    assert_eq!(jl_array_nrows(&rt, a), 17);
}

#[test]
fn struct_fields_read_back_by_index() {
    let mut rt = jl_init();
    let names = jl_alloc_svec(&mut rt, 2);
    let types = jl_alloc_svec(&mut rt, 2);
    let tn = jl_new_typename(&mut rt, names, types);
    let dt = jl_new_datatype(&mut rt, tn, 2, types, names, false);
    let fields: Vec<u64> = vec![41, 42];
    let v = jl_new_struct(&mut rt, dt, &fields);
    assert_eq!(jl_typeof(&rt, v), dt);
    assert_eq!(jl_fieldref(&rt, v, 0), 41);
    assert_eq!(jl_fieldref(&rt, v, 1), 42);
    assert_eq!(jl_fieldref_noalloc(&rt, v, 0), 41);
    assert_eq!(jl_datatype_nfields(&rt, dt), 2);
    assert_eq!(jl_nfields(&rt, v), 2);
}

#[test]
fn field_names_prefer_the_descriptor_then_the_typename() {
    let mut rt = jl_init();
    let family_names = jl_alloc_svec(&mut rt, 1);
    let tn = jl_new_typename(&mut rt, family_names, 0);
    let own_names = jl_alloc_svec(&mut rt, 1);
    let with_own = jl_new_datatype(&mut rt, tn, 1, 0, own_names, false);
    assert_eq!(jl_field_names(&rt, with_own), own_names);
    let without_own = jl_new_datatype(&mut rt, tn, 1, 0, 0, false);
    assert_eq!(jl_field_names(&rt, without_own), family_names);
}

#[test]
fn fieldtypes_materialize_from_the_typename_and_are_cached() {
    let mut rt = jl_init();
    let fallback = jl_alloc_svec(&mut rt, 1);
    let tn = jl_new_typename(&mut rt, 0, fallback);
    let lazy = jl_new_datatype(&mut rt, tn, 1, 0, 0, false);
    assert_eq!(jl_get_fieldtypes(&mut rt, lazy), fallback);
    // the fallback computation cached its answer in the descriptor
    assert_eq!(jl_get_fieldtypes(&mut rt, lazy), fallback);
    let eager_types = jl_alloc_svec(&mut rt, 1);
    let eager = jl_new_datatype(&mut rt, tn, 1, eager_types, 0, false);
    assert_eq!(jl_get_fieldtypes(&mut rt, eager), eager_types);
    let computed = jl_compute_fieldtypes(&mut rt, lazy);
    assert_eq!(computed, fallback);
}
