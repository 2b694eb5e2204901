use julia_repr::runtime::{jl_init, jl_atexit_hook, jl_is_initialized, jl_exception_occurred};
use julia_repr::scalar::{
    jl_box_bool, jl_box_char, jl_box_int8, jl_box_int16, jl_box_int32, jl_box_int64, jl_box_uint8,
    jl_box_uint16, jl_box_uint32, jl_box_uint64, jl_box_float32_bits, jl_box_float64_bits,
    jl_unbox_bool, jl_unbox_char, jl_unbox_int8, jl_unbox_int16, jl_unbox_int32, jl_unbox_int64,
    jl_unbox_uint8, jl_unbox_uint16, jl_unbox_uint32, jl_unbox_uint64, jl_unbox_float32_bits,
    jl_unbox_float64_bits,
};
use julia_repr::header::jl_typeof;

#[test]
fn sanity() {
    let mut rt = jl_init();
    assert!(jl_is_initialized(&rt) != 0);

    assert!(jl_exception_occurred(&rt) == 0);

    jl_atexit_hook(&mut rt, 0);
}

#[test]
fn roundtrip_bool() {
    let mut rt = jl_init();
    for x in [false, true] {
        let v = jl_box_bool(&mut rt, x);
        assert_eq!(jl_unbox_bool(&rt, v), x);
    }
}

#[test]
fn roundtrip_char() {
    let mut rt = jl_init();
    for c in ['a', 'Ω', '🦀', '\0'] {
        let v = jl_box_char(&mut rt, c as u32);
        assert_eq!(char::from_u32(jl_unbox_char(&rt, v)), Some(c));
    }
}

#[test]
fn roundtrip_int8() {
    let mut rt = jl_init();
    for x in [i8::MIN, -1, 0, 1, i8::MAX] {
        let v = jl_box_int8(&mut rt, x);
        assert_eq!(jl_unbox_int8(&rt, v), x);
    }
}

#[test]
fn roundtrip_int16() {
    let mut rt = jl_init();
    for x in [i16::MIN, -1, 0, 1, i16::MAX] {
        let v = jl_box_int16(&mut rt, x);
        assert_eq!(jl_unbox_int16(&rt, v), x);
    }
}

#[test]
fn roundtrip_int32() {
    let mut rt = jl_init();
    for x in [i32::MIN, -1, 0, 1, i32::MAX] {
        let v = jl_box_int32(&mut rt, x);
        assert_eq!(jl_unbox_int32(&rt, v), x);
    }
}

#[test]
fn roundtrip_int64() {
    let mut rt = jl_init();
    for x in [i64::MIN, -1, 0, 1, i64::MAX] {
        let v = jl_box_int64(&mut rt, x);
        assert_eq!(jl_unbox_int64(&rt, v), x);
    }
}

#[test]
fn roundtrip_uint8() {
    let mut rt = jl_init();
    for x in [0u8, 1, 0x7f, u8::MAX] {
        let v = jl_box_uint8(&mut rt, x);
        assert_eq!(jl_unbox_uint8(&rt, v), x);
    }
}

#[test]
fn roundtrip_uint16() {
    let mut rt = jl_init();
    for x in [0u16, 1, 0x7fff, u16::MAX] {
        let v = jl_box_uint16(&mut rt, x);
        assert_eq!(jl_unbox_uint16(&rt, v), x);
    }
}

#[test]
fn roundtrip_uint32() {
    let mut rt = jl_init();
    for x in [0u32, 1, 0xdead_beef, u32::MAX] {
        let v = jl_box_uint32(&mut rt, x);
        assert_eq!(jl_unbox_uint32(&rt, v), x);
    }
}

#[test]
fn roundtrip_uint64() {
    let mut rt = jl_init();
    for x in [0u64, 1, 0xdead_beef_cafe_f00d, u64::MAX] {
        let v = jl_box_uint64(&mut rt, x);
        assert_eq!(jl_unbox_uint64(&rt, v), x);
    }
}

#[test]
fn roundtrip_float32() {
    let mut rt = jl_init();
    for x in [0.0f32, -0.0, 1.5, -3.25e7, f32::MIN, f32::MAX, f32::INFINITY] {
        let v = jl_box_float32_bits(&mut rt, x.to_bits());
        assert_eq!(f32::from_bits(jl_unbox_float32_bits(&rt, v)), x);
    }
    let nan = jl_box_float32_bits(&mut rt, f32::NAN.to_bits());
    assert!(f32::from_bits(jl_unbox_float32_bits(&rt, nan)).is_nan());
}

#[test]
fn roundtrip_float64() {
    let mut rt = jl_init();
    for x in [0.0f64, -0.0, 1.5, -3.25e7, f64::MIN, f64::MAX, f64::NEG_INFINITY] {
        let v = jl_box_float64_bits(&mut rt, x.to_bits());
        assert_eq!(f64::from_bits(jl_unbox_float64_bits(&rt, v)), x);
    }
    let nan = jl_box_float64_bits(&mut rt, f64::NAN.to_bits());
    assert!(f64::from_bits(jl_unbox_float64_bits(&rt, nan)).is_nan());
}

#[test]
fn boxed_cells_decode_to_their_singletons() {
    let mut rt = jl_init();
    let b = jl_box_bool(&mut rt, true);
    let c = jl_box_char(&mut rt, 'x' as u32);
    let i = jl_box_int64(&mut rt, -7);
    let u = jl_box_uint8(&mut rt, 7);
    let f = jl_box_float64_bits(&mut rt, 2.5f64.to_bits());
    assert_eq!(jl_typeof(&rt, b), rt.bool_type);
    assert_eq!(jl_typeof(&rt, c), rt.char_type);
    assert_eq!(jl_typeof(&rt, i), rt.int64_type);
    assert_eq!(jl_typeof(&rt, u), rt.uint8_type);
    assert_eq!(jl_typeof(&rt, f), rt.float64_type);
}
