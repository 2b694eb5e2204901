use vstd::prelude::*;
use crate::mem::in_mem;
use crate::header::{type_of, readable_value, jl_typeof, jl_typeis};
use crate::runtime::Runtime;
use crate::layout::{dt_name, dt_isbits};

verus! {

/// `v` is the canonical absence value: an identity comparison against the
/// runtime's singleton, no header read at all.
pub fn jl_is_nothing(rt: &Runtime, v: u64) -> (r: bool)
    ensures
        r == (v == rt.nothing),
{
    v == rt.nothing
}

/// `v` is a simple vector: its resolved type is the simple-vector
/// descriptor singleton.  Null resolves to null and answers false.
pub fn jl_is_svec(rt: &Runtime, v: u64) -> (r: bool)
    requires
        readable_value(rt.heap.mem@, v),
    ensures
        r == (type_of(rt.heap.mem@, v) == rt.simplevector_type),
{
    jl_typeis(rt, v, rt.simplevector_type)
}

/// `v` is itself a type descriptor: its resolved type is the descriptor
/// singleton.  Null answers false.
pub fn jl_is_datatype(rt: &Runtime, v: u64) -> (r: bool)
    requires
        readable_value(rt.heap.mem@, v),
    ensures
        r == (type_of(rt.heap.mem@, v) == rt.datatype_type),
{
    jl_typeis(rt, v, rt.datatype_type)
}

/// `v` is a string: its resolved type is the string descriptor singleton.
/// Null answers false.
pub fn jl_is_string(rt: &Runtime, v: u64) -> (r: bool)
    requires
        readable_value(rt.heap.mem@, v),
    ensures
        r == (type_of(rt.heap.mem@, v) == rt.string_type),
{
    jl_typeis(rt, v, rt.string_type)
}

/// `v` is a symbol: its resolved type is the symbol descriptor singleton.
/// Null answers false.
pub fn jl_is_symbol(rt: &Runtime, v: u64) -> (r: bool)
    requires
        readable_value(rt.heap.mem@, v),
    ensures
        r == (type_of(rt.heap.mem@, v) == rt.symbol_type),
{
    jl_typeis(rt, v, rt.symbol_type)
}

/// `v` is a task: its resolved type is the task descriptor singleton.
/// Null answers false.
pub fn jl_is_task(rt: &Runtime, v: u64) -> (r: bool)
    requires
        readable_value(rt.heap.mem@, v),
    ensures
        r == (type_of(rt.heap.mem@, v) == rt.task_type),
{
    jl_typeis(rt, v, rt.task_type)
}

/// `v` belongs to the tuple family, whose concrete descriptors vary by
/// element types but share one name identity.  Null resolves to a null
/// descriptor and answers false.
pub fn jl_is_tuple(rt: &Runtime, v: u64) -> (r: bool)
    requires
        readable_value(rt.heap.mem@, v),
        type_of(rt.heap.mem@, v) != 0 ==> in_mem(rt.heap.mem@, type_of(rt.heap.mem@, v), 1),
    ensures
        r == (type_of(rt.heap.mem@, v) != 0 && dt_name(rt.heap.mem@, type_of(rt.heap.mem@, v))
            == rt.tuple_typename),
{
    let t = jl_typeof(rt, v);
    if t == 0 {
        return false;
    }
    let name = rt.heap.read_word(t);
    name == rt.tuple_typename
}

/// `v` belongs to the named-tuple family, compared by the family's name
/// identity.  Null answers false.
pub fn jl_is_namedtuple(rt: &Runtime, v: u64) -> (r: bool)
    requires
        readable_value(rt.heap.mem@, v),
        type_of(rt.heap.mem@, v) != 0 ==> in_mem(rt.heap.mem@, type_of(rt.heap.mem@, v), 1),
    ensures
        r == (type_of(rt.heap.mem@, v) != 0 && dt_name(rt.heap.mem@, type_of(rt.heap.mem@, v))
            == rt.namedtuple_typename),
{
    let t = jl_typeof(rt, v);
    if t == 0 {
        return false;
    }
    let name = rt.heap.read_word(t);
    name == rt.namedtuple_typename
}

/// `v` is a type descriptor of the array family: itself a descriptor, and
/// its name identity is the family's.  Null answers false.
pub fn jl_is_array_type(rt: &Runtime, v: u64) -> (r: bool)
    requires
        readable_value(rt.heap.mem@, v),
        type_of(rt.heap.mem@, v) == rt.datatype_type ==> in_mem(rt.heap.mem@, v, 1),
    ensures
        r == (type_of(rt.heap.mem@, v) == rt.datatype_type && dt_name(rt.heap.mem@, v)
            == rt.array_typename),
{
    if !jl_is_datatype(rt, v) {
        return false;
    }
    let name = rt.heap.read_word(v);
    name == rt.array_typename
}

/// `v` is an array value: its resolved type descriptor belongs to the
/// array family.  Null answers false.
pub fn jl_is_array(rt: &Runtime, v: u64) -> (r: bool)
    requires
        readable_value(rt.heap.mem@, v),
        readable_value(rt.heap.mem@, type_of(rt.heap.mem@, v)),
        type_of(rt.heap.mem@, type_of(rt.heap.mem@, v)) == rt.datatype_type ==> in_mem(
            rt.heap.mem@,
            type_of(rt.heap.mem@, v),
            1,
        ),
    ensures
        r == (type_of(rt.heap.mem@, type_of(rt.heap.mem@, v)) == rt.datatype_type && dt_name(
            rt.heap.mem@,
            type_of(rt.heap.mem@, v),
        ) == rt.array_typename),
{
    let t = jl_typeof(rt, v);
    jl_is_array_type(rt, t)
}

/// `v` is a descriptor of a primitive, bit-representable type: itself a
/// descriptor whose is-primitive flag is set.  Null answers false.
pub fn jl_isbits(rt: &Runtime, v: u64) -> (r: bool)
    requires
        readable_value(rt.heap.mem@, v),
        type_of(rt.heap.mem@, v) == rt.datatype_type ==> in_mem(rt.heap.mem@, v, 5),
    ensures
        r == (type_of(rt.heap.mem@, v) == rt.datatype_type && dt_isbits(rt.heap.mem@, v) != 0),
{
    if !jl_is_datatype(rt, v) {
        return false;
    }
    let _hl = rt.heap.size();
    let flag = rt.heap.read_word(v + 32);
    flag != 0
}

} // verus!
