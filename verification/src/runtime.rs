use vstd::prelude::*;
use crate::mem::{Heap, in_mem, word_at};
use crate::header::{type_of, lemma_header_fields};

verus! {

/// `a` is a live object handle: 16-aligned (so the collector-state nibble of
/// a header word that points to it stays free), past the reserved prefix,
/// and with its header slot and `words` payload words inside the image.
pub open spec fn valid_handle(mem: Seq<u8>, a: u64, words: int) -> bool {
    &&& in_mem(mem, a, words)
    &&& a % 16 == 0
    &&& 16 <= a
}

/// A live image of the foreign runtime: its heap plus the process-wide
/// handles the runtime exposes — the type-descriptor singletons for each
/// concrete type, the family-identity handles for the parameterized type
/// families, the canonical absence value, the pending-exception slot, and
/// the collector's remembered set fed by the write barrier.
pub struct Runtime {
    pub heap: Heap,
    /// Whether the runtime has been brought up and not shut down again.
    pub initialized: bool,
    /// The runtime's pending-exception slot; 0 means no exception.
    pub exception: u64,
    /// Parents reported to the collector's write-queue primitive.
    pub write_queue: Vec<u64>,
    pub datatype_type: u64,
    pub simplevector_type: u64,
    pub string_type: u64,
    pub symbol_type: u64,
    pub task_type: u64,
    pub nothing_type: u64,
    pub bool_type: u64,
    pub char_type: u64,
    pub int8_type: u64,
    pub int16_type: u64,
    pub int32_type: u64,
    pub int64_type: u64,
    pub uint8_type: u64,
    pub uint16_type: u64,
    pub uint32_type: u64,
    pub uint64_type: u64,
    pub float32_type: u64,
    pub float64_type: u64,
    pub tuple_typename: u64,
    pub namedtuple_typename: u64,
    pub array_typename: u64,
    pub nothing: u64,
}

/// The two runtimes expose the same named handles.
pub open spec fn same_handles(a: &Runtime, b: &Runtime) -> bool {
    &&& a.datatype_type == b.datatype_type
    &&& a.simplevector_type == b.simplevector_type
    &&& a.string_type == b.string_type
    &&& a.symbol_type == b.symbol_type
    &&& a.task_type == b.task_type
    &&& a.nothing_type == b.nothing_type
    &&& a.bool_type == b.bool_type
    &&& a.char_type == b.char_type
    &&& a.int8_type == b.int8_type
    &&& a.int16_type == b.int16_type
    &&& a.int32_type == b.int32_type
    &&& a.int64_type == b.int64_type
    &&& a.uint8_type == b.uint8_type
    &&& a.uint16_type == b.uint16_type
    &&& a.uint32_type == b.uint32_type
    &&& a.uint64_type == b.uint64_type
    &&& a.float32_type == b.float32_type
    &&& a.float64_type == b.float64_type
    &&& a.tuple_typename == b.tuple_typename
    &&& a.namedtuple_typename == b.namedtuple_typename
    &&& a.array_typename == b.array_typename
    &&& a.nothing == b.nothing
}

/// Everything but the heap image is unchanged.
pub open spec fn same_except_heap(a: &Runtime, b: &Runtime) -> bool {
    &&& same_handles(a, b)
    &&& a.initialized == b.initialized
    &&& a.exception == b.exception
    &&& a.write_queue@ == b.write_queue@
}

impl Runtime {
    /// Every named handle is a live object of its required extent: the
    /// type-descriptor singletons carry five descriptor words, the
    /// family-identity handles two, and the canonical absence value none.
    pub open spec fn wf(&self) -> bool {
        &&& self.heap.wf()
        &&& valid_handle(self.heap.mem@, self.datatype_type, 5)
        &&& valid_handle(self.heap.mem@, self.simplevector_type, 5)
        &&& valid_handle(self.heap.mem@, self.string_type, 5)
        &&& valid_handle(self.heap.mem@, self.symbol_type, 5)
        &&& valid_handle(self.heap.mem@, self.task_type, 5)
        &&& valid_handle(self.heap.mem@, self.nothing_type, 5)
        &&& valid_handle(self.heap.mem@, self.bool_type, 5)
        &&& valid_handle(self.heap.mem@, self.char_type, 5)
        &&& valid_handle(self.heap.mem@, self.int8_type, 5)
        &&& valid_handle(self.heap.mem@, self.int16_type, 5)
        &&& valid_handle(self.heap.mem@, self.int32_type, 5)
        &&& valid_handle(self.heap.mem@, self.int64_type, 5)
        &&& valid_handle(self.heap.mem@, self.uint8_type, 5)
        &&& valid_handle(self.heap.mem@, self.uint16_type, 5)
        &&& valid_handle(self.heap.mem@, self.uint32_type, 5)
        &&& valid_handle(self.heap.mem@, self.uint64_type, 5)
        &&& valid_handle(self.heap.mem@, self.float32_type, 5)
        &&& valid_handle(self.heap.mem@, self.float64_type, 5)
        &&& valid_handle(self.heap.mem@, self.tuple_typename, 2)
        &&& valid_handle(self.heap.mem@, self.namedtuple_typename, 2)
        &&& valid_handle(self.heap.mem@, self.array_typename, 2)
        &&& valid_handle(self.heap.mem@, self.nothing, 0)
    }
}

/// Allocates one five-word type-descriptor object whose header marks it as
/// a datatype; its descriptor words (name, layout, field types, field
/// names, is-primitive flag) start out zero.
fn fresh_type_object(h: &mut Heap, datatype_type: u64) -> (a: u64)
    requires
        old(h).wf(),
        old(h).mem@.len() + 80 <= usize::MAX,
    ensures
        final(h).wf(),
        valid_handle(final(h).mem@, a, 5),
        word_at(final(h).mem@, a - 8) == datatype_type,
        a == old(h).mem@.len() + 8,
        old(h).mem@.len() < final(h).mem@.len() <= old(h).mem@.len() + 56,
    {
    let a = h.allocate(5);
    h.write_word(a - 8, datatype_type);
    a
}

/// Brings the modeled runtime up: builds a fresh heap image holding the
/// type-descriptor singletons, the family-identity handles and the
/// canonical absence value — pairwise distinct, in allocation order —
/// with no pending exception and an empty write queue.
#[verifier::rlimit(100)]
pub fn jl_init() -> (rt: Runtime)
    ensures
        rt.wf(),
        rt.initialized,
        rt.exception == 0,
        rt.write_queue@.len() == 0,
        rt.nothing != 0,
        type_of(rt.heap.mem@, rt.nothing) == rt.nothing_type,
        rt.heap.mem@.len() <= 2048,
        rt.datatype_type < rt.simplevector_type < rt.string_type < rt.symbol_type < rt.task_type
            < rt.nothing_type < rt.bool_type < rt.char_type < rt.int8_type < rt.int16_type
            < rt.int32_type < rt.int64_type < rt.uint8_type < rt.uint16_type < rt.uint32_type
            < rt.uint64_type < rt.float32_type < rt.float64_type < rt.tuple_typename
            < rt.namedtuple_typename < rt.array_typename < rt.nothing,
{
    let mut h = Heap::new();
    let datatype_type = h.allocate(5);
    h.write_word(datatype_type - 8, datatype_type);
    let simplevector_type = fresh_type_object(&mut h, datatype_type);
    let string_type = fresh_type_object(&mut h, datatype_type);
    let symbol_type = fresh_type_object(&mut h, datatype_type);
    let task_type = fresh_type_object(&mut h, datatype_type);
    let nothing_type = fresh_type_object(&mut h, datatype_type);
    let bool_type = fresh_type_object(&mut h, datatype_type);
    let char_type = fresh_type_object(&mut h, datatype_type);
    let int8_type = fresh_type_object(&mut h, datatype_type);
    let int16_type = fresh_type_object(&mut h, datatype_type);
    let int32_type = fresh_type_object(&mut h, datatype_type);
    let int64_type = fresh_type_object(&mut h, datatype_type);
    let uint8_type = fresh_type_object(&mut h, datatype_type);
    let uint16_type = fresh_type_object(&mut h, datatype_type);
    let uint32_type = fresh_type_object(&mut h, datatype_type);
    let uint64_type = fresh_type_object(&mut h, datatype_type);
    let float32_type = fresh_type_object(&mut h, datatype_type);
    let float64_type = fresh_type_object(&mut h, datatype_type);
    let tuple_typename = h.allocate(2);
    h.write_word(tuple_typename - 8, datatype_type);
    let namedtuple_typename = h.allocate(2);
    h.write_word(namedtuple_typename - 8, datatype_type);
    let array_typename = h.allocate(2);
    h.write_word(array_typename - 8, datatype_type);
    let nothing = h.allocate(0);
    h.write_word(nothing - 8, nothing_type);
    proof {
        lemma_header_fields(nothing_type, 0);
    }
    Runtime {
        heap: h,
        initialized: true,
        exception: 0,
        write_queue: Vec::new(),
        datatype_type,
        simplevector_type,
        string_type,
        symbol_type,
        task_type,
        nothing_type,
        bool_type,
        char_type,
        int8_type,
        int16_type,
        int32_type,
        int64_type,
        uint8_type,
        uint16_type,
        uint32_type,
        uint64_type,
        float32_type,
        float64_type,
        tuple_typename,
        namedtuple_typename,
        array_typename,
        nothing,
    }
}

/// Whether the runtime is up; nonzero means initialized.
pub fn jl_is_initialized(rt: &Runtime) -> (r: u64)
    ensures
        r == (if rt.initialized { 1u64 } else { 0u64 }),
{
    if rt.initialized {
        1
    } else {
        0
    }
}

/// Shuts the modeled runtime down; the heap image and handles stay
/// readable, only the liveness flag drops.
pub fn jl_atexit_hook(rt: &mut Runtime, status: i32)
    ensures
        !final(rt).initialized,
        final(rt).heap == old(rt).heap,
        final(rt).exception == old(rt).exception,
        final(rt).write_queue@ == old(rt).write_queue@,
        same_handles(final(rt), old(rt)),
{
    rt.initialized = false;
}

/// Surfaces the runtime's pending-exception slot without interpreting it;
/// 0 means no exception is pending.
pub fn jl_exception_occurred(rt: &Runtime) -> (r: u64)
    ensures
        r == rt.exception,
{
    rt.exception
}

/// The collector's write-queue primitive: remembers `parent` so the next
/// collection cycle rescans it.
pub fn jl_gc_queue_root(rt: &mut Runtime, parent: u64)
    ensures
        final(rt).write_queue@ == old(rt).write_queue@.push(parent),
        final(rt).heap == old(rt).heap,
        final(rt).initialized == old(rt).initialized,
        final(rt).exception == old(rt).exception,
        same_handles(final(rt), old(rt)),
{
    rt.write_queue.push(parent);
}

} // verus!
