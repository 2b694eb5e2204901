use vstd::prelude::*;

verus! {

/// The machine word stored little-endian in the eight bytes starting at `a`.
pub open spec fn word_at(mem: Seq<u8>, a: int) -> u64 {
    (mem[a] as u64)
        | ((mem[a + 1] as u64) << 8)
        | ((mem[a + 2] as u64) << 16)
        | ((mem[a + 3] as u64) << 24)
        | ((mem[a + 4] as u64) << 32)
        | ((mem[a + 5] as u64) << 40)
        | ((mem[a + 6] as u64) << 48)
        | ((mem[a + 7] as u64) << 56)
}

/// `a` is a heap address whose header slot (the word just before `a`) and
/// `words` payload words all lie inside `mem`.
pub open spec fn in_mem(mem: Seq<u8>, a: u64, words: int) -> bool {
    &&& 8 <= a
    &&& a + words * 8 <= mem.len()
}

/// A word read depends only on the eight bytes it covers.
pub proof fn lemma_word_frame(m1: Seq<u8>, m2: Seq<u8>, a: int)
    requires
        0 <= a,
        a + 8 <= m1.len(),
        a + 8 <= m2.len(),
        forall|i: int| a <= i < a + 8 ==> m1[i] == m2[i],
    ensures
        word_at(m1, a) == word_at(m2, a),
{
    assert(m1[a] == m2[a]);
    assert(m1[a + 1] == m2[a + 1]);
    assert(m1[a + 2] == m2[a + 2]);
    assert(m1[a + 3] == m2[a + 3]);
    assert(m1[a + 4] == m2[a + 4]);
    assert(m1[a + 5] == m2[a + 5]);
    assert(m1[a + 6] == m2[a + 6]);
    assert(m1[a + 7] == m2[a + 7]);
}

/// The byte-addressable image of the foreign heap.
///
/// Objects are appended at the end; every object address handed out is
/// 16-aligned, which keeps the low four bits of a header word free for the
/// collector-state nibble.  The image length is kept congruent to 8 modulo
/// 16 so that a fresh header slot plus object always lands on alignment.
pub struct Heap {
    pub mem: Vec<u8>,
}

impl Heap {
    /// Allocation invariant: the image never shrinks below its reserved
    /// prefix and its length stays at 8 modulo 16.
    pub open spec fn wf(&self) -> bool {
        &&& 24 <= self.mem@.len()
        &&& self.mem@.len() % 16 == 8
    }

    /// A fresh image holding only the reserved prefix, so that no object
    /// ever has address 0: the null sentinel stays distinguishable.
    pub fn new() -> (h: Heap)
        ensures
            h.wf(),
            h.mem@.len() == 24,
            forall|i: int| 0 <= i < 24 ==> h.mem@[i] == 0,
    {
        let mut v: Vec<u8> = Vec::new();
        let mut j: u64 = 0;
        while j < 24
            invariant
                j <= 24,
                v@.len() == j,
                forall|i: int| 0 <= i < j ==> v@[i] == 0,
            decreases 24 - j,
        {
            v.push(0u8);
            j = j + 1;
        }
        Heap { mem: v }
    }

    /// The image length; as a vector length it always fits a machine word.
    pub fn size(&self) -> (l: u64)
        ensures
            l == self.mem@.len(),
    {
        self.mem.len() as u64
    }

    /// Reads the byte stored at address `a`.
    pub fn read_byte(&self, a: u64) -> (b: u8)
        requires
            a < self.mem@.len(),
        ensures
            b == self.mem@[a as int],
    {
        let _len = self.mem.len();
        self.mem[a as usize]
    }

    /// Stores one byte at address `a`.
    pub fn write_byte(&mut self, a: u64, b: u8)
        requires
            a < old(self).mem@.len(),
        ensures
            final(self).mem@ == old(self).mem@.update(a as int, b),
    {
        let _len = self.mem.len();
        self.mem.set(a as usize, b);
    }

    /// Reads the little-endian machine word at address `a`.
    pub fn read_word(&self, a: u64) -> (w: u64)
        requires
            a + 8 <= self.mem@.len(),
        ensures
            w == word_at(self.mem@, a as int),
    {
        let _len = self.mem.len();
        let b0 = self.read_byte(a);
        let b1 = self.read_byte(a + 1);
        let b2 = self.read_byte(a + 2);
        let b3 = self.read_byte(a + 3);
        let b4 = self.read_byte(a + 4);
        let b5 = self.read_byte(a + 5);
        let b6 = self.read_byte(a + 6);
        let b7 = self.read_byte(a + 7);
        (b0 as u64)
            | ((b1 as u64) << 8)
            | ((b2 as u64) << 16)
            | ((b3 as u64) << 24)
            | ((b4 as u64) << 32)
            | ((b5 as u64) << 40)
            | ((b6 as u64) << 48)
            | ((b7 as u64) << 56)
    }

    /// Stores the machine word `w` little-endian at address `a`.
    pub fn write_word(&mut self, a: u64, w: u64)
        requires
            a + 8 <= old(self).mem@.len(),
        ensures
            final(self).mem@.len() == old(self).mem@.len(),
            word_at(final(self).mem@, a as int) == w,
            forall|i: int|
                0 <= i < final(self).mem@.len() && !(a <= i < a + 8) ==> final(self).mem@[i] == old(
                    self,
                ).mem@[i],
    {
        let _len = self.mem.len();
        self.write_byte(a, #[verifier::truncate] (w as u8));
        self.write_byte(a + 1, #[verifier::truncate] ((w >> 8) as u8));
        self.write_byte(a + 2, #[verifier::truncate] ((w >> 16) as u8));
        self.write_byte(a + 3, #[verifier::truncate] ((w >> 24) as u8));
        self.write_byte(a + 4, #[verifier::truncate] ((w >> 32) as u8));
        self.write_byte(a + 5, #[verifier::truncate] ((w >> 40) as u8));
        self.write_byte(a + 6, #[verifier::truncate] ((w >> 48) as u8));
        self.write_byte(a + 7, (w >> 56) as u8);
        proof {
            assert(((w as u8) as u64) | ((((w >> 8) as u8) as u64) << 8) | ((((w >> 16) as u8)
                as u64) << 16) | ((((w >> 24) as u8) as u64) << 24) | ((((w >> 32) as u8) as u64)
                << 32) | ((((w >> 40) as u8) as u64) << 40) | ((((w >> 48) as u8) as u64) << 48) | (
            (((w >> 56) as u8) as u64) << 56) == w) by (bit_vector);
        }
    }

    /// Appends a fresh, zero-filled object of `payload_words` words and
    /// returns its 16-aligned address; the word just before the address is
    /// its (still zero) header slot.
    pub fn allocate(&mut self, payload_words: u64) -> (a: u64)
        requires
            old(self).wf(),
            old(self).mem@.len() + 8 * payload_words + 32 <= usize::MAX,
        ensures
            final(self).wf(),
            a == old(self).mem@.len() + 8,
            a % 16 == 0,
            in_mem(final(self).mem@, a, payload_words as int),
            a + 8 * payload_words <= final(self).mem@.len(),
            final(self).mem@.len() <= a + 8 * payload_words + 8,
            forall|i: int|
                0 <= i < old(self).mem@.len() ==> final(self).mem@[i] == old(self).mem@[i],
            forall|i: int|
                old(self).mem@.len() <= i < final(self).mem@.len() ==> final(self).mem@[i] == 0,
    {
        let len = self.mem.len();
        let len64: u64 = len as u64;
        let a: u64 = len64 + 8;
        let padw: u64 = if payload_words % 2 == 0 {
            1
        } else {
            0
        };
        let total: u64 = 8 + 8 * payload_words + 8 * padw;
        let mut j: u64 = 0;
        while j < total
            invariant
                j <= total,
                self.mem@.len() == len64 + j,
                forall|i: int| 0 <= i < len64 ==> self.mem@[i] == old(self).mem@[i],
                forall|i: int| len64 <= i < self.mem@.len() ==> self.mem@[i] == 0,
            decreases total - j,
        {
            self.mem.push(0u8);
            j = j + 1;
        }
        proof {
            // total is 8 * (1 + payload_words + padw) with the parenthesized
            // sum even, so total is a multiple of 16; appending it keeps the
            // image length at 8 modulo 16, and a = len + 8 lands on 16.
            let s = 1 + payload_words + padw;
            let t = s / 2;
            assert(s == 2 * t);
            assert(total == 16 * t);
            vstd::arithmetic::div_mod::lemma_mod_multiples_basic(t as int, 16);
            vstd::arithmetic::div_mod::lemma_add_mod_noop(len64 as int, total as int, 16);
            vstd::arithmetic::div_mod::lemma_add_mod_noop(len64 as int, 8, 16);
        }
        a
    }
}

} // verus!
