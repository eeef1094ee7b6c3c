//! Bit-packed validity masks: one bit for each element, set where the element is valid.
use std::sync::Arc;
use vstd::prelude::*;

verus! {

/// Whether bit `k` of `byte` is set, counting from the least significant bit.
pub open spec fn is_set(byte: u8, k: u8) -> bool {
    (byte >> k) & 1u8 == 1u8
}

/// Bit `i` of a run of bytes: bit `i % 8` of byte `i / 8`.
pub open spec fn bit_at(bytes: Seq<u8>, i: int) -> bool {
    is_set(bytes[i / 8], (i % 8) as u8)
}

/// The number of unset bits in a run of bits.
pub open spec fn count_unset(bits: Seq<bool>) -> nat
    decreases bits.len(),
{
    if bits.len() == 0 {
        0
    } else {
        count_unset(bits.drop_last()) + if bits.last() {
            0nat
        } else {
            1nat
        }
    }
}

/// `byte` with bit `k` set to `value`.
fn with_bit(byte: u8, k: u8, value: bool) -> (r: u8)
    requires
        k < 8,
    ensures
        forall|j: u8| j < 8 ==> #[trigger] is_set(r, j) == (if j == k {
            value
        } else {
            is_set(byte, j)
        }),
{
    if value {
        let r = byte | (1u8 << k);
        assert forall|j: u8| j < 8 implies #[trigger] is_set(r, j) == (j == k || is_set(byte, j)) by {
            assert(((byte | (1u8 << k)) >> j) & 1u8 == 1u8 <==> (j == k || (byte >> j) & 1u8
                == 1u8)) by (bit_vector)
                requires
                    k < 8,
                    j < 8,
            ;
        }
        r
    } else {
        let r = byte & !(1u8 << k);
        assert forall|j: u8| j < 8 implies #[trigger] is_set(r, j) == (j != k && is_set(byte, j)) by {
            assert(((byte & !(1u8 << k)) >> j) & 1u8 == 1u8 <==> (j != k && (byte >> j) & 1u8
                == 1u8)) by (bit_vector)
                requires
                    k < 8,
                    j < 8,
            ;
        }
        r
    }
}

/// Whether bit `k` of `byte` is set.
fn test_bit(byte: u8, k: u8) -> (b: bool)
    requires
        k < 8,
    ensures
        b == is_set(byte, k),
{
    (byte >> k) & 1u8 == 1u8
}

/// A validity mask under construction: bits are appended at the end.
#[derive(Debug)]
pub struct MutableBitmap {
    bytes: Vec<u8>,
    length: usize,
}

impl View for MutableBitmap {
    type V = Seq<bool>;

    closed spec fn view(&self) -> Seq<bool> {
        Seq::new(self.length as nat, |i: int| bit_at(self.bytes@, i))
    }
}

impl MutableBitmap {
    /// The bytes hold exactly the bits appended so far.
    pub closed spec fn wf(&self) -> bool {
        &&& self.length <= 8 * self.bytes@.len()
        &&& 8 * self.bytes@.len() < self.length + 8
    }

    /// A mask without bits.
    pub fn new() -> (m: Self)
        ensures
            m.wf(),
            m@ == Seq::<bool>::empty(),
    {
        let m = MutableBitmap { bytes: Vec::new(), length: 0 };
        assert(m@ =~= Seq::<bool>::empty());
        m
    }

    /// The number of bits.
    pub fn len(&self) -> (n: usize)
        ensures
            n == self@.len(),
    {
        self.length
    }

    /// Appends one bit.
    pub fn push(&mut self, value: bool)
        requires
            old(self).wf(),
            old(self)@.len() < usize::MAX,
        ensures
            final(self).wf(),
            final(self)@ == old(self)@.push(value),
    {
        let k: u8 = (self.length % 8) as u8;
        if k == 0 {
            self.bytes.push(0u8);
        }
        let index: usize = self.length / 8;
        let ghost before = self.bytes@;
        let byte = self.bytes[index];
        let updated = with_bit(byte, k, value);
        self.bytes.set(index, updated);
        self.length = self.length + 1;
        proof {
            let after = self.bytes@;
            let n = old(self).length as int;
            assert forall|i: int| 0 <= i < n + 1 implies bit_at(after, i) == old(self)@.push(
                value,
            )[i] by {
                let j: u8 = (i % 8) as u8;
                if i / 8 == index as int {
                    assert(is_set(updated, j) == (if j == k {
                        value
                    } else {
                        is_set(byte, j)
                    }));
                    if i < n {
                        assert(j != k);
                        assert(before[i / 8] == old(self).bytes@[i / 8]);
                    }
                } else {
                    assert(after[i / 8] == old(self).bytes@[i / 8]);
                }
            }
            assert(self@ =~= old(self)@.push(value));
        }
    }

    /// Freezes the bits appended so far.
    pub fn freeze(self) -> (b: Bitmap)
        requires
            self.wf(),
        ensures
            b.wf(),
            b@ == self@,
    {
        let ghost bits = self@;
        let b = Bitmap { bytes: Arc::new(self.bytes), offset: 0, length: self.length };
        assert(b@ =~= bits);
        b
    }
}

/// An immutable, shared validity mask. Slicing makes a narrower window onto
/// the same bytes and copies nothing.
#[derive(Debug)]
pub struct Bitmap {
    bytes: Arc<Vec<u8>>,
    offset: usize,
    length: usize,
}

impl View for Bitmap {
    type V = Seq<bool>;

    /// The bits of the mask: `true` where the element is valid.
    closed spec fn view(&self) -> Seq<bool> {
        Seq::new(self.length as nat, |i: int| bit_at(self.bytes@, self.offset + i))
    }
}

impl Bitmap {
    /// The window of bits lies inside the bytes. Every mask that exists at run
    /// time is well formed.
    #[verifier::type_invariant]
    pub closed spec fn wf(&self) -> bool {
        &&& self.offset + self.length <= 8 * self.bytes@.len()
        &&& self.offset + self.length <= usize::MAX
    }

    /// The mask that holds the bits of `bits` in order.
    pub fn from_bools(bits: &[bool]) -> (b: Self)
        ensures
            b.wf(),
            b@ == bits@,
    {
        let mut m = MutableBitmap::new();
        let mut i: usize = 0;
        while i < bits.len()
            invariant
                i <= bits.len(),
                m.wf(),
                m@ == bits@.subrange(0, i as int),
            decreases bits.len() - i,
        {
            m.push(bits[i]);
            i += 1;
            assert(m@ =~= bits@.subrange(0, i as int));
        }
        assert(bits@.subrange(0, bits.len() as int) =~= bits@);
        m.freeze()
    }

    /// The number of bits.
    pub fn len(&self) -> (n: usize)
        ensures
            self.wf(),
            n == self@.len(),
    {
        proof {
            use_type_invariant(self);
        }
        self.length
    }

    /// Whether the element at `index` is valid.
    pub fn get(&self, index: usize) -> (bit: bool)
        requires
            index < self@.len(),
        ensures
            bit == self@[index as int],
    {
        proof {
            use_type_invariant(self);
        }
        let bytes: &Vec<u8> = &self.bytes;
        let i: usize = self.offset + index;
        test_bit(bytes[i / 8], (i % 8) as u8)
    }

    /// The window of `length` bits that starts `offset` bits into this one.
    pub fn slice(&self, offset: usize, length: usize) -> (b: Self)
        requires
            offset + length <= self@.len(),
        ensures
            b.wf(),
            b@ == self@.subrange(offset as int, offset + length),
    {
        proof {
            use_type_invariant(self);
        }
        let b = Bitmap { bytes: self.bytes.clone(), offset: self.offset + offset, length };
        assert(b@ =~= self@.subrange(offset as int, offset + length));
        b
    }

    /// The number of elements that the mask marks as null.
    pub fn null_count(&self) -> (n: usize)
        ensures
            n == count_unset(self@),
    {
        proof {
            use_type_invariant(self);
        }
        let mut n: usize = 0;
        let mut i: usize = 0;
        while i < self.length
            invariant
                self.wf(),
                i <= self.length,
                n <= i,
                n == count_unset(self@.subrange(0, i as int)),
            decreases self.length - i,
        {
            let bit = self.get(i);
            assert(self@.subrange(0, i + 1).drop_last() =~= self@.subrange(0, i as int));
            if !bit {
                n += 1;
            }
            i += 1;
        }
        assert(self@.subrange(0, self.length as int) =~= self@);
        n
    }

    /// The mask that is set where both masks are set.
    pub fn and(&self, other: &Bitmap) -> (b: Bitmap)
        requires
            self@.len() == other@.len(),
        ensures
            b.wf(),
            b@.len() == self@.len(),
            forall|i: int| 0 <= i < self@.len() ==> b@[i] == (self@[i] && other@[i]),
    {
        proof {
            use_type_invariant(self);
            use_type_invariant(other);
        }
        let mut m = MutableBitmap::new();
        let mut i: usize = 0;
        while i < self.length
            invariant
                self.wf(),
                other.wf(),
                self@.len() == other@.len(),
                self@.len() == self.length,
                i <= self.length,
                m.wf(),
                m@.len() == i,
                forall|k: int| 0 <= k < i ==> m@[k] == (self@[k] && other@[k]),
            decreases self.length - i,
        {
            let bit = self.get(i) && other.get(i);
            m.push(bit);
            i += 1;
        }
        m.freeze()
    }

    /// Whether the two masks hold the same bits.
    pub fn equals(&self, other: &Bitmap) -> (r: bool)
        ensures
            r == (self@ == other@),
    {
        proof {
            use_type_invariant(self);
            use_type_invariant(other);
        }
        if self.length != other.length {
            return false;
        }
        let mut i: usize = 0;
        while i < self.length
            invariant
                self.wf(),
                other.wf(),
                self@.len() == other@.len(),
                self@.len() == self.length,
                i <= self.length,
                forall|k: int| 0 <= k < i ==> self@[k] == other@[k],
            decreases self.length - i,
        {
            if self.get(i) != other.get(i) {
                return false;
            }
            i += 1;
        }
        assert(self@ =~= other@);
        true
    }
}

impl Clone for Bitmap {
    /// Another window onto the same bytes.
    fn clone(&self) -> (b: Self)
        ensures
            b == *self,
    {
        proof {
            use_type_invariant(self);
        }
        Bitmap { bytes: self.bytes.clone(), offset: self.offset, length: self.length }
    }
}

} // verus!
