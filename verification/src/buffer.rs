//! Immutable, shared runs of fixed-width values.
use crate::types::NativeType;
use std::sync::Arc;
use vstd::prelude::*;

verus! {

/// A window onto a shared, immutable allocation of values. Slicing makes a
/// narrower window onto the same allocation and copies nothing.
#[derive(Debug)]
pub struct Buffer<T: Copy> {
    data: Arc<Vec<T>>,
    offset: usize,
    length: usize,
}

impl<T: Copy> View for Buffer<T> {
    type V = Seq<T>;

    /// The values inside the window.
    open spec fn view(&self) -> Seq<T> {
        self.backing().subrange(self.start() as int, (self.start() + self.spec_len()) as int)
    }
}

impl<T: Copy> Buffer<T> {
    /// The whole allocation that the window looks onto.
    pub closed spec fn backing(&self) -> Seq<T> {
        self.data@
    }

    /// The position in the allocation at which the window starts.
    pub closed spec fn start(&self) -> nat {
        self.offset as nat
    }

    /// The number of values inside the window.
    pub closed spec fn spec_len(&self) -> nat {
        self.length as nat
    }

    /// The window lies inside the allocation. Every buffer that exists at run
    /// time is well formed.
    #[verifier::type_invariant]
    pub open spec fn wf(&self) -> bool {
        self.start() + self.spec_len() <= self.backing().len()
    }

    /// The window is no wider than an index can count.
    pub proof fn lemma_bounds(&self)
        ensures
            self.start() <= usize::MAX,
            self.spec_len() <= usize::MAX,
    {
    }

    /// A buffer that owns the values of `values`.
    pub fn from_vec(values: Vec<T>) -> (b: Self)
        ensures
            b.wf(),
            b@ == values@,
            b.backing() == values@,
            b.start() == 0,
            b.spec_len() == values@.len(),
    {
        let length = values.len();
        let b = Buffer { data: Arc::new(values), offset: 0, length };
        assert(b@ =~= values@);
        b
    }

    /// A buffer that holds a copy of the values of `values`.
    pub fn from_slice(values: &[T]) -> (b: Self)
        ensures
            b.wf(),
            b@ == values@,
            b.start() == 0,
            b.spec_len() == values@.len(),
    {
        let mut copy: Vec<T> = Vec::new();
        let mut i: usize = 0;
        while i < values.len()
            invariant
                i <= values.len(),
                copy@ == values@.subrange(0, i as int),
            decreases values.len() - i,
        {
            copy.push(values[i]);
            i += 1;
        }
        assert(values@.subrange(0, values.len() as int) =~= values@);
        Self::from_vec(copy)
    }

    /// The number of values inside the window.
    pub fn len(&self) -> (n: usize)
        ensures
            self.wf(),
            n == self.spec_len(),
            n == self@.len(),
    {
        proof {
            use_type_invariant(self);
        }
        self.length
    }

    /// Whether the window is empty.
    pub fn is_empty(&self) -> (b: bool)
        ensures
            b == (self.spec_len() == 0),
    {
        self.length == 0
    }

    /// The value at position `index` of the window.
    pub fn get(&self, index: usize) -> (value: T)
        requires
            index < self.spec_len(),
        ensures
            value == self@[index as int],
    {
        proof {
            use_type_invariant(self);
        }
        let data: &Vec<T> = &self.data;
        assert(data@.len() == data.len());
        data[self.offset + index]
    }

    /// A copy of the values inside the window.
    pub fn to_vec(&self) -> (values: Vec<T>)
        ensures
            values@ == self@,
    {
        let len = self.len();
        let mut values: Vec<T> = Vec::new();
        let mut i: usize = 0;
        while i < len
            invariant
                self.wf(),
                len == self.spec_len(),
                len == self@.len(),
                i <= len,
                values@ == self@.subrange(0, i as int),
            decreases len - i,
        {
            values.push(self.get(i));
            i += 1;
        }
        assert(self@.subrange(0, len as int) =~= self@);
        values
    }

    /// The window of `length` values that starts `offset` values into this one,
    /// onto the same allocation.
    pub fn slice(&self, offset: usize, length: usize) -> (b: Self)
        requires
            offset + length <= self.spec_len(),
        ensures
            b.wf(),
            b@ == self@.subrange(offset as int, offset + length),
            b.backing() == self.backing(),
            b.start() == self.start() + offset,
            b.spec_len() == length,
    {
        proof {
            use_type_invariant(self);
            let data: Vec<T> = *self.data;
            assert(data@.len() == data.len());
        }
        let b = Buffer { data: self.data.clone(), offset: self.offset + offset, length };
        assert(b@ =~= self@.subrange(offset as int, offset + length));
        b
    }

    /// The window that starts `leading` values before this one and ends where
    /// this one ends, onto the same allocation: the inverse of slicing off
    /// `leading` values at the front.
    pub fn unsliced(&self, leading: usize) -> (b: Self)
        requires
            leading <= self.start(),
        ensures
            b.wf(),
            b.backing() == self.backing(),
            b.start() == self.start() - leading,
            b.spec_len() == self.spec_len() + leading,
            b@.subrange(leading as int, leading + self.spec_len()) == self@,
    {
        proof {
            use_type_invariant(self);
            let data: Vec<T> = *self.data;
            assert(data@.len() == data.len());
        }
        let b = Buffer {
            data: self.data.clone(),
            offset: self.offset - leading,
            length: self.length + leading,
        };
        assert(b@.subrange(leading as int, leading + self.spec_len()) =~= self@);
        b
    }
}

impl<T: NativeType> Buffer<T> {
    /// Whether the two buffers hold the same values.
    pub fn equals(&self, other: &Self) -> (b: bool)
        ensures
            b == (self@ == other@),
    {
        let len = self.len();
        if len != other.len() {
            return false;
        }
        let mut i: usize = 0;
        while i < len
            invariant
                self.wf(),
                other.wf(),
                len == self@.len(),
                len == other@.len(),
                len == self.spec_len(),
                len == other.spec_len(),
                i <= len,
                forall|k: int| 0 <= k < i ==> self@[k] == other@[k],
            decreases len - i,
        {
            if !self.get(i).is_same(other.get(i)) {
                return false;
            }
            i += 1;
        }
        assert(self@ =~= other@);
        true
    }
}

impl<T: Copy> Clone for Buffer<T> {
    /// Another window onto the same allocation.
    fn clone(&self) -> (b: Self)
        ensures
            b == *self,
    {
        proof {
            use_type_invariant(self);
        }
        Buffer { data: self.data.clone(), offset: self.offset, length: self.length }
    }
}

} // verus!
