//! Arrays of fixed-width values with an optional validity mask.
pub mod ffi;

use crate::bitmap::{Bitmap, MutableBitmap};
use crate::buffer::Buffer;
use crate::datatypes::{DataType, DataTypeView};
use crate::types::NativeType;
use vstd::prelude::*;
use vstd::std_specs::cmp::PartialEqSpecImpl;
use vstd::std_specs::convert::FromSpecImpl;

verus! {

/// A column of values of the native type `T`, some of which may be null.
#[derive(Debug)]
pub struct PrimitiveArray<T: NativeType> {
    data_type: DataType,
    values: Buffer<T>,
    validity: Option<Bitmap>,
}

/// A column of `i8` values.
pub type Int8Array = PrimitiveArray<i8>;

/// A column of `i16` values.
pub type Int16Array = PrimitiveArray<i16>;

/// A column of `i32` values.
pub type Int32Array = PrimitiveArray<i32>;

/// A column of `i64` values.
pub type Int64Array = PrimitiveArray<i64>;

/// A column of `u8` values.
pub type UInt8Array = PrimitiveArray<u8>;

/// A column of `u16` values.
pub type UInt16Array = PrimitiveArray<u16>;

/// A column of `u32` values.
pub type UInt32Array = PrimitiveArray<u32>;

/// A column of `u64` values.
pub type UInt64Array = PrimitiveArray<u64>;

/// The mathematical value of a primitive array: its logical type and, slot by
/// slot, the value or null. What the buffer holds under a null is no part of it.
pub struct PrimitiveView<T> {
    pub data_type: DataTypeView,
    pub slots: Seq<Option<T>>,
}

/// The slots that a buffer of values and an optional validity mask stand for.
pub open spec fn slots_of<T>(values: Seq<T>, validity: Option<Seq<bool>>) -> Seq<Option<T>> {
    Seq::new(
        values.len(),
        |i: int|
            match validity {
                Some(bits) => if bits[i] {
                    Some(values[i])
                } else {
                    None
                },
                None => Some(values[i]),
            },
    )
}

/// The number of nulls among the slots.
pub open spec fn count_nulls<T>(slots: Seq<Option<T>>) -> nat
    decreases slots.len(),
{
    if slots.len() == 0 {
        0
    } else {
        count_nulls(slots.drop_last()) + if slots.last().is_none() {
            1nat
        } else {
            0nat
        }
    }
}

/// The bits of an optional mask.
pub open spec fn bits_of(validity: Option<Bitmap>) -> Option<Seq<bool>> {
    match validity {
        Some(bitmap) => Some(bitmap@),
        None => None,
    }
}

impl<T: NativeType> View for PrimitiveArray<T> {
    type V = PrimitiveView<T>;

    open spec fn view(&self) -> PrimitiveView<T> {
        PrimitiveView {
            data_type: self.spec_data_type()@,
            slots: slots_of(self.spec_values()@, bits_of(self.spec_validity())),
        }
    }
}

impl<T: NativeType> PrimitiveArray<T> {
    /// The logical type.
    pub closed spec fn spec_data_type(&self) -> DataType {
        self.data_type
    }

    /// The buffer of values, which holds a value under a null too.
    pub closed spec fn spec_values(&self) -> Buffer<T> {
        self.values
    }

    /// The validity mask; none where no element is null.
    pub closed spec fn spec_validity(&self) -> Option<Bitmap> {
        self.validity
    }

    /// The logical type is stored as `T`, and the mask, if there is one, has one
    /// bit for each value. Every array that exists at run time is well formed.
    #[verifier::type_invariant]
    pub open spec fn wf(&self) -> bool {
        &&& self.spec_data_type()@.primitive() == Some(T::primitive())
        &&& self.spec_values().wf()
        &&& self.spec_validity() matches Some(bitmap) ==> bitmap.wf() && bitmap@.len()
            == self.spec_values()@.len()
    }

    /// The array of the given parts.
    pub fn from_data(data_type: DataType, values: Buffer<T>, validity: Option<Bitmap>) -> (a: Self)
        requires
            data_type@.primitive() == Some(T::primitive()),
            validity matches Some(bitmap) ==> bitmap@.len() == values@.len(),
        ensures
            a.wf(),
            a.spec_data_type() == data_type,
            a.spec_values() == values,
            a.spec_validity() == validity,
    {
        proof {
            use_type_invariant(&values);
            if let Some(bitmap) = &validity {
                use_type_invariant(bitmap);
            }
        }
        PrimitiveArray { data_type, values, validity }
    }

    /// The array of the given values, none of them null, in the natural logical type of `T`.
    pub fn from_slice(values: &[T]) -> (a: Self)
        ensures
            a.wf(),
            a@.data_type == T::primitive().natural(),
            a@.slots == Seq::new(values@.len(), |i: int| Some(values@[i])),
    {
        let a = PrimitiveArray {
            data_type: T::data_type(),
            values: Buffer::from_slice(values),
            validity: None,
        };
        assert(a@.slots =~= Seq::new(values@.len(), |i: int| Some(values@[i])));
        a
    }

    /// The array of the given slots, in the natural logical type of `T`.
    pub fn from_options(slots: &[Option<T>]) -> (a: Self)
        ensures
            a.wf(),
            a@.data_type == T::primitive().natural(),
            a@.slots == slots@,
    {
        let mut values: Vec<T> = Vec::new();
        let mut validity = MutableBitmap::new();
        let mut i: usize = 0;
        while i < slots.len()
            invariant
                i <= slots.len(),
                validity.wf(),
                values@.len() == i,
                validity@.len() == i,
                forall|k: int|
                    0 <= k < i ==> (match #[trigger] slots@[k] {
                        Some(v) => validity@[k] && values@[k] == v,
                        None => !validity@[k],
                    }),
            decreases slots.len() - i,
        {
            match slots[i] {
                Some(v) => {
                    values.push(v);
                    validity.push(true);
                },
                None => {
                    values.push(T::zero());
                    validity.push(false);
                },
            }
            i += 1;
        }
        let a = PrimitiveArray {
            data_type: T::data_type(),
            values: Buffer::from_vec(values),
            validity: Some(validity.freeze()),
        };
        assert(a@.slots =~= slots@);
        a
    }

    /// The number of slots.
    pub fn len(&self) -> (n: usize)
        ensures
            self.wf(),
            n == self@.slots.len(),
    {
        proof {
            use_type_invariant(self);
        }
        self.values.len()
    }

    /// The logical type.
    pub fn data_type(&self) -> (d: &DataType)
        ensures
            self.wf(),
            *d == self.spec_data_type(),
    {
        proof {
            use_type_invariant(self);
        }
        &self.data_type
    }

    /// The buffer of values, which holds a value under a null too.
    pub fn values(&self) -> (b: &Buffer<T>)
        ensures
            self.wf(),
            *b == self.spec_values(),
    {
        proof {
            use_type_invariant(self);
        }
        &self.values
    }

    /// The validity mask; none where no element is null.
    pub fn validity(&self) -> (v: &Option<Bitmap>)
        ensures
            self.wf(),
            *v == self.spec_validity(),
    {
        proof {
            use_type_invariant(self);
        }
        &self.validity
    }

    /// Whether the element at `index` is not null.
    pub fn is_valid(&self, index: usize) -> (b: bool)
        requires
            index < self@.slots.len(),
        ensures
            b == self@.slots[index as int].is_some(),
    {
        proof {
            use_type_invariant(self);
        }
        match &self.validity {
            Some(bitmap) => bitmap.get(index),
            None => true,
        }
    }

    /// The element at `index`, or `None` if it is null.
    pub fn get(&self, index: usize) -> (slot: Option<T>)
        requires
            index < self@.slots.len(),
        ensures
            slot == self@.slots[index as int],
    {
        proof {
            use_type_invariant(self);
        }
        if self.is_valid(index) {
            Some(self.values.get(index))
        } else {
            None
        }
    }

    /// The number of null elements.
    pub fn null_count(&self) -> (n: usize)
        ensures
            n == count_nulls(self@.slots),
    {
        proof {
            use_type_invariant(self);
        }
        let mut n: usize = 0;
        let mut i: usize = 0;
        let len = self.len();
        while i < len
            invariant
                self.wf(),
                len == self@.slots.len(),
                i <= len,
                n <= i,
                n == count_nulls(self@.slots.subrange(0, i as int)),
            decreases len - i,
        {
            let valid = self.is_valid(i);
            assert(self@.slots.subrange(0, i + 1).drop_last() =~= self@.slots.subrange(0, i as int));
            if !valid {
                n += 1;
            }
            i += 1;
        }
        assert(self@.slots.subrange(0, len as int) =~= self@.slots);
        n
    }

    /// The `length` elements that start at `offset`, onto the same buffers.
    pub fn slice(&self, offset: usize, length: usize) -> (a: Self)
        requires
            offset + length <= self@.slots.len(),
        ensures
            a.wf(),
            a@.data_type == self@.data_type,
            a@.slots == self@.slots.subrange(offset as int, offset + length),
    {
        proof {
            use_type_invariant(self);
        }
        let validity = match &self.validity {
            Some(bitmap) => Some(bitmap.slice(offset, length)),
            None => None,
        };
        let a = PrimitiveArray {
            data_type: self.data_type.clone(),
            values: self.values.slice(offset, length),
            validity,
        };
        assert(a@.slots =~= self@.slots.subrange(offset as int, offset + length));
        a
    }

    /// The same elements under another logical type that `T` stores.
    pub fn to(self, data_type: DataType) -> (a: Self)
        requires
            data_type@.primitive() == Some(T::primitive()),
        ensures
            a.wf(),
            a@.data_type == data_type@,
            a@.slots == self@.slots,
    {
        proof {
            use_type_invariant(&self);
        }
        PrimitiveArray { data_type, values: self.values, validity: self.validity }
    }

    /// Whether the two arrays have the same logical type and, slot by slot, the
    /// same value or both a null.
    pub fn equals(&self, other: &Self) -> (b: bool)
        ensures
            b == (self@ == other@),
    {
        proof {
            use_type_invariant(self);
            use_type_invariant(other);
        }
        if !self.data_type.equals(&other.data_type) {
            return false;
        }
        if self.len() != other.len() {
            return false;
        }
        let len = self.len();
        let mut i: usize = 0;
        while i < len
            invariant
                self.wf(),
                other.wf(),
                len == self@.slots.len(),
                len == other@.slots.len(),
                i <= len,
                forall|k: int| 0 <= k < i ==> self@.slots[k] == other@.slots[k],
            decreases len - i,
        {
            let same = match self.get(i) {
                Some(a) => match other.get(i) {
                    Some(b) => a.is_same(b),
                    None => false,
                },
                None => other.get(i).is_none(),
            };
            if !same {
                return false;
            }
            i += 1;
        }
        assert(self@.slots =~= other@.slots);
        true
    }
}

impl<T: NativeType> Clone for PrimitiveArray<T> {
    /// Another array onto the same buffers.
    fn clone(&self) -> (a: Self)
        ensures
            a@ == self@,
            a.wf(),
            a.spec_values() == self.spec_values(),
            a.spec_validity() == self.spec_validity(),
    {
        proof {
            use_type_invariant(self);
        }
        PrimitiveArray {
            data_type: self.data_type.clone(),
            values: self.values.clone(),
            validity: match &self.validity {
                Some(bitmap) => Some(bitmap.clone()),
                None => None,
            },
        }
    }
}

impl<T: NativeType> PartialEq for PrimitiveArray<T> {
    fn eq(&self, other: &Self) -> (b: bool) {
        self.equals(other)
    }
}

impl<T: NativeType> PartialEqSpecImpl for PrimitiveArray<T> {
    open spec fn obeys_eq_spec() -> bool {
        true
    }

    /// Two arrays are equal if they have the same logical type and, slot by
    /// slot, the same value or both a null.
    open spec fn eq_spec(&self, other: &Self) -> bool {
        self@ == other@
    }
}

impl<T: NativeType, const N: usize> From<&[Option<T>; N]> for PrimitiveArray<T> {
    /// The array of the given slots, in the natural logical type of `T`.
    fn from(slots: &[Option<T>; N]) -> (a: Self)
        ensures
            a.wf(),
            a@.data_type == T::primitive().natural(),
            a@.slots == slots@,
    {
        Self::from_options(slots.as_slice())
    }
}

impl<T: NativeType, const N: usize> FromSpecImpl<&[Option<T>; N]> for PrimitiveArray<T> {
    open spec fn obeys_from_spec() -> bool {
        false
    }

    open spec fn from_spec(slots: &[Option<T>; N]) -> Self {
        arbitrary()
    }
}

} // verus!
