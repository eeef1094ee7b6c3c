//! Arrays: typed, nullable columns.
pub mod primitive;
pub mod union;

use crate::array::primitive::{PrimitiveArray, PrimitiveView};
use crate::bitmap::Bitmap;
use crate::array::union::{union_view, UnionArray, UnionView};
use crate::datatypes::{DataType, DataTypeView};
use crate::types::NativeType;
use vstd::prelude::*;
use vstd::std_specs::cmp::PartialEqSpecImpl;

verus! {

/// An array of any of the kinds that this crate knows.
#[derive(Debug)]
pub enum Array {
    Int8(PrimitiveArray<i8>),
    Int16(PrimitiveArray<i16>),
    Int32(PrimitiveArray<i32>),
    Int64(PrimitiveArray<i64>),
    UInt8(PrimitiveArray<u8>),
    UInt16(PrimitiveArray<u16>),
    UInt32(PrimitiveArray<u32>),
    UInt64(PrimitiveArray<u64>),
    Union(UnionArray),
}

/// The mathematical value of an [`Array`].
pub enum ArrayView {
    Int8(PrimitiveView<i8>),
    Int16(PrimitiveView<i16>),
    Int32(PrimitiveView<i32>),
    Int64(PrimitiveView<i64>),
    UInt8(PrimitiveView<u8>),
    UInt16(PrimitiveView<u16>),
    UInt32(PrimitiveView<u32>),
    UInt64(PrimitiveView<u64>),
    Union(UnionView),
}

/// The slots of a primitive array as mathematical integers.
pub open spec fn as_ints<T: NativeType>(slots: Seq<Option<T>>) -> Seq<Option<int>> {
    Seq::new(
        slots.len(),
        |i: int|
            match slots[i] {
                Some(v) => Some(v.to_int()),
                None => None,
            },
    )
}

/// The integer slots follow the slots, one by one.
pub proof fn lemma_as_ints<T: NativeType>(slots: Seq<Option<T>>)
    ensures
        as_ints(slots).len() == slots.len(),
        forall|i: int|
            0 <= i < slots.len() ==> (#[trigger] slots[i] matches Some(v) ==> as_ints(slots)[i]
                == Some(v.to_int())),
        forall|i: int|
            0 <= i < slots.len() ==> (#[trigger] slots[i] is None ==> as_ints(slots)[i] is None),
{
}

impl ArrayView {
    /// The logical type.
    pub open spec fn data_type(self) -> DataTypeView {
        match self {
            ArrayView::Int8(a) => a.data_type,
            ArrayView::Int16(a) => a.data_type,
            ArrayView::Int32(a) => a.data_type,
            ArrayView::Int64(a) => a.data_type,
            ArrayView::UInt8(a) => a.data_type,
            ArrayView::UInt16(a) => a.data_type,
            ArrayView::UInt32(a) => a.data_type,
            ArrayView::UInt64(a) => a.data_type,
            ArrayView::Union(u) => u.data_type,
        }
    }

    /// The number of slots.
    pub open spec fn len(self) -> nat {
        match self {
            ArrayView::Int8(a) => a.slots.len(),
            ArrayView::Int16(a) => a.slots.len(),
            ArrayView::Int32(a) => a.slots.len(),
            ArrayView::Int64(a) => a.slots.len(),
            ArrayView::UInt8(a) => a.slots.len(),
            ArrayView::UInt16(a) => a.slots.len(),
            ArrayView::UInt32(a) => a.slots.len(),
            ArrayView::UInt64(a) => a.slots.len(),
            ArrayView::Union(u) => u.types.len(),
        }
    }

    /// The number of leading slots that slicing has cut off.
    pub open spec fn offset(self) -> nat {
        match self {
            ArrayView::Union(u) => u.offset,
            _ => 0,
        }
    }

    /// The slots of a primitive array as mathematical integers; no slots for a union.
    pub open spec fn int_slots(self) -> Seq<Option<int>> {
        match self {
            ArrayView::Int8(a) => as_ints(a.slots),
            ArrayView::Int16(a) => as_ints(a.slots),
            ArrayView::Int32(a) => as_ints(a.slots),
            ArrayView::Int64(a) => as_ints(a.slots),
            ArrayView::UInt8(a) => as_ints(a.slots),
            ArrayView::UInt16(a) => as_ints(a.slots),
            ArrayView::UInt32(a) => as_ints(a.slots),
            ArrayView::UInt64(a) => as_ints(a.slots),
            ArrayView::Union(_) => Seq::empty(),
        }
    }
}

/// The mathematical value of an array.
pub open spec fn array_view(array: Array) -> ArrayView
    decreases array,
{
    match array {
        Array::Int8(a) => ArrayView::Int8(a@),
        Array::Int16(a) => ArrayView::Int16(a@),
        Array::Int32(a) => ArrayView::Int32(a@),
        Array::Int64(a) => ArrayView::Int64(a@),
        Array::UInt8(a) => ArrayView::UInt8(a@),
        Array::UInt16(a) => ArrayView::UInt16(a@),
        Array::UInt32(a) => ArrayView::UInt32(a@),
        Array::UInt64(a) => ArrayView::UInt64(a@),
        Array::Union(u) => ArrayView::Union(union_view(u)),
    }
}

/// Whether an array keeps the rules of its kind. Every array that exists at
/// run time does.
pub open spec fn array_wf(array: Array) -> bool
    decreases array,
{
    match array {
        Array::Int8(a) => a.wf(),
        Array::Int16(a) => a.wf(),
        Array::Int32(a) => a.wf(),
        Array::Int64(a) => a.wf(),
        Array::UInt8(a) => a.wf(),
        Array::UInt16(a) => a.wf(),
        Array::UInt32(a) => a.wf(),
        Array::UInt64(a) => a.wf(),
        Array::Union(u) => u.wf(),
    }
}

impl View for Array {
    type V = ArrayView;

    open spec fn view(&self) -> ArrayView {
        array_view(*self)
    }
}

impl Array {
    /// The array keeps the rules of its kind.
    pub open spec fn wf(&self) -> bool {
        array_wf(*self)
    }

    /// The logical type.
    pub fn data_type(&self) -> (d: &DataType)
        ensures
            self.wf(),
            d@ == self@.data_type(),
    {
        match self {
            Array::Int8(a) => a.data_type(),
            Array::Int16(a) => a.data_type(),
            Array::Int32(a) => a.data_type(),
            Array::Int64(a) => a.data_type(),
            Array::UInt8(a) => a.data_type(),
            Array::UInt16(a) => a.data_type(),
            Array::UInt32(a) => a.data_type(),
            Array::UInt64(a) => a.data_type(),
            Array::Union(u) => u.data_type(),
        }
    }

    /// The number of slots.
    pub fn len(&self) -> (n: usize)
        ensures
            self.wf(),
            n == self@.len(),
    {
        match self {
            Array::Int8(a) => a.len(),
            Array::Int16(a) => a.len(),
            Array::Int32(a) => a.len(),
            Array::Int64(a) => a.len(),
            Array::UInt8(a) => a.len(),
            Array::UInt16(a) => a.len(),
            Array::UInt32(a) => a.len(),
            Array::UInt64(a) => a.len(),
            Array::Union(u) => u.len(),
        }
    }
}

impl Array {
    /// The number of leading slots that slicing has cut off and that an
    /// importer of the exported array has to apply: the offset of a union
    /// array, and none for a primitive array, whose buffers are its windows.
    pub fn offset(&self) -> (offset: usize)
        ensures
            offset == self@.offset(),
    {
        match self {
            Array::Union(u) => u.offset(),
            _ => 0,
        }
    }

    /// The validity mask: that of a primitive array, if it has one. A union
    /// array has no mask of its own, as its children have theirs.
    pub open spec fn spec_validity(&self) -> Option<Bitmap> {
        match self {
            Array::Int8(a) => a.spec_validity(),
            Array::Int16(a) => a.spec_validity(),
            Array::Int32(a) => a.spec_validity(),
            Array::Int64(a) => a.spec_validity(),
            Array::UInt8(a) => a.spec_validity(),
            Array::UInt16(a) => a.spec_validity(),
            Array::UInt32(a) => a.spec_validity(),
            Array::UInt64(a) => a.spec_validity(),
            Array::Union(_) => None,
        }
    }

    /// The validity mask: that of a primitive array, if it has one. A union
    /// array has no mask of its own, as its children have theirs.
    pub fn validity(&self) -> (validity: &Option<Bitmap>)
        ensures
            *validity == self.spec_validity(),
    {
        match self {
            Array::Int8(a) => a.validity(),
            Array::Int16(a) => a.validity(),
            Array::Int32(a) => a.validity(),
            Array::Int64(a) => a.validity(),
            Array::UInt8(a) => a.validity(),
            Array::UInt16(a) => a.validity(),
            Array::UInt32(a) => a.validity(),
            Array::UInt64(a) => a.validity(),
            Array::Union(_) => &None,
        }
    }

    /// Whether the two arrays are of the same kind and equal: primitive
    /// arrays by logical type and slots, whatever lies under a null, and
    /// union arrays part by part.
    pub fn equals(&self, other: &Array) -> (b: bool)
        ensures
            b == (self@ == other@),
        decreases self,
    {
        match self {
            Array::Int8(a) => match other {
                Array::Int8(b) => a.equals(b),
                _ => false,
            },
            Array::Int16(a) => match other {
                Array::Int16(b) => a.equals(b),
                _ => false,
            },
            Array::Int32(a) => match other {
                Array::Int32(b) => a.equals(b),
                _ => false,
            },
            Array::Int64(a) => match other {
                Array::Int64(b) => a.equals(b),
                _ => false,
            },
            Array::UInt8(a) => match other {
                Array::UInt8(b) => a.equals(b),
                _ => false,
            },
            Array::UInt16(a) => match other {
                Array::UInt16(b) => a.equals(b),
                _ => false,
            },
            Array::UInt32(a) => match other {
                Array::UInt32(b) => a.equals(b),
                _ => false,
            },
            Array::UInt64(a) => match other {
                Array::UInt64(b) => a.equals(b),
                _ => false,
            },
            Array::Union(a) => match other {
                Array::Union(b) => a.equals(b),
                _ => false,
            },
        }
    }
}

impl PartialEq for Array {
    fn eq(&self, other: &Self) -> (b: bool) {
        self.equals(other)
    }
}

impl PartialEqSpecImpl for Array {
    open spec fn obeys_eq_spec() -> bool {
        true
    }

    open spec fn eq_spec(&self, other: &Self) -> bool {
        self@ == other@
    }
}

} // verus!
