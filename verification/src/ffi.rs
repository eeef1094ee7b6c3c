//! Foreign handles: arrays flattened into untyped buffers, child handles and
//! an offset, and the way back from a handle to an array.
use crate::array::primitive::ffi::{import_primitive, is_primitive_export};
use crate::array::primitive::{PrimitiveArray, PrimitiveView};
use crate::array::union::ffi::is_union_buffers;
use crate::array::union::{slots_fit, UnionArray, UnionView};
use crate::array::{Array, ArrayView};
use crate::bitmap::Bitmap;
use crate::buffer::Buffer;
use crate::datatypes::{DataTypeView, Field, FieldView, PrimitiveType};
use crate::error::{ArrowError, InterchangeError};
use crate::types::NativeType;
use vstd::prelude::*;

verus! {

/// One physical buffer of a foreign handle: a window onto shared memory together
/// with the width of its elements.
#[derive(Debug)]
pub enum RawBuffer {
    /// One bit for each element.
    Bits(Bitmap),
    Int8(Buffer<i8>),
    Int16(Buffer<i16>),
    Int32(Buffer<i32>),
    Int64(Buffer<i64>),
    UInt8(Buffer<u8>),
    UInt16(Buffer<u16>),
    UInt32(Buffer<u32>),
    UInt64(Buffer<u64>),
}

impl RawBuffer {
    /// The native type of the elements, where the buffer holds values and not bits.
    pub open spec fn primitive(self) -> Option<PrimitiveType> {
        match self {
            RawBuffer::Bits(_) => None,
            RawBuffer::Int8(_) => Some(PrimitiveType::Int8),
            RawBuffer::Int16(_) => Some(PrimitiveType::Int16),
            RawBuffer::Int32(_) => Some(PrimitiveType::Int32),
            RawBuffer::Int64(_) => Some(PrimitiveType::Int64),
            RawBuffer::UInt8(_) => Some(PrimitiveType::UInt8),
            RawBuffer::UInt16(_) => Some(PrimitiveType::UInt16),
            RawBuffer::UInt32(_) => Some(PrimitiveType::UInt32),
            RawBuffer::UInt64(_) => Some(PrimitiveType::UInt64),
        }
    }
}

/// A foreign handle: what crosses the boundary when an array is handed over.
/// The buffers stand in a fixed order that depends on the logical type, the
/// validity first, and a buffer that the layout does not use is absent. The
/// buffers are untouched by the offset: the `length` elements that the handle
/// describes start `offset` elements into each of them.
///
/// A handle comes from outside and promises nothing: importing it validates it.
#[derive(Debug)]
pub struct ForeignArray {
    /// The logical type of the array and the name under which it is handed over.
    pub field: Field,
    pub length: usize,
    pub offset: usize,
    pub buffers: Vec<Option<RawBuffer>>,
    pub children: Vec<ForeignArray>,
}

impl ForeignArray {
    /// Data buffer `index` of the handle, which follows the validity, as a
    /// buffer of `T`: absent, of another element type, or too short for the
    /// elements that the handle describes.
    pub open spec fn spec_buffer<T: NativeType>(&self, index: int) -> Result<
        Buffer<T>,
        InterchangeError,
    > {
        if !(0 <= index && index + 1 < self.buffers@.len()) {
            Err(InterchangeError::MissingBuffer)
        } else {
            match self.buffers@[index + 1] {
                None => Err(InterchangeError::MissingBuffer),
                Some(raw) => match T::of_raw(raw) {
                    None => Err(InterchangeError::WrongBufferType),
                    Some(buffer) => if buffer.spec_len() < self.offset + self.length {
                        Err(InterchangeError::BufferTooShort)
                    } else {
                        Ok(buffer)
                    },
                },
            }
        }
    }

    /// The validity of the handle, which is its first buffer: none where the
    /// buffer is absent, which means that no element is null.
    pub open spec fn spec_validity(&self) -> Result<Option<Bitmap>, InterchangeError> {
        if self.buffers@.len() == 0 {
            Err(InterchangeError::MissingBuffer)
        } else {
            match self.buffers@[0] {
                None => Ok(None),
                Some(RawBuffer::Bits(bitmap)) => if bitmap@.len() < self.offset + self.length {
                    Err(InterchangeError::BufferTooShort)
                } else {
                    Ok(Some(bitmap))
                },
                Some(_) => Err(InterchangeError::WrongBufferType),
            }
        }
    }

    /// Data buffer `index` of the handle, which follows the validity, as a
    /// buffer of `T`, whole and shared.
    pub fn buffer<T: NativeType>(&self, index: usize) -> (out: Result<Buffer<T>, ArrowError>)
        ensures
            match self.spec_buffer::<T>(index as int) {
                Ok(buffer) => out == Ok::<Buffer<T>, ArrowError>(buffer) && buffer.wf(),
                Err(kind) => out matches Err(error) && error == ArrowError::Ffi(kind),
            },
    {
        if index >= self.buffers.len() || index + 1 >= self.buffers.len() {
            return Err(ArrowError::Ffi(InterchangeError::MissingBuffer));
        }
        match &self.buffers[index + 1] {
            None => Err(ArrowError::Ffi(InterchangeError::MissingBuffer)),
            Some(raw) => match T::from_raw(raw) {
                None => Err(ArrowError::Ffi(InterchangeError::WrongBufferType)),
                Some(buffer) => {
                    let available = buffer.len();
                    match self.offset.checked_add(self.length) {
                        Some(needed) => if available < needed {
                            Err(ArrowError::Ffi(InterchangeError::BufferTooShort))
                        } else {
                            Ok(buffer)
                        },
                        None => Err(ArrowError::Ffi(InterchangeError::BufferTooShort)),
                    }
                },
            },
        }
    }

    /// The validity of the handle, whole and shared.
    pub fn validity(&self) -> (out: Result<Option<Bitmap>, ArrowError>)
        ensures
            match self.spec_validity() {
                Ok(validity) => out == Ok::<Option<Bitmap>, ArrowError>(validity) && (
                validity matches Some(bitmap) ==> bitmap.wf()),
                Err(kind) => out matches Err(error) && error == ArrowError::Ffi(kind),
            },
    {
        if self.buffers.len() == 0 {
            return Err(ArrowError::Ffi(InterchangeError::MissingBuffer));
        }
        match &self.buffers[0] {
            None => Ok(None),
            Some(RawBuffer::Bits(bitmap)) => {
                let available = bitmap.len();
                match self.offset.checked_add(self.length) {
                    Some(needed) => if available < needed {
                        Err(ArrowError::Ffi(InterchangeError::BufferTooShort))
                    } else {
                        Ok(Some(bitmap.clone()))
                    },
                    None => Err(ArrowError::Ffi(InterchangeError::BufferTooShort)),
                }
            },
            Some(_) => Err(ArrowError::Ffi(InterchangeError::WrongBufferType)),
        }
    }

    /// Child handle `index`.
    pub fn child(&self, index: usize) -> (out: Result<&ForeignArray, ArrowError>)
        ensures
            match out {
                Ok(child) => index < self.children@.len() && *child == self.children@[index as int],
                Err(error) => index >= self.children@.len() && error == ArrowError::Ffi(
                    InterchangeError::ChildCountMismatch,
                ),
            },
    {
        if index < self.children.len() {
            Ok(&self.children[index])
        } else {
            Err(ArrowError::Ffi(InterchangeError::ChildCountMismatch))
        }
    }
}

/// Whether the children of a sparse union all have one length, which covers
/// the `needed` slots of the union.
pub open spec fn sparse_lengths_fit(fields: Seq<ArrayView>, needed: int) -> bool {
    forall|i: int|
        0 <= i < fields.len() ==> needed <= (#[trigger] fields[i]).len() && fields[i].len()
            == fields[0].len()
}

/// The arrays that the first `n` child handles describe, each of the logical
/// type of the declared field at its place; the fault of the first that
/// describes none or another type.
pub open spec fn import_children(
    children: Vec<ForeignArray>,
    declared: Seq<FieldView>,
    n: nat,
) -> Result<Seq<ArrayView>, InterchangeError>
    decreases children, 0nat, n,
{
    if n == 0 {
        Ok(Seq::empty())
    } else if n > children@.len() {
        Err(InterchangeError::ChildCountMismatch)
    } else {
        match import_children(children, declared, (n - 1) as nat) {
            Err(kind) => Err(kind),
            Ok(first) => match import_view(children@[n - 1]) {
                Err(kind) => Err(kind),
                Ok(child) => if child.data_type() != declared[n - 1].data_type {
                    Err(InterchangeError::ChildTypeMismatch)
                } else {
                    Ok(first.push(child))
                },
            },
        }
    }
}

/// The union array that a handle describes, or what is wrong with the handle.
/// The type ids are the `length` elements that start `offset` elements into
/// the first data buffer. In the dense layout the offsets are the second data
/// buffer, whole; in the sparse layout there are none. The children are those
/// of the child handles, whole. The array remembers the offset. The handle is
/// at fault where a buffer is absent, of another element type or too short,
/// where the children are not those of the declared fields, where a child is
/// at fault, and where a slot names no row of a child.
pub open spec fn import_union(handle: ForeignArray) -> Result<UnionView, InterchangeError>
    decreases handle, 0nat, 0nat,
{
    match handle.field.data_type@ {
        DataTypeView::Union(declared, sparse) => match handle.spec_buffer::<i8>(0) {
            Err(kind) => Err(kind),
            Ok(types) => match (if sparse {
                Ok(None)
            } else {
                match handle.spec_buffer::<i32>(1) {
                    Err(kind) => Err(kind),
                    Ok(rows) => Ok(Some(rows@)),
                }
            }) {
                Err(kind) => Err(kind),
                Ok(offsets) => if handle.children@.len() != declared.len() {
                    Err(InterchangeError::ChildCountMismatch)
                } else {
                    match import_children(handle.children, declared, declared.len()) {
                        Err(kind) => Err(kind),
                        Ok(fields) => if sparse && !sparse_lengths_fit(
                            fields,
                            handle.offset + handle.length,
                        ) {
                            Err(InterchangeError::ChildLengthMismatch)
                        } else if !slots_fit(
                            types@.subrange(handle.offset as int, handle.offset + handle.length),
                            offsets,
                            fields,
                            handle.offset as nat,
                        ) {
                            Err(InterchangeError::SlotOutOfRange)
                        } else {
                            Ok(
                                UnionView {
                                    data_type: handle.field.data_type@,
                                    types: types@.subrange(
                                        handle.offset as int,
                                        handle.offset + handle.length,
                                    ),
                                    offsets,
                                    fields,
                                    offset: handle.offset as nat,
                                },
                            )
                        },
                    }
                },
            },
        },
        _ => Err(InterchangeError::UnexpectedType),
    }
}

/// The array that a handle describes, or what is wrong with the handle.
pub open spec fn import_view(handle: ForeignArray) -> Result<ArrayView, InterchangeError>
    decreases handle, 1nat, 0nat,
{
    match handle.field.data_type@.primitive() {
        Some(PrimitiveType::Int8) => match import_primitive::<i8>(handle) {
            Ok(a) => Ok(ArrayView::Int8(a)),
            Err(kind) => Err(kind),
        },
        Some(PrimitiveType::Int16) => match import_primitive::<i16>(handle) {
            Ok(a) => Ok(ArrayView::Int16(a)),
            Err(kind) => Err(kind),
        },
        Some(PrimitiveType::Int32) => match import_primitive::<i32>(handle) {
            Ok(a) => Ok(ArrayView::Int32(a)),
            Err(kind) => Err(kind),
        },
        Some(PrimitiveType::Int64) => match import_primitive::<i64>(handle) {
            Ok(a) => Ok(ArrayView::Int64(a)),
            Err(kind) => Err(kind),
        },
        Some(PrimitiveType::UInt8) => match import_primitive::<u8>(handle) {
            Ok(a) => Ok(ArrayView::UInt8(a)),
            Err(kind) => Err(kind),
        },
        Some(PrimitiveType::UInt16) => match import_primitive::<u16>(handle) {
            Ok(a) => Ok(ArrayView::UInt16(a)),
            Err(kind) => Err(kind),
        },
        Some(PrimitiveType::UInt32) => match import_primitive::<u32>(handle) {
            Ok(a) => Ok(ArrayView::UInt32(a)),
            Err(kind) => Err(kind),
        },
        Some(PrimitiveType::UInt64) => match import_primitive::<u64>(handle) {
            Ok(a) => Ok(ArrayView::UInt64(a)),
            Err(kind) => Err(kind),
        },
        None => match import_union(handle) {
            Ok(u) => Ok(ArrayView::Union(u)),
            Err(kind) => Err(kind),
        },
    }
}

/// Whether the outcome of an import is the one that the handle calls for: the
/// array that the handle describes, or the fault of the handle.
pub open spec fn is_import_of(out: Result<Array, ArrowError>, handle: ForeignArray) -> bool {
    match import_view(handle) {
        Ok(view) => out matches Ok(array) && array.wf() && array@ == view,
        Err(kind) => out matches Err(error) && error == ArrowError::Ffi(kind),
    }
}

/// Imports the array that a handle describes. The buffers of the array are
/// windows onto the buffers of the handle. A handle that is malformed or at
/// odds with its own description is refused as a whole.
pub fn try_from(handle: &ForeignArray) -> (out: Result<Array, ArrowError>)
    ensures
        is_import_of(out, *handle),
    decreases handle, 1nat,
{
    match handle.field.data_type.to_primitive() {
        Some(PrimitiveType::Int8) => match PrimitiveArray::<i8>::try_from_ffi(handle) {
            Ok(a) => Ok(Array::Int8(a)),
            Err(error) => Err(error),
        },
        Some(PrimitiveType::Int16) => match PrimitiveArray::<i16>::try_from_ffi(handle) {
            Ok(a) => Ok(Array::Int16(a)),
            Err(error) => Err(error),
        },
        Some(PrimitiveType::Int32) => match PrimitiveArray::<i32>::try_from_ffi(handle) {
            Ok(a) => Ok(Array::Int32(a)),
            Err(error) => Err(error),
        },
        Some(PrimitiveType::Int64) => match PrimitiveArray::<i64>::try_from_ffi(handle) {
            Ok(a) => Ok(Array::Int64(a)),
            Err(error) => Err(error),
        },
        Some(PrimitiveType::UInt8) => match PrimitiveArray::<u8>::try_from_ffi(handle) {
            Ok(a) => Ok(Array::UInt8(a)),
            Err(error) => Err(error),
        },
        Some(PrimitiveType::UInt16) => match PrimitiveArray::<u16>::try_from_ffi(handle) {
            Ok(a) => Ok(Array::UInt16(a)),
            Err(error) => Err(error),
        },
        Some(PrimitiveType::UInt32) => match PrimitiveArray::<u32>::try_from_ffi(handle) {
            Ok(a) => Ok(Array::UInt32(a)),
            Err(error) => Err(error),
        },
        Some(PrimitiveType::UInt64) => match PrimitiveArray::<u64>::try_from_ffi(handle) {
            Ok(a) => Ok(Array::UInt64(a)),
            Err(error) => Err(error),
        },
        None => match UnionArray::try_from_ffi(handle) {
            Ok(u) => Ok(Array::Union(u)),
            Err(error) => Err(error),
        },
    }
}

/// Whether a handle is what a union array exports: its logical type, length
/// and offset, its buffers, and for each child, in order, what the child exports.
pub open spec fn is_union_export(handle: ForeignArray, array: UnionArray) -> bool
    decreases handle, 0nat,
{
    &&& handle.field.data_type@ == array@.data_type
    &&& handle.length == array@.types.len()
    &&& handle.offset == array@.offset
    &&& is_union_buffers(handle.buffers@, array)
    &&& handle.children@.len() == array.spec_fields()@.len()
    &&& forall|i: int|
        0 <= i < handle.children@.len() ==> is_export(
            #[trigger] handle.children@[i],
            *array.spec_fields()@[i],
        )
}

/// Whether a handle is what an array exports.
pub open spec fn is_export(handle: ForeignArray, array: Array) -> bool
    decreases handle, 1nat,
{
    match array {
        Array::Int8(a) => is_primitive_export(handle, a),
        Array::Int16(a) => is_primitive_export(handle, a),
        Array::Int32(a) => is_primitive_export(handle, a),
        Array::Int64(a) => is_primitive_export(handle, a),
        Array::UInt8(a) => is_primitive_export(handle, a),
        Array::UInt16(a) => is_primitive_export(handle, a),
        Array::UInt32(a) => is_primitive_export(handle, a),
        Array::UInt64(a) => is_primitive_export(handle, a),
        Array::Union(u) => is_union_export(handle, u),
    }
}

/// Exports an array under the name and logical type of `field`. Nothing is
/// copied: the buffers of the handle are those of the array.
pub fn export_as(array: &Array, field: Field) -> (handle: ForeignArray)
    requires
        field.data_type@ == array@.data_type(),
    ensures
        is_export(handle, *array),
        handle.field@ == field@,
    decreases array, 1nat,
{
    match array {
        Array::Int8(a) => a.to_ffi(field),
        Array::Int16(a) => a.to_ffi(field),
        Array::Int32(a) => a.to_ffi(field),
        Array::Int64(a) => a.to_ffi(field),
        Array::UInt8(a) => a.to_ffi(field),
        Array::UInt16(a) => a.to_ffi(field),
        Array::UInt32(a) => a.to_ffi(field),
        Array::UInt64(a) => a.to_ffi(field),
        Array::Union(u) => u.to_ffi(field),
    }
}

/// Exports an array under an empty name. Importing the handle gives the
/// array back.
pub fn export(array: &Array) -> (handle: ForeignArray)
    ensures
        is_export(handle, *array),
        handle.field@ == (FieldView { name: ""@, data_type: array@.data_type(), nullable: true }),
        import_view(handle) == Ok::<ArrayView, InterchangeError>(array@),
{
    let field = Field::new("", array.data_type().clone(), true);
    let handle = export_as(array, field);
    proof {
        lemma_round_trip(*array, handle);
    }
    handle
}

/// Importing what a primitive array exports gives the array back.
pub proof fn lemma_primitive_round_trip<T: NativeType>(
    array: PrimitiveArray<T>,
    handle: ForeignArray,
)
    requires
        array.wf(),
        is_primitive_export(handle, array),
    ensures
        import_primitive::<T>(handle) == Ok::<PrimitiveView<T>, InterchangeError>(array@),
{
    T::lemma_raw(array.spec_values(), handle.buffers@[1].unwrap());
    let imported = import_primitive::<T>(handle);
    assert(imported is Ok);
    assert(imported.unwrap().slots =~= array@.slots);
}

/// Importing what the first `n` children of a union array export gives their
/// views back.
pub proof fn lemma_children_round_trip(array: UnionArray, handle: ForeignArray, n: nat)
    requires
        array.wf(),
        is_union_export(handle, array),
        n <= handle.children@.len(),
    ensures
        import_children(handle.children, array@.data_type.union_fields(), n) == Ok::<
            Seq<ArrayView>,
            InterchangeError,
        >(array@.fields.take(n as int)),
    decreases handle, 0nat, n,
{
    let declared = array@.data_type.union_fields();
    if n == 0 {
        assert(array@.fields.take(0) =~= Seq::<ArrayView>::empty());
    } else {
        lemma_children_round_trip(array, handle, (n - 1) as nat);
        let child = *array.spec_fields()@[n - 1];
        lemma_round_trip(child, handle.children@[n - 1]);
        assert(array@.fields[n - 1] == child@);
        assert(array@.fields.take(n as int) =~= array@.fields.take(n - 1).push(child@));
    }
}

/// Importing what a union array exports gives the array back, in the sparse
/// and in the dense layout and whatever its offset.
pub proof fn lemma_union_round_trip(array: UnionArray, handle: ForeignArray)
    requires
        array.wf(),
        is_union_export(handle, array),
    ensures
        import_union(handle) == Ok::<UnionView, InterchangeError>(array@),
    decreases handle, 0nat, handle.children@.len() + 1,
{
    let n = handle.children@.len();
    lemma_children_round_trip(array, handle, n);
    assert(array@.fields.take(n as int) =~= array@.fields);
    let types = handle.buffers@[1]->Some_0->Int8_0;
    assert(handle.spec_buffer::<i8>(0) == Ok::<Buffer<i8>, InterchangeError>(types));
    assert(types@.subrange(handle.offset as int, handle.offset + handle.length)
        =~= array@.types);
    let imported = import_union(handle);
    assert(imported is Ok);
    assert(imported.unwrap().types == array@.types);
}

/// Round-trip law: importing what an array exports gives an array that is
/// equal to it, and so does every further export and import.
pub proof fn lemma_round_trip(array: Array, handle: ForeignArray)
    requires
        array.wf(),
        is_export(handle, array),
    ensures
        import_view(handle) == Ok::<ArrayView, InterchangeError>(array@),
    decreases handle, 1nat, 0nat,
{
    match array {
        Array::Int8(a) => lemma_primitive_round_trip(a, handle),
        Array::Int16(a) => lemma_primitive_round_trip(a, handle),
        Array::Int32(a) => lemma_primitive_round_trip(a, handle),
        Array::Int64(a) => lemma_primitive_round_trip(a, handle),
        Array::UInt8(a) => lemma_primitive_round_trip(a, handle),
        Array::UInt16(a) => lemma_primitive_round_trip(a, handle),
        Array::UInt32(a) => lemma_primitive_round_trip(a, handle),
        Array::UInt64(a) => lemma_primitive_round_trip(a, handle),
        Array::Union(u) => lemma_union_round_trip(u, handle),
    }
}

/// Offset asymmetry law: of what a union array with an offset exports, only
/// the type ids change on the way back. The exported type ids start `offset`
/// slots before those of the array, and the import cuts these off again; the
/// offsets of the dense layout and the children come back as they went.
pub proof fn lemma_offset_asymmetry(array: UnionArray, handle: ForeignArray)
    requires
        array.wf(),
        is_union_export(handle, array),
    ensures
        match (handle.spec_buffer::<i8>(0), import_union(handle)) {
            (Ok(exported), Ok(imported)) => {
                &&& exported@.len() == array@.offset + array@.types.len()
                &&& imported.types == exported@.skip(array@.offset as int)
                &&& imported.offsets == array@.offsets
                &&& imported.fields == array@.fields
                &&& imported.offset == array@.offset
            },
            _ => false,
        },
{
    lemma_union_round_trip(array, handle);
    let exported = handle.buffers@[1]->Some_0->Int8_0;
    assert(handle.spec_buffer::<i8>(0) == Ok::<Buffer<i8>, InterchangeError>(exported));
    assert(exported@.skip(array@.offset as int) =~= exported@.subrange(
        handle.offset as int,
        handle.offset + handle.length,
    ));
}

} // verus!
