//! Interchange of primitive arrays through foreign handles.
use crate::array::primitive::{slots_of, PrimitiveArray, PrimitiveView};
use crate::bitmap::Bitmap;
use crate::datatypes::Field;
use crate::error::{ArrowError, InterchangeError};
use crate::ffi::{ForeignArray, RawBuffer};
use crate::types::NativeType;
use vstd::prelude::*;

verus! {

/// The validity of a primitive array as the first buffer of a handle.
pub open spec fn raw_validity(validity: Option<Bitmap>) -> Option<RawBuffer> {
    match validity {
        Some(bitmap) => Some(RawBuffer::Bits(bitmap)),
        None => None,
    }
}

/// The bits of an optional mask from `offset` on, `length` of them.
pub open spec fn bits_window(validity: Option<Bitmap>, offset: int, length: int) -> Option<
    Seq<bool>,
> {
    match validity {
        Some(bitmap) => Some(bitmap@.subrange(offset, offset + length)),
        None => None,
    }
}

/// The primitive array of `T` that a handle describes, or what is wrong with
/// the handle. The values are the `length` elements that start `offset`
/// elements into the first data buffer, and the validity is cut likewise.
pub open spec fn import_primitive<T: NativeType>(handle: ForeignArray) -> Result<
    PrimitiveView<T>,
    InterchangeError,
> {
    if handle.field.data_type@.primitive() != Some(T::primitive()) {
        Err(InterchangeError::UnexpectedType)
    } else {
        match handle.spec_validity() {
            Err(kind) => Err(kind),
            Ok(validity) => match handle.spec_buffer::<T>(0) {
                Err(kind) => Err(kind),
                Ok(values) => Ok(
                    PrimitiveView {
                        data_type: handle.field.data_type@,
                        slots: slots_of(
                            values@.subrange(handle.offset as int, handle.offset + handle.length),
                            bits_window(validity, handle.offset as int, handle.length as int),
                        ),
                    },
                ),
            },
        }
    }
}

/// Whether a handle is what a primitive array exports: its logical type and
/// length, its validity and its values as the two buffers, shared and not
/// copied, no offset left to apply, and no children.
pub open spec fn is_primitive_export<T: NativeType>(
    handle: ForeignArray,
    array: PrimitiveArray<T>,
) -> bool {
    &&& handle.field.data_type@ == array@.data_type
    &&& handle.length == array@.slots.len()
    &&& handle.offset == 0
    &&& handle.buffers@.len() == 2
    &&& handle.buffers@[0] == raw_validity(array.spec_validity())
    &&& handle.buffers@[1] == Some(T::raw_of(array.spec_values()))
    &&& handle.children@.len() == 0
}

impl<T: NativeType> PrimitiveArray<T> {
    /// The buffers of the array in the order of a handle: the validity,
    /// absent where no element is null, then the values. Both are shared.
    pub fn buffers(&self) -> (buffers: Vec<Option<RawBuffer>>)
        ensures
            buffers@.len() == 2,
            buffers@[0] == raw_validity(self.spec_validity()),
            buffers@[1] == Some(T::raw_of(self.spec_values())),
    {
        let validity = match self.validity() {
            Some(bitmap) => Some(RawBuffer::Bits(bitmap.clone())),
            None => None,
        };
        let mut buffers: Vec<Option<RawBuffer>> = Vec::new();
        buffers.push(validity);
        buffers.push(Some(T::into_raw(self.values().clone())));
        buffers
    }

    /// The offset that is left for an importer to apply: none, as the
    /// exported buffers are the windows of the array.
    pub fn offset(&self) -> (offset: usize)
        ensures
            offset == 0,
    {
        0
    }

    /// Exports the array under the name and logical type of `field`.
    pub fn to_ffi(&self, field: Field) -> (handle: ForeignArray)
        requires
            field.data_type@ == self@.data_type,
        ensures
            is_primitive_export(handle, *self),
            handle.field@ == field@,
    {
        ForeignArray {
            field,
            length: self.len(),
            offset: self.offset(),
            buffers: self.buffers(),
            children: Vec::new(),
        }
    }

    /// Imports the primitive array that a handle describes. The buffers of
    /// the array are windows onto the buffers of the handle.
    pub fn try_from_ffi(handle: &ForeignArray) -> (out: Result<Self, ArrowError>)
        ensures
            match import_primitive::<T>(*handle) {
                Ok(view) => out matches Ok(array) && array.wf() && array@ == view,
                Err(kind) => out matches Err(error) && error == ArrowError::Ffi(kind),
            },
    {
        let stored = match handle.field.data_type.to_primitive() {
            Some(primitive) => primitive == T::primitive_type(),
            None => false,
        };
        if !stored {
            return Err(ArrowError::Ffi(InterchangeError::UnexpectedType));
        }
        let validity = match handle.validity() {
            Ok(validity) => validity,
            Err(error) => {
                return Err(error);
            },
        };
        let values = match handle.buffer::<T>(0) {
            Ok(values) => values,
            Err(error) => {
                return Err(error);
            },
        };
        let validity = match validity {
            Some(bitmap) => Some(bitmap.slice(handle.offset, handle.length)),
            None => None,
        };
        let values = values.slice(handle.offset, handle.length);
        let array = PrimitiveArray::from_data(handle.field.data_type.clone(), values, validity);
        assert(array@.slots =~= import_primitive::<T>(*handle).unwrap().slots);
        Ok(array)
    }
}

} // verus!
