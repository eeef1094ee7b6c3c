//! Interchange of union arrays through foreign handles.
use crate::array::union::{arrays_view, clone_arrays, slot_fits, values_of, UnionArray};
use crate::array::{array_wf, Array, ArrayView};
use crate::datatypes::{fields_view, lemma_union_view, DataType, Field, FieldView};
use crate::error::{ArrowError, InterchangeError};
use crate::ffi::{
    export_as, import_children, import_union, is_export, is_union_export, sparse_lengths_fit,
    try_from, ForeignArray, RawBuffer,
};
use std::sync::Arc;
use vstd::prelude::*;

verus! {

/// Whether the buffers are what a union array exports: no validity, as a
/// union has none of its own; then the type ids, widened again by the slots
/// that slicing has cut off, so that the offset of the array applies to them;
/// then, in the dense layout, the offsets as they are. All are shared and not
/// copied.
pub open spec fn is_union_buffers(buffers: Seq<Option<RawBuffer>>, array: UnionArray) -> bool {
    &&& buffers.len() == (if array.spec_offsets() is Some {
        3int
    } else {
        2int
    })
    &&& buffers[0] is None
    &&& buffers[1] matches Some(RawBuffer::Int8(types)) && types.wf() && types.backing()
        == array.spec_types().backing() && types.start() + array@.offset
        == array.spec_types().start() && types.spec_len() == array@.offset + array@.types.len()
    &&& array.spec_offsets() matches Some(rows) ==> buffers[2] == Some(RawBuffer::Int32(rows))
}

impl UnionArray {
    /// The buffers of the array in the order of a handle.
    pub fn buffers(&self) -> (buffers: Vec<Option<RawBuffer>>)
        ensures
            is_union_buffers(buffers@, *self),
    {
        proof {
            use_type_invariant(self);
        }
        let mut buffers: Vec<Option<RawBuffer>> = Vec::new();
        buffers.push(None);
        buffers.push(Some(RawBuffer::Int8(self.types.unsliced(self.offset))));
        if let Some(offsets) = &self.offsets {
            buffers.push(Some(RawBuffer::Int32(offsets.clone())));
        }
        buffers
    }

    /// The number of leading slots that slicing has cut off, which an
    /// importer applies to the type ids.
    pub fn offset(&self) -> (offset: usize)
        ensures
            self.wf(),
            offset == self@.offset,
    {
        proof {
            use_type_invariant(self);
        }
        self.offset
    }

    /// The child arrays, shared, in the order of the declared fields.
    pub fn children(&self) -> (children: Vec<Arc<Array>>)
        ensures
            children@ == self.spec_fields()@,
    {
        clone_arrays(&self.fields)
    }

    /// Exports the array under the name and logical type of `field`: its
    /// buffers, its offset, and every child exported under its declared field.
    pub fn to_ffi(&self, field: Field) -> (handle: ForeignArray)
        requires
            field.data_type@ == self@.data_type,
        ensures
            is_union_export(handle, *self),
            handle.field@ == field@,
        decreases self, 0nat,
    {
        proof {
            use_type_invariant(self);
            self.lemma_fields_view();
        }
        let mut children: Vec<ForeignArray> = Vec::new();
        match &self.data_type {
            DataType::Union(declared, sparse) => {
                proof {
                    lemma_union_view(*declared, *sparse);
                }
                let mut index: usize = 0;
                while index < self.fields.len()
                    invariant
                        self.wf(),
                        index <= self.fields@.len(),
                        self.fields@.len() == declared@.len(),
                        self@.fields == arrays_view(self.fields@),
                        self@.data_type.union_fields() == fields_view(*declared),
                        children@.len() == index,
                        forall|i: int|
                            0 <= i < index ==> is_export(
                                #[trigger] children@[i],
                                *self.fields@[i],
                            ),
                    decreases self.fields@.len() - index,
                {
                    assert(self@.fields[index as int].data_type() == fields_view(
                        *declared,
                    )[index as int].data_type);
                    let child = export_as(&self.fields[index], declared[index].clone());
                    children.push(child);
                    index += 1;
                }
            },
            _ => {},
        }
        ForeignArray {
            field,
            length: self.types.len(),
            offset: self.offset,
            buffers: self.buffers(),
            children,
        }
    }

    /// Imports the union array that a handle describes. Of the buffers only
    /// the type ids are narrowed by the offset of the handle; the offsets of
    /// the dense layout and the children are taken whole.
    #[verifier::loop_isolation(false)]
    #[verifier::rlimit(40)]
    pub fn try_from_ffi(array: &ForeignArray) -> (out: Result<Self, ArrowError>)
        ensures
            match import_union(*array) {
                Ok(view) => out matches Ok(union) && union.wf() && union@ == view,
                Err(kind) => out matches Err(error) && error == ArrowError::Ffi(kind),
            },
        decreases array, 0nat,
    {
        let (declared, sparse) = match &array.field.data_type {
            DataType::Union(declared, sparse) => {
                proof {
                    lemma_union_view(*declared, *sparse);
                }
                (declared, *sparse)
            },
            _ => {
                return Err(ArrowError::Ffi(InterchangeError::UnexpectedType));
            },
        };
        let ghost declared_view = fields_view(*declared);
        let data_type = array.field.data_type.clone();
        let types = match array.buffer::<i8>(0) {
            Ok(types) => types,
            Err(error) => {
                return Err(error);
            },
        };
        let offsets = if sparse {
            None
        } else {
            match array.buffer::<i32>(1) {
                Ok(rows) => Some(rows),
                Err(error) => {
                    return Err(error);
                },
            }
        };
        let length = array.length;
        let offset = array.offset;
        proof {
            types.lemma_bounds();
        }
        if array.children.len() != declared.len() {
            return Err(ArrowError::Ffi(InterchangeError::ChildCountMismatch));
        }
        let mut fields: Vec<Arc<Array>> = Vec::new();
        let mut index: usize = 0;
        assert(arrays_view(fields@) =~= Seq::<ArrayView>::empty());
        while index < declared.len()
            invariant
                index <= declared.len(),
                array.children@.len() == declared@.len(),
                declared_view == fields_view(*declared),
                fields@.len() == index,
                forall|i: int| 0 <= i < index ==> array_wf(*#[trigger] fields@[i]),
                forall|i: int|
                    0 <= i < index ==> (#[trigger] arrays_view(fields@)[i]).data_type()
                        == declared_view[i].data_type,
                import_children(array.children, declared_view, index as nat) == Ok::<
                    Seq<ArrayView>,
                    InterchangeError,
                >(arrays_view(fields@)),
            decreases declared.len() - index,
        {
            let ghost before = arrays_view(fields@);
            let handle = match array.child(index) {
                Ok(handle) => handle,
                Err(error) => {
                    return Err(error);
                },
            };
            let child = match try_from(handle) {
                Ok(child) => child,
                Err(error) => {
                    proof {
                        lemma_children_fault(
                            array.children,
                            declared_view,
                            (index + 1) as nat,
                            declared@.len() as nat,
                        );
                    }
                    return Err(error);
                },
            };
            if !child.data_type().equals(&declared[index].data_type) {
                proof {
                    lemma_children_fault(
                        array.children,
                        declared_view,
                        (index + 1) as nat,
                        declared@.len() as nat,
                    );
                }
                return Err(ArrowError::Ffi(InterchangeError::ChildTypeMismatch));
            }
            fields.push(Arc::new(child));
            index += 1;
            proof {
                assert(arrays_view(fields@) =~= before.push(child@));
            }
        }
        let ghost views = arrays_view(fields@);
        if sparse {
            let needed = offset + length;
            let mut index: usize = 0;
            while index < fields.len()
                invariant
                    index <= fields.len(),
                    views == arrays_view(fields@),
                    needed == offset + length,
                    forall|i: int| 0 <= i < fields@.len() ==> array_wf(*#[trigger] fields@[i]),
                    forall|i: int|
                        0 <= i < index ==> needed <= (#[trigger] views[i]).len() && views[i].len()
                            == views[0].len(),
                decreases fields.len() - index,
            {
                let child_length = fields[index].len();
                let first_length = fields[0].len();
                assert(views[index as int] == fields@[index as int]@);
                assert(views[0] == fields@[0]@);
                if child_length < needed || child_length != first_length {
                    assert(!sparse_lengths_fit(views, offset + length));
                    return Err(ArrowError::Ffi(InterchangeError::ChildLengthMismatch));
                }
                index += 1;
            }
        }
        let types = types.slice(offset, length);
        let ghost rows = values_of(offsets);
        let mut slot: usize = 0;
        while slot < length
            invariant
                slot <= length,
                views == arrays_view(fields@),
                rows == values_of(offsets),
                forall|i: int|
                    0 <= i < slot ==> #[trigger] slot_fits(types@, rows, views, offset as nat, i),
            decreases length - slot,
        {
            let type_id = types.get(slot);
            let fits = type_id >= 0 && (type_id as usize) < fields.len() && match &offsets {
                Some(rows) => {
                    let row = rows.get(offset + slot);
                    assert(views[type_id as int] == fields@[type_id as int]@);
                    row >= 0 && (row as usize) < fields[type_id as usize].len()
                },
                None => {
                    assert(views[type_id as int].len() >= offset + length);
                    true
                },
            };
            if !fits {
                assert(!slot_fits(types@, rows, views, offset as nat, slot as int));
                return Err(ArrowError::Ffi(InterchangeError::SlotOutOfRange));
            }
            slot += 1;
        }
        Ok(UnionArray::from_parts(data_type, types, fields, offsets, offset))
    }
}

/// Once the first `n` child handles are refused, so are the first `m`, for
/// the same fault.
pub proof fn lemma_children_fault(
    children: Vec<ForeignArray>,
    declared: Seq<FieldView>,
    n: nat,
    m: nat,
)
    requires
        n <= m <= children@.len(),
        import_children(children, declared, n) is Err,
    ensures
        import_children(children, declared, m) == import_children(children, declared, n),
    decreases m,
{
    if n < m {
        lemma_children_fault(children, declared, n, (m - 1) as nat);
    }
}

} // verus!
