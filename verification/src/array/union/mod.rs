//! Union arrays: every slot holds a value of one of several child arrays.
pub mod ffi;

use crate::array::{array_view, array_wf, Array, ArrayView};
use crate::buffer::Buffer;
use crate::datatypes::{DataType, DataTypeView};
use std::sync::Arc;
use vstd::prelude::*;
use vstd::std_specs::cmp::PartialEqSpecImpl;

verus! {

/// A column in which every slot names, by a type id, the child array that
/// holds its value: the type id is the place of the child among the declared
/// fields. In the sparse layout slot `i` of the unsliced union is row `i` of
/// the child; in the dense layout a buffer of offsets gives the row.
///
/// Slicing narrows the buffer of type ids only: the offsets and the children
/// stay as they are, and `offset` counts the leading slots that were cut off.
/// So slot `i` of a sliced union has the type id at `i`, and its row is found
/// at `offset + i`.
#[derive(Debug)]
pub struct UnionArray {
    data_type: DataType,
    types: Buffer<i8>,
    offsets: Option<Buffer<i32>>,
    fields: Vec<Arc<Array>>,
    offset: usize,
}

/// The mathematical value of a [`UnionArray`].
pub struct UnionView {
    pub data_type: DataTypeView,
    /// The type id of every slot.
    pub types: Seq<i8>,
    /// In the dense layout, the row in its child of every slot, counted before any slicing.
    pub offsets: Option<Seq<i32>>,
    /// The child arrays, in the order of the declared fields.
    pub fields: Seq<ArrayView>,
    /// The number of leading slots that slicing has cut off.
    pub offset: nat,
}

/// The mathematical values of a list of shared arrays.
pub open spec fn arrays_view(arrays: Seq<Arc<Array>>) -> Seq<ArrayView> {
    Seq::new(arrays.len(), |i: int| array_view(*arrays[i]))
}

/// The values of an optional buffer.
pub open spec fn values_of(buffer: Option<Buffer<i32>>) -> Option<Seq<i32>> {
    match buffer {
        Some(b) => Some(b@),
        None => None,
    }
}

/// The mathematical value of a union array.
pub open spec fn union_view(array: UnionArray) -> UnionView
    decreases array,
{
    UnionView {
        data_type: array.spec_data_type()@,
        types: array.spec_types()@,
        offsets: values_of(array.spec_offsets()),
        fields: Seq::new(
            array.spec_fields()@.len(),
            |i: int|
                if 0 <= i < array.spec_fields()@.len() {
                    array_view(*array.spec_fields()@[i])
                } else {
                    arbitrary()
                },
        ),
        offset: array.spec_offset(),
    }
}

/// The row in its child of slot `i` of a union array.
pub open spec fn slot_row(offsets: Option<Seq<i32>>, offset: nat, i: int) -> int {
    match offsets {
        Some(rows) => rows[offset + i] as int,
        None => offset + i,
    }
}

/// Whether slot `i` names a child that exists and a row that the child has.
pub open spec fn slot_fits(
    types: Seq<i8>,
    offsets: Option<Seq<i32>>,
    fields: Seq<ArrayView>,
    offset: nat,
    i: int,
) -> bool {
    &&& 0 <= types[i] < fields.len()
    &&& 0 <= slot_row(offsets, offset, i) < fields[types[i] as int].len()
}

/// Whether every slot names a child that exists and a row that the child has.
pub open spec fn slots_fit(
    types: Seq<i8>,
    offsets: Option<Seq<i32>>,
    fields: Seq<ArrayView>,
    offset: nat,
) -> bool {
    forall|i: int| 0 <= i < types.len() ==> #[trigger] slot_fits(types, offsets, fields, offset, i)
}

/// Whether the parts make a union array: the logical type is a union whose
/// declared fields are the types of the children, in order; the type ids can
/// be widened again by `offset` slots; in the sparse layout there are no
/// offsets and the children are all of one length, which covers the slots
/// before slicing; in the dense layout the offsets cover them; and every slot
/// names a child that exists and a row that the child has.
pub open spec fn union_parts_wf(
    data_type: DataTypeView,
    types: Buffer<i8>,
    offsets: Option<Buffer<i32>>,
    fields: Seq<ArrayView>,
    offset: nat,
) -> bool {
    &&& data_type matches DataTypeView::Union(declared, sparse)
    &&& types.wf()
    &&& offset <= types.start()
    &&& offset + types@.len() <= usize::MAX
    &&& fields.len() == declared.len()
    &&& forall|i: int| 0 <= i < fields.len() ==> (#[trigger] fields[i]).data_type() == declared[i].data_type
    &&& if sparse {
        &&& offsets is None
        &&& forall|i: int| 0 <= i < fields.len() ==> offset + types@.len() <= (#[trigger] fields[i]).len()
        &&& forall|i: int| 0 <= i < fields.len() ==> (#[trigger] fields[i]).len() == fields[0].len()
    } else {
        offsets matches Some(rows) && rows.wf() && offset + types@.len() <= rows@.len()
    }
    &&& slots_fit(types@, values_of(offsets), fields, offset)
}

impl View for UnionArray {
    type V = UnionView;

    open spec fn view(&self) -> UnionView {
        union_view(*self)
    }
}

impl UnionArray {
    /// The logical type.
    pub closed spec fn spec_data_type(&self) -> DataType {
        self.data_type
    }

    /// The buffer of the type ids.
    pub closed spec fn spec_types(&self) -> Buffer<i8> {
        self.types
    }

    /// The buffer of the offsets of the dense layout.
    pub closed spec fn spec_offsets(&self) -> Option<Buffer<i32>> {
        self.offsets
    }

    /// The child arrays.
    pub closed spec fn spec_fields(&self) -> Vec<Arc<Array>> {
        self.fields
    }

    /// The number of leading slots that slicing has cut off.
    pub closed spec fn spec_offset(&self) -> nat {
        self.offset as nat
    }

    /// The parts make a union array, and every child keeps the rules of its
    /// kind. Every union array that exists at run time is well formed.
    #[verifier::type_invariant]
    pub open spec fn wf(&self) -> bool
        decreases self,
    {
        &&& union_parts_wf(
            self@.data_type,
            self.spec_types(),
            self.spec_offsets(),
            self@.fields,
            self.spec_offset(),
        )
        &&& forall|i: int|
            0 <= i < self.spec_fields()@.len() ==> array_wf(*#[trigger] self.spec_fields()@[i])
    }

    /// The view holds the views of the children.
    pub proof fn lemma_fields_view(&self)
        ensures
            self@.fields == arrays_view(self.spec_fields()@),
    {
        assert(self@.fields =~= arrays_view(self.spec_fields()@));
    }

    /// The union array of the given parts, with no slots cut off.
    pub fn from_data(
        data_type: DataType,
        types: Buffer<i8>,
        fields: Vec<Arc<Array>>,
        offsets: Option<Buffer<i32>>,
    ) -> (array: Self)
        requires
            union_parts_wf(data_type@, types, offsets, arrays_view(fields@), 0),
            forall|i: int| 0 <= i < fields@.len() ==> array_wf(*#[trigger] fields@[i]),
        ensures
            array.wf(),
            array@.data_type == data_type@,
            array@.types == types@,
            array@.offsets == values_of(offsets),
            array@.fields == arrays_view(fields@),
            array@.offset == 0,
            array.spec_types() == types,
            array.spec_offsets() == offsets,
            array.spec_fields() == fields,
    {
        Self::from_parts(data_type, types, fields, offsets, 0)
    }

    /// The union array of the given parts.
    pub(crate) fn from_parts(
        data_type: DataType,
        types: Buffer<i8>,
        fields: Vec<Arc<Array>>,
        offsets: Option<Buffer<i32>>,
        offset: usize,
    ) -> (array: Self)
        requires
            union_parts_wf(data_type@, types, offsets, arrays_view(fields@), offset as nat),
            forall|i: int| 0 <= i < fields@.len() ==> array_wf(*#[trigger] fields@[i]),
        ensures
            array.wf(),
            array@.data_type == data_type@,
            array@.types == types@,
            array@.offsets == values_of(offsets),
            array@.fields == arrays_view(fields@),
            array@.offset == offset,
            array.spec_types() == types,
            array.spec_offsets() == offsets,
            array.spec_fields() == fields,
    {
        proof {
            let candidate = UnionArray { data_type, types, offsets, fields, offset };
            assert(candidate@.fields =~= arrays_view(fields@));
        }
        UnionArray { data_type, types, offsets, fields, offset }
    }

    /// Whether `data_type` is a union in the sparse layout.
    pub fn is_sparse(data_type: &DataType) -> (sparse: bool)
        ensures
            sparse == data_type@.is_sparse_union(),
    {
        match data_type {
            DataType::Union(_, sparse) => *sparse,
            _ => false,
        }
    }

    /// The type id of every slot.
    pub fn types(&self) -> (types: &Buffer<i8>)
        ensures
            self.wf(),
            *types == self.spec_types(),
            types@ == self@.types,
    {
        proof {
            use_type_invariant(self);
        }
        &self.types
    }

    /// In the dense layout, the row in its child of every slot.
    pub fn offsets(&self) -> (offsets: &Option<Buffer<i32>>)
        ensures
            self.wf(),
            *offsets == self.spec_offsets(),
            values_of(*offsets) == self@.offsets,
    {
        proof {
            use_type_invariant(self);
        }
        &self.offsets
    }

    /// The child arrays, in the order of the declared fields.
    pub fn fields(&self) -> (fields: &Vec<Arc<Array>>)
        ensures
            self.wf(),
            *fields == self.spec_fields(),
            arrays_view(fields@) == self@.fields,
    {
        proof {
            use_type_invariant(self);
            self.lemma_fields_view();
        }
        &self.fields
    }

    /// The child and the row in the child that hold the value of slot `index`.
    pub fn index(&self, index: usize) -> (place: (usize, usize))
        requires
            index < self@.types.len(),
        ensures
            place.0 == self@.types[index as int],
            place.1 == slot_row(self@.offsets, self@.offset, index as int),
            place.0 < self@.fields.len(),
            place.1 < self@.fields[place.0 as int].len(),
    {
        proof {
            use_type_invariant(self);
            assert(slot_fits(
                self@.types,
                self@.offsets,
                self@.fields,
                self@.offset,
                index as int,
            ));
        }
        let field = self.types.get(index) as usize;
        let row = match &self.offsets {
            Some(rows) => rows.get(self.offset + index) as usize,
            None => self.offset + index,
        };
        (field, row)
    }

    /// Whether the two arrays have the same logical type, type ids, offsets,
    /// offset and, child by child, equal children.
    pub fn equals(&self, other: &Self) -> (b: bool)
        ensures
            b == (self@ == other@),
        decreases self,
    {
        proof {
            use_type_invariant(self);
            use_type_invariant(other);
            self.lemma_fields_view();
            other.lemma_fields_view();
        }
        if !self.data_type.equals(&other.data_type) || self.offset != other.offset
            || !self.types.equals(&other.types) {
            return false;
        }
        let same_offsets = match &self.offsets {
            Some(a) => match &other.offsets {
                Some(b) => a.equals(b),
                None => false,
            },
            None => other.offsets.is_none(),
        };
        if !same_offsets || self.fields.len() != other.fields.len() {
            return false;
        }
        let mut i: usize = 0;
        while i < self.fields.len()
            invariant
                i <= self.fields@.len(),
                self.fields@.len() == other.fields@.len(),
                self@.fields == arrays_view(self.fields@),
                other@.fields == arrays_view(other.fields@),
                forall|k: int| 0 <= k < i ==> self@.fields[k] == other@.fields[k],
            decreases self.fields@.len() - i,
        {
            if !self.fields[i].equals(&other.fields[i]) {
                assert(self@.fields[i as int] != other@.fields[i as int]);
                return false;
            }
            i += 1;
        }
        assert(self@.fields =~= other@.fields);
        true
    }

    /// The `length` slots that start at `offset`. Only the type ids are
    /// narrowed; the offsets and the children are shared as they are.
    pub fn slice(&self, offset: usize, length: usize) -> (array: Self)
        requires
            offset + length <= self@.types.len(),
        ensures
            array.wf(),
            array@.data_type == self@.data_type,
            array@.types == self@.types.subrange(offset as int, offset + length),
            array@.offsets == self@.offsets,
            array@.fields == self@.fields,
            array@.offset == self@.offset + offset,
    {
        proof {
            use_type_invariant(self);
            self.lemma_fields_view();
        }
        let fields = clone_arrays(&self.fields);
        let offsets = match &self.offsets {
            Some(rows) => Some(rows.clone()),
            None => None,
        };
        let types = self.types.slice(offset, length);
        proof {
            let rows = values_of(self.offsets);
            let skipped = (self.offset + offset) as nat;
            assert forall|i: int| 0 <= i < types@.len() implies #[trigger] slot_fits(
                types@,
                rows,
                self@.fields,
                skipped,
                i,
            ) by {
                assert(slot_fits(self@.types, rows, self@.fields, self@.offset, offset + i));
            }
        }
        Self::from_parts(self.data_type.clone(), types, fields, offsets, self.offset + offset)
    }

    /// The logical type.
    pub fn data_type(&self) -> (d: &DataType)
        ensures
            self.wf(),
            d@ == self@.data_type,
    {
        proof {
            use_type_invariant(self);
        }
        &self.data_type
    }

    /// The number of slots.
    pub fn len(&self) -> (n: usize)
        ensures
            self.wf(),
            n == self@.types.len(),
    {
        proof {
            use_type_invariant(self);
        }
        self.types.len()
    }
}

impl PartialEq for UnionArray {
    fn eq(&self, other: &Self) -> (b: bool) {
        self.equals(other)
    }
}

impl PartialEqSpecImpl for UnionArray {
    open spec fn obeys_eq_spec() -> bool {
        true
    }

    open spec fn eq_spec(&self, other: &Self) -> bool {
        self@ == other@
    }
}

/// Shares every array of the list once more.
pub fn clone_arrays(arrays: &Vec<Arc<Array>>) -> (copy: Vec<Arc<Array>>)
    ensures
        copy@ == arrays@,
{
    let mut copy: Vec<Arc<Array>> = Vec::new();
    let mut i: usize = 0;
    while i < arrays.len()
        invariant
            i <= arrays.len(),
            copy@ == arrays@.subrange(0, i as int),
        decreases arrays.len() - i,
    {
        copy.push(arrays[i].clone());
        i += 1;
    }
    assert(arrays@.subrange(0, arrays.len() as int) =~= arrays@);
    copy
}

} // verus!
