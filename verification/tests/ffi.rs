use arrow_core::array::primitive::{Int32Array, Int64Array, PrimitiveArray, UInt8Array};
use arrow_core::array::union::UnionArray;
use arrow_core::array::Array;
use arrow_core::bitmap::Bitmap;
use arrow_core::buffer::Buffer;
use arrow_core::datatypes::{DataType, Field, TimeUnit};
use arrow_core::error::{ArrowError, InterchangeError};
use arrow_core::ffi::{export, export_as, try_from, ForeignArray, RawBuffer};
use std::sync::Arc;

fn union_type(sparse: bool) -> DataType {
    DataType::Union(
        vec![
            Field::new("a", DataType::Int32, true),
            Field::new("b", DataType::Int64, true),
        ],
        sparse,
    )
}

fn sparse_union() -> UnionArray {
    let a = Array::Int32(Int32Array::from(&[Some(1), None, Some(3), Some(4), None]));
    let b = Array::Int64(Int64Array::from(&[None, Some(20), None, None, Some(50)]));
    UnionArray::from_data(
        union_type(true),
        Buffer::from_slice(&[0i8, 1, 0, 0, 1]),
        vec![Arc::new(a), Arc::new(b)],
        None,
    )
}

fn dense_union() -> UnionArray {
    let a = Array::Int32(Int32Array::from(&[Some(1), Some(3), Some(4)]));
    let b = Array::Int64(Int64Array::from(&[Some(20), None]));
    UnionArray::from_data(
        union_type(false),
        Buffer::from_slice(&[0i8, 1, 0, 0, 1]),
        vec![Arc::new(a), Arc::new(b)],
        Some(Buffer::from_slice(&[0i32, 0, 1, 2, 1])),
    )
}

fn fault_of(out: Result<Array, ArrowError>) -> InterchangeError {
    match out {
        Err(ArrowError::Ffi(kind)) => kind,
        other => panic!("expected a fault of the handle, got {:?}", other),
    }
}

fn imported_union(handle: &ForeignArray) -> UnionArray {
    match try_from(handle).unwrap() {
        Array::Union(union) => union,
        other => panic!("expected a union, got {:?}", other),
    }
}

#[test]
fn primitive_round_trip() {
    let array = Array::Int32(Int32Array::from(&[Some(1), None, Some(-3)]));
    let handle = export(&array);
    assert_eq!(handle.length, 3);
    assert_eq!(handle.offset, 0);
    assert_eq!(handle.buffers.len(), 2);
    assert!(handle.children.is_empty());
    assert_eq!(try_from(&handle).unwrap(), array);

    let array = Array::UInt8(UInt8Array::from_slice(&[7, 8, 9]));
    let handle = export(&array);
    assert!(handle.buffers[0].is_none());
    assert_eq!(try_from(&handle).unwrap(), array);
}

#[test]
fn primitive_round_trip_of_a_slice() {
    let whole = Int64Array::from(&[Some(1), None, Some(3), None, Some(5), Some(6), None]);
    let array = Array::Int64(whole.slice(2, 4).to(DataType::Timestamp(TimeUnit::Second, None)));
    let back = try_from(&export(&array)).unwrap();
    assert_eq!(back, array);
    assert_eq!(
        back,
        Array::Int64(
            Int64Array::from(&[Some(3), None, Some(5), Some(6)])
                .to(DataType::Timestamp(TimeUnit::Second, None))
        )
    );
}

#[test]
fn import_applies_the_offset_of_a_primitive_handle() {
    let handle = ForeignArray {
        field: Field::new("x", DataType::Int32, true),
        length: 3,
        offset: 2,
        buffers: vec![
            Some(RawBuffer::Bits(Bitmap::from_bools(&[
                false, false, true, false, true, true,
            ]))),
            Some(RawBuffer::Int32(Buffer::from_slice(&[10, 11, 12, 13, 14, 15]))),
        ],
        children: vec![],
    };
    assert_eq!(
        try_from(&handle).unwrap(),
        Array::Int32(Int32Array::from(&[Some(12), None, Some(14)]))
    );
}

#[test]
fn sparse_union_round_trip() {
    let array = Array::Union(sparse_union());
    let handle = export(&array);
    assert_eq!(handle.buffers.len(), 2);
    assert!(handle.buffers[0].is_none());
    assert_eq!(handle.children.len(), 2);
    assert_eq!(handle.children[0].field.name, "a");
    assert_eq!(handle.children[1].field.name, "b");
    assert_eq!(handle.offset, 0);
    assert_eq!(handle.length, 5);
    let back = try_from(&handle).unwrap();
    assert_eq!(back, array);
    // and once more
    assert_eq!(try_from(&export(&back)).unwrap(), array);
}

#[test]
fn dense_union_round_trip() {
    let array = Array::Union(dense_union());
    let handle = export(&array);
    assert_eq!(handle.buffers.len(), 3);
    assert!(handle.buffers[0].is_none());
    let back = try_from(&handle).unwrap();
    assert_eq!(back, array);
    assert_eq!(try_from(&export(&back)).unwrap(), array);
}

#[test]
fn sparse_union_round_trip_with_an_offset() {
    let whole = sparse_union();
    let sliced = whole.slice(1, 3);
    assert_eq!(sliced.offset(), 1);
    assert_eq!(sliced.len(), 3);
    let array = Array::Union(sliced);
    let handle = export(&array);
    assert_eq!(handle.offset, 1);
    assert_eq!(handle.length, 3);
    let back = imported_union(&handle);
    assert_eq!(back.offset(), 1);
    assert_eq!(back.types().to_vec(), vec![1i8, 0, 0]);
    assert!(back.offsets().is_none());
    assert_eq!(back.fields().len(), 2);
    assert_eq!(*back.fields()[0], *whole.fields()[0]);
    assert_eq!(*back.fields()[1], *whole.fields()[1]);
    assert_eq!(Array::Union(back), array);
}

#[test]
fn dense_union_round_trip_with_an_offset() {
    let whole = dense_union();
    let sliced = whole.slice(2, 3).slice(1, 2);
    assert_eq!(sliced.offset(), 3);
    assert_eq!(sliced.types().to_vec(), vec![0i8, 1]);
    let array = Array::Union(sliced);
    let handle = export(&array);

    // The exported type ids start before those of the array, by the offset.
    match &handle.buffers[1] {
        Some(RawBuffer::Int8(types)) => assert_eq!(types.to_vec(), vec![0i8, 1, 0, 0, 1]),
        other => panic!("expected the type ids, got {:?}", other),
    }
    match &handle.buffers[2] {
        Some(RawBuffer::Int32(offsets)) => assert_eq!(offsets.to_vec(), vec![0, 0, 1, 2, 1]),
        other => panic!("expected the offsets, got {:?}", other),
    }
    assert_eq!(handle.offset, 3);
    assert_eq!(handle.length, 2);

    // Only the type ids are cut on the way back.
    let back = imported_union(&handle);
    assert_eq!(back.offset(), 3);
    assert_eq!(back.len(), 2);
    assert_eq!(back.types().to_vec(), vec![0i8, 1]);
    assert_eq!(
        back.offsets().as_ref().unwrap().to_vec(),
        vec![0, 0, 1, 2, 1]
    );
    assert_eq!(*back.fields()[0], *whole.fields()[0]);
    assert_eq!(*back.fields()[1], *whole.fields()[1]);
    assert_eq!(back.fields()[0].len(), 3);
    assert_eq!(back.fields()[1].len(), 2);
    assert_eq!(Array::Union(back), array);
}

#[test]
fn nested_union_round_trip() {
    let inner = Array::Union(dense_union().slice(1, 4));
    let numbers = Array::Int32(Int32Array::from_slice(&[1, 2, 3, 4]));
    let data_type = DataType::Union(
        vec![
            Field::new("inner", union_type(false), true),
            Field::new("numbers", DataType::Int32, false),
        ],
        true,
    );
    let outer = UnionArray::from_data(
        data_type,
        Buffer::from_slice(&[1i8, 0, 0, 1]),
        vec![Arc::new(inner), Arc::new(numbers)],
        None,
    );
    let array = Array::Union(outer.slice(1, 2));
    let back = try_from(&export(&array)).unwrap();
    assert_eq!(back, array);
    assert_ne!(back, Array::Union(outer));
}

#[test]
fn export_under_a_name() {
    let array = Array::Int32(Int32Array::from_slice(&[1]));
    let handle = export_as(&array, Field::new("total", DataType::Int32, false));
    assert_eq!(handle.field.name, "total");
    assert!(!handle.field.nullable);
    assert_eq!(try_from(&handle).unwrap(), array);
}

fn dense_handle() -> ForeignArray {
    export(&Array::Union(dense_union().slice(1, 3)))
}

fn sparse_handle() -> ForeignArray {
    export(&Array::Union(sparse_union().slice(1, 3)))
}

#[test]
fn import_refuses_a_missing_buffer() {
    let mut handle = dense_handle();
    handle.buffers[1] = None;
    assert_eq!(fault_of(try_from(&handle)), InterchangeError::MissingBuffer);

    let mut handle = dense_handle();
    handle.buffers.pop();
    assert_eq!(fault_of(try_from(&handle)), InterchangeError::MissingBuffer);

    let mut handle = export(&Array::Int32(Int32Array::from_slice(&[1])));
    handle.buffers.clear();
    assert_eq!(fault_of(try_from(&handle)), InterchangeError::MissingBuffer);

    let mut handle = export(&Array::Int32(Int32Array::from_slice(&[1])));
    handle.buffers[1] = None;
    assert_eq!(fault_of(try_from(&handle)), InterchangeError::MissingBuffer);
}

#[test]
fn import_refuses_a_buffer_of_another_width() {
    let mut handle = dense_handle();
    handle.buffers[1] = Some(RawBuffer::Int32(Buffer::from_slice(&[0, 1, 0, 0, 1])));
    assert_eq!(fault_of(try_from(&handle)), InterchangeError::WrongBufferType);

    let mut handle = dense_handle();
    handle.buffers[2] = Some(RawBuffer::Int64(Buffer::from_slice(&[0, 0, 1, 2, 1])));
    assert_eq!(fault_of(try_from(&handle)), InterchangeError::WrongBufferType);

    let mut handle = export(&Array::Int32(Int32Array::from_slice(&[1])));
    handle.buffers[0] = Some(RawBuffer::UInt8(Buffer::from_slice(&[1])));
    assert_eq!(fault_of(try_from(&handle)), InterchangeError::WrongBufferType);

    let mut handle = export(&Array::Int32(Int32Array::from_slice(&[1])));
    handle.buffers[1] = Some(RawBuffer::Bits(Bitmap::from_bools(&[true])));
    assert_eq!(fault_of(try_from(&handle)), InterchangeError::WrongBufferType);
}

#[test]
fn import_refuses_a_buffer_that_is_too_short() {
    let mut handle = dense_handle();
    handle.length = 5;
    assert_eq!(fault_of(try_from(&handle)), InterchangeError::BufferTooShort);

    let mut handle = dense_handle();
    handle.offset = usize::MAX;
    assert_eq!(fault_of(try_from(&handle)), InterchangeError::BufferTooShort);

    let mut handle = dense_handle();
    handle.buffers[2] = Some(RawBuffer::Int32(Buffer::from_slice(&[0, 0, 1])));
    assert_eq!(fault_of(try_from(&handle)), InterchangeError::BufferTooShort);

    let mut handle = export(&Array::Int32(Int32Array::from(&[Some(1), None])));
    handle.buffers[0] = Some(RawBuffer::Bits(Bitmap::from_bools(&[true])));
    assert_eq!(fault_of(try_from(&handle)), InterchangeError::BufferTooShort);
}

#[test]
fn import_refuses_a_wrong_number_of_children() {
    let mut handle = dense_handle();
    handle.children.pop();
    assert_eq!(
        fault_of(try_from(&handle)),
        InterchangeError::ChildCountMismatch
    );

    let mut handle = dense_handle();
    handle
        .children
        .push(export(&Array::Int32(Int32Array::from_slice(&[1]))));
    assert_eq!(
        fault_of(try_from(&handle)),
        InterchangeError::ChildCountMismatch
    );
    assert!(matches!(
        handle.child(3),
        Err(ArrowError::Ffi(InterchangeError::ChildCountMismatch))
    ));
    assert!(handle.child(2).is_ok());
}

#[test]
fn import_refuses_a_child_of_another_type() {
    let mut handle = dense_handle();
    handle.children[1] = export(&Array::Int32(Int32Array::from_slice(&[1, 2])));
    assert_eq!(
        fault_of(try_from(&handle)),
        InterchangeError::ChildTypeMismatch
    );
}

#[test]
fn import_hands_on_the_fault_of_a_child() {
    let mut handle = dense_handle();
    handle.children[0].buffers[1] = None;
    assert_eq!(fault_of(try_from(&handle)), InterchangeError::MissingBuffer);

    // The first faulty child decides.
    let mut handle = dense_handle();
    handle.children[0].length = 100;
    handle.children[1].buffers[1] = None;
    assert_eq!(fault_of(try_from(&handle)), InterchangeError::BufferTooShort);
}

#[test]
fn import_refuses_children_of_a_sparse_union_that_do_not_fit() {
    let mut handle = sparse_handle();
    handle.children[1] = export_as(
        &Array::Int64(Int64Array::from_slice(&[1, 2, 3])),
        Field::new("b", DataType::Int64, true),
    );
    assert_eq!(
        fault_of(try_from(&handle)),
        InterchangeError::ChildLengthMismatch
    );

    let mut handle = sparse_handle();
    handle.children[0] = export_as(
        &Array::Int32(Int32Array::from_slice(&[1, 2, 3, 4, 5, 6])),
        Field::new("a", DataType::Int32, true),
    );
    assert_eq!(
        fault_of(try_from(&handle)),
        InterchangeError::ChildLengthMismatch
    );
}

#[test]
fn import_refuses_a_slot_that_names_no_row() {
    // a type id without a child
    let mut handle = dense_handle();
    handle.buffers[1] = Some(RawBuffer::Int8(Buffer::from_slice(&[0, 1, 2, 0])));
    assert_eq!(fault_of(try_from(&handle)), InterchangeError::SlotOutOfRange);
    let mut handle = sparse_handle();
    handle.buffers[1] = Some(RawBuffer::Int8(Buffer::from_slice(&[0, 1, -1, 0])));
    assert_eq!(fault_of(try_from(&handle)), InterchangeError::SlotOutOfRange);

    // a row that the child does not have
    let mut handle = dense_handle();
    handle.buffers[2] = Some(RawBuffer::Int32(Buffer::from_slice(&[0, 0, 1, 3])));
    assert_eq!(fault_of(try_from(&handle)), InterchangeError::SlotOutOfRange);
    let mut handle = dense_handle();
    handle.buffers[2] = Some(RawBuffer::Int32(Buffer::from_slice(&[0, 0, -1, 2])));
    assert_eq!(fault_of(try_from(&handle)), InterchangeError::SlotOutOfRange);

    // what lies before the offset is not looked at
    let mut handle = dense_handle();
    handle.buffers[1] = Some(RawBuffer::Int8(Buffer::from_slice(&[9, 1, 0, 0])));
    handle.buffers[2] = Some(RawBuffer::Int32(Buffer::from_slice(&[9, 0, 1, 2])));
    let back = imported_union(&handle);
    assert_eq!(back.types().to_vec(), vec![1i8, 0, 0]);
}

#[test]
fn slots_of_a_union_name_a_child_and_a_row() {
    let dense = dense_union();
    assert_eq!(dense.index(0), (0, 0));
    assert_eq!(dense.index(1), (1, 0));
    assert_eq!(dense.index(3), (0, 2));
    assert_eq!(dense.index(4), (1, 1));
    let sliced = dense.slice(3, 2);
    assert_eq!(sliced.index(0), (0, 2));
    assert_eq!(sliced.index(1), (1, 1));

    let sparse = sparse_union().slice(1, 3).slice(1, 2);
    assert_eq!(sparse.index(0), (0, 2));
    assert_eq!(sparse.index(1), (0, 3));
    let back = imported_union(&export(&Array::Union(sparse)));
    assert_eq!(back.index(0), (0, 2));
    assert_eq!(back.index(1), (0, 3));
}

#[test]
fn import_of_one_kind_refuses_a_handle_of_another() {
    let handle = export(&Array::Int32(Int32Array::from_slice(&[1])));
    assert!(matches!(
        UnionArray::try_from_ffi(&handle),
        Err(ArrowError::Ffi(InterchangeError::UnexpectedType))
    ));
    assert!(matches!(
        PrimitiveArray::<i64>::try_from_ffi(&handle),
        Err(ArrowError::Ffi(InterchangeError::UnexpectedType))
    ));
    assert!(matches!(
        PrimitiveArray::<i32>::try_from_ffi(&dense_handle()),
        Err(ArrowError::Ffi(InterchangeError::UnexpectedType))
    ));
    assert!(PrimitiveArray::<i32>::try_from_ffi(&handle).is_ok());
}

#[test]
fn buffers_of_a_handle_are_read_behind_the_validity() {
    let handle = dense_handle();
    // the slots of the handle and the one before them that the offset skips
    assert_eq!(handle.buffer::<i8>(0).unwrap().to_vec(), vec![0i8, 1, 0, 0]);
    assert_eq!(handle.buffer::<i32>(1).unwrap().to_vec(), vec![0, 0, 1, 2, 1]);
    assert!(matches!(
        handle.buffer::<i32>(0),
        Err(ArrowError::Ffi(InterchangeError::WrongBufferType))
    ));
    assert!(matches!(
        handle.buffer::<i32>(2),
        Err(ArrowError::Ffi(InterchangeError::MissingBuffer))
    ));
    assert!(matches!(
        handle.buffer::<i32>(usize::MAX),
        Err(ArrowError::Ffi(InterchangeError::MissingBuffer))
    ));
    assert!(handle.validity().unwrap().is_none());
}

#[test]
fn union_arrays_expose_their_parts() {
    let union = dense_union();
    assert!(!UnionArray::is_sparse(union.data_type()));
    assert!(UnionArray::is_sparse(sparse_union().data_type()));
    assert!(!UnionArray::is_sparse(&DataType::Int8));
    assert_eq!(union.buffers().len(), 3);
    assert_eq!(sparse_union().buffers().len(), 2);
    assert_eq!(union.children().len(), 2);
    assert_eq!(union.offset(), 0);
    assert!(union.data_type().equals(&union_type(false)));
    assert!(!union.data_type().equals(&union_type(true)));
    assert_eq!(Array::Union(dense_union().slice(2, 1)).offset(), 2);
    assert!(Array::Union(dense_union()).validity().is_none());
    assert_ne!(dense_union(), dense_union().slice(0, 4));
    assert_eq!(dense_union(), dense_union().slice(0, 5));
}
