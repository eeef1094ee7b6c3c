//! The native types that store the values of primitive arrays.
use crate::buffer::Buffer;
use crate::datatypes::{DataType, PrimitiveType};
use crate::ffi::RawBuffer;
use vstd::prelude::*;

verus! {

/// A fixed-width, copyable value that a primitive array can store.
pub trait NativeType: Copy + Sized {
    /// Which of the native types this is.
    spec fn primitive() -> PrimitiveType;

    /// The value that fills the slots of null elements.
    spec fn spec_zero() -> Self;

    /// The mathematical integer that a value stands for.
    spec fn to_int(self) -> int;

    /// The least integer that the type can hold.
    spec fn min_int() -> int;

    /// The greatest integer that the type can hold.
    spec fn max_int() -> int;

    /// A value is known by its integer, which lies within the range of the
    /// type; zero stands for 0.
    proof fn lemma_to_int(a: Self, b: Self)
        ensures
            Self::min_int() <= a.to_int() <= Self::max_int(),
            a.to_int() == b.to_int() ==> a == b,
            Self::spec_zero().to_int() == 0,
    ;

    /// A buffer of this type, seen as the untyped buffer of a foreign handle.
    spec fn raw_of(buffer: Buffer<Self>) -> RawBuffer;

    /// The buffer of this type that an untyped buffer holds, if it holds one.
    spec fn of_raw(raw: RawBuffer) -> Option<Buffer<Self>>;

    /// An untyped buffer holds a buffer of this type exactly if it was made of one.
    proof fn lemma_raw(buffer: Buffer<Self>, raw: RawBuffer)
        ensures
            Self::of_raw(Self::raw_of(buffer)) == Some(buffer),
            Self::raw_of(buffer).primitive() == Some(Self::primitive()),
            Self::of_raw(raw) is Some <==> raw.primitive() == Some(Self::primitive()),
            Self::of_raw(raw) matches Some(b) ==> Self::raw_of(b) == raw,
    ;

    /// Which of the native types this is.
    fn primitive_type() -> (p: PrimitiveType)
        ensures
            p == Self::primitive(),
    ;

    /// The logical type that values of this native type have when nothing else is said.
    fn data_type() -> (d: DataType)
        ensures
            d@ == Self::primitive().natural(),
    ;

    /// The value that fills the slots of null elements.
    fn zero() -> (z: Self)
        ensures
            z == Self::spec_zero(),
    ;

    /// Whether the two values are the same.
    fn is_same(self, other: Self) -> (b: bool)
        ensures
            b == (self == other),
    ;

    /// The buffer as the untyped buffer of a foreign handle.
    fn into_raw(buffer: Buffer<Self>) -> (raw: RawBuffer)
        ensures
            raw == Self::raw_of(buffer),
    ;

    /// The buffer of this type that an untyped buffer holds, shared, if it
    /// holds one.
    fn from_raw(raw: &RawBuffer) -> (buffer: Option<Buffer<Self>>)
        ensures
            buffer == Self::of_raw(*raw),
    ;
}

impl NativeType for i8 {
    open spec fn primitive() -> PrimitiveType {
        PrimitiveType::Int8
    }

    open spec fn spec_zero() -> Self {
        0
    }

    open spec fn to_int(self) -> int {
        self as int
    }

    open spec fn min_int() -> int {
        i8::MIN as int
    }

    open spec fn max_int() -> int {
        i8::MAX as int
    }

    proof fn lemma_to_int(a: Self, b: Self) {
    }

    open spec fn raw_of(buffer: Buffer<Self>) -> RawBuffer {
        RawBuffer::Int8(buffer)
    }

    open spec fn of_raw(raw: RawBuffer) -> Option<Buffer<Self>> {
        match raw {
            RawBuffer::Int8(buffer) => Some(buffer),
            _ => None,
        }
    }

    proof fn lemma_raw(buffer: Buffer<Self>, raw: RawBuffer) {
    }

    fn primitive_type() -> (p: PrimitiveType) {
        PrimitiveType::Int8
    }

    fn data_type() -> (d: DataType) {
        DataType::Int8
    }

    fn zero() -> (z: Self) {
        0
    }

    fn is_same(self, other: Self) -> (b: bool) {
        self == other
    }

    fn into_raw(buffer: Buffer<Self>) -> (raw: RawBuffer) {
        RawBuffer::Int8(buffer)
    }

    fn from_raw(raw: &RawBuffer) -> (buffer: Option<Buffer<Self>>) {
        match raw {
            RawBuffer::Int8(buffer) => Some(buffer.clone()),
            _ => None,
        }
    }
}

impl NativeType for i16 {
    open spec fn primitive() -> PrimitiveType {
        PrimitiveType::Int16
    }

    open spec fn spec_zero() -> Self {
        0
    }

    open spec fn to_int(self) -> int {
        self as int
    }

    open spec fn min_int() -> int {
        i16::MIN as int
    }

    open spec fn max_int() -> int {
        i16::MAX as int
    }

    proof fn lemma_to_int(a: Self, b: Self) {
    }

    open spec fn raw_of(buffer: Buffer<Self>) -> RawBuffer {
        RawBuffer::Int16(buffer)
    }

    open spec fn of_raw(raw: RawBuffer) -> Option<Buffer<Self>> {
        match raw {
            RawBuffer::Int16(buffer) => Some(buffer),
            _ => None,
        }
    }

    proof fn lemma_raw(buffer: Buffer<Self>, raw: RawBuffer) {
    }

    fn primitive_type() -> (p: PrimitiveType) {
        PrimitiveType::Int16
    }

    fn data_type() -> (d: DataType) {
        DataType::Int16
    }

    fn zero() -> (z: Self) {
        0
    }

    fn is_same(self, other: Self) -> (b: bool) {
        self == other
    }

    fn into_raw(buffer: Buffer<Self>) -> (raw: RawBuffer) {
        RawBuffer::Int16(buffer)
    }

    fn from_raw(raw: &RawBuffer) -> (buffer: Option<Buffer<Self>>) {
        match raw {
            RawBuffer::Int16(buffer) => Some(buffer.clone()),
            _ => None,
        }
    }
}

impl NativeType for i32 {
    open spec fn primitive() -> PrimitiveType {
        PrimitiveType::Int32
    }

    open spec fn spec_zero() -> Self {
        0
    }

    open spec fn to_int(self) -> int {
        self as int
    }

    open spec fn min_int() -> int {
        i32::MIN as int
    }

    open spec fn max_int() -> int {
        i32::MAX as int
    }

    proof fn lemma_to_int(a: Self, b: Self) {
    }

    open spec fn raw_of(buffer: Buffer<Self>) -> RawBuffer {
        RawBuffer::Int32(buffer)
    }

    open spec fn of_raw(raw: RawBuffer) -> Option<Buffer<Self>> {
        match raw {
            RawBuffer::Int32(buffer) => Some(buffer),
            _ => None,
        }
    }

    proof fn lemma_raw(buffer: Buffer<Self>, raw: RawBuffer) {
    }

    fn primitive_type() -> (p: PrimitiveType) {
        PrimitiveType::Int32
    }

    fn data_type() -> (d: DataType) {
        DataType::Int32
    }

    fn zero() -> (z: Self) {
        0
    }

    fn is_same(self, other: Self) -> (b: bool) {
        self == other
    }

    fn into_raw(buffer: Buffer<Self>) -> (raw: RawBuffer) {
        RawBuffer::Int32(buffer)
    }

    fn from_raw(raw: &RawBuffer) -> (buffer: Option<Buffer<Self>>) {
        match raw {
            RawBuffer::Int32(buffer) => Some(buffer.clone()),
            _ => None,
        }
    }
}

impl NativeType for i64 {
    open spec fn primitive() -> PrimitiveType {
        PrimitiveType::Int64
    }

    open spec fn spec_zero() -> Self {
        0
    }

    open spec fn to_int(self) -> int {
        self as int
    }

    open spec fn min_int() -> int {
        i64::MIN as int
    }

    open spec fn max_int() -> int {
        i64::MAX as int
    }

    proof fn lemma_to_int(a: Self, b: Self) {
    }

    open spec fn raw_of(buffer: Buffer<Self>) -> RawBuffer {
        RawBuffer::Int64(buffer)
    }

    open spec fn of_raw(raw: RawBuffer) -> Option<Buffer<Self>> {
        match raw {
            RawBuffer::Int64(buffer) => Some(buffer),
            _ => None,
        }
    }

    proof fn lemma_raw(buffer: Buffer<Self>, raw: RawBuffer) {
    }

    fn primitive_type() -> (p: PrimitiveType) {
        PrimitiveType::Int64
    }

    fn data_type() -> (d: DataType) {
        DataType::Int64
    }

    fn zero() -> (z: Self) {
        0
    }

    fn is_same(self, other: Self) -> (b: bool) {
        self == other
    }

    fn into_raw(buffer: Buffer<Self>) -> (raw: RawBuffer) {
        RawBuffer::Int64(buffer)
    }

    fn from_raw(raw: &RawBuffer) -> (buffer: Option<Buffer<Self>>) {
        match raw {
            RawBuffer::Int64(buffer) => Some(buffer.clone()),
            _ => None,
        }
    }
}

impl NativeType for u8 {
    open spec fn primitive() -> PrimitiveType {
        PrimitiveType::UInt8
    }

    open spec fn spec_zero() -> Self {
        0
    }

    open spec fn to_int(self) -> int {
        self as int
    }

    open spec fn min_int() -> int {
        u8::MIN as int
    }

    open spec fn max_int() -> int {
        u8::MAX as int
    }

    proof fn lemma_to_int(a: Self, b: Self) {
    }

    open spec fn raw_of(buffer: Buffer<Self>) -> RawBuffer {
        RawBuffer::UInt8(buffer)
    }

    open spec fn of_raw(raw: RawBuffer) -> Option<Buffer<Self>> {
        match raw {
            RawBuffer::UInt8(buffer) => Some(buffer),
            _ => None,
        }
    }

    proof fn lemma_raw(buffer: Buffer<Self>, raw: RawBuffer) {
    }

    fn primitive_type() -> (p: PrimitiveType) {
        PrimitiveType::UInt8
    }

    fn data_type() -> (d: DataType) {
        DataType::UInt8
    }

    fn zero() -> (z: Self) {
        0
    }

    fn is_same(self, other: Self) -> (b: bool) {
        self == other
    }

    fn into_raw(buffer: Buffer<Self>) -> (raw: RawBuffer) {
        RawBuffer::UInt8(buffer)
    }

    fn from_raw(raw: &RawBuffer) -> (buffer: Option<Buffer<Self>>) {
        match raw {
            RawBuffer::UInt8(buffer) => Some(buffer.clone()),
            _ => None,
        }
    }
}

impl NativeType for u16 {
    open spec fn primitive() -> PrimitiveType {
        PrimitiveType::UInt16
    }

    open spec fn spec_zero() -> Self {
        0
    }

    open spec fn to_int(self) -> int {
        self as int
    }

    open spec fn min_int() -> int {
        u16::MIN as int
    }

    open spec fn max_int() -> int {
        u16::MAX as int
    }

    proof fn lemma_to_int(a: Self, b: Self) {
    }

    open spec fn raw_of(buffer: Buffer<Self>) -> RawBuffer {
        RawBuffer::UInt16(buffer)
    }

    open spec fn of_raw(raw: RawBuffer) -> Option<Buffer<Self>> {
        match raw {
            RawBuffer::UInt16(buffer) => Some(buffer),
            _ => None,
        }
    }

    proof fn lemma_raw(buffer: Buffer<Self>, raw: RawBuffer) {
    }

    fn primitive_type() -> (p: PrimitiveType) {
        PrimitiveType::UInt16
    }

    fn data_type() -> (d: DataType) {
        DataType::UInt16
    }

    fn zero() -> (z: Self) {
        0
    }

    fn is_same(self, other: Self) -> (b: bool) {
        self == other
    }

    fn into_raw(buffer: Buffer<Self>) -> (raw: RawBuffer) {
        RawBuffer::UInt16(buffer)
    }

    fn from_raw(raw: &RawBuffer) -> (buffer: Option<Buffer<Self>>) {
        match raw {
            RawBuffer::UInt16(buffer) => Some(buffer.clone()),
            _ => None,
        }
    }
}

impl NativeType for u32 {
    open spec fn primitive() -> PrimitiveType {
        PrimitiveType::UInt32
    }

    open spec fn spec_zero() -> Self {
        0
    }

    open spec fn to_int(self) -> int {
        self as int
    }

    open spec fn min_int() -> int {
        u32::MIN as int
    }

    open spec fn max_int() -> int {
        u32::MAX as int
    }

    proof fn lemma_to_int(a: Self, b: Self) {
    }

    open spec fn raw_of(buffer: Buffer<Self>) -> RawBuffer {
        RawBuffer::UInt32(buffer)
    }

    open spec fn of_raw(raw: RawBuffer) -> Option<Buffer<Self>> {
        match raw {
            RawBuffer::UInt32(buffer) => Some(buffer),
            _ => None,
        }
    }

    proof fn lemma_raw(buffer: Buffer<Self>, raw: RawBuffer) {
    }

    fn primitive_type() -> (p: PrimitiveType) {
        PrimitiveType::UInt32
    }

    fn data_type() -> (d: DataType) {
        DataType::UInt32
    }

    fn zero() -> (z: Self) {
        0
    }

    fn is_same(self, other: Self) -> (b: bool) {
        self == other
    }

    fn into_raw(buffer: Buffer<Self>) -> (raw: RawBuffer) {
        RawBuffer::UInt32(buffer)
    }

    fn from_raw(raw: &RawBuffer) -> (buffer: Option<Buffer<Self>>) {
        match raw {
            RawBuffer::UInt32(buffer) => Some(buffer.clone()),
            _ => None,
        }
    }
}

impl NativeType for u64 {
    open spec fn primitive() -> PrimitiveType {
        PrimitiveType::UInt64
    }

    open spec fn spec_zero() -> Self {
        0
    }

    open spec fn to_int(self) -> int {
        self as int
    }

    open spec fn min_int() -> int {
        u64::MIN as int
    }

    open spec fn max_int() -> int {
        u64::MAX as int
    }

    proof fn lemma_to_int(a: Self, b: Self) {
    }

    open spec fn raw_of(buffer: Buffer<Self>) -> RawBuffer {
        RawBuffer::UInt64(buffer)
    }

    open spec fn of_raw(raw: RawBuffer) -> Option<Buffer<Self>> {
        match raw {
            RawBuffer::UInt64(buffer) => Some(buffer),
            _ => None,
        }
    }

    proof fn lemma_raw(buffer: Buffer<Self>, raw: RawBuffer) {
    }

    fn primitive_type() -> (p: PrimitiveType) {
        PrimitiveType::UInt64
    }

    fn data_type() -> (d: DataType) {
        DataType::UInt64
    }

    fn zero() -> (z: Self) {
        0
    }

    fn is_same(self, other: Self) -> (b: bool) {
        self == other
    }

    fn into_raw(buffer: Buffer<Self>) -> (raw: RawBuffer) {
        RawBuffer::UInt64(buffer)
    }

    fn from_raw(raw: &RawBuffer) -> (buffer: Option<Buffer<Self>>) {
        match raw {
            RawBuffer::UInt64(buffer) => Some(buffer.clone()),
            _ => None,
        }
    }
}

} // verus!
