//! Logical types: what the values of an array mean, and which native type stores them.
use vstd::prelude::*;

verus! {

/// The granularity of a time value.
#[derive(Clone, Copy, Debug, PartialEq, Eq, Structural)]
pub enum TimeUnit {
    Second,
    Millisecond,
    Microsecond,
    Nanosecond,
}

/// The fixed-width native types that store the values of primitive arrays.
#[derive(Clone, Copy, Debug, PartialEq, Eq, Structural)]
pub enum PrimitiveType {
    Int8,
    Int16,
    Int32,
    Int64,
    UInt8,
    UInt16,
    UInt32,
    UInt64,
}

/// The logical type of an array.
#[derive(Debug)]
pub enum DataType {
    Int8,
    Int16,
    Int32,
    Int64,
    UInt8,
    UInt16,
    UInt32,
    UInt64,
    /// An instant, counted in the unit from the UNIX epoch, with an optional time zone.
    Timestamp(TimeUnit, Option<String>),
    /// Days since the UNIX epoch.
    Date32,
    /// Milliseconds since the UNIX epoch.
    Date64,
    /// Time since midnight in a 32-bit value.
    Time32(TimeUnit),
    /// Time since midnight in a 64-bit value.
    Time64(TimeUnit),
    /// A tagged union of the declared fields; `true` for the sparse layout.
    Union(Vec<Field>, bool),
}

/// A named child of a nested logical type.
#[derive(Debug)]
pub struct Field {
    pub name: String,
    pub data_type: DataType,
    pub nullable: bool,
}

/// The mathematical value of a [`DataType`].
pub enum DataTypeView {
    Int8,
    Int16,
    Int32,
    Int64,
    UInt8,
    UInt16,
    UInt32,
    UInt64,
    Timestamp(TimeUnit, Option<Seq<char>>),
    Date32,
    Date64,
    Time32(TimeUnit),
    Time64(TimeUnit),
    Union(Seq<FieldView>, bool),
}

/// The mathematical value of a [`Field`].
pub struct FieldView {
    pub name: Seq<char>,
    pub data_type: DataTypeView,
    pub nullable: bool,
}

impl PrimitiveType {
    /// The logical type that values of this native type have when nothing else is said.
    pub open spec fn natural(self) -> DataTypeView {
        match self {
            PrimitiveType::Int8 => DataTypeView::Int8,
            PrimitiveType::Int16 => DataTypeView::Int16,
            PrimitiveType::Int32 => DataTypeView::Int32,
            PrimitiveType::Int64 => DataTypeView::Int64,
            PrimitiveType::UInt8 => DataTypeView::UInt8,
            PrimitiveType::UInt16 => DataTypeView::UInt16,
            PrimitiveType::UInt32 => DataTypeView::UInt32,
            PrimitiveType::UInt64 => DataTypeView::UInt64,
        }
    }
}

impl DataTypeView {
    /// The native type that stores values of this logical type, if it is primitive.
    pub open spec fn primitive(self) -> Option<PrimitiveType> {
        match self {
            DataTypeView::Int8 => Some(PrimitiveType::Int8),
            DataTypeView::Int16 => Some(PrimitiveType::Int16),
            DataTypeView::Int32 | DataTypeView::Date32 | DataTypeView::Time32(_) => Some(
                PrimitiveType::Int32,
            ),
            DataTypeView::Int64
            | DataTypeView::Date64
            | DataTypeView::Time64(_)
            | DataTypeView::Timestamp(_, _) => Some(PrimitiveType::Int64),
            DataTypeView::UInt8 => Some(PrimitiveType::UInt8),
            DataTypeView::UInt16 => Some(PrimitiveType::UInt16),
            DataTypeView::UInt32 => Some(PrimitiveType::UInt32),
            DataTypeView::UInt64 => Some(PrimitiveType::UInt64),
            DataTypeView::Union(_, _) => None,
        }
    }

    /// The declared fields of a union type, in order.
    pub open spec fn union_fields(self) -> Seq<FieldView> {
        match self {
            DataTypeView::Union(fields, _) => fields,
            _ => Seq::empty(),
        }
    }

    /// Whether this is a union type in the sparse layout.
    pub open spec fn is_sparse_union(self) -> bool {
        self matches DataTypeView::Union(_, sparse) && sparse
    }
}

/// The mathematical value of a field.
pub open spec fn field_view(field: Field) -> FieldView
    decreases field,
{
    FieldView {
        name: field.name@,
        data_type: data_type_view(field.data_type),
        nullable: field.nullable,
    }
}

/// The mathematical value of a logical type.
pub open spec fn data_type_view(data_type: DataType) -> DataTypeView
    decreases data_type,
{
    match data_type {
        DataType::Int8 => DataTypeView::Int8,
        DataType::Int16 => DataTypeView::Int16,
        DataType::Int32 => DataTypeView::Int32,
        DataType::Int64 => DataTypeView::Int64,
        DataType::UInt8 => DataTypeView::UInt8,
        DataType::UInt16 => DataTypeView::UInt16,
        DataType::UInt32 => DataTypeView::UInt32,
        DataType::UInt64 => DataTypeView::UInt64,
        DataType::Timestamp(unit, zone) => DataTypeView::Timestamp(
            unit,
            match zone {
                Some(z) => Some(z@),
                None => None,
            },
        ),
        DataType::Date32 => DataTypeView::Date32,
        DataType::Date64 => DataTypeView::Date64,
        DataType::Time32(unit) => DataTypeView::Time32(unit),
        DataType::Time64(unit) => DataTypeView::Time64(unit),
        DataType::Union(fields, sparse) => DataTypeView::Union(
            Seq::new(
                fields@.len(),
                |i: int|
                    if 0 <= i < fields@.len() {
                        field_view(fields@[i])
                    } else {
                        arbitrary()
                    },
            ),
            sparse,
        ),
    }
}

impl View for Field {
    type V = FieldView;

    open spec fn view(&self) -> FieldView {
        field_view(*self)
    }
}

impl View for DataType {
    type V = DataTypeView;

    open spec fn view(&self) -> DataTypeView {
        data_type_view(*self)
    }
}

/// The mathematical value of a list of fields.
pub open spec fn fields_view(fields: Vec<Field>) -> Seq<FieldView> {
    Seq::new(fields@.len(), |i: int| fields@[i]@)
}

/// The view of a union type is made of the views of its fields.
pub proof fn lemma_union_view(fields: Vec<Field>, sparse: bool)
    ensures
        DataType::Union(fields, sparse)@ == DataTypeView::Union(fields_view(fields), sparse),
{
    assert(DataType::Union(fields, sparse)@.union_fields() =~= fields_view(fields));
}

/// Whether the two lists hold the same fields in the same order.
pub fn fields_equal(a: &Vec<Field>, b: &Vec<Field>) -> (r: bool)
    ensures
        r == (fields_view(*a) == fields_view(*b)),
    decreases a,
{
    if a.len() != b.len() {
        assert(fields_view(*a).len() != fields_view(*b).len());
        return false;
    }
    let mut i: usize = 0;
    while i < a.len()
        invariant
            i <= a.len(),
            a.len() == b.len(),
            forall|k: int| 0 <= k < i ==> a@[k]@ == b@[k]@,
        decreases a.len() - i,
    {
        if !a[i].equals(&b[i]) {
            assert(fields_view(*a)[i as int] != fields_view(*b)[i as int]);
            return false;
        }
        i += 1;
    }
    assert(fields_view(*a) =~= fields_view(*b));
    true
}

/// A copy of the list of fields.
pub fn fields_clone(fields: &Vec<Field>) -> (copy: Vec<Field>)
    ensures
        fields_view(copy) == fields_view(*fields),
    decreases fields,
{
    let mut copy: Vec<Field> = Vec::new();
    let mut i: usize = 0;
    while i < fields.len()
        invariant
            i <= fields.len(),
            copy.len() == i,
            forall|k: int| 0 <= k < i ==> copy@[k]@ == fields@[k]@,
        decreases fields.len() - i,
    {
        copy.push(fields[i].clone());
        i += 1;
    }
    assert(fields_view(copy) =~= fields_view(*fields));
    copy
}

impl Field {
    /// The field of the given name, logical type and nullability.
    pub fn new(name: &str, data_type: DataType, nullable: bool) -> (f: Field)
        ensures
            f@ == (FieldView { name: name@, data_type: data_type@, nullable }),
    {
        Field { name: name.to_owned(), data_type, nullable }
    }

    /// Whether the two fields have the same name, type and nullability.
    pub fn equals(&self, other: &Field) -> (b: bool)
        ensures
            b == (self@ == other@),
        decreases self,
    {
        self.nullable == other.nullable && self.name == other.name && self.data_type.equals(
            &other.data_type,
        )
    }
}

impl Clone for Field {
    fn clone(&self) -> (f: Field)
        ensures
            f@ == self@,
        decreases self,
    {
        Field {
            name: self.name.clone(),
            data_type: self.data_type.clone(),
            nullable: self.nullable,
        }
    }
}

impl DataType {
    /// The native type that stores values of this logical type, if it is primitive.
    pub fn to_primitive(&self) -> (p: Option<PrimitiveType>)
        ensures
            p == self@.primitive(),
    {
        match self {
            DataType::Int8 => Some(PrimitiveType::Int8),
            DataType::Int16 => Some(PrimitiveType::Int16),
            DataType::Int32 | DataType::Date32 | DataType::Time32(_) => Some(PrimitiveType::Int32),
            DataType::Int64
            | DataType::Date64
            | DataType::Time64(_)
            | DataType::Timestamp(_, _) => Some(PrimitiveType::Int64),
            DataType::UInt8 => Some(PrimitiveType::UInt8),
            DataType::UInt16 => Some(PrimitiveType::UInt16),
            DataType::UInt32 => Some(PrimitiveType::UInt32),
            DataType::UInt64 => Some(PrimitiveType::UInt64),
            DataType::Union(_, _) => None,
        }
    }

    /// Whether the two logical types are the same.
    pub fn equals(&self, other: &DataType) -> (b: bool)
        ensures
            b == (self@ == other@),
        decreases self,
    {
        match self {
            DataType::Int8 => matches!(other, DataType::Int8),
            DataType::Int16 => matches!(other, DataType::Int16),
            DataType::Int32 => matches!(other, DataType::Int32),
            DataType::Int64 => matches!(other, DataType::Int64),
            DataType::UInt8 => matches!(other, DataType::UInt8),
            DataType::UInt16 => matches!(other, DataType::UInt16),
            DataType::UInt32 => matches!(other, DataType::UInt32),
            DataType::UInt64 => matches!(other, DataType::UInt64),
            DataType::Date32 => matches!(other, DataType::Date32),
            DataType::Date64 => matches!(other, DataType::Date64),
            DataType::Time32(a) => match other {
                DataType::Time32(b) => *a == *b,
                _ => false,
            },
            DataType::Time64(a) => match other {
                DataType::Time64(b) => *a == *b,
                _ => false,
            },
            DataType::Timestamp(a, za) => match other {
                DataType::Timestamp(b, zb) => {
                    let zones = match za {
                        Some(x) => match zb {
                            Some(y) => *x == *y,
                            None => false,
                        },
                        None => zb.is_none(),
                    };
                    *a == *b && zones
                },
                _ => false,
            },
            DataType::Union(fa, sa) => match other {
                DataType::Union(fb, sb) => {
                    proof {
                        lemma_union_view(*fa, *sa);
                        lemma_union_view(*fb, *sb);
                    }
                    *sa == *sb && fields_equal(fa, fb)
                },
                _ => false,
            },
        }
    }
}

impl Clone for DataType {
    fn clone(&self) -> (d: DataType)
        ensures
            d@ == self@,
        decreases self,
    {
        match self {
            DataType::Int8 => DataType::Int8,
            DataType::Int16 => DataType::Int16,
            DataType::Int32 => DataType::Int32,
            DataType::Int64 => DataType::Int64,
            DataType::UInt8 => DataType::UInt8,
            DataType::UInt16 => DataType::UInt16,
            DataType::UInt32 => DataType::UInt32,
            DataType::UInt64 => DataType::UInt64,
            DataType::Date32 => DataType::Date32,
            DataType::Date64 => DataType::Date64,
            DataType::Time32(unit) => DataType::Time32(*unit),
            DataType::Time64(unit) => DataType::Time64(*unit),
            DataType::Timestamp(unit, zone) => DataType::Timestamp(
                *unit,
                match zone {
                    Some(z) => Some(z.clone()),
                    None => None,
                },
            ),
            DataType::Union(fields, sparse) => {
                let copy = fields_clone(fields);
                proof {
                    lemma_union_view(*fields, *sparse);
                    lemma_union_view(copy, *sparse);
                }
                DataType::Union(copy, *sparse)
            },
        }
    }
}

} // verus!
