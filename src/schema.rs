//! Column types and schemas, and their wire forms.

use vstd::prelude::*;

use crate::error::EncodeError;

verus! {

/// The kind of a column type. Parameters of nested and temporal types are
/// not kept: no wire type tag exists for those kinds.
#[derive(Debug, Clone, Copy, PartialEq, Eq, Structural)]
pub enum DataType {
    Null,
    Boolean,
    Int8,
    Int16,
    Int32,
    Int64,
    UInt8,
    UInt16,
    UInt32,
    UInt64,
    Float16,
    Float32,
    Float64,
    Timestamp,
    Date32,
    Date64,
    Time32,
    Time64,
    Duration,
    Interval,
    Binary,
    FixedSizeBinary,
    LargeBinary,
    Utf8,
    LargeUtf8,
    List,
    FixedSizeList,
    LargeList,
    Struct,
    Union,
    Dictionary,
    Decimal,
}

/// The wire type tag of a column.
#[derive(Debug, Clone, Copy, PartialEq, Eq, Structural)]
pub enum ArrowType {
    Int8,
    Int16,
    Int32,
    Int64,
    Uint8,
    Uint16,
    Uint32,
    Uint64,
    Float,
    Double,
    Utf8,
}

/// A named, typed, possibly nullable column.
#[derive(Debug, Clone, PartialEq, Eq)]
pub struct Field {
    pub name: String,
    pub data_type: DataType,
    pub nullable: bool,
}

/// An ordered list of columns; a column's position is its identity.
#[derive(Debug, Clone, PartialEq, Eq)]
pub struct Schema {
    pub fields: Vec<Field>,
}

/// The wire form of a column. Nested types have no wire tag, so `children`
/// is always empty in what this library produces.
#[derive(Debug, PartialEq, Eq)]
pub struct WireField {
    pub name: String,
    pub arrow_type: ArrowType,
    pub nullable: bool,
    pub children: Vec<WireField>,
}

/// The wire form of a schema, in the schema's column order.
#[derive(Debug, PartialEq, Eq)]
pub struct WireSchema {
    pub columns: Vec<WireField>,
}

/// The name of a column type.
pub open spec fn data_type_name(k: DataType) -> Seq<char> {
    match k {
        DataType::Null => "Null"@,
        DataType::Boolean => "Boolean"@,
        DataType::Int8 => "Int8"@,
        DataType::Int16 => "Int16"@,
        DataType::Int32 => "Int32"@,
        DataType::Int64 => "Int64"@,
        DataType::UInt8 => "UInt8"@,
        DataType::UInt16 => "UInt16"@,
        DataType::UInt32 => "UInt32"@,
        DataType::UInt64 => "UInt64"@,
        DataType::Float16 => "Float16"@,
        DataType::Float32 => "Float32"@,
        DataType::Float64 => "Float64"@,
        DataType::Timestamp => "Timestamp"@,
        DataType::Date32 => "Date32"@,
        DataType::Date64 => "Date64"@,
        DataType::Time32 => "Time32"@,
        DataType::Time64 => "Time64"@,
        DataType::Duration => "Duration"@,
        DataType::Interval => "Interval"@,
        DataType::Binary => "Binary"@,
        DataType::FixedSizeBinary => "FixedSizeBinary"@,
        DataType::LargeBinary => "LargeBinary"@,
        DataType::Utf8 => "Utf8"@,
        DataType::LargeUtf8 => "LargeUtf8"@,
        DataType::List => "List"@,
        DataType::FixedSizeList => "FixedSizeList"@,
        DataType::LargeList => "LargeList"@,
        DataType::Struct => "Struct"@,
        DataType::Union => "Union"@,
        DataType::Dictionary => "Dictionary"@,
        DataType::Decimal => "Decimal"@,
    }
}

impl DataType {
    /// The name of a column type.
    pub fn name(&self) -> (r: &'static str)
        ensures
            r@ == data_type_name(*self),
    {
        match self {
            DataType::Null => "Null",
            DataType::Boolean => "Boolean",
            DataType::Int8 => "Int8",
            DataType::Int16 => "Int16",
            DataType::Int32 => "Int32",
            DataType::Int64 => "Int64",
            DataType::UInt8 => "UInt8",
            DataType::UInt16 => "UInt16",
            DataType::UInt32 => "UInt32",
            DataType::UInt64 => "UInt64",
            DataType::Float16 => "Float16",
            DataType::Float32 => "Float32",
            DataType::Float64 => "Float64",
            DataType::Timestamp => "Timestamp",
            DataType::Date32 => "Date32",
            DataType::Date64 => "Date64",
            DataType::Time32 => "Time32",
            DataType::Time64 => "Time64",
            DataType::Duration => "Duration",
            DataType::Interval => "Interval",
            DataType::Binary => "Binary",
            DataType::FixedSizeBinary => "FixedSizeBinary",
            DataType::LargeBinary => "LargeBinary",
            DataType::Utf8 => "Utf8",
            DataType::LargeUtf8 => "LargeUtf8",
            DataType::List => "List",
            DataType::FixedSizeList => "FixedSizeList",
            DataType::LargeList => "LargeList",
            DataType::Struct => "Struct",
            DataType::Union => "Union",
            DataType::Dictionary => "Dictionary",
            DataType::Decimal => "Decimal",
        }
    }
}

/// The wire tag of a column type, where one exists.
pub open spec fn type_tag(d: DataType) -> Option<ArrowType> {
    match d {
        DataType::Int8 => Some(ArrowType::Int8),
        DataType::Int16 => Some(ArrowType::Int16),
        DataType::Int32 => Some(ArrowType::Int32),
        DataType::Int64 => Some(ArrowType::Int64),
        DataType::UInt8 => Some(ArrowType::Uint8),
        DataType::UInt16 => Some(ArrowType::Uint16),
        DataType::UInt32 => Some(ArrowType::Uint32),
        DataType::UInt64 => Some(ArrowType::Uint64),
        DataType::Float32 => Some(ArrowType::Float),
        DataType::Float64 => Some(ArrowType::Double),
        DataType::Utf8 => Some(ArrowType::Utf8),
        _ => None,
    }
}

/// The column type that a wire tag stands for.
pub open spec fn tag_type(t: ArrowType) -> DataType {
    match t {
        ArrowType::Int8 => DataType::Int8,
        ArrowType::Int16 => DataType::Int16,
        ArrowType::Int32 => DataType::Int32,
        ArrowType::Int64 => DataType::Int64,
        ArrowType::Uint8 => DataType::UInt8,
        ArrowType::Uint16 => DataType::UInt16,
        ArrowType::Uint32 => DataType::UInt32,
        ArrowType::Uint64 => DataType::UInt64,
        ArrowType::Float => DataType::Float32,
        ArrowType::Double => DataType::Float64,
        ArrowType::Utf8 => DataType::Utf8,
    }
}

/// `w` is the wire form of the column `f`.
pub open spec fn field_encodes_to(f: Field, w: WireField) -> bool {
    &&& type_tag(f.data_type) == Some(w.arrow_type)
    &&& w.name == f.name
    &&& w.nullable == f.nullable
    &&& w.children@.len() == 0
}

/// The error of the first column, in order, whose type has no wire tag.
pub open spec fn fields_error(fs: Seq<Field>) -> Option<EncodeError>
    decreases fs.len(),
{
    if fs.len() == 0 {
        None
    } else {
        match fields_error(fs.drop_last()) {
            Some(e) => Some(e),
            None => match type_tag(fs.last().data_type) {
                Some(_) => None,
                None => Some(EncodeError::UnsupportedType(fs.last().data_type)),
            },
        }
    }
}

/// `w` is the wire form of the schema `s`: one wire column per column, in order.
pub open spec fn schema_encodes_to(s: Schema, w: WireSchema) -> bool {
    &&& w.columns@.len() == s.fields@.len()
    &&& forall|i: int|
        0 <= i < s.fields@.len() ==> #[trigger] field_encodes_to(s.fields@[i], w.columns@[i])
}

/// Maps a column type to its wire tag, or fails naming the type.
pub fn to_proto_arrow_type(dt: &DataType) -> (r: Result<ArrowType, EncodeError>)
    ensures
        match type_tag(*dt) {
            Some(t) => r == Ok::<ArrowType, EncodeError>(t),
            None => r == Err::<ArrowType, EncodeError>(EncodeError::UnsupportedType(*dt)),
        },
{
    match dt {
        DataType::Int8 => Ok(ArrowType::Int8),
        DataType::Int16 => Ok(ArrowType::Int16),
        DataType::Int32 => Ok(ArrowType::Int32),
        DataType::Int64 => Ok(ArrowType::Int64),
        DataType::UInt8 => Ok(ArrowType::Uint8),
        DataType::UInt16 => Ok(ArrowType::Uint16),
        DataType::UInt32 => Ok(ArrowType::Uint32),
        DataType::UInt64 => Ok(ArrowType::Uint64),
        DataType::Float32 => Ok(ArrowType::Float),
        DataType::Float64 => Ok(ArrowType::Double),
        DataType::Utf8 => Ok(ArrowType::Utf8),
        other => Err(EncodeError::UnsupportedType(*other)),
    }
}

/// Maps a wire tag back to the column type it stands for.
pub fn from_proto_arrow_type(t: &ArrowType) -> (r: DataType)
    ensures
        r == tag_type(*t),
{
    match t {
        ArrowType::Int8 => DataType::Int8,
        ArrowType::Int16 => DataType::Int16,
        ArrowType::Int32 => DataType::Int32,
        ArrowType::Int64 => DataType::Int64,
        ArrowType::Uint8 => DataType::UInt8,
        ArrowType::Uint16 => DataType::UInt16,
        ArrowType::Uint32 => DataType::UInt32,
        ArrowType::Uint64 => DataType::UInt64,
        ArrowType::Float => DataType::Float32,
        ArrowType::Double => DataType::Float64,
        ArrowType::Utf8 => DataType::Utf8,
    }
}

/// The type tag mapping is a bijection between the supported column types and
/// the wire tags: decoding a tag and encoding the result gives the tag back, and
/// encoding a supported type and decoding the tag gives the type back.
pub proof fn lemma_type_tag_bijective(d: DataType, t: ArrowType)
    ensures
        type_tag(tag_type(t)) == Some(t),
        type_tag(d) == Some(t) ==> tag_type(t) == d,
{
}

/// Encodes one column: its name, nullability and type tag, with no children.
pub fn field_to_proto(f: &Field) -> (r: Result<WireField, EncodeError>)
    ensures
        match type_tag(f.data_type) {
            Some(_) => r matches Ok(w) && field_encodes_to(*f, w),
            None => r == Err::<WireField, EncodeError>(EncodeError::UnsupportedType(f.data_type)),
        },
{
    let arrow_type = to_proto_arrow_type(&f.data_type)?;
    Ok(WireField { name: f.name.clone(), arrow_type, nullable: f.nullable, children: Vec::new() })
}

/// Encodes a schema column by column, in order. Fails with the error of the
/// first column whose type has no wire tag.
pub fn schema_to_proto(s: &Schema) -> (r: Result<WireSchema, EncodeError>)
    ensures
        match fields_error(s.fields@) {
            None => r matches Ok(w) && schema_encodes_to(*s, w),
            Some(e) => r == Err::<WireSchema, EncodeError>(e),
        },
{
    let mut columns: Vec<WireField> = Vec::new();
    let mut i: usize = 0;
    while i < s.fields.len()
        invariant
            i <= s.fields@.len(),
            fields_error(s.fields@.take(i as int)) is None,
            columns@.len() == i,
            forall|j: int| 0 <= j < i ==> #[trigger] field_encodes_to(s.fields@[j], columns@[j]),
        decreases s.fields@.len() - i,
    {
        assert(s.fields@.take(i + 1).drop_last() == s.fields@.take(i as int));
        match field_to_proto(&s.fields[i]) {
            Ok(w) => {
                columns.push(w);
            },
            Err(e) => {
                proof { lemma_fields_error_prefix(s.fields@, i as int + 1); }
                return Err(e);
            },
        }
        i = i + 1;
    }
    assert(s.fields@.take(i as int) == s.fields@);
    Ok(WireSchema { columns })
}

/// An error in a prefix of the columns is the error of all of them.
proof fn lemma_fields_error_prefix(fs: Seq<Field>, n: int)
    requires
        0 <= n <= fs.len(),
        fields_error(fs.take(n)) is Some,
    ensures
        fields_error(fs) == fields_error(fs.take(n)),
    decreases fs.len() - n,
{
    if n < fs.len() {
        assert(fs.take(n + 1).drop_last() == fs.take(n));
        lemma_fields_error_prefix(fs, n + 1);
    } else {
        assert(fs.take(n) == fs);
    }
}

} // verus!
