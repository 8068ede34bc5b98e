//! Scalar literals and their wire form.
//!
//! Floating-point literals are carried as their IEEE-754 bit patterns, so that
//! every value, `-0.0` and each NaN payload included, crosses the wire unchanged.

use vstd::prelude::*;

use crate::error::EncodeError;
use crate::schema::DataType;

verus! {

/// A typed scalar value; `None` is SQL NULL.
#[derive(Debug, Clone, PartialEq, Eq)]
pub enum ScalarValue {
    Boolean(Option<bool>),
    /// The bit pattern of a 32-bit float.
    Float32(Option<u32>),
    /// The bit pattern of a 64-bit float.
    Float64(Option<u64>),
    Int8(Option<i8>),
    Int16(Option<i16>),
    Int32(Option<i32>),
    Int64(Option<i64>),
    UInt8(Option<u8>),
    UInt16(Option<u16>),
    UInt32(Option<u32>),
    UInt64(Option<u64>),
    Utf8(Option<String>),
    LargeUtf8(Option<String>),
    Binary(Option<Vec<u8>>),
    LargeBinary(Option<Vec<u8>>),
    /// Days since the Unix epoch.
    Date32(Option<i32>),
    /// Milliseconds since the Unix epoch.
    Date64(Option<i64>),
    /// A timestamp in its own unit; the unit is not kept, as no wire literal exists for it.
    Timestamp(Option<i64>),
    /// An interval; its unit is not kept, as no wire literal exists for it.
    Interval(Option<i64>),
    /// A list literal; only its element type is kept, as no wire literal exists for it.
    List(DataType),
}

/// The bit width of an integer literal on the wire.
#[derive(Debug, Clone, Copy, PartialEq, Eq, Structural)]
pub enum IntWidth {
    W8,
    W16,
    W32,
    W64,
}

/// The wire form of a literal: one typed slot, which always holds a value.
/// Integers travel widened to 64 bits, tagged with their original width.
#[derive(Debug, Clone, PartialEq, Eq)]
pub enum LiteralNode {
    Int { width: IntWidth, value: i64 },
    UInt { width: IntWidth, value: u64 },
    Float32 { bits: u32 },
    Float64 { bits: u64 },
    Utf8 { value: String },
}

/// The column type of a scalar.
pub open spec fn scalar_type(v: ScalarValue) -> DataType {
    match v {
        ScalarValue::Boolean(_) => DataType::Boolean,
        ScalarValue::Float32(_) => DataType::Float32,
        ScalarValue::Float64(_) => DataType::Float64,
        ScalarValue::Int8(_) => DataType::Int8,
        ScalarValue::Int16(_) => DataType::Int16,
        ScalarValue::Int32(_) => DataType::Int32,
        ScalarValue::Int64(_) => DataType::Int64,
        ScalarValue::UInt8(_) => DataType::UInt8,
        ScalarValue::UInt16(_) => DataType::UInt16,
        ScalarValue::UInt32(_) => DataType::UInt32,
        ScalarValue::UInt64(_) => DataType::UInt64,
        ScalarValue::Utf8(_) => DataType::Utf8,
        ScalarValue::LargeUtf8(_) => DataType::LargeUtf8,
        ScalarValue::Binary(_) => DataType::Binary,
        ScalarValue::LargeBinary(_) => DataType::LargeBinary,
        ScalarValue::Date32(_) => DataType::Date32,
        ScalarValue::Date64(_) => DataType::Date64,
        ScalarValue::Timestamp(_) => DataType::Timestamp,
        ScalarValue::Interval(_) => DataType::Interval,
        ScalarValue::List(_) => DataType::List,
    }
}

/// The wire literal of a scalar; `None` for NULL and for types with no wire literal.
pub open spec fn literal_of(v: ScalarValue) -> Option<LiteralNode> {
    match v {
        ScalarValue::Int8(Some(n)) => Some(LiteralNode::Int { width: IntWidth::W8, value: n as i64 }),
        ScalarValue::Int16(Some(n)) => Some(LiteralNode::Int { width: IntWidth::W16, value: n as i64 }),
        ScalarValue::Int32(Some(n)) => Some(LiteralNode::Int { width: IntWidth::W32, value: n as i64 }),
        ScalarValue::Int64(Some(n)) => Some(LiteralNode::Int { width: IntWidth::W64, value: n }),
        ScalarValue::UInt8(Some(n)) => Some(LiteralNode::UInt { width: IntWidth::W8, value: n as u64 }),
        ScalarValue::UInt16(Some(n)) => Some(LiteralNode::UInt { width: IntWidth::W16, value: n as u64 }),
        ScalarValue::UInt32(Some(n)) => Some(LiteralNode::UInt { width: IntWidth::W32, value: n as u64 }),
        ScalarValue::UInt64(Some(n)) => Some(LiteralNode::UInt { width: IntWidth::W64, value: n }),
        ScalarValue::Float32(Some(b)) => Some(LiteralNode::Float32 { bits: b }),
        ScalarValue::Float64(Some(b)) => Some(LiteralNode::Float64 { bits: b }),
        ScalarValue::Utf8(Some(s)) => Some(LiteralNode::Utf8 { value: s }),
        _ => None,
    }
}

/// The type has a wire literal.
pub open spec fn has_wire_literal(v: ScalarValue) -> bool {
    match v {
        ScalarValue::Int8(_) | ScalarValue::Int16(_) | ScalarValue::Int32(_) | ScalarValue::Int64(_) => true,
        ScalarValue::UInt8(_) | ScalarValue::UInt16(_) | ScalarValue::UInt32(_) | ScalarValue::UInt64(_) => true,
        ScalarValue::Float32(_) | ScalarValue::Float64(_) | ScalarValue::Utf8(_) => true,
        _ => false,
    }
}

/// Why a scalar has no wire literal, if it has none: its type has none, or it is NULL.
pub open spec fn scalar_error(v: ScalarValue) -> Option<EncodeError> {
    if !has_wire_literal(v) {
        Some(EncodeError::UnsupportedScalar(scalar_type(v)))
    } else if literal_of(v) is None {
        Some(EncodeError::NullLiteral(scalar_type(v)))
    } else {
        None
    }
}

/// The scalar that a wire literal stands for; `None` for an integer outside
/// the range of the width it is tagged with.
pub open spec fn scalar_of(n: LiteralNode) -> Option<ScalarValue> {
    match n {
        LiteralNode::Int { width, value } => match width {
            IntWidth::W8 => if i8::MIN <= value <= i8::MAX {
                Some(ScalarValue::Int8(Some(value as i8)))
            } else {
                None
            },
            IntWidth::W16 => if i16::MIN <= value <= i16::MAX {
                Some(ScalarValue::Int16(Some(value as i16)))
            } else {
                None
            },
            IntWidth::W32 => if i32::MIN <= value <= i32::MAX {
                Some(ScalarValue::Int32(Some(value as i32)))
            } else {
                None
            },
            IntWidth::W64 => Some(ScalarValue::Int64(Some(value))),
        },
        LiteralNode::UInt { width, value } => match width {
            IntWidth::W8 => if value <= u8::MAX {
                Some(ScalarValue::UInt8(Some(value as u8)))
            } else {
                None
            },
            IntWidth::W16 => if value <= u16::MAX {
                Some(ScalarValue::UInt16(Some(value as u16)))
            } else {
                None
            },
            IntWidth::W32 => if value <= u32::MAX {
                Some(ScalarValue::UInt32(Some(value as u32)))
            } else {
                None
            },
            IntWidth::W64 => Some(ScalarValue::UInt64(Some(value))),
        },
        LiteralNode::Float32 { bits } => Some(ScalarValue::Float32(Some(bits))),
        LiteralNode::Float64 { bits } => Some(ScalarValue::Float64(Some(bits))),
        LiteralNode::Utf8 { value } => Some(ScalarValue::Utf8(Some(value))),
    }
}

/// Encodes a literal into its one typed wire slot. Fails for types with no wire
/// literal and for NULL, naming the type.
pub fn literal_to_proto(v: &ScalarValue) -> (r: Result<LiteralNode, EncodeError>)
    ensures
        match scalar_error(*v) {
            None => r == Ok::<LiteralNode, EncodeError>(literal_of(*v)->0),
            Some(e) => r == Err::<LiteralNode, EncodeError>(e),
        },
{
    match v {
        ScalarValue::Int8(Some(n)) => Ok(LiteralNode::Int { width: IntWidth::W8, value: *n as i64 }),
        ScalarValue::Int16(Some(n)) => Ok(LiteralNode::Int { width: IntWidth::W16, value: *n as i64 }),
        ScalarValue::Int32(Some(n)) => Ok(LiteralNode::Int { width: IntWidth::W32, value: *n as i64 }),
        ScalarValue::Int64(Some(n)) => Ok(LiteralNode::Int { width: IntWidth::W64, value: *n }),
        ScalarValue::UInt8(Some(n)) => Ok(LiteralNode::UInt { width: IntWidth::W8, value: *n as u64 }),
        ScalarValue::UInt16(Some(n)) => Ok(LiteralNode::UInt { width: IntWidth::W16, value: *n as u64 }),
        ScalarValue::UInt32(Some(n)) => Ok(LiteralNode::UInt { width: IntWidth::W32, value: *n as u64 }),
        ScalarValue::UInt64(Some(n)) => Ok(LiteralNode::UInt { width: IntWidth::W64, value: *n }),
        ScalarValue::Float32(Some(b)) => Ok(LiteralNode::Float32 { bits: *b }),
        ScalarValue::Float64(Some(b)) => Ok(LiteralNode::Float64 { bits: *b }),
        ScalarValue::Utf8(Some(s)) => Ok(LiteralNode::Utf8 { value: s.clone() }),
        ScalarValue::Boolean(_) => Err(EncodeError::UnsupportedScalar(DataType::Boolean)),
        ScalarValue::LargeUtf8(_) => Err(EncodeError::UnsupportedScalar(DataType::LargeUtf8)),
        ScalarValue::Binary(_) => Err(EncodeError::UnsupportedScalar(DataType::Binary)),
        ScalarValue::LargeBinary(_) => Err(EncodeError::UnsupportedScalar(DataType::LargeBinary)),
        ScalarValue::Date32(_) => Err(EncodeError::UnsupportedScalar(DataType::Date32)),
        ScalarValue::Date64(_) => Err(EncodeError::UnsupportedScalar(DataType::Date64)),
        ScalarValue::Timestamp(_) => Err(EncodeError::UnsupportedScalar(DataType::Timestamp)),
        ScalarValue::Interval(_) => Err(EncodeError::UnsupportedScalar(DataType::Interval)),
        ScalarValue::List(_) => Err(EncodeError::UnsupportedScalar(DataType::List)),
        ScalarValue::Int8(None) => Err(EncodeError::NullLiteral(DataType::Int8)),
        ScalarValue::Int16(None) => Err(EncodeError::NullLiteral(DataType::Int16)),
        ScalarValue::Int32(None) => Err(EncodeError::NullLiteral(DataType::Int32)),
        ScalarValue::Int64(None) => Err(EncodeError::NullLiteral(DataType::Int64)),
        ScalarValue::UInt8(None) => Err(EncodeError::NullLiteral(DataType::UInt8)),
        ScalarValue::UInt16(None) => Err(EncodeError::NullLiteral(DataType::UInt16)),
        ScalarValue::UInt32(None) => Err(EncodeError::NullLiteral(DataType::UInt32)),
        ScalarValue::UInt64(None) => Err(EncodeError::NullLiteral(DataType::UInt64)),
        ScalarValue::Float32(None) => Err(EncodeError::NullLiteral(DataType::Float32)),
        ScalarValue::Float64(None) => Err(EncodeError::NullLiteral(DataType::Float64)),
        ScalarValue::Utf8(None) => Err(EncodeError::NullLiteral(DataType::Utf8)),
    }
}

/// Decodes a wire literal; `None` where an integer does not fit its width tag.
pub fn literal_from_proto(n: &LiteralNode) -> (r: Option<ScalarValue>)
    ensures
        r == scalar_of(*n),
{
    match n {
        LiteralNode::Int { width, value } => {
            let v = *value;
            match width {
                IntWidth::W8 => if i8::MIN as i64 <= v && v <= i8::MAX as i64 {
                    Some(ScalarValue::Int8(Some(v as i8)))
                } else {
                    None
                },
                IntWidth::W16 => if i16::MIN as i64 <= v && v <= i16::MAX as i64 {
                    Some(ScalarValue::Int16(Some(v as i16)))
                } else {
                    None
                },
                IntWidth::W32 => if i32::MIN as i64 <= v && v <= i32::MAX as i64 {
                    Some(ScalarValue::Int32(Some(v as i32)))
                } else {
                    None
                },
                IntWidth::W64 => Some(ScalarValue::Int64(Some(v))),
            }
        },
        LiteralNode::UInt { width, value } => {
            let v = *value;
            match width {
                IntWidth::W8 => if v <= u8::MAX as u64 {
                    Some(ScalarValue::UInt8(Some(v as u8)))
                } else {
                    None
                },
                IntWidth::W16 => if v <= u16::MAX as u64 {
                    Some(ScalarValue::UInt16(Some(v as u16)))
                } else {
                    None
                },
                IntWidth::W32 => if v <= u32::MAX as u64 {
                    Some(ScalarValue::UInt32(Some(v as u32)))
                } else {
                    None
                },
                IntWidth::W64 => Some(ScalarValue::UInt64(Some(v))),
            }
        },
        LiteralNode::Float32 { bits } => Some(ScalarValue::Float32(Some(*bits))),
        LiteralNode::Float64 { bits } => Some(ScalarValue::Float64(Some(*bits))),
        LiteralNode::Utf8 { value } => Some(ScalarValue::Utf8(Some(value.clone()))),
    }
}

/// Every literal that encodes decodes back to itself exactly: same type, same
/// width, same value (for floats, the same bits).
pub proof fn lemma_literal_round_trip(v: ScalarValue)
    requires
        scalar_error(v) is None,
    ensures
        literal_of(v) is Some,
        scalar_of(literal_of(v)->0) == Some(v),
{
}

/// A NULL of a type that has a wire literal fails with an error naming that type.
pub proof fn lemma_null_literal_fails(v: ScalarValue)
    requires
        has_wire_literal(v),
        literal_of(v) is None,
    ensures
        scalar_error(v) == Some(EncodeError::NullLiteral(scalar_type(v))),
{
}

/// The flat layout of a literal in the wire message: one presence flag per
/// type, a shared slot for signed and one for unsigned integers, and a slot
/// each for floats (as bits) and strings. A well-formed message sets exactly
/// one flag.
#[derive(Debug, Clone, PartialEq, Eq)]
pub struct FlatLiteral {
    pub has_literal_string: bool,
    pub literal_string: String,
    pub has_literal_i8: bool,
    pub has_literal_i16: bool,
    pub has_literal_i32: bool,
    pub has_literal_i64: bool,
    pub literal_int: i64,
    pub has_literal_u8: bool,
    pub has_literal_u16: bool,
    pub has_literal_u32: bool,
    pub has_literal_u64: bool,
    pub literal_uint: u64,
    pub has_literal_f32: bool,
    pub literal_f32: u32,
    pub has_literal_f64: bool,
    pub literal_f64: u64,
}

/// How many presence flags a flat literal sets.
pub open spec fn flag_count(f: FlatLiteral) -> nat {
    (if f.has_literal_string { 1nat } else { 0nat }) + (if f.has_literal_i8 { 1nat } else { 0nat }) + (
    if f.has_literal_i16 { 1nat } else { 0nat }) + (if f.has_literal_i32 { 1nat } else { 0nat }) + (
    if f.has_literal_i64 { 1nat } else { 0nat }) + (if f.has_literal_u8 { 1nat } else { 0nat }) + (
    if f.has_literal_u16 { 1nat } else { 0nat }) + (if f.has_literal_u32 { 1nat } else { 0nat }) + (
    if f.has_literal_u64 { 1nat } else { 0nat }) + (if f.has_literal_f32 { 1nat } else { 0nat }) + (
    if f.has_literal_f64 { 1nat } else { 0nat })
}

/// The literal that a flat literal holds; `None` unless exactly one flag is set.
pub open spec fn literal_of_flat(f: FlatLiteral) -> Option<LiteralNode> {
    if flag_count(f) != 1 {
        None
    } else if f.has_literal_string {
        Some(LiteralNode::Utf8 { value: f.literal_string })
    } else if f.has_literal_i8 {
        Some(LiteralNode::Int { width: IntWidth::W8, value: f.literal_int })
    } else if f.has_literal_i16 {
        Some(LiteralNode::Int { width: IntWidth::W16, value: f.literal_int })
    } else if f.has_literal_i32 {
        Some(LiteralNode::Int { width: IntWidth::W32, value: f.literal_int })
    } else if f.has_literal_i64 {
        Some(LiteralNode::Int { width: IntWidth::W64, value: f.literal_int })
    } else if f.has_literal_u8 {
        Some(LiteralNode::UInt { width: IntWidth::W8, value: f.literal_uint })
    } else if f.has_literal_u16 {
        Some(LiteralNode::UInt { width: IntWidth::W16, value: f.literal_uint })
    } else if f.has_literal_u32 {
        Some(LiteralNode::UInt { width: IntWidth::W32, value: f.literal_uint })
    } else if f.has_literal_u64 {
        Some(LiteralNode::UInt { width: IntWidth::W64, value: f.literal_uint })
    } else if f.has_literal_f32 {
        Some(LiteralNode::Float32 { bits: f.literal_f32 })
    } else {
        Some(LiteralNode::Float64 { bits: f.literal_f64 })
    }
}

/// Lays a literal out flat: its one flag set, its value in its slot, every
/// other slot zero or empty.
pub fn literal_to_flat(n: &LiteralNode) -> (r: FlatLiteral)
    ensures
        literal_of_flat(r) == Some(*n),
        !(*n is Utf8) ==> r.literal_string@.len() == 0,
        !(*n is Int) ==> r.literal_int == 0,
        !(*n is UInt) ==> r.literal_uint == 0,
        !(*n is Float32) ==> r.literal_f32 == 0,
        !(*n is Float64) ==> r.literal_f64 == 0,
{
    let mut f = FlatLiteral {
        has_literal_string: false,
        literal_string: String::new(),
        has_literal_i8: false,
        has_literal_i16: false,
        has_literal_i32: false,
        has_literal_i64: false,
        literal_int: 0,
        has_literal_u8: false,
        has_literal_u16: false,
        has_literal_u32: false,
        has_literal_u64: false,
        literal_uint: 0,
        has_literal_f32: false,
        literal_f32: 0,
        has_literal_f64: false,
        literal_f64: 0,
    };
    match n {
        LiteralNode::Int { width, value } => {
            f.literal_int = *value;
            match width {
                IntWidth::W8 => f.has_literal_i8 = true,
                IntWidth::W16 => f.has_literal_i16 = true,
                IntWidth::W32 => f.has_literal_i32 = true,
                IntWidth::W64 => f.has_literal_i64 = true,
            }
        },
        LiteralNode::UInt { width, value } => {
            f.literal_uint = *value;
            match width {
                IntWidth::W8 => f.has_literal_u8 = true,
                IntWidth::W16 => f.has_literal_u16 = true,
                IntWidth::W32 => f.has_literal_u32 = true,
                IntWidth::W64 => f.has_literal_u64 = true,
            }
        },
        LiteralNode::Float32 { bits } => {
            f.has_literal_f32 = true;
            f.literal_f32 = *bits;
        },
        LiteralNode::Float64 { bits } => {
            f.has_literal_f64 = true;
            f.literal_f64 = *bits;
        },
        LiteralNode::Utf8 { value } => {
            f.has_literal_string = true;
            f.literal_string = value.clone();
        },
    }
    f
}

/// One for a set flag, zero for a clear one.
fn flag(b: bool) -> (r: u32)
    ensures
        r <= 1,
        r == (if b { 1nat } else { 0nat }),
{
    if b { 1 } else { 0 }
}

/// Reads a literal from its flat layout; `None` where no flag or more than
/// one flag is set.
pub fn literal_from_flat(f: &FlatLiteral) -> (r: Option<LiteralNode>)
    ensures
        r == literal_of_flat(*f),
{
    let count: u32 = flag(f.has_literal_string) + flag(f.has_literal_i8) + flag(f.has_literal_i16) + flag(
        f.has_literal_i32,
    ) + flag(f.has_literal_i64) + flag(f.has_literal_u8) + flag(f.has_literal_u16) + flag(f.has_literal_u32)
        + flag(f.has_literal_u64) + flag(f.has_literal_f32) + flag(f.has_literal_f64);
    if count != 1 {
        None
    } else if f.has_literal_string {
        Some(LiteralNode::Utf8 { value: f.literal_string.clone() })
    } else if f.has_literal_i8 {
        Some(LiteralNode::Int { width: IntWidth::W8, value: f.literal_int })
    } else if f.has_literal_i16 {
        Some(LiteralNode::Int { width: IntWidth::W16, value: f.literal_int })
    } else if f.has_literal_i32 {
        Some(LiteralNode::Int { width: IntWidth::W32, value: f.literal_int })
    } else if f.has_literal_i64 {
        Some(LiteralNode::Int { width: IntWidth::W64, value: f.literal_int })
    } else if f.has_literal_u8 {
        Some(LiteralNode::UInt { width: IntWidth::W8, value: f.literal_uint })
    } else if f.has_literal_u16 {
        Some(LiteralNode::UInt { width: IntWidth::W16, value: f.literal_uint })
    } else if f.has_literal_u32 {
        Some(LiteralNode::UInt { width: IntWidth::W32, value: f.literal_uint })
    } else if f.has_literal_u64 {
        Some(LiteralNode::UInt { width: IntWidth::W64, value: f.literal_uint })
    } else if f.has_literal_f32 {
        Some(LiteralNode::Float32 { bits: f.literal_f32 })
    } else {
        Some(LiteralNode::Float64 { bits: f.literal_f64 })
    }
}

/// Every literal that encodes comes back exactly through the flat wire layout:
/// laid out flat, read back, and decoded, it is the same value.
pub proof fn lemma_flat_literal_round_trip(v: ScalarValue, f: FlatLiteral)
    requires
        scalar_error(v) is None,
        literal_of_flat(f) == literal_of(v),
    ensures
        literal_of_flat(f) matches Some(n) && scalar_of(n) == Some(v),
{
}

} // verus!
