use vstd::prelude::*;
use crate::error::SerializeError;

verus! {

/// The kind that a schema declares for a field, independent of its repetition.
#[derive(Clone, Copy, Debug, PartialEq, Eq, Structural)]
pub enum FieldKind {
    Double,
    Float,
    Int64,
    Uint64,
    Int32,
    Fixed64,
    Fixed32,
    Bool,
    String,
    Group,
    Message,
    Bytes,
    Uint32,
    Enum,
    Sfixed32,
    Sfixed64,
    Sint32,
    Sint64,
}

/// The type of a value as it is read from a message and as it is emitted.
///
/// Kinds that differ only in their wire encoding share one value type: the
/// decoding is done before a value gets here.
#[derive(Clone, Copy, Debug, PartialEq, Eq, Structural)]
pub enum ValueType {
    /// Signed 32-bit integer.
    I32,
    /// Signed 64-bit integer.
    I64,
    /// Unsigned 32-bit integer.
    U32,
    /// Unsigned 64-bit integer.
    U64,
    /// Boolean.
    Bool,
    /// IEEE-754 binary32.
    F32,
    /// IEEE-754 binary64.
    F64,
    /// UTF-8 text.
    Text,
    /// Opaque bytes.
    Bytes,
    /// A resolved enum value.
    Enum,
    /// A nested message.
    Message,
}

impl FieldKind {
    /// The kind that a field descriptor names by `number`, in the numbering
    /// of the descriptor format; none for a number outside it.
    pub open spec fn spec_from_type_number(number: int) -> Option<FieldKind> {
        if number == 1 {
            Some(FieldKind::Double)
        } else if number == 2 {
            Some(FieldKind::Float)
        } else if number == 3 {
            Some(FieldKind::Int64)
        } else if number == 4 {
            Some(FieldKind::Uint64)
        } else if number == 5 {
            Some(FieldKind::Int32)
        } else if number == 6 {
            Some(FieldKind::Fixed64)
        } else if number == 7 {
            Some(FieldKind::Fixed32)
        } else if number == 8 {
            Some(FieldKind::Bool)
        } else if number == 9 {
            Some(FieldKind::String)
        } else if number == 10 {
            Some(FieldKind::Group)
        } else if number == 11 {
            Some(FieldKind::Message)
        } else if number == 12 {
            Some(FieldKind::Bytes)
        } else if number == 13 {
            Some(FieldKind::Uint32)
        } else if number == 14 {
            Some(FieldKind::Enum)
        } else if number == 15 {
            Some(FieldKind::Sfixed32)
        } else if number == 16 {
            Some(FieldKind::Sfixed64)
        } else if number == 17 {
            Some(FieldKind::Sint32)
        } else if number == 18 {
            Some(FieldKind::Sint64)
        } else {
            None
        }
    }

    /// Decodes the number by which a field descriptor names a kind.
    pub fn from_type_number(number: i32) -> (kind: Option<FieldKind>)
        ensures
            kind == Self::spec_from_type_number(number as int),
            kind is Some <==> 1 <= number <= 18,
    {
        match number {
            1 => Some(FieldKind::Double),
            2 => Some(FieldKind::Float),
            3 => Some(FieldKind::Int64),
            4 => Some(FieldKind::Uint64),
            5 => Some(FieldKind::Int32),
            6 => Some(FieldKind::Fixed64),
            7 => Some(FieldKind::Fixed32),
            8 => Some(FieldKind::Bool),
            9 => Some(FieldKind::String),
            10 => Some(FieldKind::Group),
            11 => Some(FieldKind::Message),
            12 => Some(FieldKind::Bytes),
            13 => Some(FieldKind::Uint32),
            14 => Some(FieldKind::Enum),
            15 => Some(FieldKind::Sfixed32),
            16 => Some(FieldKind::Sfixed64),
            17 => Some(FieldKind::Sint32),
            18 => Some(FieldKind::Sint64),
            _ => None,
        }
    }

    /// The value type that a field of this kind is read and emitted as, and
    /// the failure for the one kind that has none.
    pub open spec fn spec_value_type(self) -> Result<ValueType, SerializeError> {
        match self {
            FieldKind::Int32 | FieldKind::Sint32 | FieldKind::Sfixed32 => Ok(ValueType::I32),
            FieldKind::Int64 | FieldKind::Sint64 | FieldKind::Sfixed64 => Ok(ValueType::I64),
            FieldKind::Uint32 | FieldKind::Fixed32 => Ok(ValueType::U32),
            FieldKind::Uint64 | FieldKind::Fixed64 => Ok(ValueType::U64),
            FieldKind::Bool => Ok(ValueType::Bool),
            FieldKind::Float => Ok(ValueType::F32),
            FieldKind::Double => Ok(ValueType::F64),
            FieldKind::String => Ok(ValueType::Text),
            FieldKind::Bytes => Ok(ValueType::Bytes),
            FieldKind::Enum => Ok(ValueType::Enum),
            FieldKind::Message => Ok(ValueType::Message),
            FieldKind::Group => Err(SerializeError::UnsupportedFieldKind),
        }
    }

    /// Classifies the kind: the value type of its fields, or
    /// `UnsupportedFieldKind` for a group.
    pub fn value_type(self) -> (r: Result<ValueType, SerializeError>)
        ensures
            r == self.spec_value_type(),
    {
        match self {
            FieldKind::Int32 | FieldKind::Sint32 | FieldKind::Sfixed32 => Ok(ValueType::I32),
            FieldKind::Int64 | FieldKind::Sint64 | FieldKind::Sfixed64 => Ok(ValueType::I64),
            FieldKind::Uint32 | FieldKind::Fixed32 => Ok(ValueType::U32),
            FieldKind::Uint64 | FieldKind::Fixed64 => Ok(ValueType::U64),
            FieldKind::Bool => Ok(ValueType::Bool),
            FieldKind::Float => Ok(ValueType::F32),
            FieldKind::Double => Ok(ValueType::F64),
            FieldKind::String => Ok(ValueType::Text),
            FieldKind::Bytes => Ok(ValueType::Bytes),
            FieldKind::Enum => Ok(ValueType::Enum),
            FieldKind::Message => Ok(ValueType::Message),
            FieldKind::Group => Err(SerializeError::UnsupportedFieldKind),
        }
    }
}

} // verus!
