use proto_serialize::{FieldKind, Scalar, SerializeError, Value, ValueType, ProtoEnum, Proto};

#[test]
fn signed_32_bit_kinds_share_one_value_type() {
    assert_eq!(FieldKind::Int32.value_type(), Ok(ValueType::I32));
    assert_eq!(FieldKind::Sint32.value_type(), Ok(ValueType::I32));
    assert_eq!(FieldKind::Sfixed32.value_type(), Ok(ValueType::I32));
}

#[test]
fn signed_64_bit_kinds_share_one_value_type() {
    assert_eq!(FieldKind::Int64.value_type(), Ok(ValueType::I64));
    assert_eq!(FieldKind::Sint64.value_type(), Ok(ValueType::I64));
    assert_eq!(FieldKind::Sfixed64.value_type(), Ok(ValueType::I64));
}

#[test]
fn unsigned_kinds_keep_their_width() {
    assert_eq!(FieldKind::Uint32.value_type(), Ok(ValueType::U32));
    assert_eq!(FieldKind::Fixed32.value_type(), Ok(ValueType::U32));
    assert_eq!(FieldKind::Uint64.value_type(), Ok(ValueType::U64));
    assert_eq!(FieldKind::Fixed64.value_type(), Ok(ValueType::U64));
}

#[test]
fn float_kind_is_read_as_binary32_and_double_as_binary64() {
    assert_eq!(FieldKind::Float.value_type(), Ok(ValueType::F32));
    assert_eq!(FieldKind::Double.value_type(), Ok(ValueType::F64));
    assert_ne!(FieldKind::Float.value_type(), Ok(ValueType::F64));
}

#[test]
fn remaining_kinds_have_their_own_value_types() {
    assert_eq!(FieldKind::Bool.value_type(), Ok(ValueType::Bool));
    assert_eq!(FieldKind::String.value_type(), Ok(ValueType::Text));
    assert_eq!(FieldKind::Bytes.value_type(), Ok(ValueType::Bytes));
    assert_eq!(FieldKind::Enum.value_type(), Ok(ValueType::Enum));
    assert_eq!(FieldKind::Message.value_type(), Ok(ValueType::Message));
}

#[test]
fn group_kind_has_no_value_type() {
    assert_eq!(FieldKind::Group.value_type(), Err(SerializeError::UnsupportedFieldKind));
}

#[test]
fn type_numbers_decode_to_their_kinds() {
    let expected = [
        FieldKind::Double,
        FieldKind::Float,
        FieldKind::Int64,
        FieldKind::Uint64,
        FieldKind::Int32,
        FieldKind::Fixed64,
        FieldKind::Fixed32,
        FieldKind::Bool,
        FieldKind::String,
        FieldKind::Group,
        FieldKind::Message,
        FieldKind::Bytes,
        FieldKind::Uint32,
        FieldKind::Enum,
        FieldKind::Sfixed32,
        FieldKind::Sfixed64,
        FieldKind::Sint32,
        FieldKind::Sint64,
    ];
    for (i, kind) in expected.iter().enumerate() {
        assert_eq!(FieldKind::from_type_number(i as i32 + 1), Some(*kind));
    }
}

#[test]
fn type_numbers_outside_the_numbering_decode_to_nothing() {
    assert_eq!(FieldKind::from_type_number(0), None);
    assert_eq!(FieldKind::from_type_number(19), None);
    assert_eq!(FieldKind::from_type_number(-1), None);
    assert_eq!(FieldKind::from_type_number(i32::MAX), None);
    assert_eq!(FieldKind::from_type_number(i32::MIN), None);
}

#[test]
fn scalars_report_their_types() {
    assert_eq!(Scalar::I32(-1).value_type(), ValueType::I32);
    assert_eq!(Scalar::I64(-1).value_type(), ValueType::I64);
    assert_eq!(Scalar::U32(1).value_type(), ValueType::U32);
    assert_eq!(Scalar::U64(1).value_type(), ValueType::U64);
    assert_eq!(Scalar::Bool(true).value_type(), ValueType::Bool);
    assert_eq!(Scalar::F32(1.5f32.to_bits()).value_type(), ValueType::F32);
    assert_eq!(Scalar::F64(1.5f64.to_bits()).value_type(), ValueType::F64);
    assert_eq!(Scalar::Str("x".to_string()).value_type(), ValueType::Text);
    assert_eq!(Scalar::Bytes(vec![0, 255]).value_type(), ValueType::Bytes);
}

#[test]
fn values_report_their_types() {
    assert_eq!(Value::Scalar(Scalar::Bool(false)).value_type(), ValueType::Bool);
    let e = ProtoEnum { name: "RED".to_string(), number: 0 };
    assert_eq!(Value::Enum(e).value_type(), ValueType::Enum);
    assert_eq!(Value::Message(Proto { fields: vec![] }).value_type(), ValueType::Message);
}

#[test]
fn cloned_scalar_equals_the_one_it_was_cloned_from() {
    let text = Scalar::Str("héllo".to_string());
    assert_eq!(text.clone(), text);
    let bytes = Scalar::Bytes(vec![0, 1, 2, 255]);
    assert_eq!(bytes.clone(), bytes);
    let bits = Scalar::F32(f32::NAN.to_bits());
    assert_eq!(bits.clone(), bits);
}

#[test]
fn error_messages_name_the_failure() {
    assert_eq!(SerializeError::UnsupportedFieldKind.message(), "Protobuf groups not supported");
    assert_eq!(
        SerializeError::SchemaMismatch.message(),
        "Protobuf message does not match its schema"
    );
}
