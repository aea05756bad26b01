use proto_serialize::{
    FieldData, FieldDescriptor, FieldKind, Node, Proto, ProtoEnum, ProtoField, Scalar,
    SerializeError, Value,
};

fn int32(v: i32) -> Value {
    Value::Scalar(Scalar::I32(v))
}

fn field(name: &str, kind: FieldKind, repeated: bool, data: FieldData) -> ProtoField {
    ProtoField { descriptor: FieldDescriptor { name: name.to_string(), kind, repeated }, data }
}

#[test]
fn singular_group_field_is_unsupported() {
    let group = ProtoField::singular("g", FieldKind::Group, Value::Message(Proto { fields: vec![] }));
    assert_eq!(group.serialize(), Err(SerializeError::UnsupportedFieldKind));
}

#[test]
fn repeated_group_field_is_unsupported_even_when_empty() {
    let group = ProtoField::repeated("g", FieldKind::Group, vec![]);
    assert_eq!(group.serialize(), Err(SerializeError::UnsupportedFieldKind));
}

#[test]
fn message_with_group_field_yields_no_tree() {
    let message = Proto {
        fields: vec![
            ProtoField::singular("id", FieldKind::Int32, int32(7)),
            ProtoField::singular("g", FieldKind::Group, int32(0)),
            ProtoField::singular("after", FieldKind::Int32, int32(8)),
        ],
    };
    assert_eq!(message.serialize(), Err(SerializeError::UnsupportedFieldKind));
}

#[test]
fn group_field_in_nested_message_fails_the_whole_pass() {
    let inner = Proto { fields: vec![ProtoField::repeated("g", FieldKind::Group, vec![])] };
    let outer = Proto {
        fields: vec![
            ProtoField::singular("id", FieldKind::Int32, int32(7)),
            ProtoField::repeated("children", FieldKind::Message, vec![
                Value::Message(Proto { fields: vec![] }),
                Value::Message(inner),
            ]),
        ],
    };
    assert_eq!(outer.serialize(), Err(SerializeError::UnsupportedFieldKind));
}

#[test]
fn list_held_for_singular_field_is_a_mismatch() {
    let f = field("n", FieldKind::Int32, false, FieldData::Repeated(vec![int32(1)]));
    assert_eq!(f.serialize(), Err(SerializeError::SchemaMismatch));
}

#[test]
fn single_value_held_for_repeated_field_is_a_mismatch() {
    let f = field("n", FieldKind::Int32, true, FieldData::Singular(int32(1)));
    assert_eq!(f.serialize(), Err(SerializeError::SchemaMismatch));
}

#[test]
fn value_of_another_width_is_a_mismatch() {
    let wide = ProtoField::singular("n", FieldKind::Int32, Value::Scalar(Scalar::I64(1)));
    assert_eq!(wide.serialize(), Err(SerializeError::SchemaMismatch));
    let unsigned = ProtoField::singular("n", FieldKind::Int32, Value::Scalar(Scalar::U32(1)));
    assert_eq!(unsigned.serialize(), Err(SerializeError::SchemaMismatch));
    let double = ProtoField::singular("x", FieldKind::Float, Value::Scalar(Scalar::F64(0)));
    assert_eq!(double.serialize(), Err(SerializeError::SchemaMismatch));
    let bits = ProtoField::singular("x", FieldKind::Float, Value::Scalar(Scalar::U32(0)));
    assert_eq!(bits.serialize(), Err(SerializeError::SchemaMismatch));
}

#[test]
fn text_and_bytes_do_not_stand_for_each_other() {
    let text = ProtoField::singular("b", FieldKind::Bytes, Value::Scalar(Scalar::Str("a".to_string())));
    assert_eq!(text.serialize(), Err(SerializeError::SchemaMismatch));
    let bytes = ProtoField::singular("s", FieldKind::String, Value::Scalar(Scalar::Bytes(vec![97])));
    assert_eq!(bytes.serialize(), Err(SerializeError::SchemaMismatch));
}

#[test]
fn enum_and_message_values_need_their_own_kinds() {
    let e = || Value::Enum(ProtoEnum { name: "A".to_string(), number: 0 });
    assert_eq!(
        ProtoField::singular("e", FieldKind::Int32, e()).serialize(),
        Err(SerializeError::SchemaMismatch)
    );
    assert_eq!(
        ProtoField::singular("e", FieldKind::String, e()).serialize(),
        Err(SerializeError::SchemaMismatch)
    );
    assert_eq!(
        ProtoField::singular("m", FieldKind::Message, e()).serialize(),
        Err(SerializeError::SchemaMismatch)
    );
    assert_eq!(
        ProtoField::singular("e", FieldKind::Enum, Value::Message(Proto { fields: vec![] })).serialize(),
        Err(SerializeError::SchemaMismatch)
    );
    assert_eq!(
        ProtoField::singular("e", FieldKind::Enum, int32(0)).serialize(),
        Err(SerializeError::SchemaMismatch)
    );
}

#[test]
fn one_mistyped_element_fails_the_repeated_field() {
    let f = ProtoField::repeated("ns", FieldKind::Uint32, vec![
        Value::Scalar(Scalar::U32(1)),
        Value::Scalar(Scalar::U64(2)),
        Value::Scalar(Scalar::U32(3)),
    ]);
    assert_eq!(f.serialize(), Err(SerializeError::SchemaMismatch));
}

#[test]
fn first_failing_field_decides_the_error() {
    let mismatch_first = Proto {
        fields: vec![
            ProtoField::singular("a", FieldKind::Bool, int32(1)),
            ProtoField::singular("g", FieldKind::Group, int32(1)),
        ],
    };
    assert_eq!(mismatch_first.serialize(), Err(SerializeError::SchemaMismatch));
    let group_first = Proto {
        fields: vec![
            ProtoField::singular("g", FieldKind::Group, int32(1)),
            ProtoField::singular("a", FieldKind::Bool, int32(1)),
        ],
    };
    assert_eq!(group_first.serialize(), Err(SerializeError::UnsupportedFieldKind));
}

#[test]
fn first_failing_element_decides_the_error() {
    let bad_inner = || Value::Message(Proto { fields: vec![ProtoField::repeated("g", FieldKind::Group, vec![])] });
    let group_first = ProtoField::repeated("ms", FieldKind::Message, vec![bad_inner(), int32(1)]);
    assert_eq!(group_first.serialize(), Err(SerializeError::UnsupportedFieldKind));
    let mismatch_first = ProtoField::repeated("ms", FieldKind::Message, vec![int32(1), bad_inner()]);
    assert_eq!(mismatch_first.serialize(), Err(SerializeError::SchemaMismatch));
}

#[test]
fn group_field_fails_whatever_it_holds() {
    let shapes = vec![
        field("g", FieldKind::Group, false, FieldData::Singular(int32(1))),
        field("g", FieldKind::Group, true, FieldData::Singular(int32(1))),
        field("g", FieldKind::Group, false, FieldData::Repeated(vec![])),
        field("g", FieldKind::Group, true, FieldData::Repeated(vec![int32(1)])),
    ];
    for f in shapes {
        assert_eq!(f.serialize(), Err(SerializeError::UnsupportedFieldKind));
    }
}

#[test]
fn failure_leaves_no_partial_tree() {
    let message = Proto {
        fields: vec![
            ProtoField::singular("ok", FieldKind::Int32, int32(1)),
            ProtoField::singular("bad", FieldKind::Int32, Value::Scalar(Scalar::Bool(true))),
        ],
    };
    let outcome: Result<Node, SerializeError> = message.serialize();
    assert!(outcome.is_err());
    assert_eq!(outcome.err(), Some(SerializeError::SchemaMismatch));
}
