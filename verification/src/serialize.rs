use vstd::prelude::*;
use crate::error::SerializeError;
use crate::kind::ValueType;
use crate::message::{
    EnumValueView, FieldData, FieldDataView, FieldView, MessageView, Proto, ProtoEnum, ProtoField,
    Value, ValueView,
};
use crate::node::{Node, NodeView};
use crate::laws::{
    lemma_field_renders_iff_renderable, lemma_message_renders_as_map_of_its_fields,
    lemma_message_renders_iff_renderable, lemma_value_renders_iff_renderable,
};
use crate::pass::{collect, lemma_collect_fails_at, Outcome};

verus! {

impl EnumValueView {
    /// An enum value is rendered as the name of its variant; its ordinal
    /// plays no part.
    pub open spec fn serialize(self) -> NodeView {
        NodeView::Variant(self.name)
    }
}

impl ValueView {
    /// Whether the value can be rendered for a field that declares it to be
    /// of type `t`: it is of that type, and a nested message is renderable.
    pub open spec fn renderable_as(self, t: ValueType) -> bool
        decreases self, 0nat,
    {
        &&& self.value_type() == t
        &&& self matches ValueView::Message(m) ==> m.renderable()
    }

    /// The rendering of a value that its field declares to be of type `t`:
    /// a scalar as itself, an enum value by name, a nested message as its
    /// own rendering; `SchemaMismatch` where the value is of another type.
    pub open spec fn serialize_as(self, t: ValueType) -> Outcome
        decreases self, 0nat,
    {
        if self.value_type() != t {
            Err(SerializeError::SchemaMismatch)
        } else {
            match self {
                ValueView::Scalar(s) => Ok(NodeView::Scalar(s)),
                ValueView::Enum(e) => Ok(e.serialize()),
                ValueView::Message(m) => m.serialize(),
            }
        }
    }
}

impl FieldView {
    /// Whether the field can be rendered: its kind is not the group kind, it
    /// holds one value if it is singular and a list if it is repeated, and
    /// each value can be rendered as the declared kind asks.
    pub open spec fn renderable(self) -> bool
        decreases self, 0nat,
    {
        match self.descriptor.kind.spec_value_type() {
            Err(_) => false,
            Ok(t) => match self.data {
                FieldDataView::Singular(v) => !self.descriptor.repeated && v.renderable_as(t),
                FieldDataView::Repeated(items) => self.descriptor.repeated && forall|i: int|
                    0 <= i < items.len() ==> (#[trigger] items[i]).renderable_as(t),
            },
        }
    }

    /// The outcome of each element of a repeated field whose elements are
    /// `items`, read as type `t`.
    pub open spec fn item_outcomes(items: Seq<ValueView>, t: ValueType) -> Seq<Outcome>
        decreases items, 0nat,
    {
        Seq::new(
            items.len(),
            |i: int| if 0 <= i < items.len() { items[i].serialize_as(t) } else { arbitrary() },
        )
    }

    /// The rendering of a field.
    ///
    /// A field of the group kind fails with `UnsupportedFieldKind`, whatever
    /// it holds. Otherwise a singular field is rendered as its one value and
    /// a repeated field as the sequence of its elements, each read as the
    /// type that the declared kind stands for; data of the other shape is a
    /// `SchemaMismatch`.
    pub open spec fn serialize(self) -> Outcome
        decreases self, 0nat,
    {
        match self.descriptor.kind.spec_value_type() {
            Err(e) => Err(e),
            Ok(t) => match self.data {
                FieldDataView::Singular(v) => if self.descriptor.repeated {
                    Err(SerializeError::SchemaMismatch)
                } else {
                    v.serialize_as(t)
                },
                FieldDataView::Repeated(items) => if !self.descriptor.repeated {
                    Err(SerializeError::SchemaMismatch)
                } else {
                    match collect(Self::item_outcomes(items, t)) {
                        Ok(nodes) => Ok(NodeView::Sequence(nodes)),
                        Err(e) => Err(e),
                    }
                },
            },
        }
    }
}

impl MessageView {
    /// Whether the message can be rendered: each of its fields can.
    pub open spec fn renderable(self) -> bool
        decreases self, 0nat,
    {
        forall|i: int| 0 <= i < self.fields.len() ==> (#[trigger] self.fields[i]).renderable()
    }

    /// The outcome of each field, in declaration order.
    pub open spec fn field_outcomes(self) -> Seq<Outcome>
        decreases self, 0nat,
    {
        Seq::new(
            self.fields.len(),
            |i: int|
                if 0 <= i < self.fields.len() {
                    self.fields[i].serialize()
                } else {
                    arbitrary()
                },
        )
    }

    /// The rendering of a message: a map with one entry for each declared
    /// field, in declaration order, keyed by the field's name.
    pub open spec fn serialize(self) -> Outcome
        decreases self, 1nat,
    {
        match collect(self.field_outcomes()) {
            Ok(nodes) => Ok(
                NodeView::Mapping(
                    Seq::new(
                        self.fields.len(),
                        |i: int| (self.fields[i].descriptor.name, nodes[i]),
                    ),
                ),
            ),
            Err(e) => Err(e),
        }
    }
}

/// What a result of the rendering functions denotes.
pub open spec fn outcome_of(r: Result<Node, SerializeError>) -> Outcome {
    match r {
        Ok(node) => Ok(node@),
        Err(e) => Err(e),
    }
}

impl ProtoEnum {
    /// Renders the enum value as the symbolic name of its variant.
    pub fn serialize(&self) -> (node: Node)
        ensures
            node@ == NodeView::Variant(self@.name),
            node@ == self@.serialize(),
    {
        Node::Variant(self.name.clone())
    }
}

impl Value {
    /// Renders the value for a field that declares it to be of type `t`: a
    /// scalar as itself, an enum value by name, a nested message as its own
    /// map.
    ///
    /// Fails with `SchemaMismatch` if the value is of another type, and as
    /// the nested message fails if that is not rendered.
    pub fn serialize_as(&self, t: ValueType) -> (r: Result<Node, SerializeError>)
        ensures
            outcome_of(r) == self@.serialize_as(t),
            r is Ok <==> self@.renderable_as(t),
        decreases self, 0nat,
    {
        proof {
            lemma_value_renders_iff_renderable(self@, t);
        }
        if self.value_type() != t {
            return Err(SerializeError::SchemaMismatch);
        }
        match self {
            Value::Scalar(s) => Ok(Node::Scalar(s.clone())),
            Value::Enum(e) => Ok(e.serialize()),
            Value::Message(m) => m.serialize(),
        }
    }
}

impl ProtoField {
    /// Renders the field: its one value if it is singular, the sequence of
    /// its elements if it is repeated, each read as the type that the
    /// declared kind stands for.
    ///
    /// Fails with `UnsupportedFieldKind` if the field is of the group kind,
    /// with `SchemaMismatch` if a singular field holds a list or a repeated
    /// field a single value, and otherwise as its first value that is not
    /// rendered.
    #[verifier::loop_isolation(false)]
    pub fn serialize(&self) -> (r: Result<Node, SerializeError>)
        ensures
            outcome_of(r) == self@.serialize(),
            r is Ok <==> self@.renderable(),
        decreases self, 0nat,
    {
        proof {
            lemma_field_renders_iff_renderable(self@);
        }
        let t = match self.descriptor.kind.value_type() {
            Ok(t) => t,
            Err(e) => {
                return Err(e);
            },
        };
        match &self.data {
            FieldData::Singular(value) => {
                if self.descriptor.repeated {
                    Err(SerializeError::SchemaMismatch)
                } else {
                    value.serialize_as(t)
                }
            },
            FieldData::Repeated(items) => {
                if !self.descriptor.repeated {
                    return Err(SerializeError::SchemaMismatch);
                }
                let ghost outcomes = FieldView::item_outcomes(self@.data->Repeated_0, t);
                assert(self@.data->Repeated_0.len() == items.len());
                assert forall|j: int| 0 <= j < items.len() implies #[trigger] outcomes[j]
                    == items[j]@.serialize_as(t) by {
                    assert(self@.data->Repeated_0[j] == items[j]@);
                }
                let mut nodes: Vec<Node> = Vec::with_capacity(items.len());
                let mut i: usize = 0;
                while i < items.len()
                    invariant
                        i <= items.len(),
                        outcomes.len() == items.len(),
                        forall|j: int| 0 <= j < items.len() ==> #[trigger] outcomes[j]
                            == items[j]@.serialize_as(t),
                        nodes.len() == i,
                        forall|j: int|
                            0 <= j < i ==> (#[trigger] outcomes[j]) == Ok::<
                                NodeView,
                                SerializeError,
                            >(nodes[j]@),
                    decreases items.len() - i,
                {
                    match items[i].serialize_as(t) {
                        Ok(node) => {
                            nodes.push(node);
                        },
                        Err(e) => {
                            proof {
                                lemma_collect_fails_at(outcomes, i as int);
                            }
                            return Err(e);
                        },
                    }
                    i += 1;
                }
                let node = Node::Sequence(nodes);
                proof {
                    assert(collect(outcomes) is Ok);
                    assert(node@->Sequence_0 =~= collect(outcomes)->Ok_0);
                }
                Ok(node)
            },
        }
    }
}

impl Proto {
    /// Renders the message as a map with one entry for each declared field,
    /// in declaration order, keyed by the field's name. No field is left
    /// out, whatever it holds.
    ///
    /// The pass stops at the first field that fails and fails as that field
    /// does; nothing of the message is rendered then. The walk recurs once
    /// for each level of nesting, so its depth is that of the message.
    #[verifier::loop_isolation(false)]
    pub fn serialize(&self) -> (r: Result<Node, SerializeError>)
        ensures
            outcome_of(r) == self@.serialize(),
            r is Ok <==> self@.renderable(),
            r matches Ok(node) ==> node@.keys() == self@.field_names() && node@.len_hint() == Some(
                self@.fields.len(),
            ),
        decreases self, 1nat,
    {
        proof {
            lemma_message_renders_iff_renderable(self@);
            if self@.serialize() is Ok {
                lemma_message_renders_as_map_of_its_fields(self@);
            }
        }
        let ghost outcomes = self@.field_outcomes();
        assert(self@.fields.len() == self.fields.len());
        assert forall|j: int| 0 <= j < self.fields.len() implies #[trigger] outcomes[j]
            == self.fields[j]@.serialize() by {
            assert(self@.fields[j] == self.fields[j]@);
        }
        let mut entries: Vec<(String, Node)> = Vec::with_capacity(self.fields.len());
        let mut i: usize = 0;
        while i < self.fields.len()
            invariant
                i <= self.fields.len(),
                outcomes.len() == self.fields.len(),
                forall|j: int| 0 <= j < self.fields.len() ==> #[trigger] outcomes[j]
                    == self.fields[j]@.serialize(),
                entries.len() == i,
                forall|j: int|
                    0 <= j < i ==> (#[trigger] outcomes[j]) == Ok::<NodeView, SerializeError>(
                        entries[j].1@,
                    ),
                forall|j: int|
                    0 <= j < i ==> (#[trigger] entries[j]).0@ == self.fields[j].descriptor.name@,
            decreases self.fields.len() - i,
        {
            let field = &self.fields[i];
            match field.serialize() {
                Ok(node) => {
                    entries.push((field.descriptor.name.clone(), node));
                },
                Err(e) => {
                    proof {
                        lemma_collect_fails_at(outcomes, i as int);
                    }
                    return Err(e);
                },
            }
            i += 1;
        }
        let node = Node::Mapping(entries);
        proof {
            assert(collect(outcomes) is Ok);
            assert forall|j: int| 0 <= j < self.fields.len() implies self@.fields[j].descriptor.name
                == self.fields[j].descriptor.name@ by {
                assert(self@.fields[j] == self.fields[j]@);
            }
            assert(node@->Mapping_0 =~= self@.serialize()->Ok_0->Mapping_0);
        }
        Ok(node)
    }
}

} // verus!
