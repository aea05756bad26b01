use vstd::prelude::*;
use crate::error::SerializeError;
use crate::kind::{FieldKind, ValueType};
use crate::message::{
    EnumValueView, FieldDataView, FieldDescriptorView, FieldView, MessageView, ValueView,
};
use crate::node::NodeView;
use crate::pass::{
    collect, is_first_failure, lemma_collect_err, lemma_collect_fails_at, lemma_collect_ok,
};

verus! {

/// A value is rendered exactly if it is renderable as the type asked for.
pub proof fn lemma_value_renders_iff_renderable(v: ValueView, t: ValueType)
    ensures
        v.serialize_as(t) is Ok <==> v.renderable_as(t),
    decreases v, 0nat,
{
    if let ValueView::Message(m) = v {
        lemma_message_renders_iff_renderable(m);
    }
}

/// A field is rendered exactly if it is renderable.
pub proof fn lemma_field_renders_iff_renderable(f: FieldView)
    ensures
        f.serialize() is Ok <==> f.renderable(),
    decreases f, 0nat,
{
    if let Ok(t) = f.descriptor.kind.spec_value_type() {
        match f.data {
            FieldDataView::Singular(v) => {
                lemma_value_renders_iff_renderable(v, t);
            },
            FieldDataView::Repeated(items) => {
                let outcomes = FieldView::item_outcomes(items, t);
                lemma_collect_ok(outcomes);
                assert forall|i: int| 0 <= i < items.len() implies ((#[trigger] outcomes[i]) is Ok
                    <==> items[i].renderable_as(t)) by {
                    lemma_value_renders_iff_renderable(items[i], t);
                }
                if f.descriptor.repeated && f.renderable() {
                    assert forall|i: int| 0 <= i < outcomes.len() implies (#[trigger] outcomes[i])
                        is Ok by {
                        assert(items[i].renderable_as(t));
                    }
                }
                if f.serialize() is Ok {
                    assert forall|i: int| 0 <= i < items.len() implies (#[trigger] items[i])
                        .renderable_as(t) by {
                        assert(outcomes[i] is Ok);
                    }
                }
            },
        }
    }
}

/// A message is rendered exactly if it is renderable: no field of it, or of
/// a message nested in it, is of the group kind or holds data that disagrees
/// with its descriptor.
pub proof fn lemma_message_renders_iff_renderable(m: MessageView)
    ensures
        m.serialize() is Ok <==> m.renderable(),
    decreases m, 1nat,
{
    let outcomes = m.field_outcomes();
    lemma_collect_ok(outcomes);
    assert forall|i: int| 0 <= i < m.fields.len() implies ((#[trigger] outcomes[i]) is Ok
        <==> m.fields[i].renderable()) by {
        lemma_field_renders_iff_renderable(m.fields[i]);
    }
    if m.renderable() {
        assert forall|i: int| 0 <= i < outcomes.len() implies (#[trigger] outcomes[i]) is Ok by {
            assert(m.fields[i].renderable());
        }
    }
    if m.serialize() is Ok {
        assert forall|i: int| 0 <= i < m.fields.len() implies (#[trigger] m.fields[i])
            .renderable() by {
            assert(outcomes[i] is Ok);
        }
    }
}

/// A message that is rendered comes out as a map: one entry for each
/// declared field, in declaration order, keyed by the field's name and
/// holding the field's own rendering; the length told to the encoder is the
/// number of fields. Where the schema's names are distinct, so are the keys.
pub proof fn lemma_message_renders_as_map_of_its_fields(m: MessageView)
    requires
        m.serialize() is Ok,
    ensures
        m.serialize()->Ok_0 matches NodeView::Mapping(entries) && {
            &&& entries.len() == m.fields.len()
            &&& forall|i: int|
                0 <= i < m.fields.len() ==> (#[trigger] entries[i]).0
                    == m.fields[i].descriptor.name
            &&& forall|i: int|
                0 <= i < m.fields.len() ==> #[trigger] m.fields[i].serialize() == Ok::<
                    NodeView,
                    SerializeError,
                >(entries[i].1)
        },
        m.serialize()->Ok_0.keys() == m.field_names(),
        m.serialize()->Ok_0.len_hint() == Some(m.fields.len()),
        m.field_names().no_duplicates() ==> m.serialize()->Ok_0.keys().no_duplicates(),
{
    lemma_collect_ok(m.field_outcomes());
    let entries = m.serialize()->Ok_0->Mapping_0;
    assert forall|i: int| 0 <= i < m.fields.len() implies #[trigger] m.fields[i].serialize()
        == Ok::<NodeView, SerializeError>(entries[i].1) by {
        assert(m.field_outcomes()[i] == m.fields[i].serialize());
    }
    assert(m.serialize()->Ok_0.keys() =~= m.field_names());
}

/// A singular field that is rendered holds one value, of the type that the
/// declared kind stands for, and is rendered as that value.
pub proof fn lemma_singular_field_renders_its_value(f: FieldView)
    requires
        !f.descriptor.repeated,
        f.serialize() is Ok,
    ensures
        f.data matches FieldDataView::Singular(v) && f.descriptor.kind.spec_value_type() matches Ok(
            t,
        ) && v.value_type() == t && f.serialize() == v.serialize_as(t),
{
}

/// A singular field of a scalar kind is rendered as the scalar it holds,
/// unchanged, and that scalar is of the type that the kind stands for: a
/// float field comes out as 32 bits, never as 64.
pub proof fn lemma_scalar_field_keeps_value_and_type(f: FieldView)
    requires
        !f.descriptor.repeated,
        f.serialize() is Ok,
        f.descriptor.kind != FieldKind::Enum,
        f.descriptor.kind != FieldKind::Message,
    ensures
        f.serialize()->Ok_0 matches NodeView::Scalar(s) && {
            &&& f.data == FieldDataView::Singular(ValueView::Scalar(s))
            &&& f.descriptor.kind.spec_value_type() == Ok::<ValueType, SerializeError>(
                s.value_type(),
            )
        },
{
}

/// The singular field that is declared as `descriptor`, but for the
/// repetition, and holds `v`.
pub open spec fn singular_field(descriptor: FieldDescriptorView, v: ValueView) -> FieldView {
    FieldView {
        descriptor: FieldDescriptorView { repeated: false, ..descriptor },
        data: FieldDataView::Singular(v),
    }
}

/// A repeated field that is rendered comes out as a sequence with one
/// element for each element it holds, in order, each rendered as a singular
/// field of the same kind that holds it would be; the length told to the
/// encoder is the number of elements.
pub proof fn lemma_repeated_field_renders_as_sequence(f: FieldView)
    requires
        f.descriptor.repeated,
        f.serialize() is Ok,
    ensures
        f.data is Repeated,
        f.serialize()->Ok_0 is Sequence,
        f.serialize()->Ok_0->Sequence_0.len() == f.data->Repeated_0.len(),
        f.serialize()->Ok_0.len_hint() == Some(f.data->Repeated_0.len()),
        forall|i: int|
            0 <= i < f.data->Repeated_0.len() ==> #[trigger] singular_field(
                f.descriptor,
                f.data->Repeated_0[i],
            ).serialize() == Ok::<NodeView, SerializeError>(f.serialize()->Ok_0->Sequence_0[i]),
{
    let items = f.data->Repeated_0;
    let t = f.descriptor.kind.spec_value_type()->Ok_0;
    let outcomes = FieldView::item_outcomes(items, t);
    lemma_collect_ok(outcomes);
    let nodes = f.serialize()->Ok_0->Sequence_0;
    assert forall|i: int| 0 <= i < items.len() implies #[trigger] singular_field(
        f.descriptor,
        items[i],
    ).serialize() == Ok::<NodeView, SerializeError>(nodes[i]) by {
        assert(outcomes[i] == items[i].serialize_as(t));
    }
}

/// A repeated field that holds no element is rendered as the empty
/// sequence, whatever its kind, the group kind apart.
pub proof fn lemma_empty_repeated_field_renders_as_empty_sequence(f: FieldView)
    requires
        f.descriptor.repeated,
        f.data == FieldDataView::Repeated(Seq::<ValueView>::empty()),
        f.descriptor.kind != FieldKind::Group,
    ensures
        f.serialize() == Ok::<NodeView, SerializeError>(NodeView::Sequence(Seq::empty())),
        f.serialize()->Ok_0.len_hint() == Some(0nat),
{
    let t = f.descriptor.kind.spec_value_type()->Ok_0;
    let outcomes = FieldView::item_outcomes(Seq::<ValueView>::empty(), t);
    lemma_collect_ok(outcomes);
    assert(collect(outcomes)->Ok_0 =~= Seq::<NodeView>::empty());
}

/// A nested message is rendered as the message itself would be: where it is
/// rendered, as a map keyed by the names of its own fields. That is what a
/// singular message field holding it is rendered as.
pub proof fn lemma_nested_message_renders_as_its_own_map(
    m: MessageView,
    descriptor: FieldDescriptorView,
)
    requires
        descriptor.kind == FieldKind::Message,
    ensures
        ValueView::Message(m).serialize_as(ValueType::Message) == m.serialize(),
        singular_field(descriptor, ValueView::Message(m)).serialize() == m.serialize(),
        m.serialize() matches Ok(node) ==> node is Mapping && node.keys() == m.field_names(),
{
    if m.serialize() is Ok {
        lemma_message_renders_as_map_of_its_fields(m);
    }
}

/// Each element of a repeated message field that is rendered is a message,
/// and is rendered as that message itself would be: as a map keyed by the
/// names of its own fields.
pub proof fn lemma_repeated_message_field_renders_as_maps(f: FieldView)
    requires
        f.descriptor.kind == FieldKind::Message,
        f.descriptor.repeated,
        f.serialize() is Ok,
    ensures
        f.data is Repeated,
        f.serialize()->Ok_0 is Sequence,
        f.serialize()->Ok_0->Sequence_0.len() == f.data->Repeated_0.len(),
        forall|i: int|
            0 <= i < f.data->Repeated_0.len() ==> {
                &&& (#[trigger] f.data->Repeated_0[i]) matches ValueView::Message(m)
                &&& m.serialize() == Ok::<NodeView, SerializeError>(
                    f.serialize()->Ok_0->Sequence_0[i],
                )
                &&& f.serialize()->Ok_0->Sequence_0[i] is Mapping
                &&& f.serialize()->Ok_0->Sequence_0[i].keys() == m.field_names()
            },
{
    lemma_repeated_field_renders_as_sequence(f);
    let items = f.data->Repeated_0;
    let nodes = f.serialize()->Ok_0->Sequence_0;
    assert forall|i: int| 0 <= i < items.len() implies {
        &&& (#[trigger] items[i]) matches ValueView::Message(m)
        &&& m.serialize() == Ok::<NodeView, SerializeError>(nodes[i])
        &&& nodes[i] is Mapping
        &&& nodes[i].keys() == m.field_names()
    } by {
        assert(singular_field(f.descriptor, items[i]).serialize() is Ok);
        lemma_message_renders_as_map_of_its_fields(items[i]->Message_0);
    }
}

/// An enum value is rendered as the symbolic name of its variant, whatever
/// its ordinal: two values of one name are rendered alike.
pub proof fn lemma_enum_renders_as_its_name(e: EnumValueView, other: EnumValueView)
    ensures
        ValueView::Enum(e).serialize_as(ValueType::Enum) == Ok::<NodeView, SerializeError>(
            NodeView::Variant(e.name),
        ),
        e.name == other.name ==> e.serialize() == other.serialize(),
{
}

/// A field of the group kind is never rendered, whatever it holds.
pub proof fn lemma_group_field_fails(f: FieldView)
    requires
        f.descriptor.kind == FieldKind::Group,
    ensures
        f.serialize() == Err::<NodeView, SerializeError>(SerializeError::UnsupportedFieldKind),
{
}

/// A message that declares a field of the group kind is not rendered; where
/// every field before it is rendered, the failure is `UnsupportedFieldKind`.
pub proof fn lemma_message_with_group_field_fails(m: MessageView, i: int)
    requires
        0 <= i < m.fields.len(),
        m.fields[i].descriptor.kind == FieldKind::Group,
    ensures
        m.serialize() is Err,
        (forall|j: int| 0 <= j < i ==> (#[trigger] m.fields[j]).serialize() is Ok)
            ==> m.serialize() == Err::<NodeView, SerializeError>(
            SerializeError::UnsupportedFieldKind,
        ),
{
    let outcomes = m.field_outcomes();
    assert(outcomes[i] == m.fields[i].serialize());
    lemma_collect_ok(outcomes);
    if forall|j: int| 0 <= j < i ==> (#[trigger] m.fields[j]).serialize() is Ok {
        assert forall|j: int| 0 <= j < i implies (#[trigger] outcomes[j]) is Ok by {
            assert(m.fields[j].serialize() is Ok);
        }
        lemma_collect_fails_at(outcomes, i);
    }
}

/// A message that is not rendered fails as the first of its fields that
/// fails, in declaration order.
pub proof fn lemma_message_fails_as_its_first_failing_field(m: MessageView)
    requires
        m.serialize() is Err,
    ensures
        exists|k: int|
            is_first_failure(m.field_outcomes(), k) && m.serialize()
                == #[trigger] m.fields[k].serialize(),
{
    let outcomes = m.field_outcomes();
    lemma_collect_err(outcomes);
    let k = choose|k: int|
        is_first_failure(outcomes, k) && collect(outcomes) == Err::<Seq<NodeView>, SerializeError>(
            outcomes[k]->Err_0,
        );
    assert(outcomes[k] == m.fields[k].serialize());
    assert(is_first_failure(m.field_outcomes(), k) && m.serialize() == m.fields[k].serialize());
}

/// A repeated field of a kind other than the group kind that holds a list
/// and is not rendered fails as the first of its elements that fails.
pub proof fn lemma_repeated_field_fails_as_its_first_failing_element(f: FieldView)
    requires
        f.descriptor.repeated,
        f.descriptor.kind != FieldKind::Group,
        f.data is Repeated,
        f.serialize() is Err,
    ensures
        exists|k: int|
            is_first_failure(
                FieldView::item_outcomes(
                    f.data->Repeated_0,
                    f.descriptor.kind.spec_value_type()->Ok_0,
                ),
                k,
            ) && f.serialize() == #[trigger] f.data->Repeated_0[k].serialize_as(
                f.descriptor.kind.spec_value_type()->Ok_0,
            ),
{
    let t = f.descriptor.kind.spec_value_type()->Ok_0;
    let items = f.data->Repeated_0;
    let outcomes = FieldView::item_outcomes(items, t);
    lemma_collect_err(outcomes);
    let k = choose|k: int|
        is_first_failure(outcomes, k) && collect(outcomes) == Err::<Seq<NodeView>, SerializeError>(
            outcomes[k]->Err_0,
        );
    assert(outcomes[k] == items[k].serialize_as(t));
    assert(is_first_failure(outcomes, k) && f.serialize() == items[k].serialize_as(t));
}

} // verus!
