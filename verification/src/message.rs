use vstd::prelude::*;
use crate::kind::{FieldKind, ValueType};
use crate::node::{Scalar, ScalarView};

verus! {

/// A resolved enum value: the symbolic name of its variant and its ordinal.
#[derive(Debug, PartialEq, Eq)]
pub struct ProtoEnum {
    pub name: String,
    pub number: i32,
}

/// One value of a field, as the message holds it.
#[derive(Debug, PartialEq, Eq)]
pub enum Value {
    Scalar(Scalar),
    Enum(ProtoEnum),
    Message(Proto),
}

/// What a field holds: one value, or the elements of a repeated field in
/// order.
#[derive(Debug, PartialEq, Eq)]
pub enum FieldData {
    Singular(Value),
    Repeated(Vec<Value>),
}

/// What a schema declares of a field: its name, its kind, and whether it is
/// repeated.
#[derive(Debug, PartialEq, Eq)]
pub struct FieldDescriptor {
    pub name: String,
    pub kind: FieldKind,
    pub repeated: bool,
}

/// A field of a message: its descriptor, and the values that the message
/// holds for it.
#[derive(Debug, PartialEq, Eq)]
pub struct ProtoField {
    pub descriptor: FieldDescriptor,
    pub data: FieldData,
}

/// A message: its fields in the order in which the schema declares them.
#[derive(Debug, PartialEq, Eq)]
pub struct Proto {
    pub fields: Vec<ProtoField>,
}

/// What a [`ProtoEnum`] denotes.
pub struct EnumValueView {
    pub name: Seq<char>,
    pub number: i32,
}

/// What a [`Value`] denotes.
pub enum ValueView {
    Scalar(ScalarView),
    Enum(EnumValueView),
    Message(MessageView),
}

/// What a [`FieldData`] denotes.
pub enum FieldDataView {
    Singular(ValueView),
    Repeated(Seq<ValueView>),
}

/// What a [`FieldDescriptor`] denotes.
pub struct FieldDescriptorView {
    pub name: Seq<char>,
    pub kind: FieldKind,
    pub repeated: bool,
}

/// What a [`ProtoField`] denotes.
pub struct FieldView {
    pub descriptor: FieldDescriptorView,
    pub data: FieldDataView,
}

/// What a [`Proto`] denotes.
pub struct MessageView {
    pub fields: Seq<FieldView>,
}

impl ValueView {
    /// The type of the value.
    pub open spec fn value_type(self) -> ValueType {
        match self {
            ValueView::Scalar(s) => s.value_type(),
            ValueView::Enum(_) => ValueType::Enum,
            ValueView::Message(_) => ValueType::Message,
        }
    }
}

impl MessageView {
    /// The names of the fields, in declaration order.
    pub open spec fn field_names(self) -> Seq<Seq<char>> {
        Seq::new(self.fields.len(), |i: int| self.fields[i].descriptor.name)
    }
}

impl View for ProtoEnum {
    type V = EnumValueView;

    open spec fn view(&self) -> EnumValueView {
        EnumValueView { name: self.name@, number: self.number }
    }
}

impl View for FieldDescriptor {
    type V = FieldDescriptorView;

    open spec fn view(&self) -> FieldDescriptorView {
        FieldDescriptorView { name: self.name@, kind: self.kind, repeated: self.repeated }
    }
}

impl Value {
    /// What the value denotes. (This view and the three that recur with it
    /// are inherent methods, as that of a node is.)
    pub open spec fn view(&self) -> ValueView
        decreases self,
    {
        match self {
            Value::Scalar(s) => ValueView::Scalar(s@),
            Value::Enum(e) => ValueView::Enum(e@),
            Value::Message(m) => ValueView::Message(m@),
        }
    }

    /// What each of `items` denotes, in order.
    pub open spec fn views(items: Seq<Value>) -> Seq<ValueView> {
        Seq::new(items.len(), |i: int| items[i]@)
    }

    /// The type of the value.
    pub fn value_type(&self) -> (t: ValueType)
        ensures
            t == self@.value_type(),
    {
        match self {
            Value::Scalar(s) => s.value_type(),
            Value::Enum(_) => ValueType::Enum,
            Value::Message(_) => ValueType::Message,
        }
    }
}

impl FieldData {
    /// What the data denotes.
    pub open spec fn view(&self) -> FieldDataView
        decreases self,
    {
        match self {
            FieldData::Singular(v) => FieldDataView::Singular(v@),
            FieldData::Repeated(items) => FieldDataView::Repeated(
                Seq::new(
                    items@.len(),
                    |i: int| if 0 <= i < items@.len() { items@[i]@ } else { arbitrary() },
                ),
            ),
        }
    }
}

impl ProtoField {
    /// What the field denotes.
    pub open spec fn view(&self) -> FieldView
        decreases self,
    {
        FieldView { descriptor: self.descriptor@, data: self.data@ }
    }

    /// A singular field that is named `name`, is of kind `kind` and holds
    /// `value`.
    pub fn singular(name: &str, kind: FieldKind, value: Value) -> (field: ProtoField)
        ensures
            field@.descriptor == (FieldDescriptorView { name: name@, kind, repeated: false }),
            field@.data == FieldDataView::Singular(value@),
    {
        ProtoField {
            descriptor: FieldDescriptor { name: name.to_owned(), kind, repeated: false },
            data: FieldData::Singular(value),
        }
    }

    /// A repeated field that is named `name`, is of kind `kind` and holds
    /// the elements `items`, in order.
    pub fn repeated(name: &str, kind: FieldKind, items: Vec<Value>) -> (field: ProtoField)
        ensures
            field@.descriptor == (FieldDescriptorView { name: name@, kind, repeated: true }),
            field@.data == FieldDataView::Repeated(Value::views(items@)),
    {
        let field = ProtoField {
            descriptor: FieldDescriptor { name: name.to_owned(), kind, repeated: true },
            data: FieldData::Repeated(items),
        };
        assert(field@.data->Repeated_0 =~= Value::views(items@));
        field
    }
}

impl Proto {
    /// What the message denotes.
    pub open spec fn view(&self) -> MessageView
        decreases self,
    {
        MessageView {
            fields: Seq::new(
                self.fields@.len(),
                |i: int| if 0 <= i < self.fields@.len() { self.fields@[i]@ } else { arbitrary() },
            ),
        }
    }
}

} // verus!
