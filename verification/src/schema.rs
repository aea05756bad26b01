use vstd::prelude::*;
use crate::kind::FieldKind;
use crate::message::FieldDescriptor;
use protobuf::reflect::MessageDescriptor;

verus! {

/// The message descriptor of the `protobuf` crate: the schema of one message
/// type, as the generated code registers it. Nothing of its inside is known
/// here; what it holds is named by [`declared_fields`].
#[verifier::external_type_specification]
#[verifier::external_body]
pub struct ExMessageDescriptor(protobuf::reflect::MessageDescriptor);

/// The fields that a message descriptor holds, in the order of the slice
/// that `MessageDescriptor::fields` returns: of each its name, the number by
/// which its descriptor names its type, and whether its label is `repeated`.
/// A descriptor is not changed once it is built, so these are fixed by it.
pub uninterp spec fn declared_fields(descriptor: MessageDescriptor) -> Seq<(Seq<char>, int, bool)>;

/// `MessageDescriptor::fields`, and the length of the slice it returns: the
/// number of fields that the descriptor holds.
#[verifier::external_body]
fn declared_field_count(descriptor: &MessageDescriptor) -> (count: usize)
    ensures
        count == declared_fields(*descriptor).len(),
{
    descriptor.fields().len()
}

/// `FieldDescriptor::name` of the field at `index` of the slice that
/// `MessageDescriptor::fields` returns: the name that the field's descriptor
/// holds, copied. The index has to be in range, or the slice panics.
#[verifier::external_body]
fn declared_field_name(descriptor: &MessageDescriptor, index: usize) -> (name: String)
    requires
        index < declared_fields(*descriptor).len(),
    ensures
        name@ == declared_fields(*descriptor)[index as int].0,
{
    descriptor.fields()[index].name().to_string()
}

/// `FieldDescriptor::proto` of the field at `index` of that slice, and of it
/// `FieldDescriptorProto::get_field_type`, as a number: the type that the
/// field's descriptor holds, by the number that the crate's enum
/// `FieldDescriptorProto_Type` gives it. The enum declares the numbers 1 to
/// 18 and no other. The index has to be in range.
#[verifier::external_body]
fn declared_field_type_number(descriptor: &MessageDescriptor, index: usize) -> (number: i32)
    requires
        index < declared_fields(*descriptor).len(),
    ensures
        number == declared_fields(*descriptor)[index as int].1,
        1 <= number <= 18,
{
    descriptor.fields()[index].proto().get_field_type() as i32
}

/// `FieldDescriptor::is_repeated` of the field at `index` of that slice:
/// whether the label that the field's descriptor holds is `repeated`. The
/// index has to be in range.
#[verifier::external_body]
fn declared_field_is_repeated(descriptor: &MessageDescriptor, index: usize) -> (repeated: bool)
    requires
        index < declared_fields(*descriptor).len(),
    ensures
        repeated == declared_fields(*descriptor)[index as int].2,
{
    descriptor.fields()[index].is_repeated()
}

/// Whether `schema` says what `descriptor` holds: the same fields in the
/// same order, each with its name, its kind and its repetition.
pub open spec fn is_schema_of(schema: Seq<FieldDescriptor>, descriptor: MessageDescriptor) -> bool {
    &&& schema.len() == declared_fields(descriptor).len()
    &&& forall|i: int|
        0 <= i < schema.len() ==> {
            &&& (#[trigger] schema[i]).name@ == declared_fields(descriptor)[i].0
            &&& Some(schema[i].kind) == FieldKind::spec_from_type_number(
                declared_fields(descriptor)[i].1,
            )
            &&& schema[i].repeated == declared_fields(descriptor)[i].2
        }
}

/// Reads the schema of a message type off its descriptor: the descriptors of
/// its fields, in declaration order.
pub fn read_schema(descriptor: &MessageDescriptor) -> (schema: Vec<FieldDescriptor>)
    ensures
        is_schema_of(schema@, *descriptor),
{
    let count = declared_field_count(descriptor);
    let mut schema: Vec<FieldDescriptor> = Vec::with_capacity(count);
    let mut i: usize = 0;
    while i < count
        invariant
            i <= count,
            count == declared_fields(*descriptor).len(),
            schema.len() == i,
            forall|j: int|
                0 <= j < i ==> {
                    &&& (#[trigger] schema[j]).name@ == declared_fields(*descriptor)[j].0
                    &&& Some(schema[j].kind) == FieldKind::spec_from_type_number(
                        declared_fields(*descriptor)[j].1,
                    )
                    &&& schema[j].repeated == declared_fields(*descriptor)[j].2
                },
        decreases count - i,
    {
        let name = declared_field_name(descriptor, i);
        let kind = FieldKind::from_type_number(declared_field_type_number(descriptor, i)).unwrap();
        let repeated = declared_field_is_repeated(descriptor, i);
        schema.push(FieldDescriptor { name, kind, repeated });
        i += 1;
    }
    schema
}

} // verus!
