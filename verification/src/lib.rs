//! Renders a structured message, described at run time by a schema of named
//! and typed fields, as a tree of maps, sequences, scalars and enum variants
//! that any structured encoder can take.
//!
//! A [`Proto`] holds the fields of a message in declaration order, each with
//! its descriptor and its values. [`Proto::serialize`] walks it and builds a
//! [`Node`]: a map keyed by field name, in which a repeated field is a
//! sequence, a nested message a map of its own, an enum value the name of its
//! variant, and a scalar itself, in the type that [`FieldKind::value_type`]
//! gives for the declared kind. A field of the group kind, or data that
//! disagrees with its descriptor, fails the pass with a [`SerializeError`].
//!
//! [`schema::read_schema`] reads the descriptors of a message type off the
//! message descriptor of the `protobuf` crate. What the rendering functions
//! guarantee beyond their own contracts is proved in [`laws`].

pub mod error;
pub mod kind;
pub mod laws;
pub mod message;
pub mod node;
pub mod pass;
pub mod schema;
pub mod serialize;

pub use error::SerializeError;
pub use kind::{FieldKind, ValueType};
pub use message::{
    EnumValueView, FieldData, FieldDataView, FieldDescriptor, FieldDescriptorView, FieldView,
    MessageView, Proto, ProtoEnum, ProtoField, Value, ValueView,
};
pub use node::{Node, NodeView, Scalar, ScalarView};
