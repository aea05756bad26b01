use vstd::prelude::*;
use crate::kind::ValueType;

verus! {

/// A leaf value: one of the nine scalar types that a field can hold and an
/// encoder can take.
///
/// The two floating-point types are carried as their IEEE-754 bit patterns,
/// so that a binary32 value stays 32 bits wide and is never widened.
#[derive(Debug, PartialEq, Eq)]
pub enum Scalar {
    I32(i32),
    I64(i64),
    U32(u32),
    U64(u64),
    Bool(bool),
    /// The bits of a binary32 value.
    F32(u32),
    /// The bits of a binary64 value.
    F64(u64),
    Str(String),
    Bytes(Vec<u8>),
}

/// What a [`Scalar`] denotes.
pub enum ScalarView {
    I32(i32),
    I64(i64),
    U32(u32),
    U64(u64),
    Bool(bool),
    F32(u32),
    F64(u64),
    Str(Seq<char>),
    Bytes(Seq<u8>),
}

impl ScalarView {
    /// The type of the scalar.
    pub open spec fn value_type(self) -> ValueType {
        match self {
            ScalarView::I32(_) => ValueType::I32,
            ScalarView::I64(_) => ValueType::I64,
            ScalarView::U32(_) => ValueType::U32,
            ScalarView::U64(_) => ValueType::U64,
            ScalarView::Bool(_) => ValueType::Bool,
            ScalarView::F32(_) => ValueType::F32,
            ScalarView::F64(_) => ValueType::F64,
            ScalarView::Str(_) => ValueType::Text,
            ScalarView::Bytes(_) => ValueType::Bytes,
        }
    }
}

impl View for Scalar {
    type V = ScalarView;

    open spec fn view(&self) -> ScalarView {
        match *self {
            Scalar::I32(v) => ScalarView::I32(v),
            Scalar::I64(v) => ScalarView::I64(v),
            Scalar::U32(v) => ScalarView::U32(v),
            Scalar::U64(v) => ScalarView::U64(v),
            Scalar::Bool(v) => ScalarView::Bool(v),
            Scalar::F32(bits) => ScalarView::F32(bits),
            Scalar::F64(bits) => ScalarView::F64(bits),
            Scalar::Str(s) => ScalarView::Str(s@),
            Scalar::Bytes(b) => ScalarView::Bytes(b@),
        }
    }
}

impl Clone for Scalar {
    fn clone(&self) -> (copy: Self)
        ensures
            copy@ == self@,
    {
        match self {
            Scalar::I32(v) => Scalar::I32(*v),
            Scalar::I64(v) => Scalar::I64(*v),
            Scalar::U32(v) => Scalar::U32(*v),
            Scalar::U64(v) => Scalar::U64(*v),
            Scalar::Bool(v) => Scalar::Bool(*v),
            Scalar::F32(bits) => Scalar::F32(*bits),
            Scalar::F64(bits) => Scalar::F64(*bits),
            Scalar::Str(s) => Scalar::Str(s.clone()),
            Scalar::Bytes(b) => Scalar::Bytes(b.clone()),
        }
    }
}

impl Scalar {
    /// The type of the scalar.
    pub fn value_type(&self) -> (t: ValueType)
        ensures
            t == self@.value_type(),
    {
        match self {
            Scalar::I32(_) => ValueType::I32,
            Scalar::I64(_) => ValueType::I64,
            Scalar::U32(_) => ValueType::U32,
            Scalar::U64(_) => ValueType::U64,
            Scalar::Bool(_) => ValueType::Bool,
            Scalar::F32(_) => ValueType::F32,
            Scalar::F64(_) => ValueType::F64,
            Scalar::Str(_) => ValueType::Text,
            Scalar::Bytes(_) => ValueType::Bytes,
        }
    }
}

/// The rendering of a message, a field or a value: what is handed to an
/// encoder, which walks it and emits the matching calls.
#[derive(Debug, PartialEq, Eq)]
pub enum Node {
    /// A scalar of one of the nine scalar types.
    Scalar(Scalar),
    /// An enum value, given by the symbolic name of its variant.
    Variant(String),
    /// The elements of a repeated field, in order.
    Sequence(Vec<Node>),
    /// The fields of a message, in declaration order, each under its name.
    Mapping(Vec<(String, Node)>),
}

/// What a [`Node`] denotes.
pub enum NodeView {
    Scalar(ScalarView),
    Variant(Seq<char>),
    Sequence(Seq<NodeView>),
    Mapping(Seq<(Seq<char>, NodeView)>),
}

impl NodeView {
    /// The number of elements of a sequence or of entries of a map, which an
    /// encoder is told before the first of them; nothing for a leaf.
    pub open spec fn len_hint(self) -> Option<nat> {
        match self {
            NodeView::Sequence(items) => Some(items.len()),
            NodeView::Mapping(entries) => Some(entries.len()),
            _ => None,
        }
    }

    /// The keys of a map, in the order of its entries; empty for any other
    /// node.
    pub open spec fn keys(self) -> Seq<Seq<char>> {
        match self {
            NodeView::Mapping(entries) => Seq::new(entries.len(), |i: int| entries[i].0),
            _ => Seq::empty(),
        }
    }
}

impl Node {
    /// What the node denotes.
    ///
    /// An inherent method rather than an impl of `View`: as a trait method
    /// the recursion does not unfold in proofs.
    pub open spec fn view(&self) -> NodeView
        decreases self,
    {
        match self {
            Node::Scalar(s) => NodeView::Scalar(s@),
            Node::Variant(name) => NodeView::Variant(name@),
            Node::Sequence(items) => NodeView::Sequence(
                Seq::new(
                    items@.len(),
                    |i: int| if 0 <= i < items@.len() { items@[i]@ } else { arbitrary() },
                ),
            ),
            Node::Mapping(entries) => NodeView::Mapping(
                Seq::new(
                    entries@.len(),
                    |i: int|
                        if 0 <= i < entries@.len() {
                            (entries@[i].0@, entries@[i].1@)
                        } else {
                            arbitrary()
                        },
                ),
            ),
        }
    }

    /// The length that an encoder is given when it begins a sequence or a
    /// map: the number of elements or entries that follow.
    pub fn len_hint(&self) -> (hint: Option<usize>)
        ensures
            match hint {
                Some(n) => self@.len_hint() == Some(n as nat),
                None => self@.len_hint() is None,
            },
    {
        match self {
            Node::Sequence(items) => Some(items.len()),
            Node::Mapping(entries) => Some(entries.len()),
            _ => None,
        }
    }
}

} // verus!
