use vstd::prelude::*;

verus! {

/// Why a message could not be rendered.
///
/// Either failure ends the whole pass: what was built before it is dropped
/// and no partial tree is handed out.
#[derive(Clone, Copy, Debug, PartialEq, Eq, Structural)]
pub enum SerializeError {
    /// A field is declared with the group kind, which has no rendering.
    UnsupportedFieldKind,
    /// The values held for a field disagree with what its descriptor declares:
    /// a singular field holding a list (or the reverse), or a value whose type
    /// is not the one that the declared kind is read as.
    SchemaMismatch,
}

impl SerializeError {
    /// The text of [`SerializeError::message`].
    pub open spec fn spec_message(self) -> Seq<char> {
        match self {
            SerializeError::UnsupportedFieldKind => "Protobuf groups not supported"@,
            SerializeError::SchemaMismatch => "Protobuf message does not match its schema"@,
        }
    }

    /// A short description of the failure, for a caller that reports or aborts.
    pub fn message(&self) -> (text: &'static str)
        ensures
            text@ == self.spec_message(),
    {
        match self {
            SerializeError::UnsupportedFieldKind => "Protobuf groups not supported",
            SerializeError::SchemaMismatch => "Protobuf message does not match its schema",
        }
    }
}

} // verus!
