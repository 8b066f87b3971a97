use vstd::prelude::*;

verus! {

/// A decode failure. Encoding never fails; every error comes from reading
/// wire bytes that do not form a supported key.
#[derive(Clone, Copy, Debug, PartialEq, Eq, Structural)]
pub enum ProtoError {
    /// The wire tag matches none of the supported key families.
    UnknownKeyType,
    /// A length-prefixed field declares more bytes than remain in the buffer.
    Truncated,
    /// A field's bytes are not a valid encoding for its type.
    MalformedField,
}

} // verus!
