use vstd::prelude::*;

verus! {

/// Why a decode attempt or a field access was refused.
#[derive(Clone, Copy, Debug, PartialEq, Eq, Structural)]
pub enum RuneError {
    /// The script shape, marker bytes, or token count did not match the
    /// protocol.
    InvalidRune,
    /// A VarInt tag declared more bytes than the supplied slice holds.
    TruncatedInput,
    /// An issuance-only field was requested from a transfer record.
    MissingField,
}

} // verus!
