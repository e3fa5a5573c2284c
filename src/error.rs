use vstd::prelude::*;

verus! {

/// What can go wrong while moving a value across the boundary.
#[derive(Debug, Clone, Copy, PartialEq, Eq, Structural)]
pub enum MarshalError {
    /// A host-supplied text or byte buffer holds an embedded terminator
    /// byte (`0x00`); no foreign call is made.
    InvalidInput,
    /// A byte sequence handed back by the foreign side is not valid UTF-8.
    EncodingError,
}

} // verus!
