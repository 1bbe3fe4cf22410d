//! What can go wrong with a store.

use vstd::prelude::*;

verus! {

/// The ways in which an operation on the store ends without its result.
#[derive(Clone, Copy, Debug, PartialEq, Eq, Structural)]
pub enum StoreError {
    /// The object to create is there already. Harmless while a store is
    /// laid out, and never handed on from there.
    AlreadyExists,
    /// The file system refused for any other reason.
    IoFailure,
    /// The text is no history: no document at all, a field that is missing
    /// or of the wrong type, an unknown kind, or a session that ends before
    /// it starts.
    MalformedHistory,
    /// The history has no text.
    SerializationFailure,
}

} // verus!
