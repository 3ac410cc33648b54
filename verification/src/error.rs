use vstd::prelude::*;

verus! {

/// The error kinds that the library's own checks can produce.
///
/// `NotFound`: a query matched zero candidates. `DuplicateKey`: a
/// creation was attempted where the key or name already exists.
/// `StructureMismatch`: the persisted document's shape does not match
/// the path being edited (or the document does not parse at all).
/// `IndexOutOfBounds`: a chooser handed back an index outside the
/// candidate list.
#[derive(Debug, Clone, Copy, PartialEq, Eq, Structural)]
pub enum QtaiError {
    NotFound,
    DuplicateKey,
    StructureMismatch,
    IndexOutOfBounds,
}

impl QtaiError {
    /// A short human-readable description of the error kind.
    pub fn message(&self) -> (r: &'static str)
        ensures
            self is NotFound ==> r@ == "no match was found for the query"@,
            self is DuplicateKey ==> r@ == "the key already exists"@,
            self is StructureMismatch ==> r@ == "the document does not have the expected structure"@,
            self is IndexOutOfBounds ==> r@ == "the chosen index is out of bounds"@,
    {
        match self {
            QtaiError::NotFound => "no match was found for the query",
            QtaiError::DuplicateKey => "the key already exists",
            QtaiError::StructureMismatch => "the document does not have the expected structure",
            QtaiError::IndexOutOfBounds => "the chosen index is out of bounds",
        }
    }
}

} // verus!
