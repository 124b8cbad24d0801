//! What the key-value store answers, as plain values.
//!
//! The store itself is outside this library: its caller performs the lookup
//! or the write and hands the answer in.

use vstd::prelude::*;

verus! {

/// The ways in which the store refuses an operation.
#[derive(Debug, Clone, Copy, PartialEq, Eq, Structural)]
pub enum StoreErrorKind {
    /// The store failed in a way it does not name.
    Unknown,
    /// The store holds nothing under the key.
    NotFound,
    /// The store does not let this application at the key.
    UnAuthorized,
}

/// A refusal of the store: its kind, and the store's own words for it.
#[derive(Debug, Clone, PartialEq, Eq)]
pub struct StoreError {
    pub kind: StoreErrorKind,
    pub message: String,
}

/// A refusal of the store as a mathematical value.
pub ghost struct StoreErrorView {
    pub kind: StoreErrorKind,
    pub message: Seq<char>,
}

impl View for StoreError {
    type V = StoreErrorView;

    open spec fn view(&self) -> StoreErrorView {
        StoreErrorView { kind: self.kind, message: self.message@ }
    }
}

/// The answer of the store to a lookup: the stored bytes, or a refusal.
pub type Lookup = Result<Vec<u8>, StoreError>;

/// The answer to a lookup as a mathematical value.
pub type LookupView = Result<Seq<u8>, StoreErrorView>;

/// The answer `lookup` as a mathematical value.
pub open spec fn lookup_view(lookup: Lookup) -> LookupView {
    match lookup {
        Ok(bytes) => Ok(bytes@),
        Err(e) => Err(e@),
    }
}

/// The answer of the store to a write as a mathematical value.
pub open spec fn write_view(written: Result<(), StoreError>) -> Result<(), StoreErrorView> {
    match written {
        Ok(_) => Ok(()),
        Err(e) => Err(e@),
    }
}

} // verus!
