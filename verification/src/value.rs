//! Values stored in an object store.
//!
//! The engine itself stores structured-cloneable host values; this crate
//! models them as either a text value or an opaque value whose contents the
//! store never inspects. The distinction is what makes a decode failure (a
//! successfully retrieved value of the wrong shape) expressible as a state
//! distinct from an engine error.

use vstd::prelude::*;

verus! {

/// Mathematical model of a stored value.
pub enum ValueModel {
    Text(Seq<char>),
    Opaque,
}

/// A value as stored in (and retrieved from) an object store: either text or
/// an opaque host value that the store carries through without inspecting.
pub enum StoreValue {
    Text(String),
    Opaque,
}

impl View for StoreValue {
    type V = ValueModel;

    open spec fn view(&self) -> ValueModel {
        match self {
            StoreValue::Text(s) => ValueModel::Text(s@),
            StoreValue::Opaque => ValueModel::Opaque,
        }
    }
}

impl StoreValue {
    /// Deep copy with an exact contract; `derive(Clone)` would leave the
    /// relation between original and copy unspecified.
    pub fn duplicate(&self) -> (r: StoreValue)
        ensures
            r@ == self@,
    {
        match self {
            StoreValue::Text(s) => StoreValue::Text(s.clone()),
            StoreValue::Opaque => StoreValue::Opaque,
        }
    }

    /// Interpret the value as text, the caller's expected shape; an opaque
    /// value is a decode failure, not an engine error.
    pub fn as_text(&self) -> (r: Option<&String>)
        ensures
            match r {
                Some(s) => self@ == ValueModel::Text(s@),
                None => self@ == ValueModel::Opaque,
            },
    {
        match self {
            StoreValue::Text(s) => Some(s),
            StoreValue::Opaque => None,
        }
    }
}

} // verus!
