//! Terminal outcomes of a transaction.
//!
//! A transaction terminates in exactly one of three mutually exclusive ways:
//! it commits, it is rolled back without an engine-reported error, or it is
//! rolled back because an operation failed. The pending state never appears
//! here: it lives only inside the completion bridge.

use vstd::prelude::*;

verus! {

/// Mathematical model of a terminal outcome; the error detail is carried
/// verbatim as reported by the engine.
pub enum OutcomeModel {
    Success,
    Abort,
    Error(Seq<char>),
}

/// The terminal outcome a resolved transaction hands to its awaiter.
pub enum IdbTransactionResult {
    /// The transaction committed.
    Success,
    /// The transaction was rolled back, with no engine-reported error.
    Abort,
    /// The transaction was rolled back because an operation failed; carries
    /// the engine's diagnostic detail unmodified.
    Error(String),
}

impl View for IdbTransactionResult {
    type V = OutcomeModel;

    open spec fn view(&self) -> OutcomeModel {
        match self {
            IdbTransactionResult::Success => OutcomeModel::Success,
            IdbTransactionResult::Abort => OutcomeModel::Abort,
            IdbTransactionResult::Error(s) => OutcomeModel::Error(s@),
        }
    }
}

impl IdbTransactionResult {
    /// Deep copy with an exact contract.
    pub fn duplicate(&self) -> (r: IdbTransactionResult)
        ensures
            r@ == self@,
    {
        match self {
            IdbTransactionResult::Success => IdbTransactionResult::Success,
            IdbTransactionResult::Abort => IdbTransactionResult::Abort,
            IdbTransactionResult::Error(s) => IdbTransactionResult::Error(s.clone()),
        }
    }

    /// Collapse the outcome into a `Result`: a commit is `Ok`, either kind of
    /// rollback is `Err`, an abort carrying an empty detail string.
    pub fn into_result(self) -> (r: Result<(), String>)
        ensures
            self@ == OutcomeModel::Success <==> r is Ok,
            (self@ matches OutcomeModel::Error(d) ==> (r matches Err(m) && m@ == d)),
            (self@ == OutcomeModel::Abort ==> (r matches Err(m) && m@ == Seq::<char>::empty())),
    {
        match self {
            IdbTransactionResult::Success => Ok(()),
            IdbTransactionResult::Abort => Err(String::new()),
            IdbTransactionResult::Error(s) => Err(s),
        }
    }

    /// The engine's error detail, present exactly when the outcome is the
    /// error variant.
    pub fn error_detail(&self) -> (r: Option<&String>)
        ensures
            match r {
                Some(s) => self@ == OutcomeModel::Error(s@),
                None => !(self@ is Error),
            },
    {
        match self {
            IdbTransactionResult::Error(s) => Some(s),
            _ => None,
        }
    }
}

/// Exactly one of the three terminal outcome variants holds of any resolved
/// transaction: the variants are pairwise disjoint and together exhaustive.
pub proof fn lemma_outcome_exactly_one(o: OutcomeModel)
    ensures
        (o is Success && !(o is Abort) && !(o is Error)) || (!(o is Success) && o is Abort && !(o
            is Error)) || (!(o is Success) && !(o is Abort) && o is Error),
{
}

} // verus!
