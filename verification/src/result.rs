//! The values that matching produces.
//!
//! Each result type has a view, written `@`, which is the model that the
//! contracts speak of. A failure is viewed as `None`: it has no matched part
//! and no rest, so what has failed once cannot be told from any other
//! failure.

mod alternatives;
mod collecting;
mod mapped;
mod plain;

pub use alternatives::{AlternativesMatch, MappedAlternativesMatch};
pub use collecting::CollectingMatch;
pub use mapped::MappedMatch;
pub use plain::Match;

use vstd::prelude::*;

verus! {

/// The view of a [`Match`]: `None` for a failure, otherwise the matched part,
/// which may be absent, and the rest.
pub type Outcome<T, U> = Option<(Option<T>, U)>;

/// The view of a [`MappedMatch`]: `None` for a failure, otherwise the matched
/// part with the value mapped to it, which may both be absent, and the rest.
pub type MappedOutcome<T, U, V> = Option<(Option<(T, V)>, U)>;

/// The view of a [`CollectingMatch`]: `None` for a failure, otherwise the
/// matched parts collected so far, in their order, and the rest.
pub type Collected<T, U> = Option<(Seq<T>, U)>;

/// The one error of the library: there was no match.
#[derive(Debug, Clone, Copy, PartialEq, Eq, PartialOrd, Ord, Hash, Default)]
pub struct MatchFailed;

/// What a transforming function makes of a result.
pub enum TransformMatch<T, U> {
    /// The result becomes a failure.
    Failed,
    /// The result keeps a rest and has no matched part.
    OnlyRest(U),
    /// The result has a matched part and a rest.
    Full(T, U),
}

impl<T, U> TransformMatch<T, U> {
    /// The view of the result that this value stands for.
    pub open spec fn outcome(self) -> Outcome<T, U> {
        match self {
            TransformMatch::Failed => None,
            TransformMatch::OnlyRest(rest) => Some((None, rest)),
            TransformMatch::Full(matched, rest) => Some((Some(matched), rest)),
        }
    }
}

/// What a transforming function makes of a mapped result.
#[derive(Debug, Copy, PartialEq, Eq, PartialOrd, Ord, Hash)]
pub enum TransformMappedMatch<T, U, V> {
    /// The result becomes a failure.
    Failed,
    /// The result keeps a rest and has no matched part.
    OnlyRest(U),
    /// The result has a matched part, a rest and a mapped value.
    Full(T, U, V),
}

impl<T: Clone, U: Clone, V: Clone> Clone for TransformMappedMatch<T, U, V> {
    /// The copy is of the same kind as this value, and holds clones of its
    /// parts.
    fn clone(&self) -> (copy: Self)
        ensures
            match (*self, copy) {
                (TransformMappedMatch::Failed, TransformMappedMatch::Failed) => true,
                (TransformMappedMatch::OnlyRest(rest), TransformMappedMatch::OnlyRest(r)) => cloned(
                    rest,
                    r,
                ),
                (
                    TransformMappedMatch::Full(matched, rest, mapped),
                    TransformMappedMatch::Full(m, r, v),
                ) => cloned(matched, m) && cloned(rest, r) && cloned(mapped, v),
                _ => false,
            },
    {
        match self {
            TransformMappedMatch::Failed => TransformMappedMatch::Failed,
            TransformMappedMatch::OnlyRest(rest) => TransformMappedMatch::OnlyRest(rest.clone()),
            TransformMappedMatch::Full(matched, rest, mapped) => TransformMappedMatch::Full(
                matched.clone(),
                rest.clone(),
                mapped.clone(),
            ),
        }
    }
}

impl<T, U, V> TransformMappedMatch<T, U, V> {
    /// The view of the result that this value stands for.
    pub open spec fn outcome(self) -> MappedOutcome<T, U, V> {
        match self {
            TransformMappedMatch::Failed => None,
            TransformMappedMatch::OnlyRest(rest) => Some((None, rest)),
            TransformMappedMatch::Full(matched, rest, mapped) => Some(
                (Some((matched, mapped)), rest),
            ),
        }
    }
}

} // verus!
