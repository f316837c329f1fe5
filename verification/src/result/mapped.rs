use crate::model::cloned_option;
use crate::result::{
    CollectingMatch, MappedOutcome, Match, MatchFailed, Outcome, TransformMappedMatch,
};
use crate::traits::MatchFail;
use vstd::prelude::*;

verus! {

/// The result of matching with a value mapped to the matched part: where
/// there is a matched part there is a value, and the other way round.
#[derive(Debug, Copy, PartialEq, Eq, PartialOrd, Ord, Hash)]
#[must_use]
pub struct MappedMatch<T, U, V> {
    matched: Option<(T, V)>,
    rest: Option<U>,
}

impl<T, U, V> View for MappedMatch<T, U, V> {
    type V = MappedOutcome<T, U, V>;

    /// `None` for a failure, otherwise the matched part with its value and
    /// the rest.
    closed spec fn view(&self) -> MappedOutcome<T, U, V> {
        match self.rest {
            Some(rest) => Some((self.matched, rest)),
            None => None,
        }
    }
}

impl<T: Clone, U: Clone, V: Clone> Clone for MappedMatch<T, U, V> {
    /// The copy is a failure where this value is one, and holds clones of its parts
    /// where it does not.
    fn clone(&self) -> (copy: Self)
        ensures
            match (self@, copy@) {
                (None, None) => true,
                (Some((matched, rest)), Some((m, r))) => cloned_option(matched, m) && cloned(
                    rest,
                    r,
                ),
                _ => false,
            },
    {
        match &self.rest {
            Some(rest) => MappedMatch { matched: self.matched.clone(), rest: Some(rest.clone()) },
            None => MappedMatch { matched: None, rest: None },
        }
    }
}

impl<T, U, V> MappedMatch<T, U, V> {
    /// A failure holds no matched part.
    #[verifier::type_invariant]
    spec fn well_formed(self) -> bool {
        self.rest is None ==> self.matched is None
    }

    /// What `discarding` makes of the result of its function: the rest of
    /// `next` under the matched part `kept`, and a failure where `next` is
    /// one.
    pub open spec fn discarded(
        kept: Option<(T, V)>,
        next: MappedOutcome<T, U, V>,
    ) -> MappedOutcome<T, U, V> {
        match next {
            Some((_, rest)) => Some((kept, rest)),
            None => None,
        }
    }

    /// What `optional` makes of the result of its function: `next`, and
    /// `before` where `next` is a failure.
    pub open spec fn attempted(
        before: MappedOutcome<T, U, V>,
        next: MappedOutcome<T, U, V>,
    ) -> MappedOutcome<T, U, V> {
        if next is None {
            before
        } else {
            next
        }
    }

    /// The view of the result without its mapped value.
    pub open spec fn unmapped(outcome: MappedOutcome<T, U, V>) -> Outcome<T, U> {
        match outcome {
            Some((Some((matched, _)), rest)) => Some((Some(matched), rest)),
            Some((None, rest)) => Some((None, rest)),
            None => None,
        }
    }

    /// Constructs a successful result.
    pub fn new(matched: Option<(T, V)>, rest: U) -> (result: Self)
        ensures
            result@ == Some((matched, rest)),
    {
        MappedMatch { matched, rest: Some(rest) }
    }

    /// Constructs the failure.
    pub fn failed() -> (result: Self)
        ensures
            result@ is None,
    {
        MappedMatch { matched: None, rest: None }
    }

    /// Whether the match has failed.
    pub fn is_failed(&self) -> (failed: bool)
        ensures
            failed == (self@ is None),
    {
        self.rest.is_none()
    }

    /// Hands out the matched part with its value and the rest, or the error
    /// if the match has failed.
    pub fn take(self) -> (parts: Result<(Option<(T, V)>, U), MatchFailed>)
        ensures
            parts == match self@ {
                Some(p) => Ok::<(Option<(T, V)>, U), MatchFailed>(p),
                None => Err::<(Option<(T, V)>, U), MatchFailed>(MatchFailed),
            },
    {
        if let Some(rest) = self.rest {
            Ok((self.matched, rest))
        } else {
            Err(MatchFailed)
        }
    }

    /// The matched part, if the match has one.
    pub fn matched(&self) -> (part: Option<&T>)
        ensures
            part == match self@ {
                Some((Some((matched, _)), _)) => Some(&matched),
                _ => None::<&T>,
            },
    {
        proof {
            use_type_invariant(self);
        }
        if let Some((matched, _)) = &self.matched {
            Some(matched)
        } else {
            None
        }
    }

    /// The rest, if the match has not failed.
    pub fn rest(&self) -> (part: Option<&U>)
        ensures
            part == match self@ {
                Some((_, rest)) => Some(&rest),
                None => None::<&U>,
            },
    {
        self.rest.as_ref()
    }

    /// The mapped value, if the match has a matched part.
    pub fn mapped(&self) -> (value: Option<&V>)
        ensures
            value == match self@ {
                Some((Some((_, mapped)), _)) => Some(&mapped),
                _ => None::<&V>,
            },
    {
        proof {
            use_type_invariant(self);
        }
        if let Some((_, mapped)) = &self.matched {
            Some(mapped)
        } else {
            None
        }
    }

    /// Replaces a successful result by what `f` makes of its parts. A failure
    /// stays one, and `f` is not called.
    pub fn transform<F, M, R, Q>(self, f: F) -> (result: MappedMatch<M, R, Q>) where
        F: FnOnce(Option<(T, V)>, U) -> TransformMappedMatch<M, R, Q>,

        requires
            self@ matches Some((matched, rest)) ==> f.requires((matched, rest)),
        ensures
            match self@ {
                Some((matched, rest)) => exists|made: TransformMappedMatch<M, R, Q>|
                    f.ensures((matched, rest), made) && result@ == made.outcome(),
                None => result@ is None,
            },
    {
        if let Some(rest) = self.rest {
            MappedMatch::from(f(self.matched, rest))
        } else {
            MappedMatch::failed()
        }
    }

    /// Replaces a result that has a matched part by what `f` makes of its
    /// parts. Without a matched part the result is a failure, and `f` is not
    /// called.
    pub fn transform_full<F, M, R, Q>(self, f: F) -> (result: MappedMatch<M, R, Q>) where
        F: FnOnce(T, U, V) -> TransformMappedMatch<M, R, Q>,

        requires
            self@ matches Some((Some((matched, mapped)), rest)) ==> f.requires(
                (matched, rest, mapped),
            ),
        ensures
            match self@ {
                Some((Some((matched, mapped)), rest)) => exists|
                    made: TransformMappedMatch<M, R, Q>,
                |
                    f.ensures((matched, rest, mapped), made) && result@ == made.outcome(),
                _ => result@ is None,
            },
    {
        match (self.matched, self.rest) {
            (Some((matched, mapped)), Some(rest)) => MappedMatch::from(f(matched, rest, mapped)),
            _ => MappedMatch::failed(),
        }
    }

    /// Replaces the matched part, where there is one, by what `f` makes of
    /// it.
    pub fn transform_matched<F, R>(self, f: F) -> (result: MappedMatch<R, U, V>) where
        F: FnOnce(T) -> R,

        requires
            self@ matches Some((Some((matched, _)), _)) ==> f.requires((matched,)),
        ensures
            match self@ {
                Some((Some((matched, mapped)), rest)) => result@ matches Some(
                    (Some((made, v)), r),
                ) && v == mapped && r == rest && f.ensures((matched,), made),
                Some((None, rest)) => result@ == Some((None::<(R, V)>, rest)),
                None => result@ is None,
            },
    {
        match (self.matched, self.rest) {
            (Some((matched, mapped)), Some(rest)) => MappedMatch::new(
                Some((f(matched), mapped)),
                rest,
            ),
            (None, Some(rest)) => MappedMatch::new(None, rest),
            (_, None) => MappedMatch::failed(),
        }
    }

    /// Replaces the rest of a successful result by what `f` makes of it.
    pub fn transform_rest<F, R>(self, f: F) -> (result: MappedMatch<T, R, V>) where
        F: FnOnce(U) -> R,

        requires
            self@ matches Some((_, rest)) ==> f.requires((rest,)),
        ensures
            match self@ {
                Some((matched, rest)) => result@ matches Some((m, made)) && m == matched
                    && f.ensures((rest,), made),
                None => result@ is None,
            },
    {
        match (self.matched, self.rest) {
            (matched, Some(rest)) => MappedMatch::new(matched, f(rest)),
            (_, None) => MappedMatch::failed(),
        }
    }

    /// Replaces the mapped value, where there is one, by what `f` makes of
    /// it.
    pub fn transform_mapped<F, R>(self, f: F) -> (result: MappedMatch<T, U, R>) where
        F: FnOnce(V) -> R,

        requires
            self@ matches Some((Some((_, mapped)), _)) ==> f.requires((mapped,)),
        ensures
            match self@ {
                Some((Some((matched, mapped)), rest)) => result@ matches Some(
                    (Some((m, made)), r),
                ) && m == matched && r == rest && f.ensures((mapped,), made),
                Some((None, rest)) => result@ == Some((None::<(T, R)>, rest)),
                None => result@ is None,
            },
    {
        match (self.matched, self.rest) {
            (Some((matched, mapped)), Some(rest)) => MappedMatch::new(
                Some((matched, f(mapped))),
                rest,
            ),
            (None, Some(rest)) => MappedMatch::new(None, rest),
            (_, None) => MappedMatch::failed(),
        }
    }

    /// Takes the mapped value off the result and hands it to `f`. Where
    /// there is no mapped value `f` is not called.
    pub fn unmap<F>(self, f: F) -> (result: Match<T, U>) where F: FnOnce(V)
        requires
            self@ matches Some((Some((_, mapped)), _)) ==> f.requires((mapped,)),
        ensures
            result@ == Self::unmapped(self@),
    {
        match (self.matched, self.rest) {
            (Some((matched, mapped)), Some(rest)) => {
                f(mapped);
                Match::new(Some(matched), rest)
            },
            (None, Some(rest)) => Match::new(None, rest),
            (_, None) => Match::failed(),
        }
    }

    /// Drops the matched part and its value, and keeps the rest.
    pub fn clear(self) -> (result: Self)
        ensures
            result@ == match self@ {
                Some((_, rest)) => Some((None::<(T, V)>, rest)),
                None => None,
            },
    {
        MappedMatch { matched: None, rest: self.rest }
    }

    /// The matched part with its value and the rest of a match that has not
    /// failed.
    pub fn unwrap(self) -> (parts: (Option<(T, V)>, U))
        requires
            self@ is Some,
        ensures
            self@ == Some(parts),
    {
        (self.matched, self.rest.unwrap())
    }

    /// The matched part with its value and the rest of a match that has not
    /// failed. The message is for the reader of the call.
    pub fn expect(self, msg: &str) -> (parts: (Option<(T, V)>, U))
        requires
            self@ is Some,
        ensures
            self@ == Some(parts),
    {
        (self.matched, self.rest.expect(msg))
    }

    /// Turns a successful result into a failure unless `f` holds of its
    /// parts. A failure stays one, and `f` is not called.
    pub fn assert_with<F>(self, f: F) -> (result: Self) where F: FnOnce(&Option<(T, V)>, &U) -> bool
        requires
            self@ matches Some((matched, rest)) ==> f.requires((&matched, &rest)),
        ensures
            match self@ {
                Some((matched, rest)) => {
                    ||| result@ == self@ && f.ensures((&matched, &rest), true)
                    ||| result@ is None && f.ensures((&matched, &rest), false)
                },
                None => result@ is None,
            },
    {
        let holds = match &self.rest {
            Some(rest) => f(&self.matched, rest),
            None => false,
        };
        if holds {
            self
        } else {
            MappedMatch::failed()
        }
    }

    /// Calls `f` on the parts of a successful result and returns the result as it
    /// was: what `f` ensures then holds of the parts. On a failure `f` is not called.
    pub fn execute<F>(self, f: F) -> (result: Self) where F: FnOnce(&Option<(T, V)>, &U)
        requires
            self@ matches Some((matched, rest)) ==> f.requires((&matched, &rest)),
        ensures
            result == self,
            result@ == self@,
            self@ matches Some((matched, rest)) ==> f.ensures((&matched, &rest), ()),
    {
        match &self.rest {
            Some(rest) => {
                f(&self.matched, rest);
            },
            None => {},
        }
        self
    }

    /// Lets `f` consume from the rest: the result keeps the matched part and
    /// its value, and takes the rest of what `f` returns; it fails where that
    /// fails. `f` is handed a clone of the matched part and its value. On a
    /// failure `f` is not called.
    pub fn discarding<F>(self, f: F) -> (result: Self) where
        T: Clone,
        V: Clone,
        F: FnOnce(Option<(T, V)>, U) -> MappedMatch<T, U, V>,

        requires
            self@ matches Some((matched, rest)) ==> forall|copy: Option<(T, V)>|
                cloned_option(matched, copy) ==> f.requires((copy, rest)),
        ensures
            match self@ {
                Some((matched, rest)) => exists|copy: Option<(T, V)>, next: MappedMatch<T, U, V>|
                    {
                        &&& cloned_option(matched, copy)
                        &&& f.ensures((copy, rest), next)
                        &&& result@ == Self::discarded(matched, next@)
                    },
                None => result@ is None,
            },
    {
        if let Some(rest) = self.rest {
            let copy = self.matched.clone();
            assert(cloned_option(self.matched, copy));
            let next = f(copy, rest);
            match next.rest {
                Some(rest) => MappedMatch { matched: self.matched, rest: Some(rest) },
                None => MappedMatch::failed(),
            }
        } else {
            MappedMatch::failed()
        }
    }

    /// As `discarding`, with the matched part and its value handed to `f` by
    /// reference.
    pub fn discarding_ref<F>(self, f: F) -> (result: Self) where
        F: FnOnce(&Option<(T, V)>, U) -> MappedMatch<T, U, V>,

        requires
            self@ matches Some((matched, rest)) ==> f.requires((&matched, rest)),
        ensures
            match self@ {
                Some((matched, rest)) => exists|next: MappedMatch<T, U, V>|
                    f.ensures((&matched, rest), next) && result@ == Self::discarded(
                        matched,
                        next@,
                    ),
                None => result@ is None,
            },
    {
        if let Some(rest) = self.rest {
            let next = f(&self.matched, rest);
            let result = match next.rest {
                Some(rest) => MappedMatch { matched: self.matched, rest: Some(rest) },
                None => MappedMatch::failed(),
            };
            assert(f.ensures((&self.matched, rest), next) && result@ == Self::discarded(
                self.matched,
                next@,
            ));
            result
        } else {
            MappedMatch::failed()
        }
    }

    /// Tries `f` on clones of the parts of a successful result: the result is
    /// what `f` returns, and the result as it was where that is a failure.
    /// On a failure `f` is not called.
    pub fn optional<F>(self, f: F) -> (result: Self) where
        T: Clone,
        V: Clone,
        U: Clone,
        F: FnOnce(Option<(T, V)>, U) -> MappedMatch<T, U, V>,

        requires
            self@ matches Some((matched, rest)) ==> forall|m: Option<(T, V)>, r: U|
                cloned_option(matched, m) && cloned(rest, r) ==> f.requires((m, r)),
        ensures
            match self@ {
                Some((matched, rest)) => exists|
                    m: Option<(T, V)>,
                    r: U,
                    next: MappedMatch<T, U, V>,
                |
                    {
                        &&& cloned_option(matched, m)
                        &&& cloned(rest, r)
                        &&& f.ensures((m, r), next)
                        &&& result@ == Self::attempted(self@, next@)
                    },
                None => result@ is None,
            },
    {
        match &self.rest {
            Some(rest) => {
                let m = self.matched.clone();
                let r = rest.clone();
                assert(cloned_option(self.matched, m) && cloned(*rest, r));
                let next = f(m, r);
                if next.is_failed() {
                    self
                } else {
                    next
                }
            },
            None => MappedMatch::failed(),
        }
    }

    /// As `optional`, with the parts handed to `f` by reference.
    pub fn optional_ref<F>(self, f: F) -> (result: Self) where
        F: FnOnce(&Option<(T, V)>, &U) -> MappedMatch<T, U, V>,

        requires
            self@ matches Some((matched, rest)) ==> f.requires((&matched, &rest)),
        ensures
            match self@ {
                Some((matched, rest)) => exists|next: MappedMatch<T, U, V>|
                    f.ensures((&matched, &rest), next) && result@ == Self::attempted(
                        self@,
                        next@,
                    ),
                None => result@ is None,
            },
    {
        match &self.rest {
            Some(rest) => {
                let next = f(&self.matched, rest);
                if next.is_failed() {
                    self
                } else {
                    next
                }
            },
            None => MappedMatch::failed(),
        }
    }

    /// Starts a collection of matched parts with the matched part of this
    /// result, if it has one, and hands the mapped value to `f`.
    pub fn into_collecting<F>(self, f: F) -> (collecting: CollectingMatch<T, U>) where
        F: FnOnce(V),

        requires
            self@ matches Some((Some((_, mapped)), _)) ==> f.requires((mapped,)),
        ensures
            collecting@ == Match::collected(Self::unmapped(self@)),
    {
        CollectingMatch::from(self.unmap(f))
    }
}

impl<T, U, V> MatchFail for MappedMatch<T, U, V> {
    open spec fn is_failure(&self) -> bool {
        self@ is None
    }

    fn failed() -> (result: Self) {
        MappedMatch::failed()
    }
}

impl<T, U, V> From<TransformMappedMatch<T, U, V>> for MappedMatch<T, U, V> {
    /// The result that a transforming function has described.
    fn from(data: TransformMappedMatch<T, U, V>) -> (result: Self)
        ensures
            result@ == data.outcome(),
    {
        match data {
            TransformMappedMatch::Failed => MappedMatch { matched: None, rest: None },
            TransformMappedMatch::OnlyRest(rest) => MappedMatch { matched: None, rest: Some(rest) },
            TransformMappedMatch::Full(matched, rest, mapped) => MappedMatch {
                matched: Some((matched, mapped)),
                rest: Some(rest),
            },
        }
    }
}

impl<T, U, V> vstd::std_specs::convert::FromSpecImpl<TransformMappedMatch<T, U, V>> for MappedMatch<T, U, V> {
    open spec fn obeys_from_spec() -> bool {
        true
    }

    closed spec fn from_spec(data: TransformMappedMatch<T, U, V>) -> Self {
        match data {
            TransformMappedMatch::Failed => MappedMatch { matched: None, rest: None },
            TransformMappedMatch::OnlyRest(rest) => MappedMatch { matched: None, rest: Some(rest) },
            TransformMappedMatch::Full(matched, rest, mapped) => MappedMatch {
                matched: Some((matched, mapped)),
                rest: Some(rest),
            },
        }
    }
}

} // verus!
