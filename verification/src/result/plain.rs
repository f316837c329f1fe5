use crate::model::cloned_option;
use crate::result::{
    AlternativesMatch, Collected, CollectingMatch, MappedMatch, MappedOutcome, MatchFailed,
    Outcome, TransformMatch,
};
use crate::traits::MatchFail;
use vstd::prelude::*;

verus! {

/// The result of matching: a matched part, which may be absent, and a rest.
/// A failure has neither.
#[derive(Debug, Copy, PartialEq, Eq, PartialOrd, Ord, Hash)]
#[must_use]
pub struct Match<T, U> {
    matched: Option<T>,
    rest: Option<U>,
}

impl<T, U> View for Match<T, U> {
    type V = Outcome<T, U>;

    /// `None` for a failure, otherwise the matched part and the rest.
    closed spec fn view(&self) -> Outcome<T, U> {
        match self.rest {
            Some(rest) => Some((self.matched, rest)),
            None => None,
        }
    }
}

impl<T: Clone, U: Clone> Clone for Match<T, U> {
    /// The copy is a failure where this value is one, and holds clones of its parts
    /// where it does not.
    fn clone(&self) -> (copy: Self)
        ensures
            match (self@, copy@) {
                (None, None) => true,
                (Some((matched, rest)), Some((m, r))) => cloned_option(matched, m) && cloned(
                    rest,
                    r,
                ),
                _ => false,
            },
    {
        match &self.rest {
            Some(rest) => Match { matched: self.matched.clone(), rest: Some(rest.clone()) },
            None => Match { matched: None, rest: None },
        }
    }
}

impl<T, U> Match<T, U> {
    /// A failure holds no matched part.
    #[verifier::type_invariant]
    spec fn well_formed(self) -> bool {
        self.rest is None ==> self.matched is None
    }

    /// What `discarding` makes of the result of its function: the rest of
    /// `next` under the matched part `kept`, and a failure where `next` is
    /// one.
    pub open spec fn discarded(kept: Option<T>, next: Outcome<T, U>) -> Outcome<T, U> {
        match next {
            Some((_, rest)) => Some((kept, rest)),
            None => None,
        }
    }

    /// What `optional` makes of the result of its function: `next`, and
    /// `before` where `next` is a failure.
    pub open spec fn attempted(before: Outcome<T, U>, next: Outcome<T, U>) -> Outcome<T, U> {
        if next is None {
            before
        } else {
            next
        }
    }

    /// Constructs a successful result.
    pub fn new(matched: Option<T>, rest: U) -> (result: Self)
        ensures
            result@ == Some((matched, rest)),
    {
        Match { matched, rest: Some(rest) }
    }

    /// Constructs the failure.
    pub fn failed() -> (result: Self)
        ensures
            result@ is None,
    {
        Match { matched: None, rest: None }
    }

    /// Whether the match has failed.
    pub fn is_failed(&self) -> (failed: bool)
        ensures
            failed == (self@ is None),
    {
        self.rest.is_none()
    }

    /// Hands out the matched part and the rest, or the error if the match
    /// has failed.
    pub fn take(self) -> (parts: Result<(Option<T>, U), MatchFailed>)
        ensures
            parts == match self@ {
                Some(p) => Ok::<(Option<T>, U), MatchFailed>(p),
                None => Err::<(Option<T>, U), MatchFailed>(MatchFailed),
            },
    {
        if let Some(rest) = self.rest {
            Ok((self.matched, rest))
        } else {
            Err(MatchFailed)
        }
    }

    /// The matched part, if the match has one.
    pub fn matched(&self) -> (part: Option<&T>)
        ensures
            part == match self@ {
                Some((Some(matched), _)) => Some(&matched),
                _ => None::<&T>,
            },
    {
        proof {
            use_type_invariant(self);
        }
        self.matched.as_ref()
    }

    /// The rest, if the match has not failed.
    pub fn rest(&self) -> (part: Option<&U>)
        ensures
            part == match self@ {
                Some((_, rest)) => Some(&rest),
                None => None::<&U>,
            },
    {
        self.rest.as_ref()
    }

    /// Replaces a successful result by what `f` makes of its parts. A failure
    /// stays one, and `f` is not called.
    pub fn transform<F, M, R>(self, f: F) -> (result: Match<M, R>) where
        F: FnOnce(Option<T>, U) -> TransformMatch<M, R>,

        requires
            self@ matches Some((matched, rest)) ==> f.requires((matched, rest)),
        ensures
            match self@ {
                Some((matched, rest)) => exists|made: TransformMatch<M, R>|
                    f.ensures((matched, rest), made) && result@ == made.outcome(),
                None => result@ is None,
            },
    {
        if let Some(rest) = self.rest {
            Match::from(f(self.matched, rest))
        } else {
            Match::failed()
        }
    }

    /// Replaces a result that has a matched part by what `f` makes of its
    /// parts. Without a matched part the result is a failure, and `f` is not
    /// called.
    pub fn transform_full<F, M, R>(self, f: F) -> (result: Match<M, R>) where
        F: FnOnce(T, U) -> TransformMatch<M, R>,

        requires
            self@ matches Some((Some(matched), rest)) ==> f.requires((matched, rest)),
        ensures
            match self@ {
                Some((Some(matched), rest)) => exists|made: TransformMatch<M, R>|
                    f.ensures((matched, rest), made) && result@ == made.outcome(),
                _ => result@ is None,
            },
    {
        match (self.matched, self.rest) {
            (Some(matched), Some(rest)) => Match::from(f(matched, rest)),
            _ => Match::failed(),
        }
    }

    /// Replaces the matched part, where there is one, by what `f` makes of
    /// it.
    pub fn transform_matched<F, R>(self, f: F) -> (result: Match<R, U>) where F: FnOnce(T) -> R
        requires
            self@ matches Some((Some(matched), _)) ==> f.requires((matched,)),
        ensures
            match self@ {
                Some((Some(matched), rest)) => result@ matches Some((Some(made), r)) && r == rest
                    && f.ensures((matched,), made),
                Some((None, rest)) => result@ == Some((None::<R>, rest)),
                None => result@ is None,
            },
    {
        match (self.matched, self.rest) {
            (Some(matched), Some(rest)) => Match::new(Some(f(matched)), rest),
            (None, Some(rest)) => Match::new(None, rest),
            (_, None) => Match::failed(),
        }
    }

    /// Replaces the rest of a successful result by what `f` makes of it.
    pub fn transform_rest<F, R>(self, f: F) -> (result: Match<T, R>) where F: FnOnce(U) -> R
        requires
            self@ matches Some((_, rest)) ==> f.requires((rest,)),
        ensures
            match self@ {
                Some((matched, rest)) => result@ matches Some((m, made)) && m == matched
                    && f.ensures((rest,), made),
                None => result@ is None,
            },
    {
        match (self.matched, self.rest) {
            (matched, Some(rest)) => Match::new(matched, f(rest)),
            (_, None) => Match::failed(),
        }
    }

    /// Attaches `value` to the matched part. Where there is no matched part
    /// the value is dropped.
    pub fn map<V>(self, value: V) -> (result: MappedMatch<T, U, V>)
        ensures
            result@ == Self::mapped(self@, value),
    {
        match (self.matched, self.rest) {
            (Some(matched), Some(rest)) => MappedMatch::new(Some((matched, value)), rest),
            (None, Some(rest)) => MappedMatch::new(None, rest),
            (_, None) => MappedMatch::failed(),
        }
    }

    /// The view of the result of `map`.
    pub open spec fn mapped<V>(outcome: Outcome<T, U>, value: V) -> MappedOutcome<T, U, V> {
        match outcome {
            Some((Some(matched), rest)) => Some((Some((matched, value)), rest)),
            Some((None, rest)) => Some((None, rest)),
            None => None,
        }
    }

    /// Drops the matched part and keeps the rest.
    pub fn clear(self) -> (result: Self)
        ensures
            result@ == match self@ {
                Some((_, rest)) => Some((None::<T>, rest)),
                None => None,
            },
    {
        Match { matched: None, rest: self.rest }
    }

    /// The matched part and the rest of a match that has not failed.
    pub fn unwrap(self) -> (parts: (Option<T>, U))
        requires
            self@ is Some,
        ensures
            self@ == Some(parts),
    {
        (self.matched, self.rest.unwrap())
    }

    /// The matched part and the rest of a match that has not failed. The
    /// message is for the reader of the call.
    pub fn expect(self, msg: &str) -> (parts: (Option<T>, U))
        requires
            self@ is Some,
        ensures
            self@ == Some(parts),
    {
        (self.matched, self.rest.expect(msg))
    }

    /// Turns a successful result into a failure unless `f` holds of its
    /// parts. A failure stays one, and `f` is not called.
    pub fn assert_with<F>(self, f: F) -> (result: Self) where F: FnOnce(&Option<T>, &U) -> bool
        requires
            self@ matches Some((matched, rest)) ==> f.requires((&matched, &rest)),
        ensures
            match self@ {
                Some((matched, rest)) => {
                    ||| result@ == self@ && f.ensures((&matched, &rest), true)
                    ||| result@ is None && f.ensures((&matched, &rest), false)
                },
                None => result@ is None,
            },
    {
        let holds = match &self.rest {
            Some(rest) => f(&self.matched, rest),
            None => false,
        };
        if holds {
            self
        } else {
            Match::failed()
        }
    }

    /// Calls `f` on the parts of a successful result and returns the result as it
    /// was: what `f` ensures then holds of the parts. On a failure `f` is not called.
    pub fn execute<F>(self, f: F) -> (result: Self) where F: FnOnce(&Option<T>, &U)
        requires
            self@ matches Some((matched, rest)) ==> f.requires((&matched, &rest)),
        ensures
            result == self,
            result@ == self@,
            self@ matches Some((matched, rest)) ==> f.ensures((&matched, &rest), ()),
    {
        match &self.rest {
            Some(rest) => {
                f(&self.matched, rest);
            },
            None => {},
        }
        self
    }

    /// Lets `f` consume from the rest: the result keeps the matched part and
    /// takes the rest of what `f` returns, and fails where that fails. `f` is
    /// handed a clone of the matched part. On a failure `f` is not called.
    pub fn discarding<F>(self, f: F) -> (result: Self) where
        T: Clone,
        F: FnOnce(Option<T>, U) -> Match<T, U>,

        requires
            self@ matches Some((matched, rest)) ==> forall|copy: Option<T>|
                cloned_option(matched, copy) ==> f.requires((copy, rest)),
        ensures
            match self@ {
                Some((matched, rest)) => exists|copy: Option<T>, next: Match<T, U>|
                    {
                        &&& cloned_option(matched, copy)
                        &&& f.ensures((copy, rest), next)
                        &&& result@ == Self::discarded(matched, next@)
                    },
                None => result@ is None,
            },
    {
        if let Some(rest) = self.rest {
            let copy = self.matched.clone();
            assert(cloned_option(self.matched, copy));
            let next = f(copy, rest);
            match next.rest {
                Some(rest) => Match { matched: self.matched, rest: Some(rest) },
                None => Match::failed(),
            }
        } else {
            Match::failed()
        }
    }

    /// As `discarding`, with the matched part handed to `f` by reference.
    pub fn discarding_ref<F>(self, f: F) -> (result: Self) where
        F: FnOnce(&Option<T>, U) -> Match<T, U>,

        requires
            self@ matches Some((matched, rest)) ==> f.requires((&matched, rest)),
        ensures
            match self@ {
                Some((matched, rest)) => exists|next: Match<T, U>|
                    f.ensures((&matched, rest), next) && result@ == Self::discarded(
                        matched,
                        next@,
                    ),
                None => result@ is None,
            },
    {
        if let Some(rest) = self.rest {
            let next = f(&self.matched, rest);
            let result = match next.rest {
                Some(rest) => Match { matched: self.matched, rest: Some(rest) },
                None => Match::failed(),
            };
            assert(f.ensures((&self.matched, rest), next) && result@ == Self::discarded(
                self.matched,
                next@,
            ));
            result
        } else {
            Match::failed()
        }
    }

    /// Tries `f` on clones of the parts of a successful result: the result is
    /// what `f` returns, and the result as it was where that is a failure.
    /// On a failure `f` is not called.
    pub fn optional<F>(self, f: F) -> (result: Self) where
        T: Clone,
        U: Clone,
        F: FnOnce(Option<T>, U) -> Match<T, U>,

        requires
            self@ matches Some((matched, rest)) ==> forall|m: Option<T>, r: U|
                cloned_option(matched, m) && cloned(rest, r) ==> f.requires((m, r)),
        ensures
            match self@ {
                Some((matched, rest)) => exists|m: Option<T>, r: U, next: Match<T, U>|
                    {
                        &&& cloned_option(matched, m)
                        &&& cloned(rest, r)
                        &&& f.ensures((m, r), next)
                        &&& result@ == Self::attempted(self@, next@)
                    },
                None => result@ is None,
            },
    {
        match &self.rest {
            Some(rest) => {
                let m = self.matched.clone();
                let r = rest.clone();
                assert(cloned_option(self.matched, m) && cloned(*rest, r));
                let next = f(m, r);
                if next.is_failed() {
                    self
                } else {
                    next
                }
            },
            None => Match::failed(),
        }
    }

    /// As `optional`, with the parts handed to `f` by reference.
    pub fn optional_ref<F>(self, f: F) -> (result: Self) where
        F: FnOnce(&Option<T>, &U) -> Match<T, U>,

        requires
            self@ matches Some((matched, rest)) ==> f.requires((&matched, &rest)),
        ensures
            match self@ {
                Some((matched, rest)) => exists|next: Match<T, U>|
                    f.ensures((&matched, &rest), next) && result@ == Self::attempted(
                        self@,
                        next@,
                    ),
                None => result@ is None,
            },
    {
        match &self.rest {
            Some(rest) => {
                let next = f(&self.matched, rest);
                if next.is_failed() {
                    self
                } else {
                    next
                }
            },
            None => Match::failed(),
        }
    }

    /// Starts a tree of alternatives, each of which is tried on this result.
    pub fn alternatives<M, R>(self) -> (tree: AlternativesMatch<Self, M, R>)
        ensures
            tree@ == (self, None::<(Option<M>, R)>),
    {
        AlternativesMatch::new(self)
    }

    /// Starts a collection of matched parts with the matched part of this
    /// result, if it has one.
    pub fn into_collecting(self) -> (collecting: CollectingMatch<T, U>)
        ensures
            collecting@ == Self::collected(self@),
    {
        CollectingMatch::from(self)
    }

    /// The view of the collection that a result starts.
    pub open spec fn collected(outcome: Outcome<T, U>) -> Collected<T, U> {
        match outcome {
            Some((Some(matched), rest)) => Some((seq![matched], rest)),
            Some((None, rest)) => Some((Seq::empty(), rest)),
            None => None,
        }
    }
}

impl<T: View, U: View> Match<T, U> {
    /// The view of the result with each part replaced by its own view: for a
    /// result over slices or strings, the sequences of their elements.
    pub open spec fn parts(self) -> Option<(Option<T::V>, U::V)> {
        match self@ {
            None => None,
            Some((None, rest)) => Some((None, rest@)),
            Some((Some(matched), rest)) => Some((Some(matched@), rest@)),
        }
    }
}

impl<T, U> MatchFail for Match<T, U> {
    open spec fn is_failure(&self) -> bool {
        self@ is None
    }

    fn failed() -> (result: Self) {
        Match::failed()
    }
}

impl<T, U> From<TransformMatch<T, U>> for Match<T, U> {
    /// The result that a transforming function has described.
    fn from(data: TransformMatch<T, U>) -> (result: Self)
        ensures
            result@ == data.outcome(),
    {
        match data {
            TransformMatch::Failed => Match { matched: None, rest: None },
            TransformMatch::OnlyRest(rest) => Match { matched: None, rest: Some(rest) },
            TransformMatch::Full(matched, rest) => Match {
                matched: Some(matched),
                rest: Some(rest),
            },
        }
    }
}

impl<T, U> vstd::std_specs::convert::FromSpecImpl<TransformMatch<T, U>> for Match<T, U> {
    open spec fn obeys_from_spec() -> bool {
        true
    }

    closed spec fn from_spec(data: TransformMatch<T, U>) -> Self {
        match data {
            TransformMatch::Failed => Match { matched: None, rest: None },
            TransformMatch::OnlyRest(rest) => Match { matched: None, rest: Some(rest) },
            TransformMatch::Full(matched, rest) => Match {
                matched: Some(matched),
                rest: Some(rest),
            },
        }
    }
}

impl<T, U> From<U> for Match<T, U> {
    /// A successful result that has matched nothing yet: all of `data` is
    /// its rest.
    fn from(data: U) -> (result: Self)
        ensures
            result@ == Some((None::<T>, data)),
    {
        Match { matched: None, rest: Some(data) }
    }
}

impl<T, U> vstd::std_specs::convert::FromSpecImpl<U> for Match<T, U> {
    open spec fn obeys_from_spec() -> bool {
        true
    }

    closed spec fn from_spec(data: U) -> Self {
        Match { matched: None, rest: Some(data) }
    }
}

} // verus!
