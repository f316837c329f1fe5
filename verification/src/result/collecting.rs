use crate::laws::{
    lemma_repeated_extends, lemma_repeated_failure_lasts, lemma_repeated_failure_stays,
};
use crate::result::{Collected, Match, MatchFailed};
use crate::traits::MatchFail;
use vstd::prelude::*;

verus! {

/// A chain of matches that collects the matched part of each step, in their
/// order. A failure has collected nothing: what was collected before a step
/// failed is dropped with it.
#[derive(Debug, PartialEq, Eq, PartialOrd, Ord, Hash)]
#[must_use]
pub struct CollectingMatch<T, U> {
    matches: Vec<T>,
    rest: Option<U>,
}

impl<T, U> View for CollectingMatch<T, U> {
    type V = Collected<T, U>;

    /// `None` for a failure, otherwise what was collected and the rest.
    closed spec fn view(&self) -> Collected<T, U> {
        match self.rest {
            Some(rest) => Some((self.matches@, rest)),
            None => None,
        }
    }
}

impl<T: Clone, U: Clone> Clone for CollectingMatch<T, U> {
    /// The copy is a failure where this value is one, and holds clones of what it
    /// has collected and of its rest where it does not.
    fn clone(&self) -> (copy: Self)
        ensures
            match (self@, copy@) {
                (None, None) => true,
                (Some((list, rest)), Some((l, r))) => {
                    &&& l.len() == list.len()
                    &&& forall|i: int| 0 <= i < list.len() ==> cloned(#[trigger] list[i], l[i])
                    &&& cloned(rest, r)
                },
                _ => false,
            },
    {
        match &self.rest {
            Some(rest) => CollectingMatch { matches: self.matches.clone(), rest: Some(rest.clone()) },
            None => CollectingMatch { matches: Vec::new(), rest: None },
        }
    }
}

impl<T, U> CollectingMatch<T, U> {
    /// A failure holds nothing that was collected.
    #[verifier::type_invariant]
    spec fn well_formed(self) -> bool {
        self.rest is None ==> self.matches@.len() == 0
    }

    /// The view of a chain that holds `list` and `rest`.
    spec fn assembled(list: Seq<T>, rest: Option<U>) -> Collected<T, U> {
        match rest {
            Some(rest) => Some((list, rest)),
            None => None,
        }
    }

    /// The matched part that was collected last, which is what a step's
    /// function is shown.
    pub open spec fn last_of<'a>(list: Seq<T>) -> Option<&'a T> {
        if list.len() > 0 {
            Some(&list.last())
        } else {
            None
        }
    }

    /// What a step makes of the result `next` of its function: the matched
    /// part of `next`, if it has one, is added to `list`, and its rest is the
    /// new rest. Where `next` is a failure the whole collection is one.
    pub open spec fn extended(list: Seq<T>, next: Option<(Option<T>, U)>) -> Collected<T, U> {
        match next {
            Some((Some(matched), rest)) => Some((list.push(matched), rest)),
            Some((None, rest)) => Some((list, rest)),
            None => None,
        }
    }

    /// What `optional` makes of the result of its function: `next`, and
    /// `before` where `next` is a failure.
    pub open spec fn attempted(before: Collected<T, U>, next: Collected<T, U>) -> Collected<T, U> {
        if next is None {
            before
        } else {
            next
        }
    }

    /// One step with `f` can lead from `before` to `after`: a failure stays
    /// one, and a collection is extended by what `f` returns for the part
    /// collected last and the rest.
    pub open spec fn stepped<F: FnOnce(Option<&T>, U) -> Match<T, U>>(
        f: F,
        before: Collected<T, U>,
        after: Collected<T, U>,
    ) -> bool {
        match before {
            Some((list, rest)) => exists|next: Match<T, U>|
                f.ensures((Self::last_of(list), rest), next) && after == Self::extended(
                    list,
                    next@,
                ),
            None => after is None,
        }
    }

    /// `count` steps with `f`, one after the other, can lead from `start` to
    /// `end`.
    pub open spec fn repeated<F: FnMut(Option<&T>, U) -> Match<T, U>>(
        f: F,
        start: Collected<T, U>,
        count: nat,
        end: Collected<T, U>,
    ) -> bool
        decreases count,
    {
        if count == 0 {
            end == start
        } else {
            exists|mid: Collected<T, U>|
                Self::repeated(f, start, (count - 1) as nat, mid) && #[trigger] Self::stepped(
                    f,
                    mid,
                    end,
                )
        }
    }

    /// Constructs the failure.
    pub fn failed() -> (result: Self)
        ensures
            result@ is None,
    {
        CollectingMatch { matches: Vec::new(), rest: None }
    }

    /// Whether the chain has failed.
    pub fn is_failed(&self) -> (failed: bool)
        ensures
            failed == (self@ is None),
    {
        self.rest.is_none()
    }

    /// Ends the chain: hands out the matched parts that were collected, in
    /// their order, and the rest, or the error if any step has failed.
    pub fn finalize(self) -> (parts: Result<(Vec<T>, U), MatchFailed>)
        ensures
            match self@ {
                Some((list, rest)) => parts matches Ok((matches, r)) && matches@ == list && r
                    == rest,
                None => parts is Err,
            },
    {
        match self.rest {
            Some(rest) => Ok((self.matches, rest)),
            None => Err(MatchFailed),
        }
    }

    /// The collected parts and the rest of a chain that has not failed.
    pub fn unwrap(self) -> (parts: (Vec<T>, U))
        requires
            self@ is Some,
        ensures
            self@ == Some((parts.0@, parts.1)),
    {
        (self.matches, self.rest.unwrap())
    }

    /// The collected parts and the rest of a chain that has not failed. The
    /// message is for the reader of the call.
    pub fn expect(self, msg: &str) -> (parts: (Vec<T>, U))
        requires
            self@ is Some,
        ensures
            self@ == Some((parts.0@, parts.1)),
    {
        (self.matches, self.rest.expect(msg))
    }

    /// Turns a chain into a failure unless `f` holds of the part collected
    /// last and the rest. A failure stays one, and `f` is not called.
    pub fn assert_with<F>(self, f: F) -> (result: Self) where F: FnOnce(Option<&T>, &U) -> bool
        requires
            self@ matches Some((list, rest)) ==> f.requires((Self::last_of(list), &rest)),
        ensures
            match self@ {
                Some((list, rest)) => {
                    ||| result@ == self@ && f.ensures((Self::last_of(list), &rest), true)
                    ||| result@ is None && f.ensures((Self::last_of(list), &rest), false)
                },
                None => result@ is None,
            },
    {
        let holds = match &self.rest {
            Some(rest) => f(self.matches.as_slice().last(), rest),
            None => false,
        };
        if holds {
            self
        } else {
            CollectingMatch::failed()
        }
    }

    /// Calls `f` on the part collected last and the rest and returns the chain as it
    /// was: what `f` ensures then holds of them. On a failure `f` is not called.
    pub fn execute<F>(self, f: F) -> (result: Self) where F: FnOnce(Option<&T>, &U)
        requires
            self@ matches Some((list, rest)) ==> f.requires((Self::last_of(list), &rest)),
        ensures
            result == self,
            result@ == self@,
            self@ matches Some((list, rest)) ==> f.ensures((Self::last_of(list), &rest), ()),
    {
        match &self.rest {
            Some(rest) => {
                f(self.matches.as_slice().last(), rest);
            },
            None => {},
        }
        self
    }

    /// Takes one step: `f` is called on the part collected last and the rest,
    /// the matched part of its result, if it has one, is collected, and its
    /// rest is the new rest. Where `f` fails the chain fails, and what was
    /// collected is dropped. On a failure `f` is not called.
    pub fn single<F>(self, f: F) -> (result: Self) where F: FnOnce(Option<&T>, U) -> Match<T, U>
        requires
            self@ matches Some((list, rest)) ==> f.requires((Self::last_of(list), rest)),
        ensures
            Self::stepped(f, self@, result@),
    {
        let mut matches = self.matches;
        match self.rest {
            Some(rest) => {
                let next = f(matches.as_slice().last(), rest);
                match next.take() {
                    Ok((matched, rest)) => {
                        if let Some(part) = matched {
                            matches.push(part);
                        }
                        CollectingMatch { matches, rest: Some(rest) }
                    },
                    Err(_) => CollectingMatch::failed(),
                }
            },
            None => CollectingMatch::failed(),
        }
    }

    /// Takes `count` steps with `f`, as `single` takes one, and stops calling
    /// `f` at the first step that fails: the chain succeeds only if every one
    /// of the `count` steps does.
    pub fn repeat<F>(self, count: usize, f: F) -> (result: Self) where
        F: FnMut(Option<&T>, U) -> Match<T, U>,

        requires
            forall|done: nat, mid: Collected<T, U>|
                done < count && #[trigger] Self::repeated(f, self@, done, mid) ==> (
                mid matches Some((list, rest)) ==> f.requires((Self::last_of(list), rest))),
        ensures
            Self::repeated(f, self@, count as nat, result@),
            self@ is None ==> result@ is None,
    {
        let ghost start = self@;
        let mut step = f;
        let mut matches = self.matches;
        let mut rest = self.rest;
        let mut done: usize = 0;
        while done < count
            invariant
                step == f,
                start == self@,
                done <= count,
                Self::repeated(f, start, done as nat, Self::assembled(matches@, rest)),
                forall|done: nat, mid: Collected<T, U>|
                    done < count && #[trigger] Self::repeated(f, start, done, mid) ==> (
                    mid matches Some((list, rest)) ==> f.requires((Self::last_of(list), rest))),
            decreases count - done,
        {
            let ghost before = Self::assembled(matches@, rest);
            match rest {
                Some(r) => {
                    let next = step(matches.as_slice().last(), r);
                    match next.take() {
                        Ok((matched, r)) => {
                            if let Some(part) = matched {
                                matches.push(part);
                            }
                            rest = Some(r);
                        },
                        Err(_) => {
                            proof {
                                lemma_repeated_extends(f, start, done as nat, before, None);
                                lemma_repeated_failure_lasts(
                                    f,
                                    start,
                                    (done + 1) as nat,
                                    count as nat,
                                );
                            }
                            return CollectingMatch::failed();
                        },
                    }
                },
                None => {
                    proof {
                        lemma_repeated_failure_lasts(f, start, done as nat, count as nat);
                    }
                    return CollectingMatch::failed();
                },
            }
            proof {
                lemma_repeated_extends(
                    f,
                    start,
                    done as nat,
                    before,
                    Self::assembled(matches@, rest),
                );
            }
            done = done + 1;
        }
        proof {
            if start is None {
                lemma_repeated_failure_stays(f, count as nat, Self::assembled(matches@, rest));
            }
        }
        match rest {
            Some(r) => CollectingMatch { matches, rest: Some(r) },
            None => CollectingMatch::failed(),
        }
    }

    /// Lets `f` consume from the rest without collecting anything: the chain
    /// keeps what it has collected and takes the rest of what `f` returns; it
    /// fails where that fails. On a failure `f` is not called.
    pub fn discarding<F>(self, f: F) -> (result: Self) where
        F: FnOnce(Option<&T>, U) -> Match<T, U>,

        requires
            self@ matches Some((list, rest)) ==> f.requires((Self::last_of(list), rest)),
        ensures
            match self@ {
                Some((list, rest)) => exists|next: Match<T, U>|
                    f.ensures((Self::last_of(list), rest), next) && result@ == match next@ {
                        Some((_, r)) => Some((list, r)),
                        None => None,
                    },
                None => result@ is None,
            },
    {
        let matches = self.matches;
        match self.rest {
            Some(rest) => {
                let next = f(matches.as_slice().last(), rest);
                match next.take() {
                    Ok((_, rest)) => CollectingMatch { matches, rest: Some(rest) },
                    Err(_) => CollectingMatch::failed(),
                }
            },
            None => CollectingMatch::failed(),
        }
    }

    /// Tries `f` on the part collected last and a clone of the rest: the
    /// result is the chain that `f` returns, and the chain as it was where
    /// that is a failure. On a failure `f` is not called.
    pub fn optional<F>(self, f: F) -> (result: Self) where
        U: Clone,
        F: FnOnce(Option<&T>, U) -> CollectingMatch<T, U>,

        requires
            self@ matches Some((list, rest)) ==> forall|r: U| #[trigger]
                cloned(rest, r) ==> f.requires((Self::last_of(list), r)),
        ensures
            match self@ {
                Some((list, rest)) => exists|r: U, next: CollectingMatch<T, U>|
                    {
                        &&& cloned(rest, r)
                        &&& f.ensures((Self::last_of(list), r), next)
                        &&& result@ == Self::attempted(self@, next@)
                    },
                None => result@ is None,
            },
    {
        match &self.rest {
            Some(rest) => {
                let r = rest.clone();
                let last = self.matches.as_slice().last();
                assert(self@ matches Some((list, rest0)) && list == self.matches@ && rest0
                    == *rest);
                assert(cloned(*rest, r) && last == Self::last_of(self.matches@));
                let next = f(last, r);
                if next.is_failed() {
                    self
                } else {
                    next
                }
            },
            None => CollectingMatch::failed(),
        }
    }

    /// As `optional`, with the rest handed to `f` by reference.
    pub fn optional_ref<F>(self, f: F) -> (result: Self) where
        F: FnOnce(Option<&T>, &U) -> CollectingMatch<T, U>,

        requires
            self@ matches Some((list, rest)) ==> f.requires((Self::last_of(list), &rest)),
        ensures
            match self@ {
                Some((list, rest)) => exists|next: CollectingMatch<T, U>|
                    f.ensures((Self::last_of(list), &rest), next) && result@ == Self::attempted(
                        self@,
                        next@,
                    ),
                None => result@ is None,
            },
    {
        match &self.rest {
            Some(rest) => {
                let next = f(self.matches.as_slice().last(), rest);
                if next.is_failed() {
                    self
                } else {
                    next
                }
            },
            None => CollectingMatch::failed(),
        }
    }
}

impl<T, U> MatchFail for CollectingMatch<T, U> {
    open spec fn is_failure(&self) -> bool {
        self@ is None
    }

    fn failed() -> (result: Self) {
        CollectingMatch::failed()
    }
}

impl<T, U> From<U> for CollectingMatch<T, U> {
    /// A chain that has collected nothing yet: all of `rest` is its rest.
    fn from(rest: U) -> (result: Self)
        ensures
            result@ == Some((Seq::<T>::empty(), rest)),
    {
        CollectingMatch { matches: Vec::new(), rest: Some(rest) }
    }
}

/// A `Vec` cannot be written down in a specification, so what the conversion
/// returns is stated by `from` itself, over the view.
impl<T, U> vstd::std_specs::convert::FromSpecImpl<U> for CollectingMatch<T, U> {
    open spec fn obeys_from_spec() -> bool {
        false
    }

    open spec fn from_spec(rest: U) -> Self {
        choose|chain: Self| chain@ == Some((Seq::<T>::empty(), rest))
    }
}

impl<T, U> From<Match<T, U>> for CollectingMatch<T, U> {
    /// A chain that starts with the matched part of `matched`, if it has
    /// one, and goes on with its rest.
    fn from(matched: Match<T, U>) -> (result: Self)
        ensures
            result@ == Match::collected(matched@),
    {
        match matched.take() {
            Ok((part, rest)) => {
                let mut matches = Vec::new();
                if let Some(part) = part {
                    matches.push(part);
                }
                CollectingMatch { matches, rest: Some(rest) }
            },
            Err(_) => CollectingMatch::failed(),
        }
    }
}

/// A `Vec` cannot be written down in a specification, so what the conversion
/// returns is stated by `from` itself, over the view.
impl<T, U> vstd::std_specs::convert::FromSpecImpl<Match<T, U>> for CollectingMatch<T, U> {
    open spec fn obeys_from_spec() -> bool {
        false
    }

    open spec fn from_spec(matched: Match<T, U>) -> Self {
        choose|chain: Self| chain@ == Match::collected(matched@)
    }
}

} // verus!
