use crate::result::{MappedMatch, MappedOutcome, Match, Outcome};
use vstd::prelude::*;

verus! {

/// A tree of alternatives: branches that are tried, in the order in which
/// they are added, on one starting point. The first branch that matches
/// decides the result, and no branch after it is run.
#[must_use]
pub struct AlternativesMatch<P, T, U> {
    previous: P,
    matched: Match<T, U>,
}

impl<P, T, U> View for AlternativesMatch<P, T, U> {
    type V = (P, Outcome<T, U>);

    /// The starting point, and the result of the first branch that has
    /// matched, `None` while none has.
    closed spec fn view(&self) -> (P, Outcome<T, U>) {
        (self.previous, self.matched@)
    }
}

impl<P, T, U> AlternativesMatch<P, T, U> {
    /// The starting point that every branch is offered.
    pub open spec fn start(self) -> P {
        let (previous, _) = self@;
        previous
    }

    /// The result of the first branch that has matched, `None` while none
    /// has.
    pub open spec fn found(self) -> Outcome<T, U> {
        let (_, matched) = self@;
        matched
    }

    /// Starts a tree on `previous`, with no branch yet.
    pub fn new(previous: P) -> (tree: Self)
        ensures
            tree@ == (previous, None::<(Option<T>, U)>),
    {
        AlternativesMatch { previous, matched: Match::failed() }
    }

    /// Whether a branch has matched.
    pub fn is_matched(&self) -> (matched: bool)
        ensures
            matched == (self.found() is Some),
    {
        !self.matched.is_failed()
    }

    /// Adds a branch. While no branch has matched, `f` is run on a clone of
    /// the starting point and its result is kept. Once a branch has matched,
    /// `f` is not called and the tree stays as it is.
    pub fn add_path<F>(self, f: F) -> (tree: Self) where P: Clone, F: FnOnce(P) -> Match<T, U>
        requires
            self.found() is None ==> forall|copy: P|
                cloned(self.start(), copy) ==> f.requires((copy,)),
        ensures
            tree.start() == self.start(),
            self.found() is Some ==> tree.found() == self.found(),
            self.found() is None ==> exists|copy: P, next: Match<T, U>|
                {
                    &&& cloned(self.start(), copy)
                    &&& f.ensures((copy,), next)
                    &&& tree.found() == next@
                },
    {
        if self.matched.is_failed() {
            let copy = self.previous.clone();
            assert(cloned(self.start(), copy));
            let next = f(copy);
            AlternativesMatch { previous: self.previous, matched: next }
        } else {
            self
        }
    }

    /// As `add_path`, with the starting point handed to `f` by reference.
    pub fn add_path_ref<F>(self, f: F) -> (tree: Self) where F: FnOnce(&P) -> Match<T, U>
        requires
            self.found() is None ==> f.requires((&self.start(),)),
        ensures
            tree.start() == self.start(),
            self.found() is Some ==> tree.found() == self.found(),
            self.found() is None ==> exists|next: Match<T, U>|
                f.ensures((&self.start(),), next) && tree.found() == next@,
    {
        if self.matched.is_failed() {
            let next = f(&self.previous);
            AlternativesMatch { previous: self.previous, matched: next }
        } else {
            self
        }
    }

    /// Ends the tree: the result of the first branch that has matched, and a
    /// failure if none has.
    pub fn finalize(self) -> (result: Match<T, U>)
        ensures
            result@ == self.found(),
    {
        self.matched
    }
}

/// A tree of alternatives whose branches return results with a mapped
/// value, which tells which branch has matched.
#[must_use]
pub struct MappedAlternativesMatch<P, T, U, V> {
    previous: P,
    matched: MappedMatch<T, U, V>,
}

impl<P, T, U, V> View for MappedAlternativesMatch<P, T, U, V> {
    type V = (P, MappedOutcome<T, U, V>);

    /// The starting point, and the result of the first branch that has
    /// matched, `None` while none has.
    closed spec fn view(&self) -> (P, MappedOutcome<T, U, V>) {
        (self.previous, self.matched@)
    }
}

impl<P, T, U, V> MappedAlternativesMatch<P, T, U, V> {
    /// The starting point that every branch is offered.
    pub open spec fn start(self) -> P {
        let (previous, _) = self@;
        previous
    }

    /// The result of the first branch that has matched, `None` while none
    /// has.
    pub open spec fn found(self) -> MappedOutcome<T, U, V> {
        let (_, matched) = self@;
        matched
    }

    /// Starts a tree on `previous`, with no branch yet.
    pub fn new(previous: P) -> (tree: Self)
        ensures
            tree@ == (previous, None::<(Option<(T, V)>, U)>),
    {
        MappedAlternativesMatch { previous, matched: MappedMatch::failed() }
    }

    /// Whether a branch has matched.
    pub fn is_matched(&self) -> (matched: bool)
        ensures
            matched == (self.found() is Some),
    {
        !self.matched.is_failed()
    }

    /// Adds a branch. While no branch has matched, `f` is run on a clone of
    /// the starting point and its result is kept. Once a branch has matched,
    /// `f` is not called and the tree stays as it is.
    pub fn add_path<F>(self, f: F) -> (tree: Self) where
        P: Clone,
        F: FnOnce(P) -> MappedMatch<T, U, V>,

        requires
            self.found() is None ==> forall|copy: P|
                cloned(self.start(), copy) ==> f.requires((copy,)),
        ensures
            tree.start() == self.start(),
            self.found() is Some ==> tree.found() == self.found(),
            self.found() is None ==> exists|copy: P, next: MappedMatch<T, U, V>|
                {
                    &&& cloned(self.start(), copy)
                    &&& f.ensures((copy,), next)
                    &&& tree.found() == next@
                },
    {
        if self.matched.is_failed() {
            let copy = self.previous.clone();
            assert(cloned(self.start(), copy));
            let next = f(copy);
            MappedAlternativesMatch { previous: self.previous, matched: next }
        } else {
            self
        }
    }

    /// As `add_path`, with the starting point handed to `f` by reference.
    pub fn add_path_ref<F>(self, f: F) -> (tree: Self) where
        F: FnOnce(&P) -> MappedMatch<T, U, V>,

        requires
            self.found() is None ==> f.requires((&self.start(),)),
        ensures
            tree.start() == self.start(),
            self.found() is Some ==> tree.found() == self.found(),
            self.found() is None ==> exists|next: MappedMatch<T, U, V>|
                f.ensures((&self.start(),), next) && tree.found() == next@,
    {
        if self.matched.is_failed() {
            let next = f(&self.previous);
            MappedAlternativesMatch { previous: self.previous, matched: next }
        } else {
            self
        }
    }

    /// Ends the tree: the result of the first branch that has matched, and a
    /// failure if none has.
    pub fn finalize(self) -> (result: MappedMatch<T, U, V>)
        ensures
            result@ == self.found(),
    {
        self.matched
    }
}

} // verus!
