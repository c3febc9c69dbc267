//! `RegexSetMap` maps a text and some input to the entry that both select.
//!
//! An entry is a candidate when its regular expression matches the text and
//! it accepts the input. Matching is exhaustive: two candidates are an
//! ambiguity, never settled by the order of the entries.

use crate::matcher::{regex_accepts, regex_is_match};
use vstd::prelude::*;

verus! {

/// An entry of a `RegexSetMap`: a regular expression and a test on inputs.
pub trait Entry<I> {
    /// The regular expression of the entry.
    spec fn regex_of(&self) -> regex::Regex;

    /// Whether the entry accepts an input.
    spec fn accepts(&self, i: &I) -> bool;

    fn regex(&self) -> (r: &regex::Regex)
        ensures
            *r == self.regex_of(),
    ;

    fn matches_input(&self, i: &I) -> (b: bool)
        ensures
            b == self.accepts(i),
    ;
}

/// Whether an entry is a candidate for a text and an input.
pub open spec fn is_candidate<I, T: Entry<I>>(e: T, s: Seq<char>, input: &I) -> bool {
    regex_accepts(e.regex_of(), s) && e.accepts(input)
}

/// A list of entries to be looked up by text and input.
pub struct RegexSetMap<I, T: Entry<I>> {
    entries: Vec<T>,
    _marker: core::marker::PhantomData<I>,
}

/// What a lookup selects: nothing, the entry at an index, or too much.
pub enum Selection {
    NoMatch,
    One(int),
    Ambiguous,
}

/// The outcome of a lookup.
#[derive(Debug)]
pub enum GetResult<'a, T> {
    /// No entry is a candidate.
    NoMatch,
    /// Exactly this entry is a candidate.
    One(&'a T),
    /// More than one entry is a candidate.
    Ambiguous,
}

impl<I, T: Entry<I>> RegexSetMap<I, T> {
    /// The entries, in the order in which they were given.
    pub closed spec fn entries(&self) -> Seq<T> {
        self.entries@
    }

    /// What a text and an input select among the entries.
    pub open spec fn selection(&self, s: Seq<char>, input: &I) -> Selection {
        if forall|k: int| !self.candidate_at(k, s, input) {
            Selection::NoMatch
        } else if exists|j: int, k: int|
            j != k && self.candidate_at(j, s, input) && self.candidate_at(k, s, input) {
            Selection::Ambiguous
        } else {
            Selection::One(choose|k: int| self.candidate_at(k, s, input))
        }
    }

    /// Whether the entry at `k` is a candidate.
    pub open spec fn candidate_at(&self, k: int, s: Seq<char>, input: &I) -> bool {
        0 <= k < self.entries().len() && is_candidate(self.entries()[k], s, input)
    }

    /// A map over the given entries.
    pub fn new(entries: Vec<T>) -> (r: Result<Self, regex::Error>)
        ensures
            r is Ok,
            r->Ok_0.entries() == entries@,
    {
        Ok(RegexSetMap { entries, _marker: core::marker::PhantomData })
    }

    /// The number of entries.
    pub fn len(&self) -> (n: usize)
        ensures
            n == self.entries().len(),
    {
        self.entries.len()
    }

    /// The entry at `k`.
    pub fn entry(&self, k: usize) -> (e: &T)
        requires
            k < self.entries().len(),
        ensures
            *e == self.entries()[k as int],
    {
        &self.entries[k]
    }

    /// Looks up the entry that `s` and `input` select: `NoMatch` where no entry
    /// is a candidate, the entry where exactly one is, `Ambiguous` where two
    /// or more are.
    pub fn get(&self, s: &str, input: &I) -> (r: GetResult<'_, T>)
        ensures
            match self.selection(s@, input) {
                Selection::NoMatch => r is NoMatch,
                Selection::Ambiguous => r is Ambiguous,
                Selection::One(k) => 0 <= k < self.entries().len() && r is One && *r->One_0
                    == self.entries()[k],
            },
    {
        let mut found: Option<usize> = None;
        let mut i: usize = 0;
        while i < self.entries.len()
            invariant
                i <= self.entries.len(),
                match found {
                    None => forall|k: int| 0 <= k < i ==> !self.candidate_at(k, s@, input),
                    Some(f) => f < i && self.candidate_at(f as int, s@, input) && forall|k: int|
                        0 <= k < i && k != f ==> !self.candidate_at(k, s@, input),
                },
            decreases self.entries.len() - i,
        {
            let e = &self.entries[i];
            if regex_is_match(e.regex(), s) && e.matches_input(input) {
                match found {
                    Some(f) => {
                        assert(self.candidate_at(f as int, s@, input) && self.candidate_at(
                            i as int,
                            s@,
                            input,
                        ));
                        return GetResult::Ambiguous;
                    },
                    None => {
                        found = Some(i);
                    },
                }
            }
            i += 1;
        }
        match found {
            None => GetResult::NoMatch,
            Some(f) => {
                assert(self.candidate_at(f as int, s@, input));
                GetResult::One(&self.entries[f])
            },
        }
    }
}

} // verus!
