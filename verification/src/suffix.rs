//! An ordered table of word endings.  Lookup scans the entries in their
//! original order and returns the first whose pattern is a suffix of the
//! queried word — first match, not longest match, so the order in which the
//! entries were given is part of the table's contract.

use vstd::prelude::*;

use crate::text::is_suffix_of;
use crate::text::str_ends_with;

verus! {

/// The first entry of `entries` whose pattern is a suffix of `what`, if any.
pub open spec fn lookup_spec<T>(entries: Seq<(Seq<char>, T)>, what: Seq<char>) -> Option<
    (Seq<char>, T),
>
    decreases entries.len(),
{
    if entries.len() == 0 {
        None
    } else if is_suffix_of(entries[0].0, what) {
        Some(entries[0])
    } else {
        lookup_spec(entries.drop_first(), what)
    }
}

/// A found entry's pattern really is a suffix of the queried word, and a
/// `None` answer means no entry matches.
pub proof fn lemma_lookup_spec_props<T>(entries: Seq<(Seq<char>, T)>, what: Seq<char>)
    ensures
        lookup_spec(entries, what) matches Some(e) ==> is_suffix_of(e.0, what),
        lookup_spec(entries, what) is None <==> (forall|i: int|
            0 <= i < entries.len() ==> !is_suffix_of(#[trigger] entries[i].0, what)),
    decreases entries.len(),
{
    if entries.len() > 0 {
        lemma_lookup_spec_props(entries.drop_first(), what);
        assert(forall|i: int|
            1 <= i < entries.len() ==> entries.drop_first()[i - 1] == #[trigger] entries[i]);
    }
}

/// Lookup returns the *first* matching entry in insertion order: if entry
/// `i` matches and no earlier entry does, entry `i` is the answer — even if
/// a later entry's pattern is longer.
pub proof fn lemma_lookup_first_match<T>(entries: Seq<(Seq<char>, T)>, what: Seq<char>, i: int)
    requires
        0 <= i < entries.len(),
        is_suffix_of(entries[i].0, what),
        forall|j: int| 0 <= j < i ==> !is_suffix_of(#[trigger] entries[j].0, what),
    ensures
        lookup_spec(entries, what) == Some(entries[i]),
    decreases i,
{
    if i > 0 {
        lemma_lookup_first_match(entries.drop_first(), what, i - 1);
        assert(forall|j: int|
            0 <= j < entries.drop_first().len() ==> entries.drop_first()[j] == #[trigger] entries[j
                + 1]);
    }
}

/// An ordered suffix table mapping a word ending to a replacement value.
#[derive(Debug)]
pub struct Suffix<T> {
    data: Vec<(String, T)>,
}

impl<T> View for Suffix<T> {
    type V = Seq<(Seq<char>, T)>;

    closed spec fn view(&self) -> Seq<(Seq<char>, T)> {
        Seq::new(self.data@.len(), |i: int| (self.data@[i].0@, self.data@[i].1))
    }
}

impl<T: Clone> Suffix<T> {
    /// Builds the table from the given pairs, keeping their order and
    /// without removing duplicates.
    pub fn new(data: Vec<(String, T)>) -> (r: Self)
        ensures
            r@.len() == data@.len(),
            forall|i: int|
                0 <= i < data@.len() ==> r@[i] == (#[trigger] data@[i].0@, data@[i].1),
    {
        Self { data }
    }

    /// Scans the entries in insertion order and returns the first whose
    /// pattern is a suffix of `what`, together with a clone of its value.
    pub fn lookup(&self, what: &str) -> (r: Option<(&str, T)>)
        ensures
            match r {
                Some(p) => lookup_spec(self@, what@) matches Some(e) && p.0@ == e.0 && cloned(
                    e.1,
                    p.1,
                ),
                None => lookup_spec(self@, what@) is None,
            },
    {
        let n = self.data.len();
        let mut i: usize = 0;
        while i < n
            invariant
                i <= n,
                n == self.data@.len(),
                self@.len() == self.data@.len(),
                forall|j: int| 0 <= j < i ==> !is_suffix_of(#[trigger] self@[j].0, what@),
                forall|j: int|
                    0 <= j < n ==> #[trigger] self@[j] == (self.data@[j].0@, self.data@[j].1),
            decreases n - i,
        {
            let entry = &self.data[i];
            if str_ends_with(what, entry.0.as_str()) {
                proof {
                    lemma_lookup_first_match(self@, what@, i as int);
                }
                return Some((entry.0.as_str(), entry.1.clone()));
            }
            i = i + 1;
        }
        proof {
            lemma_lookup_spec_props(self@, what@);
        }
        None
    }
}

} // verus!
