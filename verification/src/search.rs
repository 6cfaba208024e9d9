//! Finding a byte pattern in a buffer.

use memmem::{Searcher, TwoWaySearcher};
use vstd::prelude::*;

verus! {

/// Where in a buffer the universal key is looked for.
#[derive(Clone, Copy, Debug, PartialEq, Eq, Structural)]
pub enum KeySearch {
    /// Only at offset 0.
    AtStart,
    /// Anywhere; the first occurrence counts.
    Anywhere,
}

/// `needle` stands in `haystack` at offset `at`.
pub open spec fn occurs_at(haystack: Seq<u8>, needle: Seq<u8>, at: int) -> bool {
    &&& 0 <= at
    &&& at + needle.len() <= haystack.len()
    &&& haystack.subrange(at, at + needle.len()) == needle
}

/// `needle` stands in `haystack` at offset `at` and at no smaller offset.
pub open spec fn is_first_occurrence(haystack: Seq<u8>, needle: Seq<u8>, at: int) -> bool {
    &&& occurs_at(haystack, needle, at)
    &&& forall|earlier: int| 0 <= earlier < at ==> !occurs_at(haystack, needle, earlier)
}

/// The smallest offset, `from` or above, at which `needle` stands in
/// `haystack`.
pub open spec fn search_from(haystack: Seq<u8>, needle: Seq<u8>, from: int) -> Option<int>
    decreases haystack.len() + 1 - from,
{
    if from < 0 || from + needle.len() > haystack.len() {
        None
    } else if occurs_at(haystack, needle, from) {
        Some(from)
    } else {
        search_from(haystack, needle, from + 1)
    }
}

/// The smallest offset at which `needle` stands in `haystack`.
pub open spec fn first_occurrence(haystack: Seq<u8>, needle: Seq<u8>) -> Option<int> {
    search_from(haystack, needle, 0)
}

/// The offset at which a search of kind `search` finds `needle`.
pub open spec fn locate(haystack: Seq<u8>, needle: Seq<u8>, search: KeySearch) -> Option<int> {
    match search {
        KeySearch::AtStart => if occurs_at(haystack, needle, 0) {
            Some(0)
        } else {
            None
        },
        KeySearch::Anywhere => first_occurrence(haystack, needle),
    }
}

/// A search that starts at or before the first occurrence finds it.
pub proof fn lemma_search_finds_first(haystack: Seq<u8>, needle: Seq<u8>, from: int, at: int)
    requires
        0 <= from <= at,
        occurs_at(haystack, needle, at),
        forall|earlier: int| from <= earlier < at ==> !occurs_at(haystack, needle, earlier),
    ensures
        search_from(haystack, needle, from) == Some(at),
    decreases at - from,
{
    if from < at {
        lemma_search_finds_first(haystack, needle, from + 1, at);
    }
}

/// A search finds nothing where the pattern stands nowhere from `from` on.
pub proof fn lemma_search_finds_none(haystack: Seq<u8>, needle: Seq<u8>, from: int)
    requires
        0 <= from,
        forall|at: int| from <= at ==> !occurs_at(haystack, needle, at),
    ensures
        search_from(haystack, needle, from) is None,
    decreases haystack.len() + 1 - from,
{
    if from + needle.len() <= haystack.len() {
        lemma_search_finds_none(haystack, needle, from + 1);
    }
}

/// What a search returns is the first occurrence, and it returns nothing
/// only where there is none.
pub proof fn lemma_search_from_is_first(haystack: Seq<u8>, needle: Seq<u8>, from: int)
    requires
        0 <= from,
    ensures
        match search_from(haystack, needle, from) {
            Some(at) => {
                &&& from <= at
                &&& occurs_at(haystack, needle, at)
                &&& forall|earlier: int|
                    from <= earlier < at ==> !occurs_at(haystack, needle, earlier)
            },
            None => forall|at: int| from <= at ==> !occurs_at(haystack, needle, at),
        },
    decreases haystack.len() + 1 - from,
{
    if from + needle.len() <= haystack.len() && !occurs_at(haystack, needle, from) {
        lemma_search_from_is_first(haystack, needle, from + 1);
    }
}

/// `TwoWaySearcher::new` of memmem on `needle`, then `Searcher::search_in` on
/// `haystack`. The search returns the offset at which the pattern first
/// stands in the text, and nothing only where it stands nowhere. (The empty
/// pattern stands at offset 0.)
#[verifier::external_body]
fn two_way_search(haystack: &[u8], needle: &[u8]) -> (found: Option<usize>)
    ensures
        match found {
            Some(at) => is_first_occurrence(haystack@, needle@, at as int),
            None => forall|at: int| !occurs_at(haystack@, needle@, at),
        },
{
    TwoWaySearcher::new(needle).search_in(haystack)
}

/// Whether `haystack` begins with `needle`.
pub fn starts_with(haystack: &[u8], needle: &[u8]) -> (matches: bool)
    ensures
        matches == occurs_at(haystack@, needle@, 0),
{
    let n: usize = needle.len();
    if haystack.len() < n {
        return false;
    }
    let mut i: usize = 0;
    while i < n
        invariant
            i <= n,
            n == needle@.len(),
            n <= haystack@.len(),
            forall|j: int| 0 <= j < i ==> haystack@[j] == needle@[j],
        decreases n - i,
    {
        if haystack[i] != needle[i] {
            assert(haystack@.subrange(0, n as int)[i as int] == haystack@[i as int]);
            return false;
        }
        i += 1;
    }
    assert(haystack@.subrange(0, n as int) =~= needle@);
    true
}

/// The offset at which `needle` first stands in `haystack`.
pub fn find_first(haystack: &[u8], needle: &[u8]) -> (found: Option<usize>)
    ensures
        match found {
            Some(at) => first_occurrence(haystack@, needle@) == Some(at as int),
            None => first_occurrence(haystack@, needle@) is None,
        },
{
    let found = two_way_search(haystack, needle);
    proof {
        match found {
            Some(at) => lemma_search_finds_first(haystack@, needle@, 0, at as int),
            None => lemma_search_finds_none(haystack@, needle@, 0),
        }
    }
    found
}

/// Looks for `needle` in `haystack` as `search` says.
pub fn find(haystack: &[u8], needle: &[u8], search: KeySearch) -> (found: Option<usize>)
    ensures
        match found {
            Some(at) => {
                &&& locate(haystack@, needle@, search) == Some(at as int)
                &&& at + needle@.len() <= haystack@.len()
            },
            None => locate(haystack@, needle@, search) is None,
        },
{
    match search {
        KeySearch::AtStart => if starts_with(haystack, needle) {
            Some(0)
        } else {
            None
        },
        KeySearch::Anywhere => {
            proof {
                lemma_search_from_is_first(haystack@, needle@, 0);
            }
            find_first(haystack, needle)
        },
    }
}

} // verus!
