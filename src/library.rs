//! Looking up entries of the bibliography by identifier or title.
use vstd::prelude::*;
use crate::error::Error;
use crate::text::{chars_of, contains, find_exec, lemma_contains_iff_found};

verus! {

/// The lower-case form of a string, as `str::to_lowercase` computes it.
pub uninterp spec fn lower_of(s: Seq<char>) -> Seq<char>;

/// Relies on `str::to_lowercase`: the result depends on the characters alone.
#[verifier::external_body]
fn lowercase(s: &str) -> (r: String)
    ensures
        r@ == lower_of(s@),
{
    s.to_lowercase()
}

/// What a lookup reads of an entry: its identifier and its title as text.
#[derive(Debug, Clone, PartialEq, Eq)]
pub struct EntrySummary {
    pub doi: Option<String>,
    pub title: Option<String>,
}

/// An entry matches a query when its identifier is the query, or when its
/// lower-cased title holds the lower-cased query.
pub open spec fn matches_folded_spec(
    doi: Option<Seq<char>>,
    title_lower: Option<Seq<char>>,
    query: Seq<char>,
    query_lower: Seq<char>,
) -> bool {
    (doi matches Some(d) && d == query) || (title_lower matches Some(t) && contains(t, query_lower))
}

/// The view of an optional string.
pub open spec fn opt_view(s: Option<&str>) -> Option<Seq<char>> {
    match s {
        Some(x) => Some(x@),
        None => None,
    }
}

/// The view of an optional owned string.
pub open spec fn opt_string_view(s: Option<String>) -> Option<Seq<char>> {
    match s {
        Some(x) => Some(x@),
        None => None,
    }
}

/// Whether an entry matches `query`.
pub open spec fn entry_matches_spec(e: EntrySummary, query: Seq<char>) -> bool {
    matches_folded_spec(opt_string_view(e.doi), opt_lower(e.title), query, lower_of(query))
}

/// The lower-cased view of an optional string.
pub open spec fn opt_lower(s: Option<String>) -> Option<Seq<char>> {
    match s {
        Some(x) => Some(lower_of(x@)),
        None => None,
    }
}

/// Whether `a` and `b` are the same string.
fn same_text(a: &str, b: &str) -> (r: bool)
    ensures
        r == (a@ == b@),
{
    let x = chars_of(a);
    let y = chars_of(b);
    if x.len() != y.len() {
        return false;
    }
    let mut i: usize = 0;
    while i < x.len()
        invariant
            x@ == a@,
            y@ == b@,
            x@.len() == y@.len(),
            i <= x@.len(),
            forall|k: int| 0 <= k < i ==> x@[k] == y@[k],
        decreases x@.len() - i,
    {
        if x[i] != y[i] {
            assert(a@[i as int] != b@[i as int]);
            return false;
        }
        i = i + 1;
    }
    assert(x@ =~= y@);
    true
}

/// The match of an entry against a query, given the lower-cased title and
/// query.
pub fn matches_folded(doi: Option<&str>, title_lower: Option<&str>, query: &str, query_lower: &str) -> (r: bool)
    ensures
        r == matches_folded_spec(opt_view(doi), opt_view(title_lower), query@, query_lower@),
{
    let by_doi = match doi {
        Some(d) => same_text(d, query),
        None => false,
    };
    if by_doi {
        return true;
    }
    match title_lower {
        Some(t) => {
            let tc = chars_of(t);
            let qc = chars_of(query_lower);
            proof {
                lemma_contains_iff_found(t@, query_lower@);
            }
            find_exec(tc.as_slice(), qc.as_slice(), 0).is_some()
        },
        None => false,
    }
}

/// The positions of the entries that match `query`, in order; `NotFound`
/// where none does.
pub fn find_matches(entries: &Vec<EntrySummary>, query: &str) -> (r: Result<Vec<usize>, Error>)
    ensures
        match r {
            Ok(v) => v@.len() > 0 && (forall|j: int| 0 <= j < v@.len() ==> v@[j] < entries@.len())
                && (forall|j: int, k: int| 0 <= j < k < v@.len() ==> v@[j] < v@[k])
                && forall|i: int| 0 <= i < entries@.len() ==> (v@.contains(i as usize)
                <==> entry_matches_spec(entries@[i], query@)),
            Err(e) => e == Error::NotFound && forall|i: int| 0 <= i < entries@.len() ==> !entry_matches_spec(entries@[i], query@),
        },
{
    let query_lower = lowercase(query);
    let mut found: Vec<usize> = Vec::new();
    let mut i: usize = 0;
    while i < entries.len()
        invariant
            i <= entries@.len(),
            query_lower@ == lower_of(query@),
            forall|j: int| 0 <= j < found@.len() ==> found@[j] < i,
            forall|j: int, k: int| 0 <= j < k < found@.len() ==> found@[j] < found@[k],
            forall|m: int| 0 <= m < i ==> (found@.contains(m as usize) <==> entry_matches_spec(entries@[m], query@)),
        decreases entries@.len() - i,
    {
        let e = &entries[i];
        let doi: Option<&str> = match &e.doi {
            Some(d) => Some(d.as_str()),
            None => None,
        };
        let title_lower = match &e.title {
            Some(t) => Some(lowercase(t.as_str())),
            None => None,
        };
        let tl: Option<&str> = match &title_lower {
            Some(t) => Some(t.as_str()),
            None => None,
        };
        let hit = matches_folded(doi, tl, query, query_lower.as_str());
        proof {
            assert(opt_view(doi) == opt_string_view(entries@[i as int].doi));
            assert(opt_view(tl) == opt_lower(entries@[i as int].title));
        }
        let ghost old_found = found@;
        if hit {
            found.push(i);
        }
        proof {
            assert forall|m: int| 0 <= m < i + 1 implies (found@.contains(m as usize)
                <==> entry_matches_spec(entries@[m], query@)) by {
                if m < i {
                    if found@.contains(m as usize) {
                        let j = choose|j: int| 0 <= j < found@.len() && found@[j] == m as usize;
                        if j < old_found.len() {
                            assert(old_found[j] == m as usize);
                        }
                    }
                    if old_found.contains(m as usize) {
                        let j = choose|j: int| 0 <= j < old_found.len() && old_found[j] == m as usize;
                        assert(found@[j] == m as usize);
                    }
                } else {
                    if hit {
                        assert(found@[found@.len() - 1] == i);
                    } else {
                        if found@.contains(m as usize) {
                            let j = choose|j: int| 0 <= j < found@.len() && found@[j] == m as usize;
                            assert(found@[j] < i);
                        }
                    }
                }
            }
        }
        i = i + 1;
    }
    if found.len() == 0 {
        proof {
            assert forall|m: int| 0 <= m < entries@.len() implies !entry_matches_spec(entries@[m], query@) by {
                assert(!found@.contains(m as usize));
            }
        }
        Err(Error::NotFound)
    } else {
        Ok(found)
    }
}

} // verus!
