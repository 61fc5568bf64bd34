//! Search-path resolution: forming the ordered candidate paths for a command
//! name, and picking the first candidate that exists.
//!
//! Existence of a file is a fact about the filesystem that the caller
//! establishes and hands in as one boolean per candidate, in the same order;
//! the choice of the winning candidate is decided and proved here.

use vstd::prelude::*;
use vstd::string::*;
use crate::text::{split_on, split_spec};

verus! {

/// The directories of a search-path variable, in order: its value split on
/// `:`, empty entries kept; an absent variable or an empty value gives no
/// directories at all.
pub open spec fn search_dirs_spec(path_var: Option<Seq<char>>) -> Seq<Seq<char>> {
    match path_var {
        None => Seq::empty(),
        Some(p) => split_spec(p, ':'),
    }
}

/// The candidate path for `name` in `dir`: the two joined with one `/`.
pub open spec fn candidate_spec(dir: Seq<char>, name: Seq<char>) -> Seq<char> {
    dir + "/"@ + name
}

/// Joins a directory and a command name into a candidate path.
pub fn candidate_path(dir: &str, name: &str) -> (r: String)
    ensures
        r@ == candidate_spec(dir@, name@),
{
    let mut r = dir.to_owned();
    r.append("/");
    r.append(name);
    r
}

/// The ordered candidate paths for `name` under a search-path value.
pub open spec fn candidates_spec(path_var: Option<Seq<char>>, name: Seq<char>) -> Seq<Seq<char>> {
    search_dirs_spec(path_var).map_values(|d: Seq<char>| candidate_spec(d, name))
}

/// Forms the ordered candidate paths for `name` from the search-path
/// variable's value, if any.
pub fn search_candidates(name: &str, path_var: Option<&String>) -> (r: Vec<String>)
    ensures
        r@.len() == candidates_spec(
            match path_var {
                Some(p) => Some(p@),
                None => None,
            },
            name@,
        ).len(),
        forall|j: int|
            0 <= j < r@.len() ==> r@[j]@ == candidates_spec(
                match path_var {
                    Some(p) => Some(p@),
                    None => None,
                },
                name@,
            )[j],
{
    match path_var {
        None => Vec::new(),
        Some(p) => {
            let dirs = split_on(p.as_str(), ':');
            let ghost gdirs = split_spec(p@, ':');
            let mut out: Vec<String> = Vec::new();
            let mut i: usize = 0;
            while i < dirs.len()
                invariant
                    dirs@.len() == gdirs.len(),
                    forall|j: int| 0 <= j < dirs@.len() ==> dirs@[j]@ == gdirs[j],
                    i <= dirs@.len(),
                    out@.len() == i,
                    forall|j: int|
                        0 <= j < i ==> out@[j]@ == candidate_spec(gdirs[j], name@),
                decreases dirs@.len() - i,
            {
                let c = candidate_path(dirs[i].as_str(), name);
                out.push(c);
                i = i + 1;
            }
            out
        },
    }
}

/// The position of the first `true` in `exists`, if any.
pub open spec fn first_match(exists: Seq<bool>) -> Option<int>
    decreases exists.len(),
{
    if exists.len() == 0 {
        None
    } else if exists[0] {
        Some(0)
    } else {
        match first_match(exists.skip(1)) {
            None => None,
            Some(i) => Some(i + 1),
        }
    }
}

/// First-match-wins: the entry at `i` exists and every earlier entry does
/// not, so resolution picks exactly position `i` — the earliest-listed
/// directory with a match, however many later directories also match.
pub proof fn lemma_earliest_match_wins(exists: Seq<bool>, i: int)
    requires
        0 <= i < exists.len(),
        exists[i],
        forall|j: int| 0 <= j < i ==> !exists[j],
    ensures
        first_match(exists) == Some(i),
    decreases i,
{
    if i > 0 {
        lemma_earliest_match_wins(exists.skip(1), i - 1);
    }
}

/// Resolution finds nothing when no candidate exists; in particular when
/// there are no candidates at all, as with an unset or empty search path.
pub proof fn lemma_no_match_not_found(exists: Seq<bool>)
    requires
        forall|j: int| 0 <= j < exists.len() ==> !exists[j],
    ensures
        first_match(exists) is None,
    decreases exists.len(),
{
    if exists.len() > 0 {
        lemma_no_match_not_found(exists.skip(1));
    }
}

/// An unset search-path variable, and an empty one, yield no candidates.
pub proof fn lemma_no_search_path_no_candidates(name: Seq<char>)
    ensures
        candidates_spec(None, name).len() == 0,
        candidates_spec(Some(Seq::empty()), name).len() == 0,
{
}

/// Picks the first candidate whose existence flag is set: the resolved
/// executable path, or nothing if no candidate exists.
pub fn pick_first_existing(cands: &Vec<String>, exists: &Vec<bool>) -> (r: Option<String>)
    requires
        cands@.len() == exists@.len(),
    ensures
        match r {
            Some(p) => first_match(exists@) matches Some(i) && p@ == cands@[i]@,
            None => first_match(exists@) is None,
        },
{
    let n = cands.len();
    let mut i: usize = 0;
    while i < n
        invariant
            n == cands@.len(),
            n == exists@.len(),
            i <= n,
            forall|j: int| 0 <= j < i ==> !exists@[j],
        decreases n - i,
    {
        if exists[i] {
            proof {
                lemma_earliest_match_wins(exists@, i as int);
            }
            return Some(cands[i].clone());
        }
        i = i + 1;
    }
    proof {
        lemma_no_match_not_found(exists@);
    }
    None
}

} // verus!
