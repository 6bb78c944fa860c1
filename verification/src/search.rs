//! "First index satisfying a predicate", the shape of most lookups in this crate.

use vstd::prelude::*;

verus! {

/// Smallest `j` in `0..n` with `p(j)`, if any.
pub open spec fn first_match(n: int, p: spec_fn(int) -> bool) -> Option<int>
    decreases n,
{
    if n <= 0 {
        None
    } else {
        match first_match(n - 1, p) {
            Some(j) => Some(j),
            None => if p(n - 1) {
                Some(n - 1)
            } else {
                None
            },
        }
    }
}

pub proof fn lemma_first_match(n: int, p: spec_fn(int) -> bool)
    ensures
        first_match(n, p) matches Some(j) ==> 0 <= j < n && p(j) && forall|k: int|
            0 <= k < j ==> !#[trigger] p(k),
        first_match(n, p) is None ==> forall|k: int| 0 <= k < n ==> !#[trigger] p(k),
    decreases n,
{
    if n > 0 {
        lemma_first_match(n - 1, p);
    }
}

/// Characterises `first_match` by its defining properties.
pub proof fn lemma_first_match_is(n: int, p: spec_fn(int) -> bool, j: int)
    requires
        0 <= j < n,
        p(j),
        forall|k: int| 0 <= k < j ==> !#[trigger] p(k),
    ensures
        first_match(n, p) == Some(j),
{
    lemma_first_match(n, p);
    if let Some(i) = first_match(n, p) {
        assert(i == j);
    }
}

pub proof fn lemma_first_match_none(n: int, p: spec_fn(int) -> bool)
    requires
        forall|k: int| 0 <= k < n ==> !#[trigger] p(k),
    ensures
        first_match(n, p) is None,
{
    lemma_first_match(n, p);
}

} // verus!

verus! {

/// Predicates that agree on `0..n` have the same first match there.
pub proof fn lemma_first_match_ext(n: int, p: spec_fn(int) -> bool, q: spec_fn(int) -> bool)
    requires
        forall|j: int| 0 <= j < n ==> #[trigger] p(j) == q(j),
    ensures
        first_match(n, p) == first_match(n, q),
    decreases n,
{
    if n > 0 {
        lemma_first_match_ext(n - 1, p, q);
    }
}

/// Appending a slot on which `q` fails does not change the first match.
pub proof fn lemma_first_match_extend(n: int, p: spec_fn(int) -> bool, q: spec_fn(int) -> bool)
    requires
        n >= 0,
        forall|j: int| 0 <= j < n ==> #[trigger] p(j) == q(j),
        !q(n),
    ensures
        first_match(n + 1, q) == first_match(n, p),
{
    lemma_first_match_ext(n, p, q);
}

/// `a`, or `b` when `a` is none.
pub open spec fn or_else(a: Option<Seq<char>>, b: Option<Seq<char>>) -> Option<Seq<char>> {
    if a is Some {
        a
    } else {
        b
    }
}

/// The message of the first index below `n` at which `bad` holds, if any.
pub open spec fn first_msg(n: int, bad: spec_fn(int) -> bool, msg: spec_fn(int) -> Seq<char>) -> Option<Seq<char>> {
    match first_match(n, bad) {
        Some(i) => Some(msg(i)),
        None => None,
    }
}

} // verus!
