//! General laws about filtered sequences.
//!
//! The store contracts describe deletion and per-question listing as
//! `Seq::filter`; the lemmas here pin down the behaviour callers rely
//! on: a delete that matched nothing changed nothing, repeating a delete
//! is harmless, filtering keeps exactly the matching elements, and
//! filtering never introduces duplicate identifiers.

use vstd::prelude::*;
use vstd::seq_lib::*;

verus! {

/// A filter that every element passes returns the sequence unchanged. In
/// particular, deleting an identifier that matches no stored record
/// leaves the store exactly as it was.
pub proof fn lemma_filter_all_true<A>(s: Seq<A>, p: spec_fn(A) -> bool)
    requires
        forall|i: int| 0 <= i < s.len() ==> p(#[trigger] s[i]),
    ensures
        s.filter(p) == s,
    decreases s.len(),
{
    reveal(Seq::filter);
    if s.len() == 0 {
        assert(s.filter(p) =~= s);
    } else {
        let rest = s.drop_last();
        assert forall|i: int| 0 <= i < rest.len() implies p(#[trigger] rest[i]) by {
            assert(rest[i] == s[i]);
        }
        lemma_filter_all_true(rest, p);
        assert(p(s.last()));
        assert(s.filter(p) =~= s);
    }
}

/// Filtering twice by the same predicate is the same as filtering once.
/// In particular, deleting the same identifier a second time has no
/// further observable effect.
pub proof fn lemma_filter_idempotent<A>(s: Seq<A>, p: spec_fn(A) -> bool)
    ensures
        s.filter(p).filter(p) == s.filter(p),
{
    broadcast use Seq::lemma_filter_pred;

    lemma_filter_all_true(s.filter(p), p);
}

/// A filtered sequence holds exactly the elements of the original that
/// satisfy the predicate: listing the answers of a question returns all
/// of that question's answers and nothing referencing any other question.
pub proof fn lemma_filter_membership<A>(s: Seq<A>, p: spec_fn(A) -> bool, x: A)
    ensures
        s.filter(p).contains(x) <==> s.contains(x) && p(x),
{
    broadcast use Seq::lemma_filter_pred;
    broadcast use Seq::lemma_filter_contains;
    broadcast use Seq::lemma_filter_contains_rev;

    if s.filter(p).contains(x) {
        let i = choose|i: int| 0 <= i < s.filter(p).len() && s.filter(p)[i] == x;
        assert(p(s.filter(p)[i]));
    }
    if s.contains(x) && p(x) {
        let i = choose|i: int| 0 <= i < s.len() && s[i] == x;
        assert(s.filter(p).contains(s[i]));
    }
}

/// If some key is pairwise distinct across a sequence, it stays pairwise
/// distinct after filtering: deletion cannot introduce a duplicate
/// identifier.
pub proof fn lemma_filter_preserves_distinct<A, B>(
    s: Seq<A>,
    p: spec_fn(A) -> bool,
    key: spec_fn(A) -> B,
)
    requires
        forall|i: int, j: int| 0 <= i < j < s.len() ==> key(#[trigger] s[i]) != key(
            #[trigger] s[j],
        ),
    ensures
        forall|i: int, j: int|
            0 <= i < j < s.filter(p).len() ==> key(#[trigger] s.filter(p)[i]) != key(
                #[trigger] s.filter(p)[j],
            ),
    decreases s.len(),
{
    broadcast use Seq::lemma_filter_contains_rev;

    reveal(Seq::filter);
    if s.len() > 0 {
        let rest = s.drop_last();
        assert forall|i: int, j: int| 0 <= i < j < rest.len() implies key(#[trigger] rest[i])
            != key(#[trigger] rest[j]) by {
            assert(rest[i] == s[i] && rest[j] == s[j]);
        }
        lemma_filter_preserves_distinct(rest, p, key);
        if p(s.last()) {
            let f = s.filter(p);
            let fr = rest.filter(p);
            assert(f == fr.push(s.last()));
            assert forall|i: int, j: int| 0 <= i < j < f.len() implies key(#[trigger] f[i]) != key(
                #[trigger] f[j],
            ) by {
                if j < fr.len() {
                    assert(f[i] == fr[i] && f[j] == fr[j]);
                } else {
                    assert(f[j] == s.last());
                    assert(f[i] == fr[i]);
                    assert(fr.contains(fr[i]));
                    assert(rest.contains(fr[i]));
                    let k = choose|k: int| 0 <= k < rest.len() && rest[k] == fr[i];
                    assert(rest[k] == s[k]);
                    assert(key(s[k]) != key(s[s.len() - 1]));
                }
            }
        }
    }
}

} // verus!
