//! Facts about filtered sequences.

use vstd::prelude::*;

verus! {

/// Filtering one element more either appends that element or changes
/// nothing.
pub proof fn lemma_filter_take_step<A>(s: Seq<A>, p: spec_fn(A) -> bool, i: int)
    requires
        0 <= i < s.len(),
    ensures
        s.take(i + 1).filter(p) == if p(s[i]) {
            s.take(i).filter(p).push(s[i])
        } else {
            s.take(i).filter(p)
        },
{
    reveal(Seq::filter);
    assert(s.take(i + 1).drop_last() =~= s.take(i));
}

/// What a filter keeps of a prefix is a prefix of what it keeps of a longer
/// prefix.
pub proof fn lemma_filter_prefix<A>(s: Seq<A>, p: spec_fn(A) -> bool, i: int, j: int)
    requires
        0 <= i <= j <= s.len(),
    ensures
        s.take(i).filter(p).len() <= s.take(j).filter(p).len(),
        forall|k: int|
            0 <= k < s.take(i).filter(p).len() ==> s.take(j).filter(p)[k] == s.take(i).filter(p)[k],
    decreases j - i,
{
    if i < j {
        lemma_filter_prefix(s, p, i, j - 1);
        lemma_filter_take_step(s, p, j - 1);
    }
}

/// Whatever a filter keeps passes the filter and comes from the sequence.
pub proof fn lemma_filter_all<A>(s: Seq<A>, p: spec_fn(A) -> bool)
    ensures
        forall|k: int| 0 <= k < s.filter(p).len() ==> p(#[trigger] s.filter(p)[k]),
        forall|k: int| 0 <= k < s.filter(p).len() ==> s.contains(#[trigger] s.filter(p)[k]),
    decreases s.len(),
{
    reveal(Seq::filter);
    if s.len() > 0 {
        lemma_filter_all(s.drop_last(), p);
        assert forall|k: int| 0 <= k < s.filter(p).len() implies s.contains(
            #[trigger] s.filter(p)[k],
        ) by {
            let x = s.filter(p)[k];
            if k < s.drop_last().filter(p).len() {
                assert(s.drop_last().filter(p)[k] == x);
                assert(s.drop_last().contains(x));
                let j = choose|j: int| 0 <= j < s.drop_last().len() && s.drop_last()[j] == x;
                assert(s[j] == x);
            } else {
                assert(x == s.last());
                assert(s[s.len() - 1] == x);
            }
        }
    }
}

/// A filter that keeps nothing is passed by no element.
pub proof fn lemma_filter_none<A>(s: Seq<A>, p: spec_fn(A) -> bool)
    requires
        s.filter(p).len() == 0,
    ensures
        forall|i: int| 0 <= i < s.len() ==> !p(#[trigger] s[i]),
    decreases s.len(),
{
    reveal(Seq::filter);
    if s.len() > 0 {
        lemma_filter_none(s.drop_last(), p);
        assert forall|i: int| 0 <= i < s.len() implies !p(#[trigger] s[i]) by {
            if i < s.len() - 1 {
                assert(s.drop_last()[i] == s[i]);
            }
        }
    }
}

/// Two filters that agree on every element keep the same elements.
pub proof fn lemma_filter_same<A>(s: Seq<A>, p: spec_fn(A) -> bool, q: spec_fn(A) -> bool)
    requires
        forall|i: int| 0 <= i < s.len() ==> p(#[trigger] s[i]) == q(s[i]),
    ensures
        s.filter(p) == s.filter(q),
    decreases s.len(),
{
    reveal(Seq::filter);
    if s.len() > 0 {
        assert forall|i: int| 0 <= i < s.drop_last().len() implies p(#[trigger] s.drop_last()[i])
            == q(s.drop_last()[i]) by {
            assert(s.drop_last()[i] == s[i]);
        }
        lemma_filter_same(s.drop_last(), p, q);
        assert(p(s[s.len() - 1]) == q(s[s.len() - 1]));
    }
}

/// A filter that every value passes keeps everything.
pub proof fn lemma_filter_everything<A>(s: Seq<A>, p: spec_fn(A) -> bool)
    requires
        forall|i: int| 0 <= i < s.len() ==> p(#[trigger] s[i]),
    ensures
        s.filter(p) == s,
    decreases s.len(),
{
    reveal(Seq::filter);
    if s.len() > 0 {
        assert forall|i: int| 0 <= i < s.drop_last().len() implies p(#[trigger] s.drop_last()[i]) by {
            assert(s.drop_last()[i] == s[i]);
        }
        lemma_filter_everything(s.drop_last(), p);
        assert(p(s[s.len() - 1]));
        assert(s.drop_last().push(s.last()) =~= s);
    } else {
        assert(s.filter(p) =~= s);
    }
}

/// A sequence is its own longest prefix.
pub proof fn lemma_take_all<A>(s: Seq<A>)
    ensures
        s.take(s.len() as int) == s,
{
    assert(s.take(s.len() as int) =~= s);
}

} // verus!
