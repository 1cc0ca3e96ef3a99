use vstd::prelude::*;

verus! {

/// The elements of `s` whose mark in `marks` equals `side`, in the order in
/// which they stand in `s`.
///
/// `marks` gives one decision per position of `s`; a drain keeps the elements
/// marked `false` and hands out those marked `true`.
pub open spec fn select<T>(s: Seq<T>, marks: Seq<bool>, side: bool) -> Seq<T>
    decreases s.len(),
{
    if s.len() == 0 {
        Seq::empty()
    } else {
        let rest = select(s.drop_last(), marks.drop_last(), side);
        if marks.last() == side {
            rest.push(s.last())
        } else {
            rest
        }
    }
}

/// Marking each element by a predicate and selecting a side is filtering:
/// the `true` side holds exactly the elements that satisfy `p`, and the
/// `false` side exactly the others, each in the order of `s`.
pub proof fn lemma_select_is_filter<T>(s: Seq<T>, marks: Seq<bool>, p: spec_fn(T) -> bool)
    requires
        marks.len() == s.len(),
        forall|i: int| 0 <= i < s.len() ==> marks[i] == p(s[i]),
    ensures
        select(s, marks, true) == s.filter(p),
        select(s, marks, false) == s.filter(|x: T| !p(x)),
    decreases s.len(),
{
    reveal(Seq::filter);
    if s.len() > 0 {
        lemma_select_is_filter(s.drop_last(), marks.drop_last(), p);
    } else {
        assert(s =~= Seq::<T>::empty());
    }
}

/// The two sides together hold every element once: their lengths add up to
/// the length of `s`.
pub proof fn lemma_select_lengths<T>(s: Seq<T>, marks: Seq<bool>)
    requires
        marks.len() == s.len(),
    ensures
        select(s, marks, true).len() + select(s, marks, false).len() == s.len(),
    decreases s.len(),
{
    if s.len() > 0 {
        lemma_select_lengths(s.drop_last(), marks.drop_last());
    }
}

/// Nothing can be selected from an empty sequence, whatever the marks.
pub proof fn lemma_select_empty<T>(marks: Seq<bool>, side: bool)
    ensures
        select(Seq::<T>::empty(), marks, side) == Seq::<T>::empty(),
{
}

/// When every mark is `true`, the `true` side is the whole sequence in its
/// order and the `false` side is empty.
pub proof fn lemma_select_all<T>(s: Seq<T>, marks: Seq<bool>)
    requires
        marks.len() == s.len(),
        forall|i: int| 0 <= i < marks.len() ==> marks[i],
    ensures
        select(s, marks, true) == s,
        select(s, marks, false) == Seq::<T>::empty(),
    decreases s.len(),
{
    if s.len() > 0 {
        lemma_select_all(s.drop_last(), marks.drop_last());
        assert(s.drop_last().push(s.last()) =~= s);
    }
}

/// When every mark is `false`, the `true` side is empty and the `false` side
/// is the whole sequence in its order.
pub proof fn lemma_select_none<T>(s: Seq<T>, marks: Seq<bool>)
    requires
        marks.len() == s.len(),
        forall|i: int| 0 <= i < marks.len() ==> !marks[i],
    ensures
        select(s, marks, true) == Seq::<T>::empty(),
        select(s, marks, false) == s,
    decreases s.len(),
{
    if s.len() > 0 {
        lemma_select_none(s.drop_last(), marks.drop_last());
        assert(s.drop_last().push(s.last()) =~= s);
    }
}

/// Draining twice by the same predicate hands out nothing the second time:
/// what the first pass keeps is exactly what the predicate rejects.
pub proof fn lemma_select_twice<T>(
    s: Seq<T>,
    p: spec_fn(T) -> bool,
    first: Seq<bool>,
    second: Seq<bool>,
)
    requires
        first.len() == s.len(),
        forall|i: int| 0 <= i < s.len() ==> first[i] == p(s[i]),
        second.len() == select(s, first, false).len(),
        forall|j: int|
            0 <= j < second.len() ==> second[j] == p(select(s, first, false)[j]),
    ensures
        select(select(s, first, false), second, true) == Seq::<T>::empty(),
{
    let rest = select(s, first, false);
    let q = |x: T| !p(x);
    lemma_select_is_filter(s, first, p);
    assert forall|j: int| 0 <= j < second.len() implies !second[j] by {
        s.lemma_filter_pred(q, j);
    }
    lemma_select_none(rest, second);
}

} // verus!
