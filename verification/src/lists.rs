//! Vectors seen through the views of their elements.

use crate::text;
use vstd::prelude::*;
use vstd::seq_lib::{to_multiset_build, to_multiset_insert};

verus! {

/// An empty vector.
pub fn empty_list<T: DeepView>() -> (v: Vec<T>)
    ensures
        v.deep_view() == Seq::<T::V>::empty(),
        v@.len() == 0,
{
    let v: Vec<T> = Vec::new();
    assert(v.deep_view() =~= Seq::<T::V>::empty());
    v
}

/// Appends `x` to `v`.
pub fn push_deep<T: DeepView>(v: &mut Vec<T>, x: T)
    ensures
        final(v).deep_view() == old(v).deep_view().push(x.deep_view()),
        final(v)@ == old(v)@.push(x),
{
    v.push(x);
    assert(v.deep_view() =~= old(v).deep_view().push(x.deep_view()));
}


/// What has a name to be sorted by.
pub trait Labelled: DeepView + Sized {
    /// The name of a value, read off its view.
    spec fn label_of(v: Self::V) -> Seq<char>;

    /// The name of the value.
    fn label(&self) -> (name: &str)
        ensures
            name@ == Self::label_of(self.deep_view()),
    ;
}

/// Whether the values stand in the order of their names: none comes
/// before one that stands before it.
pub open spec fn ordered<T: Labelled>(items: Seq<T::V>) -> bool {
    forall|i: int, j: int|
        0 <= i < j < items.len() ==> !text::precedes(
            T::label_of(#[trigger] items[j]),
            T::label_of(#[trigger] items[i]),
        )
}

/// The number of values at the beginning of a list whose names come
/// before `name`.
pub open spec fn rank<T: Labelled>(items: Seq<T::V>, name: Seq<char>) -> int
    decreases items.len(),
{
    if items.len() > 0 && text::precedes(T::label_of(items[0]), name) {
        1 + rank::<T>(items.drop_first(), name)
    } else {
        0
    }
}

/// A list with one more value, put behind the values at its beginning
/// whose names come before the value's own.
pub open spec fn inserted<T: Labelled>(items: Seq<T::V>, x: T::V) -> Seq<T::V> {
    items.insert(rank::<T>(items, T::label_of(x)), x)
}

/// The values of a list in the order of their names; values of the same
/// name stay in the order in which they stood.
pub open spec fn sorted_of<T: Labelled>(items: Seq<T::V>) -> Seq<T::V>
    decreases items.len(),
{
    if items.len() == 0 {
        Seq::empty()
    } else {
        inserted::<T>(sorted_of::<T>(items.drop_first()), items[0])
    }
}

/// A place before which every name comes before `name`, and which is the
/// end or holds a name that does not, is the rank of `name`.
pub proof fn lemma_rank_is<T: Labelled>(items: Seq<T::V>, name: Seq<char>, at: int)
    requires
        0 <= at <= items.len(),
        forall|k: int| 0 <= k < at ==> text::precedes(T::label_of(#[trigger] items[k]), name),
        at < items.len() ==> !text::precedes(T::label_of(items[at]), name),
    ensures
        rank::<T>(items, name) == at,
    decreases items.len(),
{
    if at > 0 {
        let rest = items.drop_first();
        assert forall|k: int| 0 <= k < at - 1 implies text::precedes(
            T::label_of(#[trigger] rest[k]),
            name,
        ) by {
            assert(rest[k] == items[k + 1]);
        }
        if at < items.len() {
            assert(rest[at - 1] == items[at]);
        }
        lemma_rank_is::<T>(rest, name, at - 1);
    }
}

/// Sorts values by their names. The result holds what `items` held, each
/// value as often as before, in the order of the names, and values of the
/// same name in the order in which they stood.
pub fn sort_by_label<T: Labelled>(items: Vec<T>) -> (sorted: Vec<T>)
    ensures
        sorted.deep_view() == sorted_of::<T>(items.deep_view()),
        ordered::<T>(sorted.deep_view()),
        sorted.deep_view().to_multiset() == items.deep_view().to_multiset(),
        sorted.len() == items.len(),
{
    let ghost all = items.deep_view();
    let mut rest = items;
    let mut sorted: Vec<T> = Vec::new();
    proof {
        assert(sorted.deep_view() =~= Seq::<T::V>::empty());
        assert(all.skip(all.len() as int) =~= Seq::<T::V>::empty());
        assert(rest.deep_view().to_multiset().add(sorted.deep_view().to_multiset())
            =~= all.to_multiset()) by {
            broadcast use vstd::seq_lib::group_to_multiset_ensures;

        }
    }
    while rest.len() > 0
        invariant
            ordered::<T>(sorted.deep_view()),
            rest.deep_view() == all.take(rest.len() as int),
            rest.len() <= all.len(),
            sorted.deep_view() == sorted_of::<T>(all.skip(rest.len() as int)),
            rest.deep_view().to_multiset().add(sorted.deep_view().to_multiset())
                == all.to_multiset(),
            rest.len() + sorted.len() == all.len(),
        decreases rest.len(),
    {
        let ghost rest_before = rest.deep_view();
        let ghost sorted_before = sorted.deep_view();
        let ghost last = rest@.last();
        assert(rest_before.last() == last.deep_view());
        let x = rest.pop().unwrap();
        proof {
            assert(x == last);
            assert(rest.deep_view() =~= rest_before.drop_last());
            assert(rest_before =~= rest.deep_view().push(x.deep_view()));
            assert(rest.deep_view() =~= all.take(rest.len() as int));
            assert(x.deep_view() == all[rest.len() as int]);
            to_multiset_build(rest.deep_view(), x.deep_view());
        }
        let mut at: usize = 0;
        while at < sorted.len() && text::comes_before(sorted[at].label(), x.label())
            invariant
                at <= sorted.len(),
                sorted.deep_view() == sorted_before,
                forall|k: int|
                    0 <= k < at ==> text::precedes(
                        T::label_of(#[trigger] sorted_before[k]),
                        T::label_of(x.deep_view()),
                    ),
            decreases sorted.len() - at,
        {
            at += 1;
        }
        proof {
            if at < sorted.len() {
                assert(sorted_before[at as int] == sorted@[at as int].deep_view());
            }
            lemma_rank_is::<T>(sorted_before, T::label_of(x.deep_view()), at as int);
        }
        sorted.insert(at, x);
        proof {
            let now = sorted.deep_view();
            let xv = x.deep_view();
            assert(now =~= sorted_before.insert(at as int, xv));
            let tail = all.skip(rest.len() as int);
            assert(tail.drop_first() =~= all.skip(rest.len() + 1));
            assert(tail[0] == xv);
            assert(now == sorted_of::<T>(tail));
            to_multiset_insert(sorted_before, at as int, xv);
            assert(rest.deep_view().to_multiset().add(now.to_multiset()) =~= all.to_multiset());
            assert forall|i: int, j: int| 0 <= i < j < now.len() implies !text::precedes(
                T::label_of(#[trigger] now[j]),
                T::label_of(#[trigger] now[i]),
            ) by {
                let a = T::label_of(now[i]);
                let b = T::label_of(now[j]);
                let name = T::label_of(xv);
                if j == at {
                    assert(now[i] == sorted_before[i]);
                    text::lemma_precedes_asymmetric(a, name);
                } else if i == at {
                    assert(now[j] == sorted_before[j - 1]);
                    let first = T::label_of(sorted_before[at as int]);
                    if text::precedes(b, name) {
                        if j - 1 > at {
                            assert(!text::precedes(b, first));
                            if text::precedes(first, b) {
                                text::lemma_precedes_transitive(first, b, name);
                            } else {
                                text::lemma_precedes_total(first, b);
                            }
                        }
                    }
                } else {
                    let from = if i < at {
                        i
                    } else {
                        i - 1
                    };
                    let to = if j < at {
                        j
                    } else {
                        j - 1
                    };
                    assert(now[i] == sorted_before[from]);
                    assert(now[j] == sorted_before[to]);
                }
            }
        }
    }
    proof {
        assert(rest.deep_view() =~= Seq::<T::V>::empty());
        assert(all.skip(0) =~= all);
        assert(sorted.deep_view().to_multiset() =~= all.to_multiset()) by {
            broadcast use vstd::seq_lib::group_to_multiset_ensures;

        }
    }
    sorted
}

} // verus!
