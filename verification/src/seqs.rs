//! A small sequence tool the library's renderings share: concatenating a
//! per-element sequence over a whole sequence, and the lemma that lets a
//! loop build such a concatenation element by element.

use vstd::prelude::*;

verus! {

/// The concatenation of `f` applied to every element of `s`, in order.
pub open spec fn spec_concat_map<T, R>(s: Seq<T>, f: spec_fn(T) -> Seq<R>) -> Seq<R>
    decreases s.len(),
{
    if s.len() == 0 {
        Seq::empty()
    } else {
        f(s[0]) + spec_concat_map(s.drop_first(), f)
    }
}

/// A sequence whose every element renders to nothing concatenates to
/// nothing.
pub proof fn lemma_concat_map_all_empty<T, R>(s: Seq<T>, f: spec_fn(T) -> Seq<R>)
    requires
        forall |i: int| 0 <= i < s.len() ==> f(#[trigger] s[i]).len() == 0,
    ensures
        spec_concat_map(s, f).len() == 0,
    decreases s.len(),
{
    if s.len() > 0 {
        assert(f(s[0]).len() == 0);
        assert forall |i: int| 0 <= i < s.drop_first().len() implies f(
            #[trigger] s.drop_first()[i],
        ).len() == 0 by {
            assert(s.drop_first()[i] == s[i + 1]);
        }
        lemma_concat_map_all_empty(s.drop_first(), f);
    }
}

/// Removing an element that renders to nothing leaves the concatenation
/// unchanged.
pub proof fn lemma_concat_map_skip_empty<T, R>(s: Seq<T>, f: spec_fn(T) -> Seq<R>, k: int)
    requires
        0 <= k < s.len(),
        f(s[k]).len() == 0,
    ensures
        spec_concat_map(s, f) == spec_concat_map(s.remove(k), f),
    decreases s.len(),
{
    if k == 0 {
        assert(s.remove(0) =~= s.drop_first());
        assert(f(s[0]) =~= Seq::<R>::empty());
        assert(f(s[0]) + spec_concat_map(s.drop_first(), f) =~= spec_concat_map(
            s.drop_first(),
            f,
        ));
    } else {
        assert(s.drop_first()[k - 1] == s[k]);
        lemma_concat_map_skip_empty(s.drop_first(), f, k - 1);
        assert(s.remove(k).drop_first() =~= s.drop_first().remove(k - 1));
        assert(s.remove(k)[0] == s[0]);
        assert(spec_concat_map(s, f) =~= spec_concat_map(s.remove(k), f));
    }
}

/// Extending the prefix by one element appends that element's rendering.
pub proof fn lemma_concat_map_take<T, R>(s: Seq<T>, f: spec_fn(T) -> Seq<R>, i: int)
    requires
        0 < i <= s.len(),
    ensures
        spec_concat_map(s.take(i), f) == spec_concat_map(s.take(i - 1), f) + f(s[i - 1]),
    decreases i,
{
    if i == 1 {
        assert(s.take(1).drop_first() =~= Seq::<T>::empty());
        assert(s.take(0) =~= Seq::<T>::empty());
        assert(s.take(1)[0] == s[0]);
        assert(spec_concat_map(s.take(1), f) =~= spec_concat_map(s.take(0), f) + f(s[0])) by {
            reveal_with_fuel(spec_concat_map, 2);
        }
    } else {
        lemma_concat_map_take(s.drop_first(), f, i - 1);
        assert(s.take(i).drop_first() =~= s.drop_first().take(i - 1));
        assert(s.take(i - 1).drop_first() =~= s.drop_first().take(i - 2));
        assert(s.drop_first()[i - 2] == s[i - 1]);
        assert(spec_concat_map(s.take(i), f) =~= spec_concat_map(s.take(i - 1), f) + f(
            s[i - 1],
        ));
    }
}

} // verus!
