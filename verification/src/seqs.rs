//! Traversals of sequences that stop at the first failure, or keep what succeeds.

use vstd::prelude::*;
use crate::error::ProtoErrorView;

verus! {

/// Applies `f` to the items of `s` in order: the first error met, or all the results.
pub open spec fn collect_results<T, U>(
    s: Seq<T>,
    f: spec_fn(T) -> Result<U, ProtoErrorView>,
) -> Result<Seq<U>, ProtoErrorView>
    decreases s.len(),
{
    if s.len() == 0 {
        Ok(Seq::empty())
    } else {
        match collect_results(s.drop_last(), f) {
            Ok(prefix) => match f(s.last()) {
                Ok(u) => Ok(prefix.push(u)),
                Err(e) => Err(e),
            },
            Err(e) => Err(e),
        }
    }
}

/// Applies `f` to the items of `s` in order and keeps the results that are `Some`.
pub open spec fn filter_some<T, U>(s: Seq<T>, f: spec_fn(T) -> Option<U>) -> Seq<U>
    decreases s.len(),
{
    if s.len() == 0 {
        Seq::empty()
    } else {
        match f(s.last()) {
            Some(u) => filter_some(s.drop_last(), f).push(u),
            None => filter_some(s.drop_last(), f),
        }
    }
}

/// One more item: the traversal of the first `i + 1` items extends that of the first `i`.
pub proof fn lemma_collect_step<T, U>(s: Seq<T>, f: spec_fn(T) -> Result<U, ProtoErrorView>, i: int)
    requires
        0 <= i < s.len(),
    ensures
        collect_results(s.take(i + 1), f) == (match collect_results(s.take(i), f) {
            Ok(prefix) => match f(s[i]) {
                Ok(u) => Ok(prefix.push(u)),
                Err(e) => Err(e),
            },
            Err(e) => Err(e),
        }),
{
    assert(s.take(i + 1).drop_last() =~= s.take(i));
    assert(s.take(i + 1).last() == s[i]);
}

/// Once a prefix fails, the whole traversal fails with the same error.
pub proof fn lemma_collect_prefix_error<T, U>(
    s: Seq<T>,
    f: spec_fn(T) -> Result<U, ProtoErrorView>,
    i: int,
)
    requires
        0 <= i <= s.len(),
        collect_results(s.take(i), f) is Err,
    ensures
        collect_results(s, f) == collect_results(s.take(i), f),
    decreases s.len(),
{
    if i == s.len() {
        assert(s.take(i) =~= s);
    } else {
        assert(s.drop_last().take(i) =~= s.take(i));
        lemma_collect_prefix_error(s.drop_last(), f, i);
    }
}

/// The traversal of all the items is that of the prefix of full length.
pub proof fn lemma_take_all<T>(s: Seq<T>)
    ensures
        s.take(s.len() as int) == s,
{
    assert(s.take(s.len() as int) =~= s);
}

/// When `f` succeeds on each item with the matching item of `t`, the traversal gives `t`.
pub proof fn lemma_collect_all_ok<T, U>(
    s: Seq<T>,
    f: spec_fn(T) -> Result<U, ProtoErrorView>,
    t: Seq<U>,
)
    requires
        s.len() == t.len(),
        forall|k: int| 0 <= k < s.len() ==> f(#[trigger] s[k]) == Ok::<U, ProtoErrorView>(t[k]),
    ensures
        collect_results(s, f) == Ok::<Seq<U>, ProtoErrorView>(t),
    decreases s.len(),
{
    if s.len() > 0 {
        let s1 = s.drop_last();
        let t1 = t.drop_last();
        assert forall|k: int| 0 <= k < s1.len() implies f(#[trigger] s1[k]) == Ok::<
            U,
            ProtoErrorView,
        >(t1[k]) by {
            assert(s1[k] == s[k]);
        }
        lemma_collect_all_ok(s1, f, t1);
        assert(f(s.last()) == Ok::<U, ProtoErrorView>(t[t.len() - 1]));
        assert(t1.push(t[t.len() - 1]) =~= t);
    } else {
        assert(t =~= Seq::<U>::empty());
    }
}

/// A traversal that succeeds succeeded on each item, with the matching result.
pub proof fn lemma_collect_ok_items<T, U>(
    s: Seq<T>,
    f: spec_fn(T) -> Result<U, ProtoErrorView>,
    t: Seq<U>,
)
    requires
        collect_results(s, f) == Ok::<Seq<U>, ProtoErrorView>(t),
    ensures
        s.len() == t.len(),
        forall|k: int| 0 <= k < s.len() ==> f(#[trigger] s[k]) == Ok::<U, ProtoErrorView>(t[k]),
    decreases s.len(),
{
    if s.len() > 0 {
        let prefix = collect_results(s.drop_last(), f)->Ok_0;
        lemma_collect_ok_items(s.drop_last(), f, prefix);
        assert(t == prefix.push(f(s.last())->Ok_0));
        assert forall|k: int| 0 <= k < s.len() implies f(#[trigger] s[k]) == Ok::<U, ProtoErrorView>(t[k]) by {
            if k < s.len() - 1 {
                assert(s.drop_last()[k] == s[k]);
            }
        }
    }
}

/// A traversal succeeds exactly when `f` succeeds on every item.
pub proof fn lemma_collect_ok_iff<T, U>(s: Seq<T>, f: spec_fn(T) -> Result<U, ProtoErrorView>)
    ensures
        collect_results(s, f) is Ok <==> forall|k: int| 0 <= k < s.len() ==> f(#[trigger] s[k]) is Ok,
    decreases s.len(),
{
    if s.len() > 0 {
        lemma_collect_ok_iff(s.drop_last(), f);
        if forall|k: int| 0 <= k < s.len() ==> f(#[trigger] s[k]) is Ok {
            assert forall|k: int| 0 <= k < s.drop_last().len() implies f(#[trigger] s.drop_last()[k]) is Ok by {
                assert(s.drop_last()[k] == s[k]);
            }
            assert(f(s[s.len() - 1]) is Ok);
        }
        if collect_results(s, f) is Ok {
            assert forall|k: int| 0 <= k < s.len() implies f(#[trigger] s[k]) is Ok by {
                if k < s.len() - 1 {
                    assert(s.drop_last()[k] == s[k]);
                }
            }
        }
    }
}

/// A traversal that fails fails with the error of the first item on which `f` fails.
pub proof fn lemma_collect_err_first<T, U>(s: Seq<T>, f: spec_fn(T) -> Result<U, ProtoErrorView>)
    requires
        collect_results(s, f) is Err,
    ensures
        exists|k: int|
            0 <= k < s.len() && f(#[trigger] s[k]) == Err::<U, ProtoErrorView>(collect_results(s, f)->Err_0)
                && forall|j: int| 0 <= j < k ==> f(#[trigger] s[j]) is Ok,
    decreases s.len(),
{
    let e = collect_results(s, f)->Err_0;
    let n = s.len() - 1;
    if collect_results(s.drop_last(), f) is Err {
        lemma_collect_err_first(s.drop_last(), f);
        let k = choose|k: int|
            0 <= k < s.drop_last().len() && f(#[trigger] s.drop_last()[k]) == Err::<U, ProtoErrorView>(
                collect_results(s.drop_last(), f)->Err_0,
            ) && forall|j: int| 0 <= j < k ==> f(#[trigger] s.drop_last()[j]) is Ok;
        assert(s.drop_last()[k] == s[k]);
        assert forall|j: int| 0 <= j < k implies f(#[trigger] s[j]) is Ok by {
            assert(s.drop_last()[j] == s[j]);
        }
    } else {
        lemma_collect_ok_iff(s.drop_last(), f);
        assert forall|j: int| 0 <= j < n implies f(#[trigger] s[j]) is Ok by {
            assert(s.drop_last()[j] == s[j]);
            assert(f(s.drop_last()[j]) is Ok);
        }
        assert(f(s[n]) == Err::<U, ProtoErrorView>(e));
    }
}

/// What [`filter_some`] keeps: no more items than it was given, each the result of some
/// item, and the result of every item on which `f` gives one.
pub proof fn lemma_filter_members<T, U>(s: Seq<T>, f: spec_fn(T) -> Option<U>)
    ensures
        filter_some(s, f).len() <= s.len(),
        forall|i: int| 0 <= i < filter_some(s, f).len() ==> exists|k: int|
            0 <= k < s.len() && f(#[trigger] s[k]) == Some(#[trigger] filter_some(s, f)[i]),
        forall|k: int| 0 <= k < s.len() && (#[trigger] f(s[k])) is Some ==> filter_some(s, f).contains(
            f(s[k])->Some_0,
        ),
    decreases s.len(),
{
    if s.len() > 0 {
        let s1 = s.drop_last();
        lemma_filter_members(s1, f);
        let r1 = filter_some(s1, f);
        let r = filter_some(s, f);
        assert forall|i: int| 0 <= i < r.len() implies exists|k: int|
            0 <= k < s.len() && f(#[trigger] s[k]) == Some(#[trigger] r[i]) by {
            if i < r1.len() {
                assert(r[i] == r1[i]);
                let k = choose|k: int| 0 <= k < s1.len() && f(#[trigger] s1[k]) == Some(#[trigger] r1[i]);
                assert(s1[k] == s[k]);
            } else {
                assert(f(s[s.len() - 1]) == Some(r[i]));
            }
        }
        assert forall|k: int| 0 <= k < s.len() && (#[trigger] f(s[k])) is Some implies r.contains(
            f(s[k])->Some_0,
        ) by {
            if k < s.len() - 1 {
                assert(s1[k] == s[k]);
                assert(r1.contains(f(s1[k])->Some_0));
                let j = choose|j: int| 0 <= j < r1.len() && r1[j] == f(s1[k])->Some_0;
                assert(r[j] == r1[j]);
            } else {
                assert(r[r.len() - 1] == f(s[k])->Some_0);
            }
        }
    }
}

/// One more item for [`filter_some`].
pub proof fn lemma_filter_step<T, U>(s: Seq<T>, f: spec_fn(T) -> Option<U>, i: int)
    requires
        0 <= i < s.len(),
    ensures
        filter_some(s.take(i + 1), f) == (match f(s[i]) {
            Some(u) => filter_some(s.take(i), f).push(u),
            None => filter_some(s.take(i), f),
        }),
{
    assert(s.take(i + 1).drop_last() =~= s.take(i));
    assert(s.take(i + 1).last() == s[i]);
}

/// When `f` gives `Some` of the matching item of `t` on each item, the filter keeps `t`.
pub proof fn lemma_filter_all_some<T, U>(s: Seq<T>, f: spec_fn(T) -> Option<U>, t: Seq<U>)
    requires
        s.len() == t.len(),
        forall|k: int| 0 <= k < s.len() ==> f(#[trigger] s[k]) == Some(t[k]),
    ensures
        filter_some(s, f) == t,
    decreases s.len(),
{
    if s.len() > 0 {
        let s1 = s.drop_last();
        let t1 = t.drop_last();
        assert forall|k: int| 0 <= k < s1.len() implies f(#[trigger] s1[k]) == Some(t1[k]) by {
            assert(s1[k] == s[k]);
        }
        lemma_filter_all_some(s1, f, t1);
        assert(f(s.last()) == Some(t[t.len() - 1]));
        assert(t1.push(t[t.len() - 1]) =~= t);
    } else {
        assert(t =~= Seq::<U>::empty());
    }
}

} // verus!
