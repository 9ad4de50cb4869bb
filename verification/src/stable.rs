//! Sorting by a key while keeping the order of what has the same key.

use vstd::prelude::*;

verus! {

/// A value with a key to sort by.
pub trait SortKey {
    /// The key. A smaller key comes first.
    spec fn sort_key(&self) -> nat;

    /// Whether the key of `self` is greater than that of `other`.
    fn sorts_after(&self, other: &Self) -> (b: bool)
        ensures
            b == (self.sort_key() > other.sort_key()),
    ;
}

/// The values whose key is under `k`.
pub open spec fn key_under<T: SortKey>(k: nat) -> spec_fn(T) -> bool {
    |x: T| x.sort_key() < k
}

/// The values whose key is `k` or under.
pub open spec fn key_up_to<T: SortKey>(k: nat) -> spec_fn(T) -> bool {
    |x: T| x.sort_key() <= k
}

/// The values whose key is `k`.
pub open spec fn key_is<T: SortKey>(k: nat) -> spec_fn(T) -> bool {
    |x: T| x.sort_key() == k
}

/// Ascending by key.
pub open spec fn ascending<T: SortKey>(s: Seq<T>) -> bool {
    forall|i: int, j: int| 0 <= i <= j < s.len() ==> s[i].sort_key() <= s[j].sort_key()
}

/// `x` put into the ascending sequence `s` behind every value whose key is
/// not greater than its own.
pub open spec fn insert_ascending<T: SortKey>(s: Seq<T>, x: T) -> Seq<T> {
    s.insert(s.filter(key_up_to::<T>(x.sort_key())).len() as int, x)
}

/// `s` in ascending order of key, values of one key in the order in which
/// `s` has them.
pub open spec fn stable_sort<T: SortKey>(s: Seq<T>) -> Seq<T>
    decreases s.len(),
{
    if s.len() == 0 {
        Seq::empty()
    } else {
        insert_ascending(stable_sort(s.drop_last()), s.last())
    }
}

/// Sorts `v` in place, ascending by key. Values of one key keep the order in
/// which they came.
pub fn sort_stable<T: SortKey>(v: &mut Vec<T>)
    ensures
        final(v)@ == stable_sort(old(v)@),
{
    let ghost given = v@;
    let mut i: usize = 0;
    proof {
        assert(given.take(0) =~= Seq::<T>::empty());
        assert(given.skip(0) =~= given);
        assert(Seq::<T>::empty() + given =~= given);
    }
    while i < v.len()
        invariant
            i <= v.len(),
            v.len() == given.len(),
            v@ == stable_sort(given.take(i as int)) + given.skip(i as int),
        decreases v.len() - i,
    {
        let ghost done = stable_sort(given.take(i as int));
        let ghost rest = given.skip(i + 1);
        proof {
            lemma_stable_sort_ascending(given.take(i as int));
            lemma_stable_sort_len(given.take(i as int));
            assert(given.skip(i as int).len() == given.len() - i);
            assert(v@[i as int] == given.skip(i as int)[0]);
        }
        let x = v.remove(i);
        assert(v@ =~= done + rest);
        let mut k: usize = 0;
        while k < i && !v[k].sorts_after(&x)
            invariant
                k <= i,
                i < given.len(),
                done.len() == i,
                v@ == done + rest,
                forall|j: int| 0 <= j < k ==> done[j].sort_key() <= x.sort_key(),
            decreases i - k,
        {
            k += 1;
        }
        proof {
            lemma_ascending_prefix_up_to(done, x.sort_key(), k as int);
            let next = given.take(i + 1);
            assert(next.drop_last() =~= given.take(i as int));
            assert(next.last() == x);
            assert((done + rest).insert(k as int, x) =~= done.insert(k as int, x) + rest);
        }
        v.insert(k, x);
        i += 1;
    }
    proof {
        given.lemma_take_len();
        assert(given.skip(given.len() as int) =~= Seq::<T>::empty());
        assert(stable_sort(given) + Seq::<T>::empty() =~= stable_sort(given));
    }
}

/// Filtering the empty sequence leaves it empty.
pub proof fn lemma_filter_empty<T>(pred: spec_fn(T) -> bool)
    ensures
        Seq::<T>::empty().filter(pred) == Seq::<T>::empty(),
{
    reveal(Seq::filter);
}

/// Where no value passes, the filter leaves nothing.
pub proof fn lemma_filter_none<T>(s: Seq<T>, pred: spec_fn(T) -> bool)
    requires
        forall|i: int| 0 <= i < s.len() ==> !pred(s[i]),
    ensures
        s.filter(pred) == Seq::<T>::empty(),
    decreases s.len(),
{
    if s.len() == 0 {
        lemma_filter_empty(pred);
        assert(s =~= Seq::<T>::empty());
    } else {
        let front = s.drop_last();
        assert(s =~= front.push(s.last()));
        front.lemma_filter_push(s.last(), pred);
        lemma_filter_none(front, pred);
    }
}

/// Where every value passes, the filter leaves all.
pub proof fn lemma_filter_all<T>(s: Seq<T>, pred: spec_fn(T) -> bool)
    requires
        forall|i: int| 0 <= i < s.len() ==> pred(s[i]),
    ensures
        s.filter(pred) == s,
    decreases s.len(),
{
    if s.len() == 0 {
        lemma_filter_empty(pred);
        assert(s =~= Seq::<T>::empty());
    } else {
        let front = s.drop_last();
        assert(s =~= front.push(s.last()));
        front.lemma_filter_push(s.last(), pred);
        lemma_filter_all(front, pred);
    }
}

/// A filter works on the two parts of a sequence apart.
pub proof fn lemma_filter_split<T>(s: Seq<T>, i: int, pred: spec_fn(T) -> bool)
    requires
        0 <= i <= s.len(),
    ensures
        s.filter(pred) == s.take(i).filter(pred) + s.skip(i).filter(pred),
{
    assert(s =~= s.take(i) + s.skip(i));
    Seq::filter_distributes_over_add(s.take(i), s.skip(i), pred);
}

/// What a filter keeps of a sequence with one value put in.
pub proof fn lemma_filter_insert<T>(s: Seq<T>, i: int, x: T, pred: spec_fn(T) -> bool)
    requires
        0 <= i <= s.len(),
    ensures
        s.insert(i, x).filter(pred) == if pred(x) {
            s.take(i).filter(pred).push(x) + s.skip(i).filter(pred)
        } else {
            s.filter(pred)
        },
        s.insert(i, x).filter(pred).len() == s.filter(pred).len() + if pred(x) {
            1int
        } else {
            0int
        },
{
    assert(s.insert(i, x) =~= s.take(i).push(x) + s.skip(i));
    Seq::filter_distributes_over_add(s.take(i).push(x), s.skip(i), pred);
    s.take(i).lemma_filter_push(x, pred);
    lemma_filter_split(s, i, pred);
}

/// In an ascending sequence whose first `k` values have keys up to `key` and
/// whose next one, if there is one, has a greater key, the values with keys
/// up to `key` are those first `k`.
pub proof fn lemma_ascending_prefix_up_to<T: SortKey>(s: Seq<T>, key: nat, k: int)
    requires
        ascending(s),
        0 <= k <= s.len(),
        forall|j: int| 0 <= j < k ==> s[j].sort_key() <= key,
        k < s.len() ==> s[k].sort_key() > key,
    ensures
        s.filter(key_up_to::<T>(key)) == s.take(k),
        s.filter(key_up_to::<T>(key)).len() == k,
{
    let pred = key_up_to::<T>(key);
    lemma_filter_split(s, k, pred);
    lemma_filter_all(s.take(k), pred);
    assert forall|j: int| 0 <= j < s.skip(k).len() implies !pred(s.skip(k)[j]) by {
        assert(s[k].sort_key() <= s[k + j].sort_key());
    }
    lemma_filter_none(s.skip(k), pred);
    assert(s.take(k) + Seq::<T>::empty() =~= s.take(k));
}

/// In an ascending sequence whose first `k` values have keys under `key` and
/// whose next one, if there is one, has not, the values with keys under
/// `key` are those first `k`.
pub proof fn lemma_ascending_prefix_under<T: SortKey>(s: Seq<T>, key: nat, k: int)
    requires
        ascending(s),
        0 <= k <= s.len(),
        forall|j: int| 0 <= j < k ==> s[j].sort_key() < key,
        k < s.len() ==> s[k].sort_key() >= key,
    ensures
        s.filter(key_under::<T>(key)) == s.take(k),
        s.filter(key_under::<T>(key)).len() == k,
{
    let pred = key_under::<T>(key);
    lemma_filter_split(s, k, pred);
    lemma_filter_all(s.take(k), pred);
    assert forall|j: int| 0 <= j < s.skip(k).len() implies !pred(s.skip(k)[j]) by {
        assert(s[k].sort_key() <= s[k + j].sort_key());
    }
    lemma_filter_none(s.skip(k), pred);
    assert(s.take(k) + Seq::<T>::empty() =~= s.take(k));
}

/// In an ascending sequence the values with keys up to `key` come first:
/// a value has such a key exactly when its index is under their number.
pub proof fn lemma_ascending_up_to_is_prefix<T: SortKey>(s: Seq<T>, key: nat)
    requires
        ascending(s),
    ensures
        s.filter(key_up_to::<T>(key)).len() <= s.len(),
        s.filter(key_up_to::<T>(key)) == s.take(s.filter(key_up_to::<T>(key)).len() as int),
        forall|j: int|
            0 <= j < s.len() ==> (j < s.filter(key_up_to::<T>(key)).len() <==> s[j].sort_key()
                <= key),
    decreases s.len(),
{
    let pred = key_up_to::<T>(key);
    if s.len() == 0 {
        lemma_filter_empty(pred);
        assert(s =~= Seq::<T>::empty());
        assert(s.take(0) =~= Seq::<T>::empty());
    } else {
        let front = s.drop_last();
        assert(s =~= front.push(s.last()));
        front.lemma_filter_push(s.last(), pred);
        lemma_ascending_up_to_is_prefix(front, key);
        let n = front.filter(pred).len() as int;
        if pred(s.last()) {
            assert forall|j: int| 0 <= j < front.len() implies front[j].sort_key() <= key by {
                assert(s[j].sort_key() <= s.last().sort_key());
            }
            if n < front.len() {
                assert(front[n].sort_key() <= key);
            }
            assert(n == front.len());
            assert(front.take(n) =~= front);
            assert(s.take(n + 1) =~= s);
        } else {
            assert(front.take(n) =~= s.take(n));
        }
    }
}

/// In an ascending sequence the values with keys under `key` come first:
/// a value has such a key exactly when its index is under their number.
pub proof fn lemma_ascending_under_is_prefix<T: SortKey>(s: Seq<T>, key: nat)
    requires
        ascending(s),
    ensures
        s.filter(key_under::<T>(key)).len() <= s.len(),
        s.filter(key_under::<T>(key)) == s.take(s.filter(key_under::<T>(key)).len() as int),
        forall|j: int|
            0 <= j < s.len() ==> (j < s.filter(key_under::<T>(key)).len() <==> s[j].sort_key()
                < key),
    decreases s.len(),
{
    let pred = key_under::<T>(key);
    if s.len() == 0 {
        lemma_filter_empty(pred);
        assert(s =~= Seq::<T>::empty());
        assert(s.take(0) =~= Seq::<T>::empty());
    } else {
        let front = s.drop_last();
        assert(s =~= front.push(s.last()));
        front.lemma_filter_push(s.last(), pred);
        lemma_ascending_under_is_prefix(front, key);
        let n = front.filter(pred).len() as int;
        if pred(s.last()) {
            assert forall|j: int| 0 <= j < front.len() implies front[j].sort_key() < key by {
                assert(s[j].sort_key() <= s.last().sort_key());
            }
            if n < front.len() {
                assert(front[n].sort_key() < key);
            }
            assert(n == front.len());
            assert(front.take(n) =~= front);
            assert(s.take(n + 1) =~= s);
        } else {
            assert(front.take(n) =~= s.take(n));
        }
    }
}

/// What passes a filter in one arrangement of some values passes it in
/// every other arrangement of them, as often.
pub proof fn lemma_rearranged_filter<T>(a: Seq<T>, b: Seq<T>, pred: spec_fn(T) -> bool)
    requires
        a.to_multiset() == b.to_multiset(),
    ensures
        a.filter(pred).to_multiset() == b.filter(pred).to_multiset(),
        a.filter(pred).len() == b.filter(pred).len(),
        a.len() == b.len(),
    decreases a.len(),
{
    broadcast use vstd::seq_lib::group_to_multiset_ensures;

    a.to_multiset_ensures();
    b.to_multiset_ensures();
    if a.len() == 0 {
        assert(b.len() == 0);
        assert(a =~= b);
    } else {
        let x = a.last();
        let front = a.drop_last();
        assert(a =~= front.push(x));
        assert(a.to_multiset().count(x) > 0);
        assert(b.contains(x));
        let j = choose|j: int| 0 <= j < b.len() && b[j] == x;
        let rest = b.remove(j);
        assert(front.to_multiset() =~= a.to_multiset().remove(x));
        assert(rest.to_multiset() =~= b.to_multiset().remove(x));
        lemma_rearranged_filter(front, rest, pred);
        front.lemma_filter_push(x, pred);
        assert(b =~= rest.insert(j, x));
        lemma_filter_insert(rest, j, x, pred);
        lemma_filter_split(rest, j, pred);
        if pred(x) {
            let left = rest.take(j).filter(pred);
            let right = rest.skip(j).filter(pred);
            vstd::seq_lib::lemma_multiset_commutative(left.push(x), right);
            vstd::seq_lib::lemma_multiset_commutative(left, right);
            assert(b.filter(pred).to_multiset() =~= rest.filter(pred).to_multiset().insert(x));
        }
    }
}

/// As many values pass a filter as pass, after a mapping, a filter that
/// lets the image of a value pass exactly when the first lets the value
/// pass.
pub proof fn lemma_mapped_filter_len<A, B>(
    s: Seq<A>,
    f: spec_fn(A) -> B,
    pred: spec_fn(A) -> bool,
    mapped_pred: spec_fn(B) -> bool,
)
    requires
        forall|i: int| 0 <= i < s.len() ==> pred(#[trigger] s[i]) == mapped_pred(f(s[i])),
    ensures
        s.map_values(f).filter(mapped_pred).len() == s.filter(pred).len(),
    decreases s.len(),
{
    if s.len() == 0 {
        lemma_filter_empty(pred);
        lemma_filter_empty(mapped_pred);
        assert(s =~= Seq::<A>::empty());
        assert(s.map_values(f) =~= Seq::<B>::empty());
    } else {
        let front = s.drop_last();
        let x = s.last();
        assert(s =~= front.push(x));
        assert(s.map_values(f) =~= front.map_values(f).push(f(x)));
        front.lemma_filter_push(x, pred);
        front.map_values(f).lemma_filter_push(f(x), mapped_pred);
        assert forall|i: int| 0 <= i < front.len() implies pred(#[trigger] front[i])
            == mapped_pred(f(front[i])) by {
            assert(front[i] == s[i]);
        }
        lemma_mapped_filter_len(front, f, pred, mapped_pred);
        assert(pred(s[s.len() - 1]) == mapped_pred(f(s[s.len() - 1])));
    }
}

/// Sorting and mapping can change places where the mapping keeps the order
/// of the keys: it makes no difference whether values are sorted and then
/// mapped, or mapped and then sorted.
pub proof fn lemma_stable_sort_maps<A: SortKey, B: SortKey>(s: Seq<A>, f: spec_fn(A) -> B)
    requires
        forall|i: int, j: int|
            0 <= i < s.len() && 0 <= j < s.len() ==> ((#[trigger] s[i]).sort_key() <= (
            #[trigger] s[j]).sort_key() <==> f(s[i]).sort_key() <= f(s[j]).sort_key()),
    ensures
        stable_sort(s.map_values(f)) == stable_sort(s).map_values(f),
    decreases s.len(),
{
    broadcast use vstd::seq_lib::group_to_multiset_ensures;

    if s.len() == 0 {
        assert(s.map_values(f) =~= Seq::<B>::empty());
        assert(stable_sort(s).map_values(f) =~= Seq::<B>::empty());
    } else {
        let front = s.drop_last();
        let x = s.last();
        assert(x == s[s.len() - 1]);
        assert forall|i: int, j: int| 0 <= i < front.len() && 0 <= j < front.len() implies ((
        #[trigger] front[i]).sort_key() <= (#[trigger] front[j]).sort_key() <==> f(
            front[i],
        ).sort_key() <= f(front[j]).sort_key()) by {
            assert(front[i] == s[i] && front[j] == s[j]);
        }
        lemma_stable_sort_maps(front, f);
        let done = stable_sort(front);
        lemma_stable_sort_permutes(front);
        lemma_stable_sort_len(front);
        // Each sorted value is one of the values given.
        assert forall|i: int| 0 <= i < done.len() implies key_up_to::<A>(x.sort_key())(
            #[trigger] done[i],
        ) == key_up_to::<B>(f(x).sort_key())(f(done[i])) by {
            assert(done.contains(done[i]));
            assert(done.to_multiset().count(done[i]) > 0);
            assert(front.contains(done[i]));
            let j = choose|j: int| 0 <= j < front.len() && front[j] == done[i];
            assert(s[j] == done[i]);
        }
        lemma_mapped_filter_len(
            done,
            f,
            key_up_to::<A>(x.sort_key()),
            key_up_to::<B>(f(x).sort_key()),
        );
        let k = done.filter(key_up_to::<A>(x.sort_key())).len() as int;
        done.lemma_filter_len(key_up_to::<A>(x.sort_key()));
        assert(s.map_values(f) =~= front.map_values(f).push(f(x)));
        assert(s.map_values(f).drop_last() =~= front.map_values(f));
        assert(done.insert(k, x).map_values(f) =~= done.map_values(f).insert(k, f(x)));
    }
}

/// Inserting by key keeps an ascending sequence ascending.
pub proof fn lemma_insert_keeps_ascending<T: SortKey>(s: Seq<T>, x: T)
    requires
        ascending(s),
    ensures
        ascending(insert_ascending(s, x)),
{
    let key = x.sort_key();
    let k = s.filter(key_up_to::<T>(key)).len() as int;
    lemma_ascending_up_to_is_prefix(s, key);
    let t = s.insert(k, x);
    assert forall|i: int, j: int| 0 <= i <= j < t.len() implies t[i].sort_key()
        <= t[j].sort_key() by {
        if i < k && j < k {
            assert(t[i] == s[i] && t[j] == s[j]);
        } else if i < k && j == k {
            assert(t[i] == s[i]);
        } else if i < k && j > k {
            assert(t[i] == s[i] && t[j] == s[j - 1]);
        } else if i == k && j == k {
        } else if i == k && j > k {
            assert(t[j] == s[j - 1]);
        } else {
            assert(t[i] == s[i - 1] && t[j] == s[j - 1]);
        }
    }
}

/// The sorted sequence is ascending.
pub proof fn lemma_stable_sort_ascending<T: SortKey>(s: Seq<T>)
    ensures
        ascending(stable_sort(s)),
    decreases s.len(),
{
    if s.len() > 0 {
        lemma_stable_sort_ascending(s.drop_last());
        lemma_insert_keeps_ascending(stable_sort(s.drop_last()), s.last());
    }
}

/// Sorting keeps the number of values.
pub proof fn lemma_stable_sort_len<T: SortKey>(s: Seq<T>)
    ensures
        stable_sort(s).len() == s.len(),
    decreases s.len(),
{
    if s.len() > 0 {
        lemma_stable_sort_len(s.drop_last());
        let front = stable_sort(s.drop_last());
        front.lemma_filter_len(key_up_to::<T>(s.last().sort_key()));
    }
}

/// Sorting keeps the values, each as often as it was there.
pub proof fn lemma_stable_sort_permutes<T: SortKey>(s: Seq<T>)
    ensures
        stable_sort(s).to_multiset() == s.to_multiset(),
    decreases s.len(),
{
    broadcast use vstd::seq_lib::group_to_multiset_ensures;

    if s.len() == 0 {
        assert(s =~= Seq::<T>::empty());
    } else {
        let front = s.drop_last();
        let x = s.last();
        lemma_stable_sort_permutes(front);
        let done = stable_sort(front);
        let k = done.filter(key_up_to::<T>(x.sort_key())).len() as int;
        done.lemma_filter_len(key_up_to::<T>(x.sort_key()));
        assert(s =~= front.push(x));
        assert(done.insert(k, x).to_multiset() =~= done.to_multiset().insert(x));
        assert(front.push(x).to_multiset() =~= front.to_multiset().insert(x));
    }
}

/// Sorting keeps, for every predicate, the number of values that pass it.
pub proof fn lemma_stable_sort_keeps_count<T: SortKey>(s: Seq<T>, pred: spec_fn(T) -> bool)
    ensures
        stable_sort(s).filter(pred).len() == s.filter(pred).len(),
    decreases s.len(),
{
    if s.len() == 0 {
        assert(s =~= Seq::<T>::empty());
    } else {
        let front = s.drop_last();
        let x = s.last();
        lemma_stable_sort_keeps_count(front, pred);
        let done = stable_sort(front);
        let k = done.filter(key_up_to::<T>(x.sort_key())).len() as int;
        done.lemma_filter_len(key_up_to::<T>(x.sort_key()));
        lemma_filter_insert(done, k, x, pred);
        assert(s =~= front.push(x));
        front.lemma_filter_push(x, pred);
    }
}

/// Sorting is stable: the values of any one key stand in the sorted
/// sequence in the order in which they were given.
pub proof fn lemma_stable_sort_keeps_ties<T: SortKey>(s: Seq<T>, key: nat)
    ensures
        stable_sort(s).filter(key_is::<T>(key)) == s.filter(key_is::<T>(key)),
    decreases s.len(),
{
    let pred = key_is::<T>(key);
    if s.len() == 0 {
        assert(s =~= Seq::<T>::empty());
    } else {
        let front = s.drop_last();
        let x = s.last();
        lemma_stable_sort_keeps_ties(front, key);
        lemma_stable_sort_ascending(front);
        let done = stable_sort(front);
        let k = done.filter(key_up_to::<T>(x.sort_key())).len() as int;
        lemma_ascending_up_to_is_prefix(done, x.sort_key());
        lemma_filter_insert(done, k, x, pred);
        assert(s =~= front.push(x));
        front.lemma_filter_push(x, pred);
        if pred(x) {
            assert forall|j: int| 0 <= j < done.skip(k).len() implies !pred(done.skip(k)[j]) by {
                assert(done.skip(k)[j] == done[k + j]);
            }
            lemma_filter_none(done.skip(k), pred);
            lemma_filter_split(done, k, pred);
            assert(done.take(k).filter(pred) + Seq::<T>::empty() =~= done.take(k).filter(pred));
            assert(done.take(k).filter(pred).push(x) + Seq::<T>::empty() =~= done.take(
                k,
            ).filter(pred).push(x));
        }
    }
}

} // verus!
