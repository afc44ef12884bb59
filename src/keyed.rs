//! String-keyed association lists. A later entry shadows an earlier one with
//! the same key, so each list is seen as a `Map`.
use vstd::prelude::*;

verus! {

/// The map that `s` describes: each key to the value of its last entry.
pub open spec fn assoc<V>(s: Seq<(Seq<char>, V)>) -> Map<Seq<char>, V>
    decreases s.len(),
{
    if s.len() == 0 {
        Map::empty()
    } else {
        assoc(s.drop_last()).insert(s.last().0, s.last().1)
    }
}

/// The entries of `v` with keys and values seen through their views.
pub open spec fn keyed_view<T: View>(v: Seq<(String, T)>) -> Seq<(Seq<char>, T::V)> {
    v.map_values(|e: (String, T)| (e.0@, e.1@))
}

/// `i` is the last entry of `s` with key `k`.
pub open spec fn last_with_key<V>(s: Seq<(Seq<char>, V)>, k: Seq<char>, i: int) -> bool {
    0 <= i < s.len() && s[i].0 == k && forall|j: int| i < j < s.len() ==> s[j].0 != k
}

/// The last entry with a key gives the key's value.
pub proof fn lemma_assoc_last<V>(s: Seq<(Seq<char>, V)>, k: Seq<char>, i: int)
    requires
        last_with_key(s, k, i),
    ensures
        assoc(s).contains_key(k),
        assoc(s)[k] == s[i].1,
    decreases s.len(),
{
    if i < s.len() - 1 {
        lemma_assoc_last(s.drop_last(), k, i);
    }
}

/// A key without entries is not in the map.
pub proof fn lemma_assoc_absent<V>(s: Seq<(Seq<char>, V)>, k: Seq<char>)
    requires
        forall|j: int| 0 <= j < s.len() ==> s[j].0 != k,
    ensures
        !assoc(s).contains_key(k),
    decreases s.len(),
{
    if s.len() > 0 {
        lemma_assoc_absent(s.drop_last(), k);
    }
}

/// Replacing the last entry of a key sets the key's value.
pub proof fn lemma_assoc_update<V>(s: Seq<(Seq<char>, V)>, k: Seq<char>, i: int, v: V)
    requires
        last_with_key(s, k, i),
    ensures
        assoc(s.update(i, (k, v))) == assoc(s).insert(k, v),
    decreases s.len(),
{
    let u = s.update(i, (k, v));
    if i == s.len() - 1 {
        assert(u.drop_last() =~= s.drop_last());
        assert(assoc(u) =~= assoc(s).insert(k, v));
    } else {
        assert(u.drop_last() =~= s.drop_last().update(i, (k, v)));
        lemma_assoc_update(s.drop_last(), k, i, v);
        assert(assoc(u) =~= assoc(s).insert(k, v));
    }
}

/// The index of the last entry of `v` whose key is `k`.
pub fn last_index<T: View>(v: &Vec<(String, T)>, k: &str) -> (r: Option<usize>)
    ensures
        match r {
            Some(i) => last_with_key(keyed_view(v@), k@, i as int),
            None => forall|j: int| 0 <= j < v@.len() ==> keyed_view(v@)[j].0 != k@,
        },
{
    let key: String = k.to_owned();
    let mut i: usize = v.len();
    while i > 0
        invariant
            key@ == k@,
            i <= v@.len(),
            forall|j: int| i <= j < v@.len() ==> keyed_view(v@)[j].0 != k@,
        decreases i,
    {
        i = i - 1;
        assert(keyed_view(v@)[i as int] == (v@[i as int].0@, v@[i as int].1@));
        if v[i].0 == key {
            return Some(i);
        }
    }
    None
}

/// Looks `k` up in `v`.
pub fn lookup<'a, T: View>(v: &'a Vec<(String, T)>, k: &str) -> (r: Option<&'a T>)
    ensures
        match r {
            Some(t) => assoc(keyed_view(v@)).contains_key(k@) && assoc(keyed_view(v@))[k@] == t@,
            None => !assoc(keyed_view(v@)).contains_key(k@),
        },
{
    match last_index(v, k) {
        Some(i) => {
            proof {
                lemma_assoc_last(keyed_view(v@), k@, i as int);
            }
            Some(&v[i].1)
        },
        None => {
            proof {
                lemma_assoc_absent(keyed_view(v@), k@);
            }
            None
        },
    }
}

/// Dropping an entry of key `k` changes nothing once `k` is removed.
pub proof fn lemma_assoc_remove_entry<V>(s: Seq<(Seq<char>, V)>, k: Seq<char>, i: int)
    requires
        0 <= i < s.len(),
        s[i].0 == k,
    ensures
        assoc(s.remove(i)).remove(k) == assoc(s).remove(k),
    decreases s.len(),
{
    let r = s.remove(i);
    if i == s.len() - 1 {
        assert(r =~= s.drop_last());
        assert(assoc(r).remove(k) =~= assoc(s).remove(k));
    } else {
        assert(r.drop_last() =~= s.drop_last().remove(i));
        assert(r.last() == s.last());
        lemma_assoc_remove_entry(s.drop_last(), k, i);
        let x = assoc(r.drop_last());
        let y = assoc(s.drop_last());
        assert(x.remove(k) == y.remove(k));
        assert(assoc(r) == x.insert(s.last().0, s.last().1));
        assert(assoc(s) == y.insert(s.last().0, s.last().1));
        assert(assoc(r).remove(k) =~= assoc(s).remove(k)) by {
            assert forall|q: Seq<char>| #[trigger] assoc(r).remove(k).contains_key(q) == assoc(
                s,
            ).remove(k).contains_key(q) by {
                if q != k && q != s.last().0 {
                    assert(x.remove(k).contains_key(q) == y.remove(k).contains_key(q));
                }
            }
            assert forall|q: Seq<char>| #[trigger] assoc(r).remove(k).contains_key(q) implies assoc(
                r,
            ).remove(k)[q] == assoc(s).remove(k)[q] by {
                if q != s.last().0 {
                    assert(x.remove(k)[q] == y.remove(k)[q]);
                }
            }
        }
    }
}

/// Removes every entry of `v` with key `k`.
pub fn remove_key<T: View>(v: &mut Vec<(String, T)>, k: &str)
    ensures
        assoc(keyed_view(final(v)@)) == assoc(keyed_view(old(v)@)).remove(k@),
{
    let key: String = k.to_owned();
    let mut i: usize = v.len();
    while i > 0
        invariant
            key@ == k@,
            i <= v@.len(),
            assoc(keyed_view(v@)).remove(k@) == assoc(keyed_view(old(v)@)).remove(k@),
            forall|j: int| i <= j < v@.len() ==> keyed_view(v@)[j].0 != k@,
        decreases i,
    {
        i = i - 1;
        assert(keyed_view(v@)[i as int] == (v@[i as int].0@, v@[i as int].1@));
        if v[i].0 == key {
            let ghost before = v@;
            v.remove(i);
            proof {
                lemma_assoc_remove_entry(keyed_view(before), k@, i as int);
                assert(keyed_view(v@) =~= keyed_view(before).remove(i as int));
            }
            assert forall|j: int| i <= j < v@.len() implies keyed_view(v@)[j].0 != k@ by {
                assert(keyed_view(v@)[j] == keyed_view(before)[j + 1]);
            }
        }
    }
    proof {
        lemma_assoc_absent(keyed_view(v@), k@);
        assert(assoc(keyed_view(v@)).remove(k@) =~= assoc(keyed_view(v@)));
    }
}

} // verus!
