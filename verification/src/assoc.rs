//! Sorted association lists with string keys: the representation behind a
//! message's tag and metric mappings. Keys are kept strictly increasing in
//! code-point order, so rendering is deterministic and keys stay unique.
use vstd::prelude::*;
use vstd::pervasive::VecAdditionalExecFns;

use crate::strutil::lex_lt;
use crate::strutil::lemma_lex_lt_asymmetric;
use crate::strutil::lemma_lex_lt_connex;
use crate::strutil::lemma_lex_lt_transitive;
use crate::strutil::str_eq;
use crate::strutil::str_lt;

verus! {

/// Keys strictly increase in lexicographic order.
pub open spec fn keys_sorted<V>(s: Seq<(String, V)>) -> bool {
    forall|i: int, j: int|
        0 <= i < j < s.len() ==> lex_lt(#[trigger] s[i].0@, #[trigger] s[j].0@)
}

/// The finite mapping that an association list denotes.
pub open spec fn assoc_map<V>(s: Seq<(String, V)>) -> Map<Seq<char>, V>
    decreases s.len(),
{
    if s.len() == 0 {
        Map::empty()
    } else {
        assoc_map(s.drop_last()).insert(s.last().0@, s.last().1)
    }
}

/// Sorted keys are pairwise distinct.
pub proof fn lemma_sorted_unique<V>(s: Seq<(String, V)>)
    requires
        keys_sorted(s),
    ensures
        forall|i: int, j: int|
            0 <= i < s.len() && 0 <= j < s.len() && i != j ==> (#[trigger] s[i].0@) != (
            #[trigger] s[j].0@),
{
    assert forall|i: int, j: int|
        0 <= i < s.len() && 0 <= j < s.len() && i != j implies (#[trigger] s[i].0@) != (
    #[trigger] s[j].0@) by {
        if i < j {
            lemma_lex_lt_asymmetric(s[i].0@, s[j].0@);
        } else {
            lemma_lex_lt_asymmetric(s[j].0@, s[i].0@);
        }
    }
}

/// A key is in the denoted mapping exactly when some entry carries it.
pub proof fn lemma_assoc_map_contains<V>(s: Seq<(String, V)>, k: Seq<char>)
    ensures
        assoc_map(s).contains_key(k) <==> exists|i: int| 0 <= i < s.len() && (#[trigger] s[i].0@)
            == k,
    decreases s.len(),
{
    if s.len() > 0 {
        lemma_assoc_map_contains(s.drop_last(), k);
        if s.last().0@ == k {
            assert(s[s.len() - 1].0@ == k);
        } else {
            if assoc_map(s).contains_key(k) {
                let i = choose|i: int|
                    0 <= i < s.drop_last().len() && (#[trigger] s.drop_last()[i].0@) == k;
                assert(s[i].0@ == k);
            }
            if exists|i: int| 0 <= i < s.len() && (#[trigger] s[i].0@) == k {
                let i = choose|i: int| 0 <= i < s.len() && (#[trigger] s[i].0@) == k;
                assert(i < s.len() - 1);
                assert(s.drop_last()[i].0@ == k);
            }
        }
    }
}

/// With distinct keys, the mapping sends an entry's key to its value.
pub proof fn lemma_assoc_map_value<V>(s: Seq<(String, V)>, i: int)
    requires
        0 <= i < s.len(),
        forall|j: int| 0 <= j < s.len() && j != i ==> (#[trigger] s[j].0@) != s[i].0@,
    ensures
        assoc_map(s).contains_key(s[i].0@),
        assoc_map(s)[s[i].0@] == s[i].1,
    decreases s.len(),
{
    if i == s.len() - 1 {
    } else {
        assert(forall|j: int|
            0 <= j < s.drop_last().len() && j != i ==> (#[trigger] s.drop_last()[j].0@)
                != s.drop_last()[i].0@);
        lemma_assoc_map_value(s.drop_last(), i);
        assert(s.last().0@ != s[i].0@);
    }
}

/// Replacing the entry that already carries a key updates the mapping at
/// that key.
pub proof fn lemma_assoc_map_update<V>(s: Seq<(String, V)>, p: int, e: (String, V))
    requires
        0 <= p < s.len(),
        s[p].0@ == e.0@,
        forall|j: int| 0 <= j < s.len() && j != p ==> (#[trigger] s[j].0@) != e.0@,
    ensures
        assoc_map(s.update(p, e)) == assoc_map(s).insert(e.0@, e.1),
    decreases s.len(),
{
    let t = s.update(p, e);
    if p == s.len() - 1 {
        assert(t.drop_last() =~= s.drop_last());
        assert(t.last() == e);
        assert(assoc_map(s.drop_last()).insert(s.last().0@, s.last().1).insert(e.0@, e.1)
            =~= assoc_map(s.drop_last()).insert(e.0@, e.1));
    } else {
        assert(t.drop_last() =~= s.drop_last().update(p, e));
        assert(forall|j: int|
            0 <= j < s.drop_last().len() && j != p ==> (#[trigger] s.drop_last()[j].0@) != e.0@);
        lemma_assoc_map_update(s.drop_last(), p, e);
        assert(t.last() == s.last());
        assert(s.last().0@ != e.0@);
        assert(assoc_map(s.drop_last()).insert(e.0@, e.1).insert(s.last().0@, s.last().1)
            =~= assoc_map(s.drop_last()).insert(s.last().0@, s.last().1).insert(e.0@, e.1));
    }
}

/// Inserting an entry under a fresh key extends the mapping at that key.
pub proof fn lemma_assoc_map_insert_at<V>(s: Seq<(String, V)>, p: int, e: (String, V))
    requires
        0 <= p <= s.len(),
        forall|j: int| 0 <= j < s.len() ==> (#[trigger] s[j].0@) != e.0@,
    ensures
        assoc_map(s.insert(p, e)) == assoc_map(s).insert(e.0@, e.1),
    decreases s.len(),
{
    let t = s.insert(p, e);
    if p == s.len() {
        assert(t.drop_last() =~= s);
        assert(t.last() == e);
    } else {
        assert(t.drop_last() =~= s.drop_last().insert(p, e));
        assert(forall|j: int|
            0 <= j < s.drop_last().len() ==> (#[trigger] s.drop_last()[j].0@) != e.0@);
        lemma_assoc_map_insert_at(s.drop_last(), p, e);
        assert(t.last() == s.last());
        assert(s.last().0@ != e.0@);
        assert(assoc_map(s.drop_last()).insert(e.0@, e.1).insert(s.last().0@, s.last().1)
            =~= assoc_map(s.drop_last()).insert(s.last().0@, s.last().1).insert(e.0@, e.1));
    }
}

/// The sorted representation is canonical: two sorted association lists
/// that denote the same mapping, values read through `f`, agree entry by
/// entry, keys compared as text. The mapping thus determines the stored
/// order, and with it every rendering.
pub proof fn lemma_sorted_assoc_canonical<V, W>(
    a: Seq<(String, V)>,
    b: Seq<(String, V)>,
    f: spec_fn(V) -> W,
)
    requires
        keys_sorted(a),
        keys_sorted(b),
        assoc_map(a).map_values(f) == assoc_map(b).map_values(f),
    ensures
        a.len() == b.len(),
        forall|i: int|
            0 <= i < a.len() ==> (#[trigger] a[i].0@) == b[i].0@ && f(a[i].1) == f(b[i].1),
    decreases a.len(),
{
    lemma_sorted_unique(a);
    lemma_sorted_unique(b);
    if a.len() == 0 {
        if b.len() > 0 {
            lemma_assoc_map_contains(b, b.last().0@);
            assert(b[b.len() - 1].0@ == b.last().0@);
            assert(assoc_map(b).map_values(f).contains_key(b.last().0@));
            assert(assoc_map(a).contains_key(b.last().0@));
            lemma_assoc_map_contains(a, b.last().0@);
            assert(false);
        }
    } else if b.len() == 0 {
        lemma_assoc_map_contains(a, a.last().0@);
        assert(a[a.len() - 1].0@ == a.last().0@);
        assert(assoc_map(a).map_values(f).contains_key(a.last().0@));
        assert(assoc_map(b).contains_key(a.last().0@));
        lemma_assoc_map_contains(b, a.last().0@);
        assert(false);
    } else {
        // the last keys agree: each list's last key is the largest key of
        // the shared mapping
        if a.last().0@ != b.last().0@ {
            lemma_assoc_map_contains(a, a.last().0@);
            assert(a[a.len() - 1].0@ == a.last().0@);
            assert(assoc_map(a).map_values(f).contains_key(a.last().0@));
            assert(assoc_map(b).contains_key(a.last().0@));
            lemma_assoc_map_contains(b, a.last().0@);
            let ib = choose|i: int| 0 <= i < b.len() && (#[trigger] b[i].0@) == a.last().0@;
            assert(ib < b.len() - 1);
            assert(lex_lt(b[ib].0@, b.last().0@));
            lemma_assoc_map_contains(b, b.last().0@);
            assert(b[b.len() - 1].0@ == b.last().0@);
            assert(assoc_map(b).map_values(f).contains_key(b.last().0@));
            assert(assoc_map(a).contains_key(b.last().0@));
            lemma_assoc_map_contains(a, b.last().0@);
            let ia = choose|i: int| 0 <= i < a.len() && (#[trigger] a[i].0@) == b.last().0@;
            assert(ia < a.len() - 1);
            assert(lex_lt(a[ia].0@, a.last().0@));
            lemma_lex_lt_asymmetric(a.last().0@, b.last().0@);
            assert(false);
        }
        // the last values agree, read through `f`
        lemma_assoc_map_value(a, a.len() - 1);
        lemma_assoc_map_value(b, b.len() - 1);
        assert(assoc_map(a).map_values(f)[a.last().0@] == f(a.last().1));
        assert(assoc_map(b).map_values(f)[b.last().0@] == f(b.last().1));
        assert(f(a.last().1) == f(b.last().1));
        // the remainders denote the same mapping: the last key is fresh in
        // each remainder, so dropping it removes exactly that key
        assert forall|j: int|
            0 <= j < a.drop_last().len() implies (#[trigger] a.drop_last()[j].0@) != a.last().0@
        by {
            assert(a[j].0@ != a[a.len() - 1].0@);
        }
        assert forall|j: int|
            0 <= j < b.drop_last().len() implies (#[trigger] b.drop_last()[j].0@) != b.last().0@
        by {
            assert(b[j].0@ != b[b.len() - 1].0@);
        }
        lemma_assoc_map_contains(a.drop_last(), a.last().0@);
        lemma_assoc_map_contains(b.drop_last(), b.last().0@);
        assert(assoc_map(a.drop_last()) =~= assoc_map(a).remove(a.last().0@));
        assert(assoc_map(b.drop_last()) =~= assoc_map(b).remove(b.last().0@));
        assert(assoc_map(a.drop_last()).map_values(f) =~= assoc_map(a).map_values(f).remove(
            a.last().0@,
        ));
        assert(assoc_map(b.drop_last()).map_values(f) =~= assoc_map(b).map_values(f).remove(
            b.last().0@,
        ));
        assert(assoc_map(a.drop_last()).map_values(f) == assoc_map(b.drop_last()).map_values(f));
        lemma_sorted_assoc_canonical(a.drop_last(), b.drop_last(), f);
        assert forall|i: int|
            0 <= i < a.len() implies (#[trigger] a[i].0@) == b[i].0@ && f(a[i].1) == f(b[i].1) by {
            if i < a.len() - 1 {
                assert(a.drop_last()[i].0@ == b.drop_last()[i].0@);
                assert(f(a.drop_last()[i].1) == f(b.drop_last()[i].1));
            }
        }
    }
}

/// Inserts a binding, keeping keys sorted and unique: an existing entry for
/// the same key is replaced, otherwise the new entry lands at its sorted
/// position.
pub fn insert_sorted<V>(list: &mut Vec<(String, V)>, name: &str, value: V)
    requires
        keys_sorted(old(list)@),
    ensures
        keys_sorted(final(list)@),
        assoc_map(final(list)@) == assoc_map(old(list)@).insert(name@, value),
        old(list)@.len() <= final(list)@.len() <= old(list)@.len() + 1,
        final(list)@.len() >= 1,
    decreases old(list)@.len(),
{
    proof {
        lemma_sorted_unique(old(list)@);
    }
    let ghost s = list@;
    let mut i: usize = 0;
    loop
        invariant
            list@ == s,
            s == old(list)@,
            keys_sorted(s),
            i <= s.len(),
            forall|j: int| 0 <= j < i ==> lex_lt((#[trigger] s[j].0@), name@),
            forall|i0: int, j0: int|
                0 <= i0 < s.len() && 0 <= j0 < s.len() && i0 != j0 ==> (#[trigger] s[i0].0@) != (
                #[trigger] s[j0].0@),
        decreases s.len() - i,
    {
        if i == list.len() {
            // every existing key sorts before the new one
            list.push((name.to_owned(), value));
            proof {
                assert forall|j: int| 0 <= j < s.len() implies (#[trigger] s[j].0@) != name@ by {
                    lemma_lex_lt_asymmetric(s[j].0@, name@);
                }
                assert(list@ =~= s.insert(s.len() as int, (list@[s.len() as int].0, list@[
                    s.len() as int].1)));
                assert(list@[s.len() as int].0@ == name@);
                assert(list@[s.len() as int].1 == value);
                lemma_assoc_map_insert_at(s, s.len() as int, list@[s.len() as int]);
                assert(keys_sorted(list@));
            }
            return ;
        }
        let before = str_lt(list[i].0.as_str(), name);
        if before {
            i = i + 1;
        } else {
            let same = str_eq(list[i].0.as_str(), name);
            if same {
                list.set(i, (name.to_owned(), value));
                proof {
                    assert(list@ =~= s.update(i as int, list@[i as int]));
                    lemma_assoc_map_update(s, i as int, list@[i as int]);
                    assert forall|i0: int, j0: int|
                        0 <= i0 < j0 < list@.len() implies lex_lt(
                        (#[trigger] list@[i0].0@),
                        (#[trigger] list@[j0].0@),
                    ) by {
                        assert(lex_lt(s[i0].0@, s[j0].0@));
                    }
                }
                return ;
            } else {
                // the new key sorts strictly before entry i
                proof {
                    lemma_lex_lt_connex(s[i as int].0@, name@);
                    assert(lex_lt(name@, s[i as int].0@));
                    assert forall|j: int| 0 <= j < s.len() implies (#[trigger] s[j].0@) != name@ by {
                        if j < i {
                            lemma_lex_lt_asymmetric(s[j].0@, name@);
                        } else if j == i {
                            lemma_lex_lt_asymmetric(name@, name@);
                        } else {
                            assert(lex_lt(s[i as int].0@, s[j].0@));
                            lemma_lex_lt_transitive(name@, s[i as int].0@, s[j].0@);
                            lemma_lex_lt_asymmetric(name@, s[j].0@);
                        }
                    }
                }
                list.insert(i, (name.to_owned(), value));
                proof {
                    assert(list@ =~= s.insert(i as int, list@[i as int]));
                    lemma_assoc_map_insert_at(s, i as int, list@[i as int]);
                    assert forall|i0: int, j0: int|
                        0 <= i0 < j0 < list@.len() implies lex_lt(
                        (#[trigger] list@[i0].0@),
                        (#[trigger] list@[j0].0@),
                    ) by {
                        if j0 < i {
                            assert(lex_lt(s[i0].0@, s[j0].0@));
                        } else if i0 > i {
                            assert(lex_lt(s[i0 - 1].0@, s[j0 - 1].0@));
                        } else if i0 == i && j0 == i + 1 {
                            assert(lex_lt(name@, s[i as int].0@));
                        } else if i0 == i && j0 > i + 1 {
                            assert(lex_lt(s[i as int].0@, s[j0 - 1].0@));
                            lemma_lex_lt_transitive(name@, s[i as int].0@, s[j0 - 1].0@);
                        } else if j0 == i {
                            // i0 < i: s[i0] sorts before the new key
                        } else if i0 < i && j0 > i {
                            assert(lex_lt(s[i0].0@, s[j0 - 1].0@));
                        }
                    }
                }
                return ;
            }
        }
    }
}

/// Looks a key up in a sorted association list.
pub fn find_value<'a, V>(list: &'a Vec<(String, V)>, name: &str) -> (r: Option<&'a V>)
    requires
        keys_sorted(list@),
    ensures
        match r {
            Some(v) => assoc_map(list@).contains_key(name@) && *v == assoc_map(list@)[name@],
            None => !assoc_map(list@).contains_key(name@),
        },
{
    proof {
        lemma_sorted_unique(list@);
        lemma_assoc_map_contains(list@, name@);
    }
    let mut i: usize = 0;
    loop
        invariant
            i <= list@.len(),
            keys_sorted(list@),
            forall|j: int| 0 <= j < i ==> (#[trigger] list@[j].0@) != name@,
            forall|i0: int, j0: int|
                0 <= i0 < list@.len() && 0 <= j0 < list@.len() && i0 != j0 ==> (
                #[trigger] list@[i0].0@) != (#[trigger] list@[j0].0@),
            assoc_map(list@).contains_key(name@) <==> exists|j: int|
                0 <= j < list@.len() && (#[trigger] list@[j].0@) == name@,
        decreases list@.len() - i,
    {
        if i == list.len() {
            return None;
        }
        let same = str_eq(list[i].0.as_str(), name);
        if same {
            proof {
                lemma_assoc_map_value(list@, i as int);
            }
            return Some(&list[i].1);
        }
        i = i + 1;
    }
}

} // verus!
