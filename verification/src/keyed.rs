//! Collections kept in identity order.
//!
//! The engine stores its sets of identities, and its maps keyed by
//! application identity, as vectors sorted strictly by the identity order of
//! [`crate::text::lex_lt`]. Sorting makes every key unique and gives the
//! deterministic order in which results are reported.

use vstd::prelude::*;

use crate::identity::{ApplicationId, OutputId};
use crate::text::{
    lemma_lex_asymmetric, lemma_lex_irreflexive, lemma_lex_total, lemma_lex_transitive, lex_lt,
    text_eq, text_lt,
};

verus! {

/// A value that carries a stable textual identity.
pub trait StableKey {
    spec fn key(&self) -> Seq<char>;

    fn key_str(&self) -> (s: &str)
        ensures
            s@ == self.key(),
    ;
}

impl StableKey for ApplicationId {
    open spec fn key(&self) -> Seq<char> {
        self@
    }

    fn key_str(&self) -> (s: &str) {
        self.as_str()
    }
}

impl StableKey for OutputId {
    open spec fn key(&self) -> Seq<char> {
        self@
    }

    fn key_str(&self) -> (s: &str) {
        self.as_str()
    }
}

impl<V> StableKey for (ApplicationId, V) {
    open spec fn key(&self) -> Seq<char> {
        self.0@
    }

    fn key_str(&self) -> (s: &str) {
        self.0.as_str()
    }
}

/// The keys of `s` strictly increase.
pub open spec fn keys_sorted<T: StableKey>(s: Seq<T>) -> bool {
    forall|i: int, j: int| 0 <= i < j < s.len() ==> lex_lt(#[trigger] s[i].key(), #[trigger] s[j].key())
}

/// The keys present in `s`.
pub open spec fn key_set<T: StableKey>(s: Seq<T>) -> Set<Seq<char>> {
    Set::new(|k: Seq<char>| exists|i: int| 0 <= i < s.len() && #[trigger] s[i].key() == k)
}

/// The sequence of keys of `s`.
pub open spec fn key_seq<T: StableKey>(s: Seq<T>) -> Seq<Seq<char>> {
    s.map_values(|x: T| x.key())
}

/// The map from application identity to the view of its value.
pub open spec fn pair_map<V: View>(s: Seq<(ApplicationId, V)>) -> Map<Seq<char>, V::V> {
    Map::new(
        |k: Seq<char>| exists|i: int| 0 <= i < s.len() && #[trigger] s[i].0@ == k,
        |k: Seq<char>| s[pair_index(s, k)].1@,
    )
}

/// A position at which `k` is stored in `s`, if it is stored at all.
pub open spec fn pair_index<V>(s: Seq<(ApplicationId, V)>, k: Seq<char>) -> int {
    choose|i: int| 0 <= i < s.len() && #[trigger] s[i].0@ == k
}

/// In a sorted sequence each key occurs at one position only.
pub proof fn lemma_sorted_unique<T: StableKey>(s: Seq<T>, i: int, j: int)
    requires
        keys_sorted(s),
        0 <= i < s.len(),
        0 <= j < s.len(),
        s[i].key() == s[j].key(),
    ensures
        i == j,
{
    if i < j {
        assert(lex_lt(s[i].key(), s[j].key()));
        lemma_lex_irreflexive(s[i].key());
    } else if j < i {
        assert(lex_lt(s[j].key(), s[i].key()));
        lemma_lex_irreflexive(s[i].key());
    }
}

/// A sorted sequence maps each of its keys to the value stored beside it.
pub proof fn lemma_pair_map_at<V: View>(s: Seq<(ApplicationId, V)>, i: int)
    requires
        keys_sorted(s),
        0 <= i < s.len(),
    ensures
        pair_map(s).contains_key(s[i].0@),
        pair_map(s)[s[i].0@] == s[i].1@,
{
    let k = s[i].0@;
    assert(s[i].key() == k);
    assert(pair_map(s).dom().contains(k));
    let j = pair_index(s, k);
    assert(pair_map(s)[k] == s[j].1@);
    assert(s[j].key() == s[i].key());
    lemma_sorted_unique(s, i, j);
}

/// The domain of the pair map is the key set.
pub proof fn lemma_pair_map_dom<V: View>(s: Seq<(ApplicationId, V)>)
    ensures
        pair_map(s).dom() == key_set(s),
{
    assert forall|k: Seq<char>| pair_map(s).dom().contains(k) implies key_set(s).contains(k) by {
        let i = choose|i: int| 0 <= i < s.len() && #[trigger] s[i].0@ == k;
        assert(s[i].key() == k);
    }
    assert forall|k: Seq<char>| key_set(s).contains(k) implies pair_map(s).dom().contains(k) by {
        let i = choose|i: int| 0 <= i < s.len() && #[trigger] s[i].key() == k;
        assert(s[i].0@ == k);
    }
    assert(pair_map(s).dom() =~= key_set(s));
}

/// Two sorted sequences with the same keys have the same key sequence.
pub proof fn lemma_sorted_same_keys<T: StableKey, U: StableKey>(a: Seq<T>, b: Seq<U>)
    requires
        keys_sorted(a),
        keys_sorted(b),
        key_set(a) == key_set(b),
    ensures
        key_seq(a) == key_seq(b),
    decreases a.len(),
{
    if a.len() == 0 {
        if b.len() > 0 {
            assert(key_set(b).contains(b[0].key()));
            assert(!key_set(a).contains(b[0].key()));
        }
        assert(key_seq(a) =~= key_seq(b));
    } else {
        // the last keys agree: each is the greatest key of the common set
        let la = a.last().key();
        assert(key_set(a).contains(la)) by {
            assert(a[a.len() - 1].key() == la);
        }
        assert(key_set(b).contains(la));
        let jb = choose|j: int| 0 <= j < b.len() && #[trigger] b[j].key() == la;
        let lb = b.last().key();
        assert(key_set(b).contains(lb)) by {
            assert(b[b.len() - 1].key() == lb);
        }
        assert(key_set(a).contains(lb));
        let ja = choose|j: int| 0 <= j < a.len() && #[trigger] a[j].key() == lb;
        if jb < b.len() - 1 {
            assert(lex_lt(b[jb].key(), b[b.len() - 1].key()));
            if ja < a.len() - 1 {
                assert(lex_lt(a[ja].key(), a[a.len() - 1].key()));
                lemma_lex_asymmetric(la, lb);
            } else {
                lemma_lex_irreflexive(la);
            }
        }
        assert(jb == b.len() - 1);
        let a2 = a.drop_last();
        let b2 = b.drop_last();
        assert(key_set(a2) =~= key_set(b2)) by {
            assert forall|k: Seq<char>| key_set(a2).contains(k) implies key_set(b2).contains(k) by {
                let i = choose|i: int| 0 <= i < a2.len() && #[trigger] a2[i].key() == k;
                assert(a[i].key() == k);
                assert(key_set(a).contains(k));
                let j = choose|j: int| 0 <= j < b.len() && #[trigger] b[j].key() == k;
                if j == b.len() - 1 {
                    assert(lex_lt(a[i].key(), a[a.len() - 1].key()));
                    lemma_lex_irreflexive(k);
                }
                assert(b2[j].key() == k);
            }
            assert forall|k: Seq<char>| key_set(b2).contains(k) implies key_set(a2).contains(k) by {
                let j = choose|j: int| 0 <= j < b2.len() && #[trigger] b2[j].key() == k;
                assert(b[j].key() == k);
                assert(key_set(b).contains(k));
                let i = choose|i: int| 0 <= i < a.len() && #[trigger] a[i].key() == k;
                if i == a.len() - 1 {
                    assert(lex_lt(b[j].key(), b[b.len() - 1].key()));
                    lemma_lex_irreflexive(k);
                }
                assert(a2[i].key() == k);
            }
        }
        lemma_sorted_same_keys(a2, b2);
        assert(key_seq(a2) == key_seq(b2));
        assert(key_seq(a) =~= key_seq(a2).push(la));
        assert(key_seq(b) =~= key_seq(b2).push(la));
    }
}

/// Finds the position of the entry whose key is `k`.
pub fn find_key<T: StableKey>(v: &Vec<T>, k: &str) -> (r: Option<usize>)
    ensures
        match r {
            Some(i) => i < v@.len() && v@[i as int].key() == k@,
            None => !key_set(v@).contains(k@),
        },
{
    let mut i: usize = 0;
    while i < v.len()
        invariant
            i <= v@.len(),
            forall|j: int| 0 <= j < i ==> v@[j].key() != k@,
        decreases v@.len() - i,
    {
        if text_eq(v[i].key_str(), k) {
            return Some(i);
        }
        i = i + 1;
    }
    None
}

/// The first position whose key does not come before `k`.
pub fn insertion_point<T: StableKey>(v: &Vec<T>, k: &str) -> (p: usize)
    requires
        keys_sorted(v@),
    ensures
        p <= v@.len(),
        forall|i: int| 0 <= i < p ==> lex_lt(#[trigger] v@[i].key(), k@),
        forall|i: int| p <= i < v@.len() ==> !lex_lt(#[trigger] v@[i].key(), k@),
{
    let mut i: usize = 0;
    while i < v.len()
        invariant
            i <= v@.len(),
            keys_sorted(v@),
            forall|j: int| 0 <= j < i ==> lex_lt(#[trigger] v@[j].key(), k@),
        decreases v@.len() - i,
    {
        if !text_lt(v[i].key_str(), k) {
            assert forall|j: int| i <= j < v@.len() implies !lex_lt(#[trigger] v@[j].key(), k@) by {
                if j > i && lex_lt(v@[j].key(), k@) {
                    assert(lex_lt(v@[i as int].key(), v@[j].key()));
                    lemma_lex_transitive(v@[i as int].key(), v@[j].key(), k@);
                }
            }
            return i;
        }
        i = i + 1;
    }
    i
}

/// Adds `x` unless an entry with its key is already present.
pub fn insert_unique<T: StableKey>(v: &mut Vec<T>, x: T)
    requires
        keys_sorted(old(v)@),
    ensures
        keys_sorted(final(v)@),
        key_set(final(v)@) == key_set(old(v)@).insert(x.key()),
{
    let p = insertion_point(v, x.key_str());
    if p < v.len() && text_eq(v[p].key_str(), x.key_str()) {
        assert(key_set(v@).contains(x.key())) by {
            assert(v@[p as int].key() == x.key());
        }
        assert(key_set(v@) =~= key_set(v@).insert(x.key()));
        return;
    }
    let ghost before = v@;
    proof {
        if p < before.len() {
            lemma_lex_total(before[p as int].key(), x.key());
        }
    }
    v.insert(p, x);
    let ghost after = v@;
    assert(after =~= before.insert(p as int, x));
    assert forall|i: int, j: int| 0 <= i < j < after.len() implies lex_lt(
        #[trigger] after[i].key(),
        #[trigger] after[j].key(),
    ) by {
        if j < p {
        } else if j == p {
            assert(lex_lt(before[i].key(), x.key()));
        } else if i < p {
            assert(lex_lt(before[i].key(), x.key()));
            assert(after[j] == before[j - 1]);
            assert(!lex_lt(before[j - 1].key(), x.key()));
            lemma_lex_total(before[j - 1].key(), x.key());
            if before[j - 1].key() == x.key() {
                if j - 1 > p {
                    assert(lex_lt(before[p as int].key(), before[j - 1].key()));
                    assert(!lex_lt(before[p as int].key(), x.key()));
                    lemma_lex_total(before[p as int].key(), x.key());
                    lemma_lex_asymmetric(before[p as int].key(), x.key());
                }
            }
            lemma_lex_transitive(before[i].key(), x.key(), before[j - 1].key());
        } else if i == p {
            assert(after[j] == before[j - 1]);
            assert(!lex_lt(before[j - 1].key(), x.key()));
            lemma_lex_total(before[j - 1].key(), x.key());
            if before[j - 1].key() == x.key() {
                if j - 1 > p {
                    assert(lex_lt(before[p as int].key(), before[j - 1].key()));
                    lemma_lex_total(before[p as int].key(), x.key());
                    lemma_lex_asymmetric(before[p as int].key(), x.key());
                }
            }
        } else {
            assert(after[i] == before[i - 1]);
            assert(after[j] == before[j - 1]);
        }
    }
    assert(key_set(after) =~= key_set(before).insert(x.key())) by {
        assert forall|k: Seq<char>| key_set(after).contains(k) implies key_set(before).insert(
            x.key(),
        ).contains(k) by {
            let i = choose|i: int| 0 <= i < after.len() && #[trigger] after[i].key() == k;
            if i < p {
                assert(before[i].key() == k);
            } else if i > p {
                assert(before[i - 1].key() == k);
            }
        }
        assert forall|k: Seq<char>| key_set(before).insert(x.key()).contains(k) implies key_set(
            after,
        ).contains(k) by {
            if k == x.key() {
                assert(after[p as int].key() == k);
            } else {
                let i = choose|i: int| 0 <= i < before.len() && #[trigger] before[i].key() == k;
                if i < p {
                    assert(after[i].key() == k);
                } else {
                    assert(after[i + 1].key() == k);
                }
            }
        }
    }
}

/// Collects `items` into a sorted sequence without repeated keys.
pub fn sorted_unique<T: StableKey>(items: Vec<T>) -> (r: Vec<T>)
    ensures
        keys_sorted(r@),
        key_set(r@) == key_set(items@),
{
    let mut items = items;
    let mut r: Vec<T> = Vec::new();
    let ghost all = items@;
    while items.len() > 0
        invariant
            keys_sorted(r@),
            all.len() >= items@.len(),
            key_set(all) == key_set(r@).union(key_set(items@)),
        decreases items@.len(),
    {
        let ghost before = items@;
        let x = items.pop().unwrap();
        proof {
            assert(items@ == before.drop_last());
            assert(key_set(before) =~= key_set(items@).insert(x.key())) by {
                assert forall|k: Seq<char>| key_set(before).contains(k) implies key_set(
                    items@,
                ).insert(x.key()).contains(k) by {
                    let i = choose|i: int| 0 <= i < before.len() && #[trigger] before[i].key() == k;
                    if i < before.len() - 1 {
                        assert(items@[i].key() == k);
                    }
                }
                assert forall|k: Seq<char>| key_set(items@).insert(x.key()).contains(k) implies key_set(
                    before,
                ).contains(k) by {
                    if k == x.key() {
                        assert(before[before.len() - 1].key() == k);
                    } else {
                        let i = choose|i: int| 0 <= i < items@.len() && #[trigger] items@[i].key() == k;
                        assert(before[i].key() == k);
                    }
                }
            }
        }
        insert_unique(&mut r, x);
        assert(key_set(all) =~= key_set(r@).union(key_set(items@)));
    }
    assert(key_set(items@) =~= Set::empty());
    assert(key_set(all) =~= key_set(r@));
    r
}

/// Stores `value` for `key`, replacing any earlier value.
pub fn upsert<V: View>(v: &mut Vec<(ApplicationId, V)>, key: ApplicationId, value: V)
    requires
        keys_sorted(old(v)@),
    ensures
        keys_sorted(final(v)@),
        pair_map(final(v)@) == pair_map(old(v)@).insert(key@, value@),
{
    let ghost before = v@;
    let ghost k = key@;
    let ghost val = value@;
    match find_key(v, key.as_str()) {
        Some(i) => {
            v.remove(i);
            v.insert(i, (key, value));
            let ghost after = v@;
            assert(after =~= before.update(i as int, after[i as int]));
            assert(keys_sorted(after)) by {
                assert forall|a: int, b: int| 0 <= a < b < after.len() implies lex_lt(
                    #[trigger] after[a].key(),
                    #[trigger] after[b].key(),
                ) by {
                    assert(after[a].key() == before[a].key());
                    assert(after[b].key() == before[b].key());
                }
            }
            assert(pair_map(after) =~= pair_map(before).insert(k, val)) by {
                lemma_pair_map_dom(after);
                lemma_pair_map_dom(before);
                assert(key_set(after) =~= key_set(before)) by {
                    assert forall|q: Seq<char>| key_set(after).contains(q) implies key_set(
                        before,
                    ).contains(q) by {
                        let j = choose|j: int| 0 <= j < after.len() && #[trigger] after[j].key() == q;
                        assert(before[j].key() == q);
                    }
                    assert forall|q: Seq<char>| key_set(before).contains(q) implies key_set(
                        after,
                    ).contains(q) by {
                        let j = choose|j: int| 0 <= j < before.len() && #[trigger] before[j].key() == q;
                        assert(after[j].key() == q);
                    }
                }
                assert(key_set(before).contains(k)) by {
                    assert(before[i as int].key() == k);
                }
                assert forall|q: Seq<char>| #[trigger] pair_map(after).contains_key(q) implies pair_map(
                    after,
                )[q] == pair_map(before).insert(k, val)[q] by {
                    let j = choose|j: int| 0 <= j < after.len() && #[trigger] after[j].key() == q;
                    lemma_pair_map_at(after, j);
                    lemma_pair_map_at(before, j);
                    if j == i {
                    } else {
                        if q == k {
                            lemma_sorted_unique(before, i as int, j);
                        }
                    }
                }
            }
        },
        None => {
            let p = insertion_point(v, key.as_str());
            proof {
                if p < before.len() {
                    lemma_lex_total(before[p as int].key(), k);
                    if before[p as int].key() == k {
                        assert(key_set(before).contains(k));
                    }
                }
            }
            v.insert(p, (key, value));
            let ghost after = v@;
            assert(after =~= before.insert(p as int, after[p as int]));
            assert(keys_sorted(after)) by {
                assert forall|a: int, b: int| 0 <= a < b < after.len() implies lex_lt(
                    #[trigger] after[a].key(),
                    #[trigger] after[b].key(),
                ) by {
                    if b < p {
                    } else if b == p {
                        assert(lex_lt(before[a].key(), k));
                    } else if a < p {
                        assert(after[b] == before[b - 1]);
                        assert(!lex_lt(before[b - 1].key(), k));
                        assert(before[b - 1].key() != k) by {
                            if before[b - 1].key() == k {
                                assert(key_set(before).contains(k));
                            }
                        }
                        lemma_lex_total(before[b - 1].key(), k);
                        lemma_lex_transitive(before[a].key(), k, before[b - 1].key());
                    } else if a == p {
                        assert(after[b] == before[b - 1]);
                        assert(!lex_lt(before[b - 1].key(), k));
                        assert(before[b - 1].key() != k) by {
                            if before[b - 1].key() == k {
                                assert(key_set(before).contains(k));
                            }
                        }
                        lemma_lex_total(before[b - 1].key(), k);
                    } else {
                        assert(after[a] == before[a - 1]);
                        assert(after[b] == before[b - 1]);
                    }
                }
            }
            assert(pair_map(after) =~= pair_map(before).insert(k, val)) by {
                assert forall|q: Seq<char>| pair_map(after).contains_key(q) <==> pair_map(
                    before,
                ).insert(k, val).contains_key(q) by {
                    if pair_map(after).contains_key(q) {
                        let j = choose|j: int| 0 <= j < after.len() && #[trigger] after[j].0@ == q;
                        if j < p {
                            assert(before[j].0@ == q);
                        } else if j > p {
                            assert(before[j - 1].0@ == q);
                        }
                    }
                    if pair_map(before).insert(k, val).contains_key(q) {
                        if q == k {
                            assert(after[p as int].0@ == q);
                        } else {
                            let j = choose|j: int| 0 <= j < before.len() && #[trigger] before[j].0@ == q;
                            if j < p {
                                assert(after[j].0@ == q);
                            } else {
                                assert(after[j + 1].0@ == q);
                            }
                        }
                    }
                }
                assert forall|q: Seq<char>| #[trigger] pair_map(after).contains_key(q) implies pair_map(
                    after,
                )[q] == pair_map(before).insert(k, val)[q] by {
                    let j = choose|j: int| 0 <= j < after.len() && #[trigger] after[j].0@ == q;
                    lemma_pair_map_at(after, j);
                    if j < p {
                        lemma_pair_map_at(before, j);
                        assert(q != k) by {
                            if q == k {
                                assert(key_set(before).contains(k)) by {
                                    assert(before[j].key() == k);
                                }
                            }
                        }
                    } else if j > p {
                        lemma_pair_map_at(before, j - 1);
                        assert(q != k) by {
                            if q == k {
                                assert(key_set(before).contains(k)) by {
                                    assert(before[j - 1].key() == k);
                                }
                            }
                        }
                    }
                }
            }
        },
    }
}

/// Removes the entry for `key`, if any.
pub fn remove_key<V: View>(v: &mut Vec<(ApplicationId, V)>, key: &ApplicationId)
    requires
        keys_sorted(old(v)@),
    ensures
        keys_sorted(final(v)@),
        pair_map(final(v)@) == pair_map(old(v)@).remove(key@),
{
    let ghost before = v@;
    let ghost k = key@;
    match find_key(v, key.as_str()) {
        Some(i) => {
            v.remove(i);
            let ghost after = v@;
            assert(after =~= before.remove(i as int));
            assert(keys_sorted(after)) by {
                assert forall|a: int, b: int| 0 <= a < b < after.len() implies lex_lt(
                    #[trigger] after[a].key(),
                    #[trigger] after[b].key(),
                ) by {
                    if b < i {
                    } else if a < i {
                        assert(after[b] == before[b + 1]);
                    } else {
                        assert(after[a] == before[a + 1]);
                        assert(after[b] == before[b + 1]);
                    }
                }
            }
            assert(pair_map(after) =~= pair_map(before).remove(k)) by {
                assert forall|q: Seq<char>| pair_map(after).contains_key(q) <==> pair_map(
                    before,
                ).remove(k).contains_key(q) by {
                    if pair_map(after).contains_key(q) {
                        let j = choose|j: int| 0 <= j < after.len() && #[trigger] after[j].0@ == q;
                        if j < i {
                            assert(before[j].0@ == q);
                            if q == k {
                                lemma_sorted_unique(before, i as int, j);
                            }
                        } else {
                            assert(before[j + 1].0@ == q);
                            if q == k {
                                lemma_sorted_unique(before, i as int, j + 1);
                            }
                        }
                    }
                    if pair_map(before).remove(k).contains_key(q) {
                        let j = choose|j: int| 0 <= j < before.len() && #[trigger] before[j].0@ == q;
                        if j < i {
                            assert(after[j].0@ == q);
                        } else if j > i {
                            assert(after[j - 1].0@ == q);
                        }
                    }
                }
                assert forall|q: Seq<char>| #[trigger] pair_map(after).contains_key(q) implies pair_map(
                    after,
                )[q] == pair_map(before).remove(k)[q] by {
                    let j = choose|j: int| 0 <= j < after.len() && #[trigger] after[j].0@ == q;
                    lemma_pair_map_at(after, j);
                    if j < i {
                        lemma_pair_map_at(before, j);
                    } else {
                        lemma_pair_map_at(before, j + 1);
                    }
                }
            }
        },
        None => {
            proof {
                lemma_pair_map_dom(before);
            }
            assert(pair_map(before) =~= pair_map(before).remove(k));
        },
    }
}

} // verus!
