//! An insertion-ordered map from strings to strings.
//!
//! The map is kept as a list of pairs in which no key occurs twice. Its
//! mathematical model is the sequence of pairs (`pairs`) and, derived from
//! it, a `Map` from key to value (`view`). Variable environments and the
//! ledger of links are both built on it.

use vstd::prelude::*;
use vstd::string::*;

use crate::text::same_text;

verus! {

/// A key/value pair of character sequences.
pub type Pair = (Seq<char>, Seq<char>);

/// No key occurs at two positions of `p`.
pub open spec fn distinct_keys(p: Seq<Pair>) -> bool {
    forall|i: int, j: int| 0 <= i < j < p.len() ==> (#[trigger] p[i]).0 != (#[trigger] p[j]).0
}

/// Some pair of `p` has the key `k`.
pub open spec fn has_key(p: Seq<Pair>, k: Seq<char>) -> bool {
    exists|i: int| 0 <= i < p.len() && (#[trigger] p[i]).0 == k
}

/// The position of the first pair of `p` with key `k`, or `p.len()` if there is none.
pub open spec fn position_of(p: Seq<Pair>, k: Seq<char>) -> int
    decreases p.len(),
{
    if p.len() == 0 {
        0
    } else if p[0].0 == k {
        0
    } else {
        1 + position_of(p.drop_first(), k)
    }
}

/// The map built by inserting the pairs of `p` from first to last.
pub open spec fn pairs_map(p: Seq<Pair>) -> Map<Seq<char>, Seq<char>>
    decreases p.len(),
{
    if p.len() == 0 {
        Map::empty()
    } else {
        pairs_map(p.drop_last()).insert(p.last().0, p.last().1)
    }
}

/// `p` after binding `k` to `v`: the value is replaced in place where the
/// key is present, and the pair is appended where it is not.
pub open spec fn pairs_insert(p: Seq<Pair>, k: Seq<char>, v: Seq<char>) -> Seq<Pair> {
    if has_key(p, k) {
        p.update(position_of(p, k), (k, v))
    } else {
        p.push((k, v))
    }
}

/// `p` without the pair whose key is `k`, the others keeping their order.
pub open spec fn pairs_remove(p: Seq<Pair>, k: Seq<char>) -> Seq<Pair> {
    if has_key(p, k) {
        p.remove(position_of(p, k))
    } else {
        p
    }
}

/// `position_of` finds the key where there is one.
pub proof fn lemma_position_of(p: Seq<Pair>, k: Seq<char>)
    ensures
        0 <= position_of(p, k) <= p.len(),
        has_key(p, k) <==> position_of(p, k) < p.len(),
        position_of(p, k) < p.len() ==> p[position_of(p, k)].0 == k,
        forall|j: int| 0 <= j < position_of(p, k) ==> (#[trigger] p[j]).0 != k,
    decreases p.len(),
{
    if p.len() == 0 {
    } else if p[0].0 == k {
    } else {
        let q = p.drop_first();
        lemma_position_of(q, k);
        assert forall|j: int| 0 <= j < position_of(p, k) implies (#[trigger] p[j]).0 != k by {
            if j > 0 {
                assert(q[j - 1] == p[j]);
            }
        }
        if has_key(p, k) {
            let i = choose|i: int| 0 <= i < p.len() && (#[trigger] p[i]).0 == k;
            assert(q[i - 1] == p[i]);
        }
        if position_of(q, k) < q.len() {
            assert(p[position_of(q, k) + 1] == q[position_of(q, k)]);
        }
    }
}

/// The keys of `pairs_map(p)` are the keys of `p`, and with distinct keys
/// each pair's value is the one the map gives.
pub proof fn lemma_pairs_map(p: Seq<Pair>)
    ensures
        forall|k: Seq<char>| #[trigger] pairs_map(p).contains_key(k) <==> has_key(p, k),
        distinct_keys(p) ==> forall|i: int|
            0 <= i < p.len() ==> pairs_map(p)[(#[trigger] p[i]).0] == p[i].1,
        pairs_map(p).dom().finite(),
    decreases p.len(),
{
    if p.len() == 0 {
        assert forall|k: Seq<char>| #[trigger] pairs_map(p).contains_key(k) <==> has_key(p, k) by {}
    } else {
        let q = p.drop_last();
        lemma_pairs_map(q);
        assert forall|k: Seq<char>| #[trigger] pairs_map(p).contains_key(k) <==> has_key(p, k) by {
            if has_key(p, k) {
                let i = choose|i: int| 0 <= i < p.len() && (#[trigger] p[i]).0 == k;
                if i < p.len() - 1 {
                    assert(q[i] == p[i]);
                    assert(has_key(q, k));
                }
            }
            if pairs_map(p).contains_key(k) {
                if k == p.last().0 {
                    assert(p[p.len() - 1].0 == k);
                } else {
                    assert(has_key(q, k));
                    let i = choose|i: int| 0 <= i < q.len() && (#[trigger] q[i]).0 == k;
                    assert(p[i] == q[i]);
                }
            }
        }
        if distinct_keys(p) {
            assert(distinct_keys(q)) by {
                assert forall|i: int, j: int| 0 <= i < j < q.len() implies (#[trigger] q[i]).0 != (
                #[trigger] q[j]).0 by {
                    assert(q[i] == p[i] && q[j] == p[j]);
                }
            }
            assert forall|i: int| 0 <= i < p.len() implies pairs_map(p)[(#[trigger] p[i]).0]
                == p[i].1 by {
                if i < p.len() - 1 {
                    assert(q[i] == p[i]);
                    assert(p[i].0 != p[p.len() - 1].0);
                }
            }
        }
    }
}

/// With distinct keys the map has as many keys as there are pairs.
pub proof fn lemma_pairs_map_len(p: Seq<Pair>)
    requires
        distinct_keys(p),
    ensures
        pairs_map(p).len() == p.len(),
    decreases p.len(),
{
    if p.len() > 0 {
        let q = p.drop_last();
        assert forall|i: int, j: int| 0 <= i < j < q.len() implies (#[trigger] q[i]).0 != (
        #[trigger] q[j]).0 by {
            assert(q[i] == p[i] && q[j] == p[j]);
        }
        lemma_pairs_map_len(q);
        lemma_pairs_map(q);
        if has_key(q, p.last().0) {
            let i = choose|i: int| 0 <= i < q.len() && (#[trigger] q[i]).0 == p.last().0;
            assert(q[i] == p[i]);
            assert(p[i].0 != p[p.len() - 1].0);
        }
    }
}

/// Binding a key in the list of pairs binds it in the map, and keeps the keys distinct.
pub proof fn lemma_pairs_insert(p: Seq<Pair>, k: Seq<char>, v: Seq<char>)
    requires
        distinct_keys(p),
    ensures
        distinct_keys(pairs_insert(p, k, v)),
        pairs_map(pairs_insert(p, k, v)) == pairs_map(p).insert(k, v),
{
    let r = pairs_insert(p, k, v);
    lemma_position_of(p, k);
    if has_key(p, k) {
        let at = position_of(p, k);
        assert forall|i: int, j: int| 0 <= i < j < r.len() implies (#[trigger] r[i]).0 != (
        #[trigger] r[j]).0 by {
            assert(r[i].0 == p[i].0 && r[j].0 == p[j].0);
        }
        lemma_pairs_map(p);
        lemma_pairs_map(r);
        assert forall|x: Seq<char>| #[trigger] pairs_map(r).contains_key(x) <==> pairs_map(
            p,
        ).insert(k, v).contains_key(x) by {
            if has_key(r, x) {
                let i = choose|i: int| 0 <= i < r.len() && (#[trigger] r[i]).0 == x;
                assert(p[i].0 == x);
            }
            if has_key(p, x) {
                let i = choose|i: int| 0 <= i < p.len() && (#[trigger] p[i]).0 == x;
                assert(r[i].0 == x);
            }
        }
        assert forall|x: Seq<char>| #[trigger]
            pairs_map(r).contains_key(x) implies pairs_map(r)[x] == pairs_map(p).insert(k, v)[x] by {
            let i = choose|i: int| 0 <= i < r.len() && (#[trigger] r[i]).0 == x;
            assert(pairs_map(r)[r[i].0] == r[i].1);
            assert(pairs_map(p)[p[i].0] == p[i].1);
            if i != at {
                assert(p[i].0 != p[at].0);
            }
        }
        assert(pairs_map(r) =~= pairs_map(p).insert(k, v));
    } else {
        assert(r.drop_last() =~= p);
        assert forall|i: int, j: int| 0 <= i < j < r.len() implies (#[trigger] r[i]).0 != (
        #[trigger] r[j]).0 by {
            if j == p.len() {
                assert(r[i] == p[i]);
            } else {
                assert(r[i] == p[i] && r[j] == p[j]);
            }
        }
    }
}

/// Taking a key out of the list of pairs takes it out of the map, and keeps the keys distinct.
pub proof fn lemma_pairs_remove(p: Seq<Pair>, k: Seq<char>)
    requires
        distinct_keys(p),
    ensures
        distinct_keys(pairs_remove(p, k)),
        pairs_map(pairs_remove(p, k)) == pairs_map(p).remove(k),
{
    let r = pairs_remove(p, k);
    lemma_position_of(p, k);
    lemma_pairs_map(p);
    if has_key(p, k) {
        let at = position_of(p, k);
        assert forall|i: int, j: int| 0 <= i < j < r.len() implies (#[trigger] r[i]).0 != (
        #[trigger] r[j]).0 by {
            let pi = if i < at { i } else { i + 1 };
            let pj = if j < at { j } else { j + 1 };
            assert(r[i] == p[pi] && r[j] == p[pj]);
        }
        lemma_pairs_map(r);
        assert forall|x: Seq<char>| #[trigger] pairs_map(r).contains_key(x) <==> pairs_map(
            p,
        ).remove(k).contains_key(x) by {
            if has_key(r, x) {
                let i = choose|i: int| 0 <= i < r.len() && (#[trigger] r[i]).0 == x;
                let pi = if i < at { i } else { i + 1 };
                assert(r[i] == p[pi]);
                assert(p[pi].0 != p[at].0);
            }
            if has_key(p, x) && x != k {
                let i = choose|i: int| 0 <= i < p.len() && (#[trigger] p[i]).0 == x;
                let ri = if i < at { i } else { i - 1 };
                assert(r[ri] == p[i]);
            }
        }
        assert forall|x: Seq<char>| #[trigger]
            pairs_map(r).contains_key(x) implies pairs_map(r)[x] == pairs_map(p).remove(k)[x] by {
            let i = choose|i: int| 0 <= i < r.len() && (#[trigger] r[i]).0 == x;
            let pi = if i < at { i } else { i + 1 };
            assert(r[i] == p[pi]);
            assert(pairs_map(r)[r[i].0] == r[i].1);
            assert(pairs_map(p)[p[pi].0] == p[pi].1);
        }
        assert(pairs_map(r) =~= pairs_map(p).remove(k));
    } else {
        assert(pairs_map(p).remove(k) =~= pairs_map(p));
    }
}

/// An insertion-ordered map from strings to strings.
#[derive(Debug, PartialEq, Eq)]
pub struct StringMap {
    entries: Vec<(String, String)>,
}

impl View for StringMap {
    type V = Map<Seq<char>, Seq<char>>;

    /// The map from key to value.
    open spec fn view(&self) -> Map<Seq<char>, Seq<char>> {
        pairs_map(self.pairs())
    }
}

impl StringMap {
    /// The pairs of the map, in the order in which their keys were first bound.
    pub closed spec fn pairs(&self) -> Seq<Pair> {
        Seq::new(self.entries@.len(), |i: int| (self.entries@[i].0@, self.entries@[i].1@))
    }

    /// The invariant of the type: no key is held twice.
    pub open spec fn wf(&self) -> bool {
        distinct_keys(self.pairs())
    }

    /// An empty map.
    pub fn new() -> (r: Self)
        ensures
            r.wf(),
            r.pairs() == Seq::<Pair>::empty(),
            r@ == Map::<Seq<char>, Seq<char>>::empty(),
    {
        let r = StringMap { entries: Vec::new() };
        assert(r.pairs() =~= Seq::<Pair>::empty());
        r
    }

    /// The number of keys.
    pub fn len(&self) -> (n: usize)
        requires
            self.wf(),
        ensures
            n == self.pairs().len(),
            n == self@.len(),
    {
        proof {
            lemma_pairs_map_len(self.pairs());
        }
        self.entries.len()
    }

    /// The number of pairs held.
    pub fn count(&self) -> (n: usize)
        ensures
            n == self.pairs().len(),
    {
        self.entries.len()
    }

    /// Whether the map holds no key.
    pub fn is_empty(&self) -> (r: bool)
        requires
            self.wf(),
        ensures
            r == (self.pairs().len() == 0),
            r == (self@ == Map::<Seq<char>, Seq<char>>::empty()),
    {
        proof {
            lemma_pairs_map_len(self.pairs());
            lemma_pairs_map(self.pairs());
            if self.pairs().len() == 0 {
                assert(self@ =~= Map::<Seq<char>, Seq<char>>::empty());
            }
        }
        self.entries.len() == 0
    }

    /// The position of `k` among the keys, or the number of keys where it is absent.
    fn find(&self, k: &str) -> (at: usize)
        ensures
            at == position_of(self.pairs(), k@),
            at <= self.pairs().len(),
            has_key(self.pairs(), k@) <==> at < self.pairs().len(),
            at < self.pairs().len() ==> self.pairs()[at as int].0 == k@,
    {
        let mut i: usize = 0;
        proof {
            lemma_position_of(self.pairs(), k@);
        }
        while i < self.entries.len()
            invariant
                i <= self.entries@.len(),
                self.entries@.len() == self.pairs().len(),
                forall|j: int| 0 <= j < i ==> (#[trigger] self.pairs()[j]).0 != k@,
                0 <= position_of(self.pairs(), k@) <= self.pairs().len(),
                position_of(self.pairs(), k@) < self.pairs().len() ==> self.pairs()[position_of(
                    self.pairs(),
                    k@,
                )].0 == k@,
                forall|j: int|
                    0 <= j < position_of(self.pairs(), k@) ==> (#[trigger] self.pairs()[j]).0
                        != k@,
                has_key(self.pairs(), k@) <==> position_of(self.pairs(), k@) < self.pairs().len(),
            decreases self.entries@.len() - i,
        {
            if same_text(self.entries[i].0.as_str(), k) {
                assert(self.pairs()[i as int].0 == k@);
                return i;
            }
            assert(self.pairs()[i as int].0 != k@);
            i += 1;
        }
        i
    }

    /// The value bound to `k`, if any.
    pub fn get(&self, k: &str) -> (r: Option<&String>)
        requires
            self.wf(),
        ensures
            r is Some <==> self@.contains_key(k@),
            r matches Some(v) ==> v@ == self@[k@],
    {
        let at = self.find(k);
        proof {
            lemma_pairs_map(self.pairs());
        }
        if at < self.entries.len() {
            assert(self.pairs()[at as int].1 == self.entries@[at as int].1@);
            Some(&self.entries[at].1)
        } else {
            None
        }
    }

    /// Whether `k` is bound.
    pub fn contains_key(&self, k: &str) -> (r: bool)
        requires
            self.wf(),
        ensures
            r == self@.contains_key(k@),
    {
        let at = self.find(k);
        proof {
            lemma_pairs_map(self.pairs());
        }
        at < self.entries.len()
    }

    /// Binds `k` to `v`. A key that was bound keeps its place; a new key goes last.
    pub fn insert(&mut self, k: String, v: String)
        requires
            old(self).wf(),
        ensures
            final(self).wf(),
            final(self).pairs() == pairs_insert(old(self).pairs(), k@, v@),
            final(self)@ == old(self)@.insert(k@, v@),
    {
        let at = self.find(k.as_str());
        proof {
            lemma_pairs_insert(self.pairs(), k@, v@);
        }
        let ghost before = self.pairs();
        if at < self.entries.len() {
            self.entries.set(at, (k, v));
            assert(self.pairs() =~= before.update(at as int, (k@, v@)));
        } else {
            self.entries.push((k, v));
            assert(self.pairs() =~= before.push((k@, v@)));
        }
    }

    /// Unbinds `k` and returns the value it had, if any.
    pub fn remove(&mut self, k: &str) -> (r: Option<String>)
        requires
            old(self).wf(),
        ensures
            final(self).wf(),
            final(self).pairs() == pairs_remove(old(self).pairs(), k@),
            final(self)@ == old(self)@.remove(k@),
            r is Some <==> old(self)@.contains_key(k@),
            r matches Some(v) ==> v@ == old(self)@[k@],
    {
        let at = self.find(k);
        proof {
            lemma_pairs_remove(self.pairs(), k@);
            lemma_pairs_map(self.pairs());
        }
        let ghost before = self.pairs();
        if at < self.entries.len() {
            let gone = self.entries.remove(at);
            assert(before[at as int].1 == gone.1@);
            assert(self.pairs() =~= before.remove(at as int));
            Some(gone.1)
        } else {
            None
        }
    }

    /// The key at position `i`.
    pub fn key_at(&self, i: usize) -> (k: &String)
        requires
            i < self.pairs().len(),
        ensures
            k@ == self.pairs()[i as int].0,
    {
        &self.entries[i].0
    }

    /// The value at position `i`.
    pub fn value_at(&self, i: usize) -> (v: &String)
        requires
            i < self.pairs().len(),
        ensures
            v@ == self.pairs()[i as int].1,
    {
        &self.entries[i].1
    }

    /// Whether every binding of `self` is a binding of `other`.
    pub fn included_in(&self, other: &StringMap) -> (r: bool)
        requires
            self.wf(),
            other.wf(),
        ensures
            r == self@.submap_of(other@),
    {
        let mut i: usize = 0;
        proof {
            lemma_pairs_map(self.pairs());
        }
        while i < self.entries.len()
            invariant
                i <= self.entries@.len(),
                self.entries@.len() == self.pairs().len(),
                self.wf(),
                other.wf(),
                forall|k: Seq<char>| #[trigger] self@.contains_key(k) <==> has_key(self.pairs(), k),
                forall|j: int|
                    0 <= j < self.pairs().len() ==> self@[(#[trigger] self.pairs()[j]).0]
                        == self.pairs()[j].1,
                forall|j: int|
                    0 <= j < i ==> other@.contains_key((#[trigger] self.pairs()[j]).0) && other@[self.pairs()[j].0]
                        == self.pairs()[j].1,
            decreases self.entries@.len() - i,
        {
            let ghost key = self.pairs()[i as int].0;
            assert(has_key(self.pairs(), key));
            match other.get(self.entries[i].0.as_str()) {
                Some(v) => {
                    if !(*v == self.entries[i].1) {
                        assert(self@.contains_key(key) && self@[key] != other@[key]);
                        return false;
                    }
                },
                None => {
                    assert(self@.contains_key(key) && !other@.contains_key(key));
                    return false;
                },
            }
            i += 1;
        }
        proof {
            assert forall|k: Seq<char>| #[trigger] self@.dom().contains(k) implies other@.dom().contains(k)
                && self@[k] == other@[k] by {
                let j = choose|j: int| 0 <= j < self.pairs().len() && (#[trigger] self.pairs()[j]).0 == k;
                assert(other@.contains_key(self.pairs()[j].0));
            }
        }
        true
    }

    /// Whether the two maps bind the same keys to the same values, in whatever order.
    pub fn same_as(&self, other: &StringMap) -> (r: bool)
        requires
            self.wf(),
            other.wf(),
        ensures
            r == (self@ == other@),
    {
        let r = self.included_in(other) && other.included_in(self);
        proof {
            if r {
                assert forall|k: Seq<char>| self@.contains_key(k) <==> other@.contains_key(k) by {
                    if self@.contains_key(k) {
                        assert(self@.dom().contains(k));
                    }
                    if other@.contains_key(k) {
                        assert(other@.dom().contains(k));
                    }
                }
                assert forall|k: Seq<char>| self@.contains_key(k) implies self@[k] == other@[k] by {
                    assert(self@.dom().contains(k));
                }
                assert(self@ =~= other@);
            }
        }
        r
    }
}

impl Clone for StringMap {
    /// A copy with the same pairs in the same order.
    fn clone(&self) -> (r: Self)
        ensures
            r.pairs() == self.pairs(),
            r@ == self@,
    {
        let mut entries: Vec<(String, String)> = Vec::new();
        let mut i: usize = 0;
        while i < self.entries.len()
            invariant
                i <= self.entries@.len(),
                entries@.len() == i,
                forall|j: int|
                    0 <= j < i ==> (#[trigger] entries@[j]).0@ == self.entries@[j].0@ && entries@[j].1@
                        == self.entries@[j].1@,
            decreases self.entries@.len() - i,
        {
            entries.push((self.entries[i].0.clone(), self.entries[i].1.clone()));
            i += 1;
        }
        let r = StringMap { entries };
        assert(r.pairs() =~= self.pairs());
        r
    }
}

} // verus!
