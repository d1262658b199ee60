//! A repository of values addressed by sequentially issued ids.
//!
//! Ids come from a counter: each insertion takes the next id, so keys are
//! strictly increasing in insertion order and every id is unique for the
//! repository's lifetime, also after removals.
use vstd::prelude::*;

verus! {

/// An id drawn from a counter: a zero id, a successor, a duplicate carrying
/// the same key, and an equality test on keys.
pub trait Id: Sized {
    /// The id's position in the counter's order.
    spec fn key(&self) -> nat;

    /// The id before every issued id.
    fn empty() -> (r: Self)
        ensures
            r.key() == 0,
    ;

    /// The next id after this one.
    fn next(&self) -> (r: Self)
        requires
            self.key() < usize::MAX,
        ensures
            r.key() == self.key() + 1,
    ;

    /// An id with the same key.
    fn duplicate(&self) -> (r: Self)
        ensures
            r.key() == self.key(),
    ;

    /// Whether two ids carry the same key.
    fn same(&self, other: &Self) -> (r: bool)
        ensures
            r == (self.key() == other.key()),
    ;
}

/// The first index in `s` whose id carries `k`, or `-1`.
pub open spec fn key_index<I: Id, V>(s: Seq<(I, V)>, k: nat) -> int
    decreases s.len(),
{
    if s.len() == 0 {
        -1
    } else if s[0].0.key() == k {
        0
    } else {
        let r = key_index(s.skip(1), k);
        if r < 0 {
            -1
        } else {
            r + 1
        }
    }
}

/// A found index lies in the sequence and carries the key; `-1` means no
/// entry carries it.
pub proof fn lemma_key_index<I: Id, V>(s: Seq<(I, V)>, k: nat)
    ensures
        key_index(s, k) >= 0 ==> key_index(s, k) < s.len() && s[key_index(s, k)].0.key() == k,
        key_index(s, k) < 0 ==> (forall|j: int| 0 <= j < s.len() ==> s[j].0.key() != k),
    decreases s.len(),
{
    if s.len() != 0 && s[0].0.key() != k {
        lemma_key_index(s.skip(1), k);
        let r = key_index::<I, V>(s.skip(1), k);
        if r < 0 {
            assert forall|j: int| 0 <= j < s.len() implies s[j].0.key() != k by {
                if j > 0 {
                    assert(s.skip(1)[j - 1].0.key() != k);
                }
            }
        }
    }
}

/// Values addressed by ids issued from a private counter.
pub struct IdRepositpry<I, V> {
    pub items: Vec<(I, V)>,
    pub last_id: I,
}

impl<I: Id, V> IdRepositpry<I, V> {
    /// Keys strictly increase in storage order and never pass the counter.
    pub open spec fn wf(&self) -> bool {
        &&& forall|i: int, j: int|
            0 <= i < j < self.items@.len() ==> (#[trigger] self.items@[i]).0.key()
                < (#[trigger] self.items@[j]).0.key()
        &&& forall|i: int|
            0 <= i < self.items@.len() ==> (#[trigger] self.items@[i]).0.key()
                <= self.last_id.key()
    }

    /// An empty repository whose counter starts at the zero id.
    pub fn new() -> (r: IdRepositpry<I, V>)
        ensures
            r.items@.len() == 0,
            r.last_id.key() == 0,
            r.wf(),
    {
        IdRepositpry { items: Vec::new(), last_id: I::empty() }
    }

    /// Store `value` under the next id and return that id.
    pub fn insert(&mut self, value: V) -> (id: I)
        requires
            old(self).wf(),
            old(self).last_id.key() < usize::MAX,
        ensures
            final(self).wf(),
            id.key() == old(self).last_id.key() + 1,
            final(self).last_id.key() == id.key(),
            final(self).items@.len() == old(self).items@.len() + 1,
            forall|j: int|
                0 <= j < old(self).items@.len() ==> final(self).items@[j] == old(self).items@[j],
            final(self).items@.last().0.key() == id.key(),
            final(self).items@.last().1 == value,
    {
        let id = self.last_id.next();
        let stored = id.duplicate();
        let ret = id.duplicate();
        self.last_id = id;
        self.items.push((stored, value));
        ret
    }

    /// Take the value stored under `id` out, if the repository holds one.
    #[verifier::loop_isolation(false)]
    pub fn remove(&mut self, id: &I) -> (r: Option<V>)
        requires
            old(self).wf(),
        ensures
            final(self).wf(),
            final(self).last_id == old(self).last_id,
            key_index(old(self).items@, id.key()) < 0 ==> r is None && final(self).items@ == old(
                self,
            ).items@,
            key_index(old(self).items@, id.key()) >= 0 ==> {
                &&& r is Some
                &&& r.unwrap() == old(self).items@[key_index(old(self).items@, id.key())].1
                &&& final(self).items@ == old(self).items@.remove(
                    key_index(old(self).items@, id.key()),
                )
            },
    {
        proof {
            lemma_key_index(self.items@, id.key());
        }
        let mut i: usize = 0;
        while i < self.items.len()
            invariant
                i <= self.items@.len(),
                self.items@ == old(self).items@,
                self.last_id == old(self).last_id,
                forall|j: int| 0 <= j < i ==> (#[trigger] self.items@[j]).0.key() != id.key(),
            decreases self.items@.len() - i,
        {
            if self.items[i].0.same(id) {
                proof {
                    lemma_key_index_at(self.items@, id.key(), i as int);
                    let s = self.items@.remove(i as int);
                    assert forall|a: int, b: int| 0 <= a < b < s.len() implies (
                    #[trigger] s[a]).0.key() < (#[trigger] s[b]).0.key() by {
                        let sa = if a < i {
                            a
                        } else {
                            a + 1
                        };
                        let sb = if b < i {
                            b
                        } else {
                            b + 1
                        };
                        assert(s[a] == self.items@[sa]);
                        assert(s[b] == self.items@[sb]);
                    }
                    assert forall|a: int| 0 <= a < s.len() implies (#[trigger] s[a]).0.key()
                        <= self.last_id.key() by {
                        let sa = if a < i {
                            a
                        } else {
                            a + 1
                        };
                        assert(s[a] == self.items@[sa]);
                    }
                }
                let (_k, v) = self.items.remove(i);
                return Some(v);
            }
            i = i + 1;
        }
        None
    }

    /// A shared view of the value stored under `id`, if any.
    pub fn get(&self, id: &I) -> (r: Option<&V>)
        ensures
            key_index(self.items@, id.key()) < 0 ==> r is None,
            key_index(self.items@, id.key()) >= 0 ==> r is Some && *r.unwrap() == self.items@[
                key_index(self.items@, id.key())
            ].1,
    {
        proof {
            lemma_key_index(self.items@, id.key());
        }
        let mut i: usize = 0;
        while i < self.items.len()
            invariant
                i <= self.items@.len(),
                forall|j: int| 0 <= j < i ==> (#[trigger] self.items@[j]).0.key() != id.key(),
            decreases self.items@.len() - i,
        {
            if self.items[i].0.same(id) {
                proof {
                    lemma_key_index_at(self.items@, id.key(), i as int);
                }
                return Some(&self.items[i].1);
            }
            i = i + 1;
        }
        None
    }

    /// An exclusive view of the value stored under `id`, if any.
    pub fn get_mut(&mut self, id: &I) -> (r: Option<&mut V>)
        requires
            old(self).wf(),
    {
        let mut i: usize = 0;
        while i < self.items.len()
            invariant
                i <= self.items@.len(),
            decreases self.items@.len() - i,
        {
            if self.items[i].0.same(id) {
                return Some(&mut self.items[i].1);
            }
            i = i + 1;
        }
        None
    }

    /// The stored pairs, in insertion order.
    pub fn iter(&self) -> (r: &Vec<(I, V)>)
        ensures
            r == &self.items,
    {
        &self.items
    }
}

/// A scan that stops at the first matching key has found the key index.
proof fn lemma_key_index_at<I: Id, V>(s: Seq<(I, V)>, k: nat, idx: int)
    requires
        0 <= idx < s.len(),
        s[idx].0.key() == k,
        forall|j: int| 0 <= j < idx ==> (#[trigger] s[j]).0.key() != k,
    ensures
        key_index(s, k) == idx,
    decreases idx,
{
    if idx > 0 {
        assert forall|j: int| 0 <= j < idx - 1 implies (#[trigger] s.skip(1)[j]).0.key() != k by {
            assert(s.skip(1)[j] == s[j + 1]);
        }
        assert(s.skip(1)[idx - 1] == s[idx]);
        lemma_key_index_at(s.skip(1), k, idx - 1);
    }
}

} // verus!
