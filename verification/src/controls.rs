//! Keyboard state: translating key codes and holding the set of keys down.
use vstd::prelude::*;
use vstd::string::StringSliceAdditionalSpecFns;

verus! {

/// A control a key maps to.
#[derive(Clone, Copy, Debug, PartialEq, Eq, Structural)]
pub enum ControlKey {
    Forward,
    Back,
    Right,
    Left,
    Jump,
    Crouch,
    Extra1,
    Extra2,
    Extra3,
    Extra4,
    Extra5,
    Extra6,
    Unknown,
}

/// The control a key-code byte string maps to; every other code is Unknown.
pub open spec fn key_of(b: Seq<u8>) -> ControlKey {
    if b == seq![75u8, 101u8, 121u8, 87u8] {
        ControlKey::Forward
    } else if b == seq![75u8, 101u8, 121u8, 83u8] {
        ControlKey::Back
    } else if b == seq![75u8, 101u8, 121u8, 65u8] {
        ControlKey::Left
    } else if b == seq![75u8, 101u8, 121u8, 68u8] {
        ControlKey::Right
    } else if b == seq![83u8, 104u8, 105u8, 102u8, 116u8, 76u8, 101u8, 102u8, 116u8] {
        ControlKey::Crouch
    } else if b == seq![83u8, 112u8, 97u8, 99u8, 101u8] {
        ControlKey::Jump
    } else if b == seq![65u8, 114u8, 114u8, 111u8, 119u8, 68u8, 111u8, 119u8, 110u8] {
        ControlKey::Extra1
    } else if b == seq![65u8, 114u8, 114u8, 111u8, 119u8, 85u8, 112u8] {
        ControlKey::Extra2
    } else if b == seq![65u8, 114u8, 114u8, 111u8, 119u8, 76u8, 101u8, 102u8, 116u8] {
        ControlKey::Extra3
    } else if b == seq![65u8, 114u8, 114u8, 111u8, 119u8, 82u8, 105u8, 103u8, 104u8, 116u8] {
        ControlKey::Extra4
    } else if b == seq![68u8, 105u8, 103u8, 105u8, 116u8, 49u8] {
        ControlKey::Extra5
    } else if b == seq![68u8, 105u8, 103u8, 105u8, 116u8, 50u8] {
        ControlKey::Extra6
    } else {
        ControlKey::Unknown
    }
}

/// Whether the byte slice equals the four given bytes.
fn is4(b: &[u8], k0: u8, k1: u8, k2: u8, k3: u8) -> (r: bool)
    ensures
        r == (b@ == seq![k0, k1, k2, k3]),
{
    let r = b.len() == 4 && b[0] == k0 && b[1] == k1 && b[2] == k2 && b[3] == k3;
    proof {
        if r {
            assert(b@ =~= seq![k0, k1, k2, k3]);
        } else if b@ == seq![k0, k1, k2, k3] {
            assert(b@.len() == 4);
        }
    }
    r
}

/// Whether the byte slice equals the five given bytes.
fn is5(b: &[u8], k0: u8, k1: u8, k2: u8, k3: u8, k4: u8) -> (r: bool)
    ensures
        r == (b@ == seq![k0, k1, k2, k3, k4]),
{
    let r = b.len() == 5 && b[0] == k0 && b[1] == k1 && b[2] == k2 && b[3] == k3 && b[4] == k4;
    proof {
        if r {
            assert(b@ =~= seq![k0, k1, k2, k3, k4]);
        } else if b@ == seq![k0, k1, k2, k3, k4] {
            assert(b@.len() == 5);
        }
    }
    r
}

/// Whether the byte slice equals the six given bytes.
fn is6(b: &[u8], k0: u8, k1: u8, k2: u8, k3: u8, k4: u8, k5: u8) -> (r: bool)
    ensures
        r == (b@ == seq![k0, k1, k2, k3, k4, k5]),
{
    let r = b.len() == 6 && b[0] == k0 && b[1] == k1 && b[2] == k2 && b[3] == k3 && b[4] == k4
        && b[5] == k5;
    proof {
        if r {
            assert(b@ =~= seq![k0, k1, k2, k3, k4, k5]);
        } else if b@ == seq![k0, k1, k2, k3, k4, k5] {
            assert(b@.len() == 6);
        }
    }
    r
}

/// Whether the byte slice equals the seven given bytes.
fn is7(b: &[u8], k0: u8, k1: u8, k2: u8, k3: u8, k4: u8, k5: u8, k6: u8) -> (r: bool)
    ensures
        r == (b@ == seq![k0, k1, k2, k3, k4, k5, k6]),
{
    let r = b.len() == 7 && b[0] == k0 && b[1] == k1 && b[2] == k2 && b[3] == k3 && b[4] == k4
        && b[5] == k5 && b[6] == k6;
    proof {
        if r {
            assert(b@ =~= seq![k0, k1, k2, k3, k4, k5, k6]);
        } else if b@ == seq![k0, k1, k2, k3, k4, k5, k6] {
            assert(b@.len() == 7);
        }
    }
    r
}

/// Whether the byte slice equals the nine given bytes.
fn is9(b: &[u8], k0: u8, k1: u8, k2: u8, k3: u8, k4: u8, k5: u8, k6: u8, k7: u8, k8: u8) -> (r:
    bool)
    ensures
        r == (b@ == seq![k0, k1, k2, k3, k4, k5, k6, k7, k8]),
{
    let r = b.len() == 9 && b[0] == k0 && b[1] == k1 && b[2] == k2 && b[3] == k3 && b[4] == k4
        && b[5] == k5 && b[6] == k6 && b[7] == k7 && b[8] == k8;
    proof {
        if r {
            assert(b@ =~= seq![k0, k1, k2, k3, k4, k5, k6, k7, k8]);
        } else if b@ == seq![k0, k1, k2, k3, k4, k5, k6, k7, k8] {
            assert(b@.len() == 9);
        }
    }
    r
}

/// Whether the byte slice equals the ten given bytes.
fn is10(
    b: &[u8],
    k0: u8,
    k1: u8,
    k2: u8,
    k3: u8,
    k4: u8,
    k5: u8,
    k6: u8,
    k7: u8,
    k8: u8,
    k9: u8,
) -> (r: bool)
    ensures
        r == (b@ == seq![k0, k1, k2, k3, k4, k5, k6, k7, k8, k9]),
{
    let r = b.len() == 10 && b[0] == k0 && b[1] == k1 && b[2] == k2 && b[3] == k3 && b[4] == k4
        && b[5] == k5 && b[6] == k6 && b[7] == k7 && b[8] == k8 && b[9] == k9;
    proof {
        if r {
            assert(b@ =~= seq![k0, k1, k2, k3, k4, k5, k6, k7, k8, k9]);
        } else if b@ == seq![k0, k1, k2, k3, k4, k5, k6, k7, k8, k9] {
            assert(b@.len() == 10);
        }
    }
    r
}

impl ControlKey {
    /// The control a browser key-code string maps to.
    pub fn from_string(s: &str) -> (r: ControlKey)
        ensures
            r == key_of(s.spec_bytes()),
    {
        let b = s.as_bytes();
        if is4(b, 75, 101, 121, 87) {
            ControlKey::Forward
        } else if is4(b, 75, 101, 121, 83) {
            ControlKey::Back
        } else if is4(b, 75, 101, 121, 65) {
            ControlKey::Left
        } else if is4(b, 75, 101, 121, 68) {
            ControlKey::Right
        } else if is9(b, 83, 104, 105, 102, 116, 76, 101, 102, 116) {
            ControlKey::Crouch
        } else if is5(b, 83, 112, 97, 99, 101) {
            ControlKey::Jump
        } else if is9(b, 65, 114, 114, 111, 119, 68, 111, 119, 110) {
            ControlKey::Extra1
        } else if is7(b, 65, 114, 114, 111, 119, 85, 112) {
            ControlKey::Extra2
        } else if is9(b, 65, 114, 114, 111, 119, 76, 101, 102, 116) {
            ControlKey::Extra3
        } else if is10(b, 65, 114, 114, 111, 119, 82, 105, 103, 104, 116) {
            ControlKey::Extra4
        } else if is6(b, 68, 105, 103, 105, 116, 49) {
            ControlKey::Extra5
        } else if is6(b, 68, 105, 103, 105, 116, 50) {
            ControlKey::Extra6
        } else {
            ControlKey::Unknown
        }
    }
}

/// The first occurrence of `k` removed from `s`.
pub open spec fn remove_key(s: Seq<ControlKey>, k: ControlKey) -> Seq<ControlKey>
    decreases s.len(),
{
    if s.len() == 0 {
        s
    } else if s[0] == k {
        s.skip(1)
    } else {
        seq![s[0]] + remove_key(s.skip(1), k)
    }
}

/// The set of keys currently held down, without duplicates, in the order
/// they went down.
pub struct Controls {
    pub keys_down: Vec<ControlKey>,
}

impl Controls {
    /// The keys held down, as a sequence.
    pub open spec fn keys(&self) -> Seq<ControlKey> {
        self.keys_down@
    }

    /// No key appears twice.
    pub open spec fn wf(&self) -> bool {
        forall|i: int, j: int| 0 <= i < j < self.keys().len() ==> self.keys()[i] != self.keys()[j]
    }

    /// No key is down.
    pub fn new() -> (r: Controls)
        ensures
            r.keys().len() == 0,
            r.wf(),
    {
        Controls { keys_down: Vec::new() }
    }

    /// Whether `key` is down.
    pub fn is_down(&self, key: ControlKey) -> (r: bool)
        ensures
            r == self.keys().contains(key),
    {
        let mut i: usize = 0;
        while i < self.keys_down.len()
            invariant
                i <= self.keys().len(),
                forall|j: int| 0 <= j < i ==> self.keys()[j] != key,
            decreases self.keys().len() - i,
        {
            if self.keys_down[i] == key {
                return true;
            }
            i = i + 1;
        }
        false
    }

    /// The keys currently down, in the order they went down.
    pub fn keys_down(&self) -> (r: Vec<ControlKey>)
        ensures
            r@ == self.keys(),
    {
        let mut out: Vec<ControlKey> = Vec::new();
        let mut i: usize = 0;
        while i < self.keys_down.len()
            invariant
                i <= self.keys().len(),
                out@ == self.keys().take(i as int),
            decreases self.keys().len() - i,
        {
            out.push(self.keys_down[i]);
            proof {
                assert(self.keys().take(i as int).push(self.keys()[i as int]) =~= self.keys().take(
                    i + 1 as int,
                ));
            }
            i = i + 1;
        }
        proof {
            assert(self.keys().take(self.keys().len() as int) =~= self.keys());
        }
        out
    }

    /// Press `key`: it joins the set if it was not already down.
    pub fn down(&mut self, key: ControlKey)
        requires
            old(self).wf(),
        ensures
            final(self).wf(),
            final(self).keys() == if old(self).keys().contains(key) {
                old(self).keys()
            } else {
                old(self).keys().push(key)
            },
    {
        if !self.is_down(key) {
            self.keys_down.push(key);
        }
    }

    /// Release `key`: its occurrence, if any, leaves the set.
    #[verifier::loop_isolation(false)]
    pub fn up(&mut self, key: ControlKey)
        requires
            old(self).wf(),
        ensures
            final(self).wf(),
            final(self).keys() == remove_key(old(self).keys(), key),
    {
        let ghost orig = self.keys_down@;
        let mut i: usize = 0;
        while i < self.keys_down.len()
            invariant
                i <= orig.len(),
                self.keys_down@ == orig,
                forall|j: int| 0 <= j < i ==> orig[j] != key,
            decreases orig.len() - i,
        {
            if self.keys_down[i] == key {
                self.keys_down.remove(i);
                proof {
                    lemma_remove_key_at(orig, key, i as int);
                    assert(self.keys_down@ =~= orig.remove(i as int));
                    assert forall|a: int, b: int| 0 <= a < b < orig.len() implies orig[a]
                        != orig[b] by {
                        assert(old(self).keys()[a] != old(self).keys()[b]);
                    }
                    lemma_remove_key_wf(orig, key, i as int);
                }
                return;
            }
            i = i + 1;
        }
        proof {
            lemma_remove_key_absent(orig, key);
            assert forall|a: int, b: int|
                0 <= a < b < self.keys().len() implies self.keys()[a] != self.keys()[b] by {
                assert(old(self).keys()[a] != old(self).keys()[b]);
            }
        }
    }
}

/// Removing the first occurrence at a known index is the sequence with that
/// index removed.
proof fn lemma_remove_key_at(s: Seq<ControlKey>, k: ControlKey, idx: int)
    requires
        0 <= idx < s.len(),
        s[idx] == k,
        forall|j: int| 0 <= j < idx ==> s[j] != k,
    ensures
        remove_key(s, k) == s.remove(idx),
    decreases idx,
{
    if idx == 0 {
        assert(s.skip(1) =~= s.remove(0));
    } else {
        lemma_remove_key_at(s.skip(1), k, idx - 1);
        assert(seq![s[0]] + s.skip(1).remove(idx - 1) =~= s.remove(idx));
    }
}

/// A sequence without duplicates keeps that property when an index leaves.
proof fn lemma_remove_key_wf(s: Seq<ControlKey>, k: ControlKey, idx: int)
    requires
        0 <= idx < s.len(),
        forall|i: int, j: int| 0 <= i < j < s.len() ==> s[i] != s[j],
    ensures
        forall|i: int, j: int|
            0 <= i < j < s.remove(idx).len() ==> s.remove(idx)[i] != s.remove(idx)[j],
{
    assert forall|i: int, j: int|
        0 <= i < j < s.remove(idx).len() implies s.remove(idx)[i] != s.remove(idx)[j] by {
        let si = if i < idx {
            i
        } else {
            i + 1
        };
        let sj = if j < idx {
            j
        } else {
            j + 1
        };
        assert(s.remove(idx)[i] == s[si]);
        assert(s.remove(idx)[j] == s[sj]);
    }
}

/// Removing an absent key changes nothing.
proof fn lemma_remove_key_absent(s: Seq<ControlKey>, k: ControlKey)
    requires
        forall|j: int| 0 <= j < s.len() ==> s[j] != k,
    ensures
        remove_key(s, k) == s,
    decreases s.len(),
{
    if s.len() > 0 {
        assert forall|j: int| 0 <= j < s.skip(1).len() implies s.skip(1)[j] != k by {
            assert(s.skip(1)[j] == s[j + 1]);
        }
        lemma_remove_key_absent(s.skip(1), k);
        assert(seq![s[0]] + s.skip(1) =~= s);
    }
}

} // verus!
