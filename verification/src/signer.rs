//! A signer that rotates its keys: each signing uses the next key of a list.

use crate::error::Error;
use vstd::arithmetic::div_mod::{lemma_fundamental_div_mod, lemma_mod_multiples_vanish, lemma_small_mod};
use vstd::prelude::*;

verus! {

/// `usize` addition that wraps around at `usize::MAX`.
pub open spec fn wrapping_inc(c: usize) -> usize {
    if c == usize::MAX {
        0
    } else {
        (c + 1) as usize
    }
}

/// Signers used in turn: the counter counts the signings, and the signing with
/// counter `c` uses signer `c % len`.
pub struct KeyRotatingSigner<S> {
    signers: Vec<S>,
    counter: usize,
}

impl<S> KeyRotatingSigner<S> {
    pub closed spec fn signer_seq(&self) -> Seq<S> {
        self.signers@
    }

    pub closed spec fn count(&self) -> usize {
        self.counter
    }

    /// The position of the signer that the next signing uses.
    pub open spec fn position(&self) -> int {
        self.count() as int % self.signer_seq().len() as int
    }

    /// Rotates through `signers`, starting with the first.
    pub fn from_signers(signers: Vec<S>) -> (r: KeyRotatingSigner<S>)
        ensures
            r.signer_seq() == signers@,
            r.count() == 0,
    {
        KeyRotatingSigner { signers, counter: 0 }
    }

    /// The number of signers.
    pub fn len(&self) -> (r: usize)
        ensures
            r == self.signer_seq().len(),
    {
        self.signers.len()
    }

    /// The signer that the next signing uses, without rotating.
    pub fn current_signer(&self) -> (r: &S)
        requires
            self.signer_seq().len() > 0,
        ensures
            *r == self.signer_seq()[self.position()],
    {
        &self.signers[self.counter % self.signers.len()]
    }

    /// The signer that this signing uses; the next signing uses the one after it
    /// (the counter wraps around at `usize::MAX`).
    pub fn fetch_and_rotate_signer(&mut self) -> (r: &S)
        requires
            old(self).signer_seq().len() > 0,
        ensures
            *r == old(self).signer_seq()[old(self).position()],
            final(self).signer_seq() == old(self).signer_seq(),
            final(self).count() == wrapping_inc(old(self).count()),
    {
        let idx = self.counter;
        self.counter = self.counter.wrapping_add(1);
        &self.signers[idx % self.signers.len()]
    }
}

impl<K> KeyRotatingSigner<(String, K)> {
    /// Signers from pairs of an account id and a key. There must be at least one
    /// pair, and all the account ids must be the same.
    pub fn try_from_iter(entries: Vec<(String, K)>) -> (r: Result<KeyRotatingSigner<(String, K)>, Error>)
        ensures
            entries@.len() == 0 ==> (r matches Err(Error::InvalidArgs(m)) && m@ == "must have at least one entry"@),
            entries@.len() > 0 && (exists|i: int| 0 <= i < entries@.len() && (#[trigger] entries@[i]).0@ != entries@[0].0@)
                ==> (r matches Err(Error::InvalidArgs(m)) && m@ == "provided account ids are not all the same"@),
            entries@.len() > 0 && (forall|i: int| 0 <= i < entries@.len() ==> (#[trigger] entries@[i]).0@ == entries@[0].0@)
                ==> (r matches Ok(s) && s.signer_seq() == entries@ && s.count() == 0),
    {
        let n = entries.len();
        if n == 0 {
            return Err(Error::InvalidArgs("must have at least one entry"));
        }
        let mut i: usize = 1;
        while i < n
            invariant
                n == entries@.len(),
                1 <= i <= n,
                forall|j: int| 0 <= j < i ==> (#[trigger] entries@[j]).0@ == entries@[0].0@,
            decreases n - i,
        {
            if entries[i].0 != entries[0].0 {
                return Err(Error::InvalidArgs("provided account ids are not all the same"));
            }
            i = i + 1;
        }
        Ok(KeyRotatingSigner::from_signers(entries))
    }
}

/// The position of the signer used by signing number `i` (counting from 0) of
/// those that start at counter `counter`, while the counter does not wrap.
pub open spec fn rotation_position(counter: int, i: int, len: int) -> int {
    (counter + i) % len
}

/// Rotation uses every signer: of `len` signings in a row that start at counter
/// `counter` (without the counter wrapping around), each signer is used by
/// exactly one.
pub proof fn law_rotation_uses_every_signer(counter: usize, len: usize, target: int)
    requires
        len > 0,
        counter + len <= usize::MAX + 1,
        0 <= target < len,
    ensures
        exists|i: int| 0 <= i < len && #[trigger] rotation_position(counter as int, i, len as int) == target,
        forall|i: int, j: int|
            0 <= i < len && 0 <= j < len && #[trigger] rotation_position(counter as int, i, len as int)
                == #[trigger] rotation_position(counter as int, j, len as int) ==> i == j,
{
    let m = len as int;
    let c = counter as int;
    let r = c % m;
    let q = c / m;
    lemma_fundamental_div_mod(c, m);
    let i = if target >= r { target - r } else { target - r + m };
    assert(c + i == m * q + (r + i));
    lemma_mod_multiples_vanish(q, r + i, m);
    if target >= r {
        lemma_small_mod(target as nat, m as nat);
    } else {
        assert(r + i == m + target);
        lemma_mod_multiples_vanish(1, target, m);
        lemma_small_mod(target as nat, m as nat);
    }
    assert(rotation_position(c, i, m) == target);
    assert forall|a: int, b: int|
        0 <= a < len && 0 <= b < len && #[trigger] rotation_position(c, a, m) == #[trigger] rotation_position(c, b, m) implies a == b by {
        lemma_fundamental_div_mod(c + a, m);
        lemma_fundamental_div_mod(c + b, m);
        let qa = (c + a) / m;
        let qb = (c + b) / m;
        let s = (c + a) % m;
        assert(c + a == m * qa + s);
        assert(c + b == m * qb + s);
        assert(b - a == 0) by (nonlinear_arith)
            requires
                c + a == m * qa + s,
                c + b == m * qb + s,
                -m < b - a < m,
                m > 0,
        ;
    }
}

} // verus!
