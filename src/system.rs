use vstd::prelude::*;

use crate::store::Store;

verus! {

/// The counter that follows `n`: one more, wrapping to zero past the largest value.
pub open spec fn next_count(n: u32) -> u32 {
    if n == u32::MAX {
        0
    } else {
        (n + 1) as u32
    }
}

/// The nonce recorded for `who`, zero for an account never seen.
pub open spec fn nonce_of(nonces: Map<Seq<char>, u32>, who: Seq<char>) -> u32 {
    if nonces.contains_key(who) {
        nonces[who]
    } else {
        0
    }
}

/// The nonces after `who` has submitted one more extrinsic.
pub open spec fn bump_nonce(nonces: Map<Seq<char>, u32>, who: Seq<char>) -> Map<Seq<char>, u32> {
    nonces.insert(who, next_count(nonce_of(nonces, who)))
}

fn increment(n: u32) -> (r: u32)
    ensures
        r == next_count(n),
{
    if n == u32::MAX {
        0
    } else {
        n + 1
    }
}

/// The block counter and the per-account nonces.
pub struct Pallet {
    block_number: u32,
    nonce: Store<u32>,
}

impl Pallet {
    pub closed spec fn wf(&self) -> bool {
        self.nonce.wf()
    }

    /// The current block number.
    pub closed spec fn spec_block_number(&self) -> u32 {
        self.block_number
    }

    /// The nonce of each account seen so far.
    pub closed spec fn nonces(&self) -> Map<Seq<char>, u32> {
        self.nonce@
    }

    pub fn new() -> (r: Self)
        ensures
            r.wf(),
            r.spec_block_number() == 0,
            r.nonces() == Map::<Seq<char>, u32>::empty(),
    {
        Pallet { block_number: 0, nonce: Store::new() }
    }

    pub fn block_number(&self) -> (r: u32)
        ensures
            r == self.spec_block_number(),
    {
        self.block_number
    }

    pub fn inc_block_number(&mut self)
        requires
            old(self).wf(),
        ensures
            final(self).wf(),
            final(self).spec_block_number() == next_count(old(self).spec_block_number()),
            final(self).nonces() == old(self).nonces(),
    {
        self.block_number = increment(self.block_number);
    }

    pub fn inc_nonce(&mut self, who: String)
        requires
            old(self).wf(),
        ensures
            final(self).wf(),
            final(self).spec_block_number() == old(self).spec_block_number(),
            final(self).nonces() == bump_nonce(old(self).nonces(), who@),
    {
        let current: u32 = match self.nonce.get(&who) {
            Some(n) => *n,
            None => 0,
        };
        self.nonce.insert(who, increment(current));
    }

    /// The nonce recorded for `who`, if the account has submitted anything.
    pub fn nonce(&self, who: &String) -> (r: Option<u32>)
        requires
            self.wf(),
        ensures
            r == (if self.nonces().contains_key(who@) {
                Some(self.nonces()[who@])
            } else {
                None
            }),
    {
        match self.nonce.get(who) {
            Some(n) => Some(*n),
            None => None,
        }
    }
}

} // verus!
