use vstd::prelude::*;

use crate::storage::{lookup, table_get, table_set, unique_keys};

verus! {

/// Increment by one, staying put at the top of the type's range.  Both the
/// block number and the nonces advance this way, so neither can wrap.
pub open spec fn saturating_inc(n: u32) -> u32 {
    if n < u32::MAX {
        (n + 1) as u32
    } else {
        n
    }
}

/// The chain's bookkeeping: the current block number and, per account, the
/// number of extrinsics that account has submitted (its nonce).  An absent
/// account reads as nonce zero.
#[derive(Debug)]
pub struct Pallet {
    pub block_number: u32,
    pub nonce: Vec<(String, u32)>,
}

impl Pallet {
    /// Every account occurs at most once in the nonce table.
    pub open spec fn well_formed(&self) -> bool {
        unique_keys(self.nonce@)
    }

    /// The current block number.
    pub open spec fn spec_block_number(&self) -> u32 {
        self.block_number
    }

    /// The nonce of account `q`: its stored value, or zero when absent.
    pub open spec fn nonce_of(&self, q: Seq<char>) -> u32 {
        match lookup(self.nonce@, q) {
            Option::Some(v) => v,
            Option::None => 0,
        }
    }

    /// A fresh chain: block number zero, every nonce zero.
    pub fn new() -> (r: Self)
        ensures
            r.well_formed(),
            r.spec_block_number() == 0,
            forall|q: Seq<char>| r.nonce_of(q) == 0,
    {
        Pallet { block_number: 0, nonce: Vec::new() }
    }

    /// The current block number.
    pub fn block_number(&self) -> (r: u32)
        ensures
            r == self.spec_block_number(),
    {
        self.block_number
    }

    /// Advance the block number by one.  At the top of the range it
    /// saturates rather than wrapping, so the block number never decreases.
    pub fn inc_block_number(&mut self)
        ensures
            final(self).spec_block_number() == saturating_inc(old(self).spec_block_number()),
            final(self).nonce == old(self).nonce,
    {
        if self.block_number < u32::MAX {
            self.block_number = self.block_number + 1;
        }
    }

    /// Advance `who`'s nonce by one, starting from zero for an account never
    /// seen before.  At the top of the range it saturates rather than
    /// wrapping, so a nonce never decreases.
    pub fn inc_nonce(&mut self, who: &String)
        requires
            old(self).well_formed(),
        ensures
            final(self).well_formed(),
            final(self).spec_block_number() == old(self).spec_block_number(),
            forall|q: Seq<char>|
                final(self).nonce_of(q) == (if q == who@ {
                    saturating_inc(old(self).nonce_of(who@))
                } else {
                    old(self).nonce_of(q)
                }),
    {
        let n = self.nonce(who);
        let next = if n < u32::MAX {
            n + 1
        } else {
            n
        };
        table_set(&mut self.nonce, who, next);
    }

    /// Law: an account with no entry in the nonce table reads as nonce
    /// zero.
    pub proof fn lemma_unknown_account_nonce(self, q: Seq<char>)
        requires
            forall|j: int| 0 <= j < self.nonce@.len() ==> self.nonce@[j].0@ != q,
        ensures
            self.nonce_of(q) == 0,
    {
        crate::storage::lemma_lookup_skip(self.nonce@, q, self.nonce@.len() as int);
        assert(self.nonce@.skip(self.nonce@.len() as int).len() == 0);
    }

    /// The nonce of `who`, zero when `who` was never seen.
    pub fn nonce(&self, who: &String) -> (r: u32)
        ensures
            r == self.nonce_of(who@),
    {
        match table_get(&self.nonce, who) {
            Option::Some(v) => v,
            Option::None => 0,
        }
    }
}

} // verus!
