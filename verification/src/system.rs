//! The system pallet: the current block number and a nonce per account.

use vstd::prelude::*;
use crate::primitives::{one_counter, zero_counter};
use crate::storage::StringMap;
use crate::types::{AccountId, BlockNumber, Nonce};

verus! {

/// What the system pallet holds, as mathematical values.
pub struct SystemState {
    /// The number of the last block that was started.
    pub block_number: BlockNumber,
    /// The stored nonces, by account.  An account without an entry has nonce zero.
    pub nonces: Map<Seq<char>, Nonce>,
}

/// The nonce of `who`: the stored one, or zero where none is stored.
pub open spec fn nonce_of(nonces: Map<Seq<char>, Nonce>, who: Seq<char>) -> Nonce {
    if nonces.contains_key(who) {
        nonces[who]
    } else {
        0
    }
}

/// The stored nonces after one more extrinsic of `who` has been counted.
pub open spec fn bump_nonce(nonces: Map<Seq<char>, Nonce>, who: Seq<char>) -> Map<
    Seq<char>,
    Nonce,
>
    recommends
        nonce_of(nonces, who) < Nonce::MAX,
{
    nonces.insert(who, (nonce_of(nonces, who) + 1) as Nonce)
}

/// The system pallet.  It handles the low-level state of the chain.
#[derive(Debug)]
pub struct Pallet {
    /// The current block number.
    block_number: BlockNumber,
    /// A map from an account to its nonce.
    nonce: StringMap<Nonce>,
}

impl View for Pallet {
    type V = SystemState;

    closed spec fn view(&self) -> SystemState {
        SystemState { block_number: self.block_number, nonces: self.nonce@ }
    }
}

impl Pallet {
    /// A pallet at block zero in which no account has a nonce yet.
    pub fn new() -> (p: Self)
        ensures
            p@.block_number == 0,
            p@.nonces == Map::<Seq<char>, Nonce>::empty(),
    {
        Pallet { block_number: zero_counter(), nonce: StringMap::new() }
    }

    /// The current block number.
    pub fn block_number(&self) -> (n: BlockNumber)
        ensures
            n == self@.block_number,
    {
        self.block_number
    }

    /// Advances the block number by one.  The counter must have room left:
    /// it never wraps.
    pub fn inc_block_number(&mut self)
        requires
            old(self)@.block_number < BlockNumber::MAX,
        ensures
            final(self)@.block_number == old(self)@.block_number + 1,
            final(self)@.nonces == old(self)@.nonces,
    {
        self.block_number = self.block_number + one_counter();
    }

    /// Counts one more extrinsic for `who`.  The counter must have room left:
    /// it never wraps.
    pub fn inc_nonce(&mut self, who: &AccountId)
        requires
            nonce_of(old(self)@.nonces, who@) < Nonce::MAX,
        ensures
            final(self)@.nonces == bump_nonce(old(self)@.nonces, who@),
            final(self)@.block_number == old(self)@.block_number,
    {
        let nonce = self.get_nonce(who);
        self.nonce.insert(who.clone(), nonce + one_counter());
    }

    /// The nonce of `who`, zero if the account has never been counted.
    pub fn get_nonce(&self, who: &AccountId) -> (n: Nonce)
        ensures
            n == nonce_of(self@.nonces, who@),
    {
        match self.nonce.get(who) {
            Some(n) => *n,
            None => zero_counter(),
        }
    }
}

} // verus!
