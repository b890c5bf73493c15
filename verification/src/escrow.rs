//! The escrow holding account: the value pool paired 1:1 with a match.
//!
//! Its balance can only be moved by the transition engine inside this crate;
//! no caller outside the crate gets a handle that credits or debits it. This
//! mirrors the trust property that escrowed value answers only to the
//! protocol's own transition logic, never to an external key.

use vstd::prelude::*;

verus! {

/// The value pool held for one match. The view of an `Escrow` is its
/// balance in lamports.
#[derive(Debug)]
pub struct Escrow {
    lamports: u64,
}

impl View for Escrow {
    type V = u64;

    closed spec fn view(&self) -> u64 {
        self.lamports
    }
}

impl Escrow {
    /// Opens the holding account for a new match, with nothing deposited.
    pub(crate) fn open_empty() -> (e: Escrow)
        ensures
            e@ == 0,
    {
        Escrow { lamports: 0 }
    }

    /// Deposits `amount` into the pool.
    pub(crate) fn credit(&mut self, amount: u64)
        requires
            old(self)@ + amount <= u64::MAX,
        ensures
            final(self)@ == old(self)@ + amount,
    {
        self.lamports = self.lamports + amount;
    }

    /// Pays `amount` out of the pool.
    pub(crate) fn debit(&mut self, amount: u64)
        requires
            amount <= old(self)@,
        ensures
            final(self)@ == old(self)@ - amount,
    {
        self.lamports = self.lamports - amount;
    }

    /// The current balance of the pool.
    pub fn balance(&self) -> (r: u64)
        ensures
            r == self@,
    {
        self.lamports
    }
}

} // verus!
