//! The currency ledger: how many currency units each party holds.

use std::collections::HashMap;
use vstd::prelude::*;
use crate::errors::NftMarketplaceError;
use crate::state::Identity;

verus! {

broadcast use vstd::std_specs::hash::group_hash_axioms;

/// The balances after `amount` has moved from `from` to `to`, or why it
/// cannot move: the payer holds too little, or the receiver's balance would
/// no longer fit. A transfer to oneself leaves the balances as they are.
pub open spec fn transferred(
    balances: Map<Identity, u64>,
    from: Identity,
    to: Identity,
    amount: u64,
) -> Result<Map<Identity, u64>, NftMarketplaceError> {
    if balances[from] < amount {
        Err(NftMarketplaceError::InsufficientFunds)
    } else if from == to {
        Ok(balances)
    } else if balances[to] + amount > u64::MAX {
        Err(NftMarketplaceError::CurrencyTransferFailed)
    } else {
        Ok(
            balances.insert(from, (balances[from] - amount) as u64).insert(
                to,
                (balances[to] + amount) as u64,
            ),
        )
    }
}

/// A ledger in which every party starts out with nothing.
pub open spec fn no_balances() -> Map<Identity, u64> {
    Map::total(|id: Identity| 0u64)
}

/// The balance of every party.
pub struct CurrencyLedger {
    balances: HashMap<Identity, u64>,
}

impl View for CurrencyLedger {
    type V = Map<Identity, u64>;

    /// The balance of every party there is; a party that never received
    /// anything holds zero.
    closed spec fn view(&self) -> Map<Identity, u64> {
        Map::total(
            |id: Identity|
                if self.balances@.contains_key(id) {
                    self.balances@[id]
                } else {
                    0u64
                },
        )
    }
}

impl CurrencyLedger {
    /// A ledger in which nobody holds anything.
    pub fn new() -> (ledger: Self)
        ensures
            ledger@ == no_balances(),
    {
        let ledger = CurrencyLedger { balances: HashMap::new() };
        assert(ledger@ =~= no_balances());
        ledger
    }

    /// Every party has a balance.
    pub proof fn lemma_everyone_has_a_balance(&self)
        ensures
            forall|id: Identity| self@.contains_key(id),
    {
    }

    /// What `id` holds.
    pub fn balance_of(&self, id: Identity) -> (balance: u64)
        ensures
            balance == self@[id],
    {
        match self.balances.get(&id) {
            Some(balance) => *balance,
            None => 0,
        }
    }

    /// Credits `amount` to `id`, unless the balance would no longer fit.
    pub fn deposit(&mut self, id: Identity, amount: u64) -> (result: Result<
        (),
        NftMarketplaceError,
    >)
        ensures
            match result {
                Ok(()) => {
                    &&& old(self)@[id] + amount <= u64::MAX
                    &&& final(self)@ == old(self)@.insert(id, (old(self)@[id] + amount) as u64)
                },
                Err(e) => {
                    &&& e == NftMarketplaceError::CurrencyTransferFailed
                    &&& old(self)@[id] + amount > u64::MAX
                    &&& final(self)@ == old(self)@
                },
            },
    {
        let balance: u64 = self.balance_of(id);
        if balance > u64::MAX - amount {
            return Err(NftMarketplaceError::CurrencyTransferFailed);
        }
        self.balances.insert(id, balance + amount);
        assert(self@ =~= old(self)@.insert(id, (old(self)@[id] + amount) as u64));
        Ok(())
    }

    /// Moves `amount` from `from` to `to`. Either both balances change or
    /// neither does.
    pub fn transfer(&mut self, from: Identity, to: Identity, amount: u64) -> (result: Result<
        (),
        NftMarketplaceError,
    >)
        ensures
            match result {
                Ok(()) => transferred(old(self)@, from, to, amount) matches Ok(balances)
                    && final(self)@ == balances,
                Err(e) => transferred(old(self)@, from, to, amount) == Err::<
                    Map<Identity, u64>,
                    NftMarketplaceError,
                >(e) && final(self)@ == old(self)@,
            },
    {
        let from_balance: u64 = self.balance_of(from);
        if from_balance < amount {
            return Err(NftMarketplaceError::InsufficientFunds);
        }
        if from == to {
            return Ok(());
        }
        let to_balance: u64 = self.balance_of(to);
        if to_balance > u64::MAX - amount {
            return Err(NftMarketplaceError::CurrencyTransferFailed);
        }
        self.balances.insert(from, from_balance - amount);
        self.balances.insert(to, to_balance + amount);
        assert(self@ =~= old(self)@.insert(from, (old(self)@[from] - amount) as u64).insert(
            to,
            (old(self)@[to] + amount) as u64,
        ));
        Ok(())
    }
}

} // verus!
