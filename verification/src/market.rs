//! The state of the marketplace: its configuration, the listing of every
//! asset, the currency ledger and the asset custody service.

use std::collections::HashMap;
use vstd::prelude::*;
use crate::currency::{no_balances, transferred, CurrencyLedger};
use crate::custody::{asset_moved, held_by, AssetCustody};
use crate::errors::NftMarketplaceError;
use crate::state::{AssetId, Holder, Identity, Listing, NftMarketplace};

verus! {

broadcast use vstd::std_specs::hash::group_hash_axioms;

/// The marketplace as a mathematical value.
pub struct MarketView {
    /// The configuration, once the marketplace has been set up.
    pub config: Option<NftMarketplace>,
    /// The listing record of each asset that was ever listed.
    pub listings: Map<AssetId, Listing>,
    /// The currency balance of every party.
    pub balances: Map<Identity, u64>,
    /// The holder of each asset that exists.
    pub holders: Map<AssetId, Holder>,
}

impl MarketView {
    /// A marketplace that has not been set up, without assets or currency.
    pub open spec fn empty() -> MarketView {
        MarketView {
            config: None,
            listings: Map::empty(),
            balances: no_balances(),
            holders: Map::empty(),
        }
    }

    /// Whether `mint` is on sale.
    pub open spec fn is_listed(self, mint: AssetId) -> bool {
        self.listings.contains_key(mint) && self.listings[mint].is_active
    }

    /// Whether the vault of `mint` holds the asset.
    pub open spec fn vault_holds(self, mint: AssetId) -> bool {
        held_by(self.holders, mint, Holder::Vault)
    }

    /// Whether `mint` is in the wallet of `owner`.
    pub open spec fn owns(self, owner: Identity, mint: AssetId) -> bool {
        held_by(self.holders, mint, Holder::Wallet(owner))
    }

    /// What holds of the marketplace at all times: every party has a
    /// balance, the fee rate is a percentage, each listing is the record of
    /// the asset it is filed under, and the vault of an asset holds it
    /// exactly while the asset is on sale.
    pub open spec fn wf(self) -> bool {
        &&& forall|id: Identity| self.balances.contains_key(id)
        &&& self.config matches Some(config) ==> config.wf()
        &&& forall|mint: AssetId| #[trigger]
            self.listings.contains_key(mint) ==> self.listings[mint].wf_for(mint)
        &&& forall|mint: AssetId|
            #![trigger self.is_listed(mint)]
            #![trigger self.vault_holds(mint)]
            self.is_listed(mint) <==> self.vault_holds(mint)
    }
}

/// Whether an operation that went from `before` to `after` and returned
/// `result` did what `expected` says: on success the marketplace is the
/// expected one, and on failure the error is the expected one and nothing
/// has changed.
pub open spec fn carried_out(
    before: MarketView,
    after: MarketView,
    result: Result<(), NftMarketplaceError>,
    expected: Result<MarketView, NftMarketplaceError>,
) -> bool {
    match result {
        Ok(()) => expected == Ok::<MarketView, NftMarketplaceError>(after),
        Err(e) => expected == Err::<MarketView, NftMarketplaceError>(e) && after == before,
    }
}

/// The marketplace after `amount` has been credited to `id`, or why it
/// cannot be.
pub open spec fn deposited(market: MarketView, id: Identity, amount: u64) -> Result<
    MarketView,
    NftMarketplaceError,
> {
    if market.balances[id] + amount > u64::MAX {
        Err(NftMarketplaceError::CurrencyTransferFailed)
    } else {
        Ok(
            MarketView {
                balances: market.balances.insert(id, (market.balances[id] + amount) as u64),
                ..market
            },
        )
    }
}

/// The marketplace after the new asset `mint` has been put into the wallet
/// of `owner`, or why it cannot be.
pub open spec fn issued(market: MarketView, mint: AssetId, owner: Identity) -> Result<
    MarketView,
    NftMarketplaceError,
> {
    if market.holders.contains_key(mint) {
        Err(NftMarketplaceError::AssetTransferFailed)
    } else {
        Ok(MarketView { holders: market.holders.insert(mint, Holder::Wallet(owner)), ..market })
    }
}

/// A deposit keeps what holds of the marketplace at all times.
pub proof fn lemma_deposited_keeps_wf(market: MarketView, id: Identity, amount: u64)
    requires
        market.wf(),
        deposited(market, id, amount) is Ok,
    ensures
        deposited(market, id, amount)->Ok_0.wf(),
{
    let after = deposited(market, id, amount)->Ok_0;
    assert forall|other: AssetId| after.is_listed(other) <==> after.vault_holds(other) by {
        assert(market.is_listed(other) <==> market.vault_holds(other));
    }
}

/// A new asset keeps what holds of the marketplace at all times.
pub proof fn lemma_issued_keeps_wf(market: MarketView, mint: AssetId, owner: Identity)
    requires
        market.wf(),
        issued(market, mint, owner) is Ok,
    ensures
        issued(market, mint, owner)->Ok_0.wf(),
{
    let after = issued(market, mint, owner)->Ok_0;
    assert forall|other: AssetId| after.is_listed(other) <==> after.vault_holds(other) by {
        assert(market.is_listed(other) <==> market.vault_holds(other));
    }
}

/// The marketplace in memory.
pub struct MarketState {
    config: Option<NftMarketplace>,
    listings: HashMap<AssetId, Listing>,
    currency: CurrencyLedger,
    custody: AssetCustody,
}

impl View for MarketState {
    type V = MarketView;

    closed spec fn view(&self) -> MarketView {
        MarketView {
            config: self.config,
            listings: self.listings@,
            balances: self.currency@,
            holders: self.custody@,
        }
    }
}

impl MarketState {
    /// What holds of the marketplace between any two operations.
    pub open spec fn wf(&self) -> bool {
        self@.wf()
    }

    /// A marketplace that has not been set up, without assets or currency.
    pub fn new() -> (state: Self)
        ensures
            state@ == MarketView::empty(),
            state.wf(),
    {
        MarketState {
            config: None,
            listings: HashMap::new(),
            currency: CurrencyLedger::new(),
            custody: AssetCustody::new(),
        }
    }

    /// The configuration, once the marketplace has been set up.
    pub fn config(&self) -> (config: Option<NftMarketplace>)
        ensures
            config == self@.config,
    {
        self.config
    }

    /// The listing record of `mint`, if the asset was ever listed.
    pub fn listing(&self, mint: AssetId) -> (listing: Option<Listing>)
        ensures
            listing == if self@.listings.contains_key(mint) {
                Some(self@.listings[mint])
            } else {
                None
            },
    {
        match self.listings.get(&mint) {
            Some(listing) => Some(*listing),
            None => None,
        }
    }

    /// How much currency `id` holds.
    pub fn balance_of(&self, id: Identity) -> (balance: u64)
        ensures
            balance == self@.balances[id],
    {
        self.currency.balance_of(id)
    }

    /// Who holds `mint`, if the asset exists.
    pub fn holder_of(&self, mint: AssetId) -> (holder: Option<Holder>)
        ensures
            holder == if self@.holders.contains_key(mint) {
                Some(self@.holders[mint])
            } else {
                None
            },
    {
        self.custody.holder_of(mint)
    }

    /// Credits `amount` to `id`, unless the balance would no longer fit.
    pub fn deposit(&mut self, id: Identity, amount: u64) -> (result: Result<
        (),
        NftMarketplaceError,
    >)
        requires
            old(self).wf(),
        ensures
            final(self).wf(),
            carried_out(old(self)@, final(self)@, result, deposited(old(self)@, id, amount)),
    {
        let result = self.currency.deposit(id, amount);
        proof {
            if result is Ok {
                lemma_deposited_keeps_wf(old(self)@, id, amount);
            }
        }
        result
    }

    /// Brings the asset `mint` into being, in the wallet of `owner`. An asset
    /// that exists already is not issued again.
    pub fn issue_asset(&mut self, mint: AssetId, owner: Identity) -> (result: Result<
        (),
        NftMarketplaceError,
    >)
        requires
            old(self).wf(),
        ensures
            final(self).wf(),
            carried_out(old(self)@, final(self)@, result, issued(old(self)@, mint, owner)),
    {
        let result = self.custody.issue(mint, owner);
        proof {
            if result is Ok {
                lemma_issued_keeps_wf(old(self)@, mint, owner);
            }
        }
        result
    }

    /// Writes the configuration.
    pub(crate) fn set_config(&mut self, config: NftMarketplace)
        ensures
            final(self)@ == (MarketView { config: Some(config), ..old(self)@ }),
    {
        self.config = Some(config);
    }

    /// Files `listing` under its asset, in place of the record that was
    /// there.
    pub(crate) fn put_listing(&mut self, listing: Listing)
        ensures
            final(self)@ == (MarketView {
                listings: old(self)@.listings.insert(listing.mint, listing),
                ..old(self)@
            }),
    {
        self.listings.insert(listing.mint, listing);
    }

    /// Moves currency between two parties, or changes nothing.
    pub(crate) fn transfer_currency(
        &mut self,
        from: Identity,
        to: Identity,
        amount: u64,
    ) -> (result: Result<(), NftMarketplaceError>)
        ensures
            match result {
                Ok(()) => transferred(old(self)@.balances, from, to, amount) matches Ok(balances)
                    && final(self)@ == (MarketView { balances, ..old(self)@ }),
                Err(e) => transferred(old(self)@.balances, from, to, amount) == Err::<
                    Map<Identity, u64>,
                    NftMarketplaceError,
                >(e) && final(self)@ == old(self)@,
            },
    {
        self.currency.transfer(from, to, amount)
    }

    /// Moves an asset between two holders, or changes nothing.
    pub(crate) fn move_asset(&mut self, mint: AssetId, from: Holder, to: Holder) -> (result:
        Result<(), NftMarketplaceError>)
        ensures
            match result {
                Ok(()) => asset_moved(old(self)@.holders, mint, from, to) matches Ok(holders)
                    && final(self)@ == (MarketView { holders, ..old(self)@ }),
                Err(e) => asset_moved(old(self)@.holders, mint, from, to) == Err::<
                    Map<AssetId, Holder>,
                    NftMarketplaceError,
                >(e) && final(self)@ == old(self)@,
            },
    {
        self.custody.transfer_asset(mint, from, to)
    }
}

} // verus!
