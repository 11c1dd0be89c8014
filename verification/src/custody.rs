//! The asset custody service: who holds each asset.

use std::collections::HashMap;
use vstd::prelude::*;
use crate::errors::NftMarketplaceError;
use crate::state::{AssetId, Holder, Identity};

verus! {

broadcast use vstd::std_specs::hash::group_hash_axioms;

/// Whether `holder` holds the asset `mint`.
pub open spec fn held_by(holders: Map<AssetId, Holder>, mint: AssetId, holder: Holder) -> bool {
    holders.contains_key(mint) && holders[mint] == holder
}

/// Who holds what after the asset `mint` has moved from `from` to `to`, or
/// why it cannot move: `from` does not hold it.
pub open spec fn asset_moved(
    holders: Map<AssetId, Holder>,
    mint: AssetId,
    from: Holder,
    to: Holder,
) -> Result<Map<AssetId, Holder>, NftMarketplaceError> {
    if held_by(holders, mint, from) {
        Ok(holders.insert(mint, to))
    } else {
        Err(NftMarketplaceError::AssetTransferFailed)
    }
}

/// The holder of every asset that exists. Each asset is a single unit, so it
/// has one holder at a time.
pub struct AssetCustody {
    holders: HashMap<AssetId, Holder>,
}

impl View for AssetCustody {
    type V = Map<AssetId, Holder>;

    /// The holder of each asset that exists.
    closed spec fn view(&self) -> Map<AssetId, Holder> {
        self.holders@
    }
}

impl AssetCustody {
    /// A custody service without any asset.
    pub fn new() -> (custody: Self)
        ensures
            custody@ == Map::<AssetId, Holder>::empty(),
    {
        AssetCustody { holders: HashMap::new() }
    }

    /// Who holds `mint`, if the asset exists.
    pub fn holder_of(&self, mint: AssetId) -> (holder: Option<Holder>)
        ensures
            holder == if self@.contains_key(mint) {
                Some(self@[mint])
            } else {
                None
            },
    {
        match self.holders.get(&mint) {
            Some(holder) => Some(*holder),
            None => None,
        }
    }

    /// Brings the asset `mint` into being, in the wallet of `owner`. An asset
    /// that exists already is not issued again.
    pub fn issue(&mut self, mint: AssetId, owner: Identity) -> (result: Result<
        (),
        NftMarketplaceError,
    >)
        ensures
            match result {
                Ok(()) => {
                    &&& !old(self)@.contains_key(mint)
                    &&& final(self)@ == old(self)@.insert(mint, Holder::Wallet(owner))
                },
                Err(e) => {
                    &&& e == NftMarketplaceError::AssetTransferFailed
                    &&& old(self)@.contains_key(mint)
                    &&& final(self)@ == old(self)@
                },
            },
    {
        if self.holders.contains_key(&mint) {
            return Err(NftMarketplaceError::AssetTransferFailed);
        }
        self.holders.insert(mint, Holder::Wallet(owner));
        Ok(())
    }

    /// Moves the asset `mint` from `from` to `to`, if `from` holds it.
    pub fn transfer_asset(&mut self, mint: AssetId, from: Holder, to: Holder) -> (result: Result<
        (),
        NftMarketplaceError,
    >)
        ensures
            match result {
                Ok(()) => asset_moved(old(self)@, mint, from, to) matches Ok(holders)
                    && final(self)@ == holders,
                Err(e) => asset_moved(old(self)@, mint, from, to) == Err::<
                    Map<AssetId, Holder>,
                    NftMarketplaceError,
                >(e) && final(self)@ == old(self)@,
            },
    {
        match self.holders.get(&mint) {
            Some(holder) => {
                if *holder == from {
                    self.holders.insert(mint, to);
                    Ok(())
                } else {
                    Err(NftMarketplaceError::AssetTransferFailed)
                }
            },
            None => Err(NftMarketplaceError::AssetTransferFailed),
        }
    }
}

} // verus!
