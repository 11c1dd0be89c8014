//! A peer-to-peer escrow marketplace for uniquely owned assets.
//!
//! A seller lists an asset at a fixed price, which moves the asset into a
//! vault that only the marketplace controls. A buyer purchases it for the
//! listed price, out of which the marketplace keeps a percentage fee, or the
//! seller cancels the listing and takes the asset back.
//!
//! The four commands below are the surface of the marketplace. Each one
//! takes the identity of its caller as the identity provider has
//! established it, and either takes effect as a whole or changes nothing.

use vstd::prelude::*;

pub mod errors;
pub mod fees;
pub mod state;
pub mod currency;
pub mod custody;
pub mod market;
pub mod instructions;
pub mod laws;

use crate::errors::NftMarketplaceError;
use crate::instructions::buy_nft::{bought, buy_nft, BuyNft};
use crate::instructions::cancel_listing::{cancel_listing, cancelled, CancelListing};
use crate::instructions::create_listing::{create_listing, listed, CreateListing};
use crate::instructions::initialize_marketplace::{
    initialize,
    initialized,
    InitializeMarketplace,
};
use crate::market::{carried_out, MarketState};
use crate::state::{AssetId, Identity};

verus! {

/// Sets up the marketplace. The caller becomes its authority, and
/// `fee_percentage` percent of every sale go to it.
pub fn initialize_marketplace(
    state: &mut MarketState,
    authority: Identity,
    fee_percentage: u16,
) -> (result: Result<(), NftMarketplaceError>)
    requires
        old(state).wf(),
    ensures
        final(state).wf(),
        carried_out(
            old(state)@,
            final(state)@,
            result,
            initialized(old(state)@, authority, fee_percentage),
        ),
{
    initialize(state, &InitializeMarketplace { authority }, fee_percentage)
}

/// Puts the asset `mint` of the caller on sale at `price`.
pub fn create_nft_listing(
    state: &mut MarketState,
    seller: Identity,
    mint: AssetId,
    price: u64,
) -> (result: Result<(), NftMarketplaceError>)
    requires
        old(state).wf(),
    ensures
        final(state).wf(),
        carried_out(old(state)@, final(state)@, result, listed(old(state)@, seller, mint, price)),
{
    create_listing(state, &CreateListing { seller, mint }, price)
}

/// Buys the asset `mint` for the caller.
pub fn buy(state: &mut MarketState, buyer: Identity, mint: AssetId) -> (result: Result<
    (),
    NftMarketplaceError,
>)
    requires
        old(state).wf(),
    ensures
        final(state).wf(),
        carried_out(old(state)@, final(state)@, result, bought(old(state)@, buyer, mint)),
{
    buy_nft(state, &BuyNft { buyer, mint })
}

/// Withdraws the listing of `mint`, which the caller must have created.
pub fn cancel_nft_listing(state: &mut MarketState, caller: Identity, mint: AssetId) -> (result:
    Result<(), NftMarketplaceError>)
    requires
        old(state).wf(),
    ensures
        final(state).wf(),
        carried_out(old(state)@, final(state)@, result, cancelled(old(state)@, caller, mint)),
{
    cancel_listing(state, &CancelListing { seller: caller, mint })
}

} // verus!
