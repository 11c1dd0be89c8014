//! Putting an asset on sale.

use vstd::prelude::*;
use crate::errors::NftMarketplaceError;
use crate::market::{carried_out, MarketState, MarketView};
use crate::state::{vault_address, vault_of, AssetId, Holder, Identity, Listing};

verus! {

/// A new listing: who sells, and which asset.
#[derive(Clone, Copy, Debug, PartialEq, Eq, Structural)]
pub struct CreateListing {
    /// The party that sells, and that must hold the asset.
    pub seller: Identity,
    /// The asset to sell.
    pub mint: AssetId,
}

/// The listing that `seller` opens for `mint` at `price`.
pub open spec fn opened(seller: Identity, mint: AssetId, price: u64) -> Listing {
    Listing { seller, mint, token_account: vault_of(mint), price, is_active: true }
}

/// The marketplace after `seller` has listed `mint` at `price`, or why the
/// listing is refused.
///
/// The asset must not be on sale already, the price must be positive, and
/// the asset must be in the seller's wallet. The asset then moves into its
/// vault, and the new listing takes the place of any closed one that the
/// asset had before.
pub open spec fn listed(market: MarketView, seller: Identity, mint: AssetId, price: u64) -> Result<
    MarketView,
    NftMarketplaceError,
> {
    if market.config is None {
        Err(NftMarketplaceError::NotInitialized)
    } else if market.is_listed(mint) {
        Err(NftMarketplaceError::ListingAlreadyActive)
    } else if price == 0 {
        Err(NftMarketplaceError::InvalidPrice)
    } else if !market.owns(seller, mint) {
        Err(NftMarketplaceError::AssetTransferFailed)
    } else {
        Ok(
            MarketView {
                config: market.config,
                listings: market.listings.insert(mint, opened(seller, mint, price)),
                balances: market.balances,
                holders: market.holders.insert(mint, Holder::Vault),
            },
        )
    }
}

/// A new listing keeps what holds of the marketplace at all times.
pub proof fn lemma_listed_keeps_wf(market: MarketView, seller: Identity, mint: AssetId, price: u64)
    requires
        market.wf(),
        listed(market, seller, mint, price) is Ok,
    ensures
        listed(market, seller, mint, price)->Ok_0.wf(),
{
    let after = listed(market, seller, mint, price)->Ok_0;
    assert forall|other: AssetId| after.is_listed(other) <==> after.vault_holds(other) by {
        assert(market.is_listed(other) <==> market.vault_holds(other));
    }
}

/// Lists the asset `ctx.mint` of `ctx.seller` at `price`.
pub fn create_listing(state: &mut MarketState, ctx: &CreateListing, price: u64) -> (result: Result<
    (),
    NftMarketplaceError,
>)
    requires
        old(state).wf(),
    ensures
        final(state).wf(),
        carried_out(
            old(state)@,
            final(state)@,
            result,
            listed(old(state)@, ctx.seller, ctx.mint, price),
        ),
{
    if state.config().is_none() {
        return Err(NftMarketplaceError::NotInitialized);
    }
    // An asset that is on sale is not listed again.
    match state.listing(ctx.mint) {
        Some(listing) => {
            if listing.is_active {
                return Err(NftMarketplaceError::ListingAlreadyActive);
            }
        },
        None => {},
    }
    if price == 0 {
        return Err(NftMarketplaceError::InvalidPrice);
    }
    // The asset moves from the seller's wallet into its vault. Nothing is
    // recorded unless it did.
    match state.move_asset(ctx.mint, Holder::Wallet(ctx.seller), Holder::Vault) {
        Ok(()) => {},
        Err(e) => {
            return Err(e);
        },
    }
    state.put_listing(
        Listing {
            seller: ctx.seller,
            mint: ctx.mint,
            token_account: vault_address(ctx.mint),
            price,
            is_active: true,
        },
    );

    proof {
        let after = listed(old(state)@, ctx.seller, ctx.mint, price)->Ok_0;
        assert(state@.listings =~= after.listings);
        assert(state@.holders =~= after.holders);
        lemma_listed_keeps_wf(old(state)@, ctx.seller, ctx.mint, price);
    }
    Ok(())
}

} // verus!
