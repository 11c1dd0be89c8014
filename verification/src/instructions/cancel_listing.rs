//! Withdrawing a listing.

use vstd::prelude::*;
use crate::errors::NftMarketplaceError;
use crate::market::{carried_out, MarketState, MarketView};
use crate::state::{AssetId, Holder, Identity, Listing};

verus! {

/// A cancellation: who asks for it, and for which asset.
#[derive(Clone, Copy, Debug, PartialEq, Eq, Structural)]
pub struct CancelListing {
    /// The caller, who has to be the seller of the listing.
    pub seller: Identity,
    /// The asset whose listing is withdrawn.
    pub mint: AssetId,
}

/// The marketplace after `caller` has cancelled the listing of `mint`, or
/// why the cancellation is refused.
///
/// The asset must be on sale and the caller must be its seller. The asset
/// then leaves its vault for the seller's wallet and the listing is closed.
/// No currency moves.
pub open spec fn cancelled(market: MarketView, caller: Identity, mint: AssetId) -> Result<
    MarketView,
    NftMarketplaceError,
> {
    if market.config is None {
        Err(NftMarketplaceError::NotInitialized)
    } else if !market.is_listed(mint) {
        Err(NftMarketplaceError::ListingNotActive)
    } else if market.listings[mint].seller != caller {
        Err(NftMarketplaceError::Unauthorized)
    } else {
        Ok(
            MarketView {
                config: market.config,
                listings: market.listings.insert(mint, market.listings[mint].closed_down()),
                balances: market.balances,
                holders: market.holders.insert(mint, Holder::Wallet(caller)),
            },
        )
    }
}

/// A cancellation keeps what holds of the marketplace at all times.
pub proof fn lemma_cancelled_keeps_wf(market: MarketView, caller: Identity, mint: AssetId)
    requires
        market.wf(),
        cancelled(market, caller, mint) is Ok,
    ensures
        cancelled(market, caller, mint)->Ok_0.wf(),
{
    let after = cancelled(market, caller, mint)->Ok_0;
    assert forall|other: AssetId| after.is_listed(other) <==> after.vault_holds(other) by {
        assert(market.is_listed(other) <==> market.vault_holds(other));
    }
}

/// Cancels the listing of `ctx.mint` on behalf of `ctx.seller`.
pub fn cancel_listing(state: &mut MarketState, ctx: &CancelListing) -> (result: Result<
    (),
    NftMarketplaceError,
>)
    requires
        old(state).wf(),
    ensures
        final(state).wf(),
        carried_out(
            old(state)@,
            final(state)@,
            result,
            cancelled(old(state)@, ctx.seller, ctx.mint),
        ),
{
    if state.config().is_none() {
        return Err(NftMarketplaceError::NotInitialized);
    }
    let listing = match state.listing(ctx.mint) {
        Some(listing) => listing,
        None => {
            return Err(NftMarketplaceError::ListingNotActive);
        },
    };
    if !listing.is_active {
        return Err(NftMarketplaceError::ListingNotActive);
    }
    if listing.seller != ctx.seller {
        return Err(NftMarketplaceError::Unauthorized);
    }
    assert(old(state)@.is_listed(ctx.mint));
    assert(old(state)@.vault_holds(ctx.mint));

    // The vault hands the asset back to the seller, and the listing is
    // closed. The vault of an asset that is on sale holds it, so this cannot
    // fail.
    state.move_asset(ctx.mint, Holder::Vault, Holder::Wallet(listing.seller)).unwrap();
    state.put_listing(Listing { is_active: false, ..listing });

    proof {
        let after = cancelled(old(state)@, ctx.seller, ctx.mint)->Ok_0;
        assert(state@.listings =~= after.listings);
        assert(state@.holders =~= after.holders);
        lemma_cancelled_keeps_wf(old(state)@, ctx.seller, ctx.mint);
    }
    Ok(())
}

} // verus!
