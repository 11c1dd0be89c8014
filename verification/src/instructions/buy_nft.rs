//! Buying a listed asset.

use vstd::prelude::*;
use crate::currency::transferred;
use crate::errors::NftMarketplaceError;
use crate::fees::{compute_fee, compute_seller_amount, fee_of, seller_amount_of};
use crate::market::{carried_out, MarketState, MarketView};
use crate::state::{AssetId, Holder, Identity, Listing};

verus! {

/// A purchase: who buys, and which asset.
#[derive(Clone, Copy, Debug, PartialEq, Eq, Structural)]
pub struct BuyNft {
    /// The party that pays and receives the asset.
    pub buyer: Identity,
    /// The asset to buy.
    pub mint: AssetId,
}

/// The marketplace after `buyer` has bought `mint`, or why the purchase is
/// refused.
///
/// The asset must be on sale and the buyer must hold the price. The buyer
/// then pays the price less the fee to the seller and the fee to the
/// marketplace's authority, the asset leaves its vault for the buyer's
/// wallet, and the listing is closed.
pub open spec fn bought(market: MarketView, buyer: Identity, mint: AssetId) -> Result<
    MarketView,
    NftMarketplaceError,
> {
    if market.config is None {
        Err(NftMarketplaceError::NotInitialized)
    } else if !market.is_listed(mint) {
        Err(NftMarketplaceError::ListingInactive)
    } else if market.balances[buyer] < market.listings[mint].price {
        Err(NftMarketplaceError::InsufficientFunds)
    } else {
        let config = market.config->0;
        let listing = market.listings[mint];
        let fee = fee_of(listing.price as nat, config.fee_percentage as nat) as u64;
        let seller_amount = seller_amount_of(
            listing.price as nat,
            config.fee_percentage as nat,
        ) as u64;
        match transferred(market.balances, buyer, listing.seller, seller_amount) {
            Err(e) => Err(e),
            Ok(seller_paid) => match transferred(seller_paid, buyer, config.authority, fee) {
                Err(e) => Err(e),
                Ok(balances) => Ok(
                    MarketView {
                        config: market.config,
                        listings: market.listings.insert(mint, listing.closed_down()),
                        balances,
                        holders: market.holders.insert(mint, Holder::Wallet(buyer)),
                    },
                ),
            },
        }
    }
}

/// A purchase keeps what holds of the marketplace at all times.
pub proof fn lemma_bought_keeps_wf(market: MarketView, buyer: Identity, mint: AssetId)
    requires
        market.wf(),
        bought(market, buyer, mint) is Ok,
    ensures
        bought(market, buyer, mint)->Ok_0.wf(),
{
    let after = bought(market, buyer, mint)->Ok_0;
    assert forall|other: AssetId| after.is_listed(other) <==> after.vault_holds(other) by {
        assert(market.is_listed(other) <==> market.vault_holds(other));
    }
}

/// Buys the asset `ctx.mint` for `ctx.buyer`.
pub fn buy_nft(state: &mut MarketState, ctx: &BuyNft) -> (result: Result<(), NftMarketplaceError>)
    requires
        old(state).wf(),
    ensures
        final(state).wf(),
        carried_out(old(state)@, final(state)@, result, bought(old(state)@, ctx.buyer, ctx.mint)),
{
    let marketplace = match state.config() {
        Some(marketplace) => marketplace,
        None => {
            return Err(NftMarketplaceError::NotInitialized);
        },
    };
    let listing = match state.listing(ctx.mint) {
        Some(listing) => listing,
        None => {
            return Err(NftMarketplaceError::ListingInactive);
        },
    };
    if !listing.is_active {
        return Err(NftMarketplaceError::ListingInactive);
    }
    if state.balance_of(ctx.buyer) < listing.price {
        return Err(NftMarketplaceError::InsufficientFunds);
    }
    assert(old(state)@.is_listed(ctx.mint));
    assert(old(state)@.vault_holds(ctx.mint));

    let fee_amount: u64 = compute_fee(listing.price, marketplace.fee_percentage);
    let seller_amount: u64 = compute_seller_amount(listing.price, marketplace.fee_percentage);

    // The seller is paid first.
    match state.transfer_currency(ctx.buyer, listing.seller, seller_amount) {
        Ok(()) => {},
        Err(e) => {
            return Err(e);
        },
    }
    // Then the marketplace. If the fee cannot be paid, the seller's payment
    // is taken back, which puts both balances where they were.
    match state.transfer_currency(ctx.buyer, marketplace.authority, fee_amount) {
        Ok(()) => {},
        Err(e) => {
            state.transfer_currency(listing.seller, ctx.buyer, seller_amount).unwrap();
            assert(state@.balances =~= old(state)@.balances);
            return Err(e);
        },
    }
    // The vault hands the asset to the buyer, and the listing is closed. The
    // vault of an asset that is on sale holds it, so this cannot fail.
    state.move_asset(ctx.mint, Holder::Vault, Holder::Wallet(ctx.buyer)).unwrap();
    state.put_listing(Listing { is_active: false, ..listing });

    proof {
        let after = bought(old(state)@, ctx.buyer, ctx.mint)->Ok_0;
        assert(state@.listings =~= after.listings);
        assert(state@.holders =~= after.holders);
        assert(state@.balances =~= after.balances);
        lemma_bought_keeps_wf(old(state)@, ctx.buyer, ctx.mint);
    }
    Ok(())
}

} // verus!
