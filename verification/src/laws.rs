//! What follows from the definitions of the four operations.

use vstd::prelude::*;
use crate::errors::NftMarketplaceError;
use crate::fees::{fee_of, lemma_fee_split_exact, seller_amount_of};
use crate::instructions::buy_nft::bought;
use crate::instructions::cancel_listing::cancelled;
use crate::instructions::create_listing::{listed, opened};
use crate::instructions::initialize_marketplace::initialized;
use crate::market::{carried_out, MarketView};
use crate::state::{AssetId, Identity};

verus! {

/// Whether the seller and the marketplace's authority can take in what a
/// sale of `mint` to `buyer` pays them. A party that pays itself needs no
/// room.
pub open spec fn receivers_have_room(market: MarketView, buyer: Identity, mint: AssetId) -> bool {
    let seller = market.listings[mint].seller;
    let authority = (market.config->0).authority;
    let price = market.listings[mint].price as nat;
    let rate = (market.config->0).fee_percentage as nat;
    &&& seller != buyer ==> market.balances[seller] + seller_amount_of(price, rate) <= u64::MAX
    &&& authority != buyer && authority != seller ==> market.balances[authority] + fee_of(
        price,
        rate,
    ) <= u64::MAX
    &&& authority != buyer && authority == seller ==> market.balances[authority] + price
        <= u64::MAX
}

/// The configuration is written once: no operation changes it after the
/// marketplace has been set up, and setting it up again is refused.
pub proof fn lemma_config_is_written_once(
    market: MarketView,
    party: Identity,
    mint: AssetId,
    price: u64,
    fee_percentage: u16,
)
    requires
        market.config is Some,
    ensures
        initialized(market, party, fee_percentage) == Err::<MarketView, NftMarketplaceError>(
            NftMarketplaceError::AlreadyInitialized,
        ),
        listed(market, party, mint, price) matches Ok(after) ==> after.config == market.config,
        bought(market, party, mint) matches Ok(after) ==> after.config == market.config,
        cancelled(market, party, mint) matches Ok(after) ==> after.config == market.config,
{
}

/// A purchase never leaves the listing active once currency has moved: if
/// the asset is still on sale when the purchase returns, the purchase has
/// changed nothing at all.
pub proof fn lemma_payment_closes_listing(
    before: MarketView,
    after: MarketView,
    result: Result<(), NftMarketplaceError>,
    buyer: Identity,
    mint: AssetId,
)
    requires
        carried_out(before, after, result, bought(before, buyer, mint)),
    ensures
        result is Ok ==> !after.is_listed(mint),
        after.is_listed(mint) ==> after == before,
        after.balances != before.balances ==> !after.is_listed(mint),
{
}

/// A purchase succeeds exactly when the marketplace is set up, the asset is
/// on sale, the buyer holds the price and the receivers have room for what
/// they are paid. Otherwise it names the first of these that fails.
pub proof fn lemma_purchase_outcome(market: MarketView, buyer: Identity, mint: AssetId)
    requires
        market.wf(),
    ensures
        bought(market, buyer, mint) is Ok <==> {
            &&& market.config is Some
            &&& market.is_listed(mint)
            &&& market.balances[buyer] >= market.listings[mint].price
            &&& receivers_have_room(market, buyer, mint)
        },
        bought(market, buyer, mint) == Err::<MarketView, NftMarketplaceError>(
            NftMarketplaceError::NotInitialized,
        ) <==> market.config is None,
        bought(market, buyer, mint) == Err::<MarketView, NftMarketplaceError>(
            NftMarketplaceError::ListingInactive,
        ) <==> market.config is Some && !market.is_listed(mint),
        bought(market, buyer, mint) == Err::<MarketView, NftMarketplaceError>(
            NftMarketplaceError::InsufficientFunds,
        ) <==> {
            &&& market.config is Some
            &&& market.is_listed(mint)
            &&& market.balances[buyer] < market.listings[mint].price
        },
        bought(market, buyer, mint) == Err::<MarketView, NftMarketplaceError>(
            NftMarketplaceError::CurrencyTransferFailed,
        ) <==> {
            &&& market.config is Some
            &&& market.is_listed(mint)
            &&& market.balances[buyer] >= market.listings[mint].price
            &&& !receivers_have_room(market, buyer, mint)
        },
{
    if market.config is Some && market.is_listed(mint) {
        lemma_fee_split_exact(
            market.listings[mint].price as nat,
            (market.config->0).fee_percentage as nat,
        );
    }
}

/// The price is enough, one unit less is not: a buyer who holds the price
/// less one is refused for insufficient funds, and a buyer who holds the
/// price exactly succeeds wherever the receivers have room.
pub proof fn lemma_price_is_the_threshold(market: MarketView, buyer: Identity, mint: AssetId)
    requires
        market.wf(),
        market.config is Some,
        market.is_listed(mint),
    ensures
        market.balances[buyer] == market.listings[mint].price - 1 ==> bought(market, buyer, mint)
            == Err::<MarketView, NftMarketplaceError>(NftMarketplaceError::InsufficientFunds),
        market.balances[buyer] == market.listings[mint].price && receivers_have_room(
            market,
            buyer,
            mint,
        ) ==> bought(market, buyer, mint) is Ok,
{
    lemma_purchase_outcome(market, buyer, mint);
}

/// A sale between three different parties moves the price once: the buyer
/// pays the price, the seller receives it less the fee, the authority
/// receives the fee, and the buyer holds the asset, which is no longer on
/// sale and no longer in its vault.
pub proof fn lemma_sale_settles(market: MarketView, buyer: Identity, mint: AssetId)
    requires
        market.wf(),
        bought(market, buyer, mint) is Ok,
        buyer != market.listings[mint].seller,
        buyer != (market.config->0).authority,
        market.listings[mint].seller != (market.config->0).authority,
    ensures
        ({
            let after = bought(market, buyer, mint)->Ok_0;
            let seller = market.listings[mint].seller;
            let authority = (market.config->0).authority;
            let price = market.listings[mint].price as nat;
            let rate = (market.config->0).fee_percentage as nat;
            &&& after.balances[buyer] == market.balances[buyer] - price
            &&& after.balances[seller] == market.balances[seller] + seller_amount_of(price, rate)
            &&& after.balances[authority] == market.balances[authority] + fee_of(price, rate)
            &&& after.owns(buyer, mint)
            &&& !after.vault_holds(mint)
            &&& !after.is_listed(mint)
        }),
{
    lemma_fee_split_exact(
        market.listings[mint].price as nat,
        (market.config->0).fee_percentage as nat,
    );
}

/// A sale touches nothing but the balances of its three parties, the holder
/// of the asset and the listing of the asset.
pub proof fn lemma_sale_leaves_the_rest(
    market: MarketView,
    buyer: Identity,
    mint: AssetId,
    other_party: Identity,
    other_mint: AssetId,
)
    requires
        market.wf(),
        bought(market, buyer, mint) is Ok,
    ensures
        ({
            let after = bought(market, buyer, mint)->Ok_0;
            &&& after.config == market.config
            &&& other_party != buyer && other_party != market.listings[mint].seller && other_party
                != (market.config->0).authority ==> after.balances[other_party]
                == market.balances[other_party]
            &&& other_mint != mint ==> {
                &&& after.holders.contains_key(other_mint) == market.holders.contains_key(
                    other_mint,
                )
                &&& after.holders[other_mint] == market.holders[other_mint]
                &&& after.listings.contains_key(other_mint) == market.listings.contains_key(
                    other_mint,
                )
                &&& after.listings[other_mint] == market.listings[other_mint]
            }
        }),
{
}

/// Only the seller cancels: while the asset is on sale, a cancellation by
/// anyone else is refused as unauthorized and changes nothing.
pub proof fn lemma_only_seller_cancels(
    before: MarketView,
    after: MarketView,
    result: Result<(), NftMarketplaceError>,
    caller: Identity,
    mint: AssetId,
)
    requires
        before.config is Some,
        before.is_listed(mint),
        caller != before.listings[mint].seller,
        carried_out(before, after, result, cancelled(before, caller, mint)),
    ensures
        result == Err::<(), NftMarketplaceError>(NftMarketplaceError::Unauthorized),
        after == before,
{
}

/// Listing an asset and cancelling at once gives the asset back: the seller
/// holds it again, the vault is empty, everyone holds what they held
/// before, and the asset can no longer be bought.
pub proof fn lemma_cancel_returns_asset(
    market: MarketView,
    seller: Identity,
    mint: AssetId,
    price: u64,
    buyer: Identity,
)
    requires
        market.wf(),
        listed(market, seller, mint, price) is Ok,
    ensures
        ({
            let on_sale = listed(market, seller, mint, price)->Ok_0;
            &&& cancelled(on_sale, seller, mint) matches Ok(after)
            &&& after.owns(seller, mint)
            &&& !after.vault_holds(mint)
            &&& after.holders == market.holders
            &&& after.balances == market.balances
            &&& bought(after, buyer, mint) == Err::<MarketView, NftMarketplaceError>(
                NftMarketplaceError::ListingInactive,
            )
        }),
{
    let on_sale = listed(market, seller, mint, price)->Ok_0;
    let after = cancelled(on_sale, seller, mint)->Ok_0;
    assert(after.holders =~= market.holders);
}

/// An asset that was sold can be listed again by its new owner: the closed
/// record of the earlier sale does not stand in the way, and the new
/// listing takes its place.
pub proof fn lemma_buyer_can_list_again(
    market: MarketView,
    buyer: Identity,
    mint: AssetId,
    price: u64,
)
    requires
        market.wf(),
        bought(market, buyer, mint) is Ok,
        price > 0,
    ensures
        ({
            let sold = bought(market, buyer, mint)->Ok_0;
            &&& listed(sold, buyer, mint, price) matches Ok(after)
            &&& after.is_listed(mint)
            &&& after.vault_holds(mint)
            &&& after.listings[mint] == opened(buyer, mint, price)
        }),
{
}

} // verus!
