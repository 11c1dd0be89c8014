//! Setting up the marketplace.

use vstd::prelude::*;
use crate::errors::NftMarketplaceError;
use crate::fees::MAX_FEE_RATE;
use crate::market::{carried_out, MarketState, MarketView};
use crate::state::{AssetId, Identity, NftMarketplace};

verus! {

/// The setting up of the marketplace: who does it.
#[derive(Clone, Copy, Debug, PartialEq, Eq, Structural)]
pub struct InitializeMarketplace {
    /// The party that will administer the marketplace and receive its fees.
    pub authority: Identity,
}

/// The marketplace after `authority` has set it up with `fee_percentage`,
/// or why that is refused: it has been set up before, or the fee rate is no
/// percentage.
pub open spec fn initialized(
    market: MarketView,
    authority: Identity,
    fee_percentage: u16,
) -> Result<MarketView, NftMarketplaceError> {
    if market.config is Some {
        Err(NftMarketplaceError::AlreadyInitialized)
    } else if fee_percentage > MAX_FEE_RATE {
        Err(NftMarketplaceError::InvalidFeeRate)
    } else {
        Ok(MarketView { config: Some(NftMarketplace { authority, fee_percentage }), ..market })
    }
}

/// Setting up keeps what holds of the marketplace at all times.
pub proof fn lemma_initialized_keeps_wf(
    market: MarketView,
    authority: Identity,
    fee_percentage: u16,
)
    requires
        market.wf(),
        initialized(market, authority, fee_percentage) is Ok,
    ensures
        initialized(market, authority, fee_percentage)->Ok_0.wf(),
{
    let after = initialized(market, authority, fee_percentage)->Ok_0;
    assert forall|other: AssetId| after.is_listed(other) <==> after.vault_holds(other) by {
        assert(market.is_listed(other) <==> market.vault_holds(other));
    }
}

/// Sets up the marketplace for `ctx.authority`, which keeps `fee_percentage`
/// percent of every sale.
pub fn initialize(state: &mut MarketState, ctx: &InitializeMarketplace, fee_percentage: u16) -> (result:
    Result<(), NftMarketplaceError>)
    requires
        old(state).wf(),
    ensures
        final(state).wf(),
        carried_out(
            old(state)@,
            final(state)@,
            result,
            initialized(old(state)@, ctx.authority, fee_percentage),
        ),
{
    if state.config().is_some() {
        return Err(NftMarketplaceError::AlreadyInitialized);
    }
    if fee_percentage > MAX_FEE_RATE {
        return Err(NftMarketplaceError::InvalidFeeRate);
    }
    state.set_config(NftMarketplace { authority: ctx.authority, fee_percentage });
    proof {
        lemma_initialized_keeps_wf(old(state)@, ctx.authority, fee_percentage);
    }
    Ok(())
}

} // verus!
