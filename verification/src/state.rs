//! The records that the marketplace keeps.

use vstd::prelude::*;
use crate::fees::MAX_FEE_RATE;

verus! {

/// Who a party is, as the identity provider names it.
pub type Identity = u64;

/// Which unique asset is meant.
pub type AssetId = u64;

/// Where a vault is found.
pub type VaultId = u64;

/// The vault that is dedicated to an asset. No two assets share a vault.
pub open spec fn vault_of(mint: AssetId) -> VaultId {
    mint
}

/// The address of the vault that is dedicated to `mint`.
pub fn vault_address(mint: AssetId) -> (vault: VaultId)
    ensures
        vault == vault_of(mint),
{
    mint
}

/// Distinct assets have distinct vaults.
pub proof fn lemma_vaults_are_distinct(a: AssetId, b: AssetId)
    ensures
        vault_of(a) == vault_of(b) <==> a == b,
{
}

/// Who holds the single unit of an asset.
#[derive(Clone, Copy, Debug, PartialEq, Eq, Structural)]
pub enum Holder {
    /// The wallet of this party.
    Wallet(Identity),
    /// The vault dedicated to the asset, which only the marketplace controls.
    Vault,
}

/// The configuration of the marketplace. There is one, and it does not
/// change once it is written.
#[derive(Clone, Copy, Debug, PartialEq, Eq, Structural)]
pub struct NftMarketplace {
    /// Who administers the marketplace and receives its fees.
    pub authority: Identity,
    /// The percentage of every sale that the marketplace keeps.
    pub fee_percentage: u16,
}

impl NftMarketplace {
    /// The fee rate is a percentage.
    pub open spec fn wf(self) -> bool {
        self.fee_percentage <= MAX_FEE_RATE
    }
}

/// An offer to sell one asset at a fixed price.
#[derive(Clone, Copy, Debug, PartialEq, Eq, Structural)]
pub struct Listing {
    /// Who listed the asset.
    pub seller: Identity,
    /// The asset on sale.
    pub mint: AssetId,
    /// The vault that holds the asset while the listing is active.
    pub token_account: VaultId,
    /// The price, in currency units.
    pub price: u64,
    /// Whether the asset can still be bought. A listing that was bought or
    /// cancelled stays behind as an inactive record.
    pub is_active: bool,
}

impl Listing {
    /// The listing is the record of `mint`: it names that asset and its
    /// vault, and its price is positive.
    pub open spec fn wf_for(self, mint: AssetId) -> bool {
        &&& self.mint == mint
        &&& self.token_account == vault_of(mint)
        &&& self.price > 0
    }

    /// The same listing, no longer on sale.
    pub open spec fn closed_down(self) -> Listing {
        Listing { is_active: false, ..self }
    }
}

} // verus!
