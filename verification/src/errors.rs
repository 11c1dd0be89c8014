//! The reasons for which a marketplace operation is refused.

use vstd::prelude::*;

verus! {

/// Why an operation was refused. A refused operation changes nothing.
#[derive(Clone, Copy, Debug, PartialEq, Eq, Structural)]
pub enum NftMarketplaceError {
    /// A purchase named an asset that has no active listing.
    ListingInactive,
    /// The buyer holds less currency than the listed price.
    InsufficientFunds,
    /// A cancellation named an asset that has no active listing.
    ListingNotActive,
    /// The caller is not the seller who created the listing.
    Unauthorized,
    /// The asset already has an active listing.
    ListingAlreadyActive,
    /// The marketplace has already been set up.
    AlreadyInitialized,
    /// The marketplace has not been set up yet.
    NotInitialized,
    /// The fee rate is not a percentage between 0 and 100.
    InvalidFeeRate,
    /// The price of a listing is zero.
    InvalidPrice,
    /// The asset could not be moved out of the wallet it was expected in.
    AssetTransferFailed,
    /// The currency could not be credited to the receiving wallet.
    CurrencyTransferFailed,
}

impl NftMarketplaceError {
    /// The text shown to a user for this error.
    pub fn message(&self) -> (text: &'static str)
        ensures
            text@ == Self::message_of(*self)@,
    {
        match self {
            NftMarketplaceError::ListingInactive => "Listing is inactive",
            NftMarketplaceError::InsufficientFunds => "Insufficient funds",
            NftMarketplaceError::ListingNotActive => "Listing is not active",
            NftMarketplaceError::Unauthorized => "Unauthorized",
            NftMarketplaceError::ListingAlreadyActive => "Listing is already active",
            NftMarketplaceError::AlreadyInitialized => "Marketplace is already initialized",
            NftMarketplaceError::NotInitialized => "Marketplace is not initialized",
            NftMarketplaceError::InvalidFeeRate => "Fee rate must be between 0 and 100",
            NftMarketplaceError::InvalidPrice => "Price must be greater than zero",
            NftMarketplaceError::AssetTransferFailed => "Asset transfer failed",
            NftMarketplaceError::CurrencyTransferFailed => "Currency transfer failed",
        }
    }

    /// The message that belongs to each error.
    pub open spec fn message_of(e: NftMarketplaceError) -> &'static str {
        match e {
            NftMarketplaceError::ListingInactive => "Listing is inactive",
            NftMarketplaceError::InsufficientFunds => "Insufficient funds",
            NftMarketplaceError::ListingNotActive => "Listing is not active",
            NftMarketplaceError::Unauthorized => "Unauthorized",
            NftMarketplaceError::ListingAlreadyActive => "Listing is already active",
            NftMarketplaceError::AlreadyInitialized => "Marketplace is already initialized",
            NftMarketplaceError::NotInitialized => "Marketplace is not initialized",
            NftMarketplaceError::InvalidFeeRate => "Fee rate must be between 0 and 100",
            NftMarketplaceError::InvalidPrice => "Price must be greater than zero",
            NftMarketplaceError::AssetTransferFailed => "Asset transfer failed",
            NftMarketplaceError::CurrencyTransferFailed => "Currency transfer failed",
        }
    }
}

} // verus!
