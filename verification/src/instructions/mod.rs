//! The four operations of the marketplace. Each one either takes effect as
//! a whole or changes nothing.

pub mod buy_nft;
pub mod cancel_listing;
pub mod create_listing;
pub mod initialize_marketplace;

pub use self::buy_nft::{bought, buy_nft, BuyNft};
pub use self::cancel_listing::{cancel_listing, cancelled, CancelListing};
pub use self::create_listing::{create_listing, listed, CreateListing};
pub use self::initialize_marketplace::{initialize, initialized, InitializeMarketplace};
