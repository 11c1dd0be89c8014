use nftmarketplace::errors::NftMarketplaceError;
use nftmarketplace::market::MarketState;
use nftmarketplace::state::{vault_address, Holder, Listing, NftMarketplace};
use nftmarketplace::{buy, cancel_nft_listing, create_nft_listing, initialize_marketplace};

const OPERATOR: u64 = 10;
const SELLER: u64 = 20;
const BUYER: u64 = 30;
const A1: u64 = 0xA1;

#[test]
fn sale_from_setup_to_settlement() {
    let mut state = MarketState::new();
    assert_eq!(initialize_marketplace(&mut state, OPERATOR, 5), Ok(()));
    state.issue_asset(A1, SELLER).unwrap();
    state.deposit(BUYER, 1000).unwrap();
    let seller_before = state.balance_of(SELLER);
    let operator_before = state.balance_of(OPERATOR);

    assert_eq!(create_nft_listing(&mut state, SELLER, A1, 1000), Ok(()));
    assert_eq!(buy(&mut state, BUYER, A1), Ok(()));

    assert_eq!(state.balance_of(SELLER), seller_before + 950);
    assert_eq!(state.balance_of(OPERATOR), operator_before + 50);
    assert_eq!(state.balance_of(BUYER), 0);
    assert_eq!(state.holder_of(A1), Some(Holder::Wallet(BUYER)));
    assert_eq!(state.listing(A1).unwrap().is_active, false);
    assert_eq!(state.config(), Some(NftMarketplace { authority: OPERATOR, fee_percentage: 5 }));
}

#[test]
fn buyer_lists_the_asset_again() {
    let mut state = MarketState::new();
    initialize_marketplace(&mut state, OPERATOR, 5).unwrap();
    state.issue_asset(A1, SELLER).unwrap();
    state.deposit(BUYER, 1000).unwrap();
    create_nft_listing(&mut state, SELLER, A1, 1000).unwrap();
    buy(&mut state, BUYER, A1).unwrap();
    assert_eq!(state.listing(A1).unwrap().is_active, false);

    assert_eq!(create_nft_listing(&mut state, BUYER, A1, 500), Ok(()));
    assert_eq!(
        state.listing(A1),
        Some(Listing {
            seller: BUYER,
            mint: A1,
            token_account: vault_address(A1),
            price: 500,
            is_active: true,
        })
    );
    assert_eq!(state.holder_of(A1), Some(Holder::Vault));

    // The first seller can buy it back, and the fee is taken again.
    assert_eq!(buy(&mut state, SELLER, A1), Ok(()));
    assert_eq!(state.balance_of(SELLER), 950 - 500);
    assert_eq!(state.balance_of(BUYER), 475);
    assert_eq!(state.balance_of(OPERATOR), 50 + 25);
    assert_eq!(state.holder_of(A1), Some(Holder::Wallet(SELLER)));
}

#[test]
fn former_seller_cannot_list_a_sold_asset() {
    let mut state = MarketState::new();
    initialize_marketplace(&mut state, OPERATOR, 5).unwrap();
    state.issue_asset(A1, SELLER).unwrap();
    state.deposit(BUYER, 1000).unwrap();
    create_nft_listing(&mut state, SELLER, A1, 1000).unwrap();
    buy(&mut state, BUYER, A1).unwrap();
    assert_eq!(
        create_nft_listing(&mut state, SELLER, A1, 500),
        Err(NftMarketplaceError::AssetTransferFailed)
    );
    assert_eq!(
        cancel_nft_listing(&mut state, SELLER, A1),
        Err(NftMarketplaceError::ListingNotActive)
    );
    assert_eq!(state.holder_of(A1), Some(Holder::Wallet(BUYER)));
}

#[test]
fn listing_cancelled_at_once_cannot_be_bought() {
    let mut state = MarketState::new();
    initialize_marketplace(&mut state, OPERATOR, 5).unwrap();
    state.issue_asset(A1, SELLER).unwrap();
    state.deposit(BUYER, 1000).unwrap();

    assert_eq!(create_nft_listing(&mut state, SELLER, A1, 1000), Ok(()));
    assert_eq!(state.holder_of(A1), Some(Holder::Vault));
    assert_eq!(cancel_nft_listing(&mut state, SELLER, A1), Ok(()));

    assert_eq!(state.holder_of(A1), Some(Holder::Wallet(SELLER)));
    assert_ne!(state.holder_of(A1), Some(Holder::Vault));
    assert_eq!(buy(&mut state, BUYER, A1), Err(NftMarketplaceError::ListingInactive));
    assert_eq!(state.balance_of(BUYER), 1000);
    assert_eq!(state.balance_of(SELLER), 0);
    assert_eq!(state.balance_of(OPERATOR), 0);
}

#[test]
fn cancelled_listing_can_be_opened_again() {
    let mut state = MarketState::new();
    initialize_marketplace(&mut state, OPERATOR, 5).unwrap();
    state.issue_asset(A1, SELLER).unwrap();
    state.deposit(BUYER, 1000).unwrap();
    create_nft_listing(&mut state, SELLER, A1, 1000).unwrap();
    cancel_nft_listing(&mut state, SELLER, A1).unwrap();
    assert_eq!(create_nft_listing(&mut state, SELLER, A1, 400), Ok(()));
    assert_eq!(state.listing(A1).unwrap().price, 400);
    assert_eq!(state.listing(A1).unwrap().is_active, true);
    assert_eq!(buy(&mut state, BUYER, A1), Ok(()));
    assert_eq!(state.balance_of(BUYER), 600);
    assert_eq!(state.balance_of(SELLER), 380);
    assert_eq!(state.balance_of(OPERATOR), 20);
}

#[test]
fn stranger_cannot_cancel_and_the_sale_goes_on() {
    let mut state = MarketState::new();
    initialize_marketplace(&mut state, OPERATOR, 5).unwrap();
    state.issue_asset(A1, SELLER).unwrap();
    state.deposit(BUYER, 1000).unwrap();
    create_nft_listing(&mut state, SELLER, A1, 1000).unwrap();

    assert_eq!(cancel_nft_listing(&mut state, BUYER, A1), Err(NftMarketplaceError::Unauthorized));
    assert_eq!(state.holder_of(A1), Some(Holder::Vault));
    assert_eq!(state.listing(A1).unwrap().is_active, true);
    assert_eq!(state.balance_of(BUYER), 1000);

    assert_eq!(buy(&mut state, BUYER, A1), Ok(()));
    assert_eq!(state.holder_of(A1), Some(Holder::Wallet(BUYER)));
}

#[test]
fn vault_holds_the_asset_exactly_while_it_is_on_sale() {
    let mut state = MarketState::new();
    initialize_marketplace(&mut state, OPERATOR, 5).unwrap();
    state.issue_asset(A1, SELLER).unwrap();
    state.deposit(BUYER, 5000).unwrap();
    let on_sale = |state: &MarketState| match state.listing(A1) {
        Some(listing) => listing.is_active,
        None => false,
    };
    let in_vault = |state: &MarketState| state.holder_of(A1) == Some(Holder::Vault);
    assert_eq!(on_sale(&state), in_vault(&state));
    create_nft_listing(&mut state, SELLER, A1, 1000).unwrap();
    assert!(on_sale(&state) && in_vault(&state));
    cancel_nft_listing(&mut state, SELLER, A1).unwrap();
    assert!(!on_sale(&state) && !in_vault(&state));
    create_nft_listing(&mut state, SELLER, A1, 1000).unwrap();
    assert!(on_sale(&state) && in_vault(&state));
    buy(&mut state, BUYER, A1).unwrap();
    assert!(!on_sale(&state) && !in_vault(&state));
    let _ = buy(&mut state, BUYER, A1);
    let _ = cancel_nft_listing(&mut state, SELLER, A1);
    assert!(!on_sale(&state) && !in_vault(&state));
}
