//! How the price of a sale is split between the seller and the marketplace.

use vstd::prelude::*;

verus! {

/// The highest fee rate: the whole price.
pub const MAX_FEE_RATE: u16 = 100;

/// The marketplace's share of `price` at `fee_rate` percent, rounded down.
pub open spec fn fee_of(price: nat, fee_rate: nat) -> nat {
    price * fee_rate / 100
}

/// What is left of `price` for the seller once the fee is taken.
pub open spec fn seller_amount_of(price: nat, fee_rate: nat) -> int {
    price - fee_of(price, fee_rate)
}

/// The fee never exceeds the price, and fee and seller's share add up to the
/// price exactly, whatever was lost to rounding.
pub proof fn lemma_fee_split_exact(price: nat, fee_rate: nat)
    requires
        fee_rate <= 100,
    ensures
        fee_of(price, fee_rate) <= price,
        0 <= seller_amount_of(price, fee_rate) <= price,
        fee_of(price, fee_rate) + seller_amount_of(price, fee_rate) == price,
{
    assert(price * fee_rate <= price * 100) by (nonlinear_arith)
        requires
            fee_rate <= 100,
    ;
}

/// The fee on a sale at `price`, for a marketplace that keeps `fee_rate`
/// percent.
pub fn compute_fee(price: u64, fee_rate: u16) -> (fee: u64)
    requires
        fee_rate <= MAX_FEE_RATE,
    ensures
        fee == fee_of(price as nat, fee_rate as nat),
        fee <= price,
{
    proof {
        lemma_fee_split_exact(price as nat, fee_rate as nat);
        assert(price * fee_rate <= u64::MAX * 100) by (nonlinear_arith)
            requires
                price <= u64::MAX,
                fee_rate <= 100,
        ;
    }
    let product: u128 = (price as u128) * (fee_rate as u128);
    (product / 100) as u64
}

/// What the seller receives from a sale at `price`, for a marketplace that
/// keeps `fee_rate` percent.
pub fn compute_seller_amount(price: u64, fee_rate: u16) -> (amount: u64)
    requires
        fee_rate <= MAX_FEE_RATE,
    ensures
        amount == seller_amount_of(price as nat, fee_rate as nat),
        amount + fee_of(price as nat, fee_rate as nat) == price,
{
    let fee: u64 = compute_fee(price, fee_rate);
    price - fee
}

} // verus!
