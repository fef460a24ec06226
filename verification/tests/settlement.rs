use wishlist::error::WishlistError;
use wishlist::storage::{
    charge_on_growth, refund_on_shrink, Transfer, STORAGE_PRICE_PER_BYTE,
};
use wishlist::Wishlist;

#[test]
fn exact_payment_leaves_no_excess() {
    assert_eq!(charge_on_growth(1_000, 1_250, 7, 1_750), Ok(0));
}

#[test]
fn overpayment_leaves_the_excess() {
    assert_eq!(charge_on_growth(1_000, 1_250, 7, 1_750 + 1), Ok(1));
    assert_eq!(charge_on_growth(1_000, 1_250, 7, 1_750 + 123_456), Ok(123_456));
    assert_eq!(charge_on_growth(0, 1, 1, u128::MAX), Ok(u128::MAX - 1));
}

#[test]
fn payment_one_short_is_insufficient() {
    assert_eq!(charge_on_growth(1_000, 1_250, 7, 1_749), Err(WishlistError::InsufficientFunds));
    assert_eq!(charge_on_growth(1_000, 1_250, 7, 0), Err(WishlistError::InsufficientFunds));
}

#[test]
fn no_growth_costs_nothing() {
    assert_eq!(charge_on_growth(500, 500, 7, 0), Ok(0));
    assert_eq!(charge_on_growth(500, 500, u128::MAX, 42), Ok(42));
}

#[test]
fn a_free_byte_costs_nothing() {
    assert_eq!(charge_on_growth(0, u64::MAX, 0, 9), Ok(9));
}

#[test]
fn charge_overflow_is_rejected() {
    assert_eq!(
        charge_on_growth(0, 2, u128::MAX, u128::MAX),
        Err(WishlistError::ArithmeticOverflow)
    );
    // (2^64 + 2) * (2^64 - 1) = 2^128 + 2^64 - 2
    assert_eq!(
        charge_on_growth(0, u64::MAX, (1 << 64) + 2, u128::MAX),
        Err(WishlistError::ArithmeticOverflow)
    );
    // 2^64 * (2^64 - 1) = 2^128 - 2^64 still fits.
    assert_eq!(charge_on_growth(0, u64::MAX, 1 << 64, u128::MAX), Ok(u64::MAX as u128));
}

#[test]
fn charge_at_the_edge_of_128_bits() {
    // (2^64 + 1) * (2^64 - 1) = 2^128 - 1
    assert_eq!(charge_on_growth(0, u64::MAX, (1 << 64) + 1, u128::MAX), Ok(0));
    assert_eq!(
        charge_on_growth(0, u64::MAX, (1 << 64) + 1, u128::MAX - 1),
        Err(WishlistError::InsufficientFunds)
    );
}

#[test]
fn refund_is_price_times_released_bytes() {
    assert_eq!(refund_on_shrink(1_250, 1_000, 7), Ok(1_750));
    assert_eq!(refund_on_shrink(1_250, 1_250, 7), Ok(0));
    assert_eq!(refund_on_shrink(u64::MAX, 0, (1 << 64) + 1), Ok(u128::MAX));
}

#[test]
fn refund_overflow_is_rejected() {
    assert_eq!(refund_on_shrink(2, 0, u128::MAX), Err(WishlistError::ArithmeticOverflow));
}

#[test]
fn price_constant_is_the_price_of_the_sdk() {
    assert_eq!(near_sdk::env::storage_byte_cost(), STORAGE_PRICE_PER_BYTE);
}

#[test]
fn host_price_is_ten_to_the_nineteenth() {
    assert_eq!(STORAGE_PRICE_PER_BYTE, 10u128.pow(19));
    // One byte at the host's price, paid exactly, then one unit short.
    let bob = String::from("bob");
    assert_eq!(Wishlist::pay_for_storage(&bob, 10, 11, 10u128.pow(19)), Ok(None));
    assert_eq!(
        Wishlist::pay_for_storage(&bob, 10, 11, 10u128.pow(19) - 1),
        Err(WishlistError::InsufficientFunds)
    );
}

#[test]
fn pay_for_storage_returns_the_excess_to_the_signer() {
    let bob = String::from("bob.near");
    let cost = 3 * 10u128.pow(19);
    assert_eq!(
        Wishlist::pay_for_storage(&bob, 100, 103, cost + 5),
        Ok(Some(Transfer { to: String::from("bob.near"), amount: 5 }))
    );
    assert_eq!(Wishlist::pay_for_storage(&bob, 100, 103, cost), Ok(None));
    assert_eq!(
        Wishlist::pay_for_storage(&bob, 100, 103, cost - 1),
        Err(WishlistError::InsufficientFunds)
    );
}

#[test]
fn pay_for_storage_cannot_overflow_at_the_host_price() {
    // 10^19 * (2^64 - 1) is below 2^128.
    let cost = 10u128.pow(19) * (u64::MAX as u128);
    assert_eq!(Wishlist::pay_for_storage(&String::from("bob"), 0, u64::MAX, cost), Ok(None));
}

#[test]
fn refund_storage_cost_credits_the_signer() {
    let bob = String::from("bob");
    assert_eq!(
        Wishlist::refund_storage_cost(&bob, 103, 100),
        Ok(Transfer { to: String::from("bob"), amount: 3 * 10u128.pow(19) })
    );
    // Nothing released: the credit is still made, of nothing.
    assert_eq!(
        Wishlist::refund_storage_cost(&bob, 100, 100),
        Ok(Transfer { to: String::from("bob"), amount: 0 })
    );
}

#[test]
fn return_excess_tokens_names_signer_and_amount() {
    let transfer = Wishlist::return_excess_tokens(&String::from("carl"), 77);
    assert_eq!(transfer.to, "carl");
    assert_eq!(transfer.amount, 77);
}

#[test]
fn error_messages() {
    assert_eq!(WishlistError::InvalidIndex.message(), "Invalid car id!");
    assert_eq!(WishlistError::InsufficientFunds.message(), "Insufficient funds!");
    assert_eq!(WishlistError::ArithmeticOverflow.message(), "Error calculating storage cost");
}
