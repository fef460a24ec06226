//! Settlement of metered storage: what a change in the bytes a contract
//! occupies costs the caller, or returns to them.
//!
//! The byte counters are snapshots that the host takes immediately before and
//! immediately after a wishlist is written back. Nothing here is stored: the
//! inputs live for one operation.

use vstd::prelude::*;

use crate::error::WishlistError;

verus! {

/// The price of one byte of storage at the host, in the smallest unit of its
/// currency: ten to the nineteenth.
pub const STORAGE_PRICE_PER_BYTE: u128 = 10_000_000_000_000_000_000;

/// `near_sdk::env::storage_byte_cost`, the SDK's price of one byte of storage.
/// The SDK does not ask the host for it: the function takes nothing and
/// returns a constant of its `env` module, ten to the nineteenth. The contract
/// claims that value and nothing else; it is not proved here.
pub assume_specification[ near_sdk::env::storage_byte_cost ]() -> (price: near_sdk::Balance)
    ensures
        price == 10_000_000_000_000_000_000u128,
;

/// The price of `bytes` bytes of storage at `price` per byte, as a
/// mathematical integer: it may exceed what 128 bits hold.
pub open spec fn storage_cost(price: u128, bytes: nat) -> nat {
    price as nat * bytes
}

/// What charging for growth yields: the excess of the attached payment over
/// the cost of the bytes taken, or the reason for which the call is rejected.
pub open spec fn charge_outcome(
    initial_storage: u64,
    current_storage: u64,
    price: u128,
    attached_payment: u128,
) -> Result<u128, WishlistError> {
    let cost = storage_cost(price, (current_storage - initial_storage) as nat);
    if cost > u128::MAX {
        Err(WishlistError::ArithmeticOverflow)
    } else if attached_payment < cost {
        Err(WishlistError::InsufficientFunds)
    } else {
        Ok((attached_payment - cost) as u128)
    }
}

/// What refunding a release yields: the price of the bytes given back, or
/// `ArithmeticOverflow` where that price does not fit in 128 bits.
pub open spec fn refund_outcome(initial_storage: u64, current_storage: u64, price: u128) -> Result<
    u128,
    WishlistError,
> {
    let refund = storage_cost(price, (initial_storage - current_storage) as nat);
    if refund > u128::MAX {
        Err(WishlistError::ArithmeticOverflow)
    } else {
        Ok(refund as u128)
    }
}

/// A credit that the host is to make to an account: the one action that
/// settlement asks of it. The host sends it once and does not report back.
#[derive(Debug, PartialEq, Eq)]
pub struct Transfer {
    pub to: String,
    pub amount: u128,
}

/// The mathematical value of a [`Transfer`].
pub ghost struct TransferView {
    pub to: Seq<char>,
    pub amount: u128,
}

impl View for Transfer {
    type V = TransferView;

    open spec fn view(&self) -> TransferView {
        TransferView { to: self.to@, amount: self.amount }
    }
}

/// Charges the caller for the storage that an operation took.
///
/// The cost is the price per byte times the growth in bytes. A product that
/// overflows is `ArithmeticOverflow`; a payment below the cost is
/// `InsufficientFunds`; otherwise the result is the excess to hand back to the
/// caller, zero when the payment was exact.
///
/// The usage must not have shrunk: a release is settled by
/// [`refund_on_shrink`].
pub fn charge_on_growth(
    initial_storage: u64,
    current_storage: u64,
    price: u128,
    attached_payment: u128,
) -> (settled: Result<u128, WishlistError>)
    requires
        initial_storage <= current_storage,
    ensures
        settled == charge_outcome(initial_storage, current_storage, price, attached_payment),
{
    let used = current_storage - initial_storage;
    match price.checked_mul(used as u128) {
        Some(cost) => {
            if attached_payment < cost {
                Err(WishlistError::InsufficientFunds)
            } else {
                Ok(attached_payment - cost)
            }
        },
        None => Err(WishlistError::ArithmeticOverflow),
    }
}

/// Prices the storage that an operation released. The whole amount is owed to
/// the caller, whatever they attached to the call.
///
/// The usage must not have grown: growth is settled by [`charge_on_growth`].
pub fn refund_on_shrink(initial_storage: u64, current_storage: u64, price: u128) -> (settled:
    Result<u128, WishlistError>)
    requires
        current_storage <= initial_storage,
    ensures
        settled == refund_outcome(initial_storage, current_storage, price),
{
    let released = initial_storage - current_storage;
    match price.checked_mul(released as u128) {
        Some(refund) => Ok(refund),
        None => Err(WishlistError::ArithmeticOverflow),
    }
}

/// An exact payment is accepted with nothing to hand back, a payment that
/// exceeds the cost by `excess` is accepted with `excess` to hand back, and a
/// payment one unit short of the cost is rejected for insufficient funds.
///
/// Each case is stated for the costs and payments that 128 bits can hold.
pub proof fn lemma_charge_is_exact(
    initial_storage: u64,
    current_storage: u64,
    price: u128,
    excess: u128,
)
    requires
        initial_storage <= current_storage,
    ensures
        ({
            let cost = storage_cost(price, (current_storage - initial_storage) as nat);
            &&& cost <= u128::MAX ==> charge_outcome(
                initial_storage,
                current_storage,
                price,
                cost as u128,
            ) == Ok::<u128, WishlistError>(0)
            &&& excess > 0 && cost + excess <= u128::MAX ==> charge_outcome(
                initial_storage,
                current_storage,
                price,
                (cost + excess) as u128,
            ) == Ok::<u128, WishlistError>(excess)
            &&& 0 < cost <= u128::MAX ==> charge_outcome(
                initial_storage,
                current_storage,
                price,
                (cost - 1) as u128,
            ) == Err::<u128, WishlistError>(WishlistError::InsufficientFunds)
        }),
{
}

} // verus!
