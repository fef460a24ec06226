//! The ways in which a wishlist operation is rejected.

use vstd::prelude::*;

verus! {

/// Why an operation was rejected.
#[derive(Debug, Clone, Copy, PartialEq, Eq, Structural)]
pub enum WishlistError {
    /// A removal named a position at or beyond the end of the wishlist.
    InvalidIndex,
    /// The attached payment is smaller than the cost of the storage taken.
    InsufficientFunds,
    /// The price per byte times the number of bytes does not fit in 128 bits.
    ArithmeticOverflow,
}

impl WishlistError {
    /// The text of [`WishlistError::message`].
    pub open spec fn message_text(self) -> Seq<char> {
        match self {
            WishlistError::InvalidIndex => "Invalid car id!"@,
            WishlistError::InsufficientFunds => "Insufficient funds!"@,
            WishlistError::ArithmeticOverflow => "Error calculating storage cost"@,
        }
    }

    /// The message with which a host aborts the call on this error.
    pub fn message(&self) -> (text: &'static str)
        ensures
            text@ == self.message_text(),
    {
        match self {
            WishlistError::InvalidIndex => "Invalid car id!",
            WishlistError::InsufficientFunds => "Insufficient funds!",
            WishlistError::ArithmeticOverflow => "Error calculating storage cost",
        }
    }
}

} // verus!
