//! The ways in which an operation of the sale is turned down.

use vstd::prelude::*;

verus! {

/// The argument of the setup operation that was found invalid.
#[derive(Clone, Copy, Debug, PartialEq, Eq, Structural)]
pub enum Argument {
    /// The ticket price was zero.
    Price,
    /// The number of tickets was zero.
    TotalTickets,
}

/// Why an operation was turned down. Every rejection leaves the records as
/// they were.
#[derive(Clone, Copy, Debug, PartialEq, Eq, Structural)]
pub enum SaleError {
    /// The caller is not the owner.
    Unauthorized,
    /// The ticket-class token has been issued already.
    AlreadyInitialized,
    /// A setup argument was zero.
    InvalidArgument(Argument),
    /// The ticket-class token has not been issued yet.
    NotReady,
    /// The attached payment differs from the ticket price.
    PaymentMismatch,
    /// Every ticket has been sold.
    SoldOut,
    /// The contract holds no native balance.
    NothingToWithdraw,
}

impl SaleError {
    /// The text with which the host aborts the call.
    pub fn message(&self) -> (text: &'static str)
        ensures
            text@ == self.message_text(),
    {
        match self {
            SaleError::Unauthorized => "Endpoint can only be called by owner",
            SaleError::AlreadyInitialized => "Event already set up",
            SaleError::InvalidArgument(Argument::Price) => "Price must be greater than 0",
            SaleError::InvalidArgument(Argument::TotalTickets) => "Total tickets must be greater than 0",
            SaleError::NotReady => "Event is not set up yet",
            SaleError::PaymentMismatch => "Payment amount does not match ticket price",
            SaleError::SoldOut => "All tickets have been sold",
            SaleError::NothingToWithdraw => "No funds to withdraw",
        }
    }

    /// The characters of [`SaleError::message`].
    pub open spec fn message_text(&self) -> Seq<char> {
        match self {
            SaleError::Unauthorized => "Endpoint can only be called by owner"@,
            SaleError::AlreadyInitialized => "Event already set up"@,
            SaleError::InvalidArgument(Argument::Price) => "Price must be greater than 0"@,
            SaleError::InvalidArgument(Argument::TotalTickets) => "Total tickets must be greater than 0"@,
            SaleError::NotReady => "Event is not set up yet"@,
            SaleError::PaymentMismatch => "Payment amount does not match ticket price"@,
            SaleError::SoldOut => "All tickets have been sold"@,
            SaleError::NothingToWithdraw => "No funds to withdraw"@,
        }
    }
}

} // verus!
