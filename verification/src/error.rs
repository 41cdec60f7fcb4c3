//! The ways in which an operation on the ledger fails.

use vstd::prelude::*;

verus! {

/// Why an operation was refused. A refused operation changes nothing.
#[derive(Clone, Copy, Debug, PartialEq, Eq, Structural)]
pub enum Error {
    /// An administrator is already recorded.
    AlreadyInitialized,
    /// The principal an operation acts for has not authorized the invocation.
    AuthorizationFailed,
    /// No queue is recorded under the identifier.
    QueueNotFound,
    /// No ticket is recorded under the identifier.
    TokenNotFound,
    /// A listing price of zero.
    InvalidPrice,
    /// The ticket carries no price.
    NotListed,
    /// Buyer and seller are the same principal.
    SelfTrade,
    /// The payment did not go through.
    SettlementFailed,
}

impl Error {
    /// The text of each failure.
    pub open spec fn message_text(self) -> Seq<char> {
        match self {
            Error::AlreadyInitialized => "Contract already initialized"@,
            Error::AuthorizationFailed => "Authorization failed"@,
            Error::QueueNotFound => "Queue does not exist"@,
            Error::TokenNotFound => "Token does not exist"@,
            Error::InvalidPrice => "Price must be greater than 0"@,
            Error::NotListed => "Token is not for sale"@,
            Error::SelfTrade => "Cannot buy your own token"@,
            Error::SettlementFailed => "Payment settlement failed"@,
        }
    }

    /// A sentence that names the failure.
    pub fn message(&self) -> (text: &'static str)
        ensures
            text@ == self.message_text(),
    {
        match self {
            Error::AlreadyInitialized => "Contract already initialized",
            Error::AuthorizationFailed => "Authorization failed",
            Error::QueueNotFound => "Queue does not exist",
            Error::TokenNotFound => "Token does not exist",
            Error::InvalidPrice => "Price must be greater than 0",
            Error::NotListed => "Token is not for sale",
            Error::SelfTrade => "Cannot buy your own token",
            Error::SettlementFailed => "Payment settlement failed",
        }
    }
}

} // verus!
