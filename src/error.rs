use vstd::prelude::*;

verus! {

/// Why an entry point rejected a call. A rejected call changes nothing.
#[derive(Debug, Clone, Copy, PartialEq, Eq, Structural)]
pub enum DistError {
    /// The caller is not the contract's owner.
    Unauthorized,
    /// The token paid in is not the distributable token.
    InvalidToken,
    /// A purchase was attempted with nothing paid.
    ZeroPayment,
    /// Sales are paused.
    SalePaused,
    /// The payment is above the per-call buy limit.
    BuyLimitExceeded,
    /// The contract holds fewer distributable tokens than the payment buys.
    InsufficientInventory,
    /// The contract holds no native currency to sweep.
    NoFundsToClaim,
    /// The unit price is zero (or was never set), so no amount can be priced.
    DivisionByZero,
}

/// The message with which a call is rejected for `e`.
pub open spec fn error_message(e: DistError) -> Seq<char> {
    match e {
        DistError::Unauthorized => "Endpoint can only be called by owner"@,
        DistError::InvalidToken => "Invalid token!"@,
        DistError::ZeroPayment => "zero, really??"@,
        DistError::SalePaused => "Sale has been paused"@,
        DistError::BuyLimitExceeded => "Buy limit exceeded"@,
        DistError::InsufficientInventory => "Not enough tokens available."@,
        DistError::NoFundsToClaim => "No funds to claim!"@,
        DistError::DivisionByZero => "division by zero"@,
    }
}

impl DistError {
    /// The message with which the call is rejected.
    pub fn message(&self) -> (r: &'static str)
        ensures
            r@ == error_message(*self),
    {
        match self {
            DistError::Unauthorized => "Endpoint can only be called by owner",
            DistError::InvalidToken => "Invalid token!",
            DistError::ZeroPayment => "zero, really??",
            DistError::SalePaused => "Sale has been paused",
            DistError::BuyLimitExceeded => "Buy limit exceeded",
            DistError::InsufficientInventory => "Not enough tokens available.",
            DistError::NoFundsToClaim => "No funds to claim!",
            DistError::DivisionByZero => "division by zero",
        }
    }
}

} // verus!
