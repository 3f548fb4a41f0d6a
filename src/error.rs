use vstd::prelude::*;

verus! {

/// What can go wrong while building or spending an escrow.
#[derive(Debug, Clone, Copy, PartialEq, Eq, Structural)]
pub enum HtlcError {
    /// Mutually exclusive or malformed user inputs.
    ConfigurationError,
    /// The funding transaction is not a valid token transaction.
    ValidationError,
    /// A round trip to the wallet failed.
    CommunicationError,
    /// The wallet has no spendable output left to pay the fee.
    InsufficientFunds,
    /// The token fields are missing at the expected script positions.
    MalformedMetadata,
    /// The funding transaction holds no output paying to the escrow script.
    ContractOutputNotFound,
    /// The network refused the final transaction.
    BroadcastRejected,
    /// A contract parameter cannot be encoded in a script.
    InvalidParameter,
}

impl HtlcError {
    /// A short human-readable description.
    pub fn message(&self) -> (r: String) {
        match self {
            HtlcError::ConfigurationError => String::from_str("configuration error"),
            HtlcError::ValidationError => String::from_str("not a valid token transaction"),
            HtlcError::CommunicationError => String::from_str("wallet communication failed"),
            HtlcError::InsufficientFunds => String::from_str("insufficient funds to pay the fee"),
            HtlcError::MalformedMetadata => String::from_str("malformed token metadata"),
            HtlcError::ContractOutputNotFound => String::from_str("contract output not found"),
            HtlcError::BroadcastRejected => String::from_str("transaction rejected"),
            HtlcError::InvalidParameter => String::from_str("invalid contract parameter"),
        }
    }
}

} // verus!
