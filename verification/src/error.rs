//! Why a payment cannot be prepared.
use vstd::prelude::*;
use crate::markdown::{join_strings, join_with};

verus! {

/// The ways preparing a payment proposal fails.
#[derive(Debug)]
pub enum PaymentError {
    /// The treasury holds no asset to pay with.
    NoAssets,
    /// No account is configured to sign with.
    NotLoggedIn,
    /// The configured account id is not a valid NEAR account id.
    InvalidAccountId { reason: String },
    /// The treasury holds no token with the requested symbol.
    TokenNotFound { token: String, available: Vec<String> },
    /// The token can be sent to no destination network.
    NoDestinationNetworks { symbol: String },
    /// A token held in NEAR Intents cannot be moved by a plain NEAR transfer.
    DirectTransferUnavailable { symbol: String },
    /// The bridge catalog does not deliver the token on the chosen network.
    DestinationUnavailable { destination: String, symbol: String, origin: String },
    /// The intent service answered without a payload hash.
    NoPayloadHash,
    /// The quote holds no deposit address.
    NoDepositAddress,
    /// The quote holds no input amount.
    NoAmountIn,
    /// The treasury id is not a valid NEAR account id.
    InvalidTreasuryId { reason: String },
}

/// The text shown for an error.
pub open spec fn error_message(e: PaymentError) -> Seq<char> {
    match e {
        PaymentError::NoAssets => "No assets available in treasury."@,
        PaymentError::NotLoggedIn => "Not logged in. Run `trezu auth login` first."@,
        PaymentError::InvalidAccountId { reason } => "Invalid account ID: "@ + reason@,
        PaymentError::TokenNotFound { token, available } => "Token '"@ + token@
            + "' not found in treasury. Available: "@ + join_with(
            available@.map_values(|s: String| s@),
            ", "@,
        ),
        PaymentError::NoDestinationNetworks { symbol } => "No destination networks available for token "@
            + symbol@,
        PaymentError::DirectTransferUnavailable { symbol } => "Token "@ + symbol@
            + " lives on NEAR Intents — direct NEAR transfer is not possible. Pick near.com or a bridge network instead."@,
        PaymentError::DestinationUnavailable { destination, symbol, origin } =>
            "Destination network '"@ + destination@ + "' is not available for "@ + symbol@
            + " (origin "@ + origin@ + ")"@,
        PaymentError::NoPayloadHash => "No payloadHash in generate-intent response"@,
        PaymentError::NoDepositAddress => "No depositAddress in quote response"@,
        PaymentError::NoAmountIn => "No amountIn in quote response"@,
        PaymentError::InvalidTreasuryId { reason } => "Invalid treasury ID: "@ + reason@,
    }
}

impl PaymentError {
    /// The text shown for this error.
    pub fn message(&self) -> (r: String)
        ensures
            r@ == error_message(*self),
    {
        match self {
            PaymentError::NoAssets => String::from_str("No assets available in treasury."),
            PaymentError::NotLoggedIn => String::from_str(
                "Not logged in. Run `trezu auth login` first.",
            ),
            PaymentError::InvalidAccountId { reason } => {
                let mut s = String::from_str("Invalid account ID: ");
                s.append(reason.as_str());
                s
            },
            PaymentError::TokenNotFound { token, available } => {
                let mut s = String::from_str("Token '");
                s.append(token.as_str());
                s.append("' not found in treasury. Available: ");
                let list = join_strings(available, ", ");
                s.append(list.as_str());
                s
            },
            PaymentError::NoDestinationNetworks { symbol } => {
                let mut s = String::from_str("No destination networks available for token ");
                s.append(symbol.as_str());
                s
            },
            PaymentError::DirectTransferUnavailable { symbol } => {
                let mut s = String::from_str("Token ");
                s.append(symbol.as_str());
                s.append(
                    " lives on NEAR Intents — direct NEAR transfer is not possible. Pick near.com or a bridge network instead.",
                );
                s
            },
            PaymentError::DestinationUnavailable { destination, symbol, origin } => {
                let mut s = String::from_str("Destination network '");
                s.append(destination.as_str());
                s.append("' is not available for ");
                s.append(symbol.as_str());
                s.append(" (origin ");
                s.append(origin.as_str());
                s.append(")");
                s
            },
            PaymentError::NoPayloadHash => String::from_str(
                "No payloadHash in generate-intent response",
            ),
            PaymentError::NoDepositAddress => String::from_str("No depositAddress in quote response"),
            PaymentError::NoAmountIn => String::from_str("No amountIn in quote response"),
            PaymentError::InvalidTreasuryId { reason } => {
                let mut s = String::from_str("Invalid treasury ID: ");
                s.append(reason.as_str());
                s
            },
        }
    }
}

} // verus!
