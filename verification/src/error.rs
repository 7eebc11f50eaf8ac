//! The ways in which a request can fail.
//!
//! Every failure ends the request: nothing is paid, changed or recorded.

use vstd::prelude::*;

verus! {

/// The liquidity pool that a bridged conversion could not find.
#[derive(Clone, Copy, PartialEq, Eq, Structural, Debug)]
pub enum MissingPool {
    /// The pool of the bridge token and the canonical token.
    BridgeToCanonical,
    /// The pool of the bridge token and the requested token.
    BridgeToTarget,
}

/// The broad class of a failure.
#[derive(Clone, Copy, PartialEq, Eq, Structural, Debug)]
pub enum ErrorKind {
    /// The price parameters are not set.
    ConfigurationError,
    /// The content is larger than the size limit.
    LimitExceeded,
    /// A token or a node is not what the marketplace accepts.
    ValidationError,
    /// The payment does not cover the price.
    PaymentError,
    /// The price could not be converted into the payment token.
    ConversionError,
}

/// Why a request failed.
#[derive(Clone, Copy, PartialEq, Eq, Structural, Debug)]
pub enum Error {
    /// The content is larger than the size limit.
    SizeExceedsLimit,
    /// The base price or the byte price is not set.
    PriceNotConfigured,
    /// The payment token is not among the supported tokens.
    UnsupportedToken,
    /// The named node is not among the order nodes.
    UnknownNode,
    /// A node had to be chosen and there is none.
    NoNodesAvailable,
    /// The payment is less than the price.
    InsufficientPayment,
    /// Neither a direct nor a bridged pool leads to the payment token.
    NoConversionPath(MissingPool),
    /// A pool quoted zero for the reference unit, which leaves no ratio.
    ZeroQuote,
    /// The answer handed in is not one to the question that was asked.
    UnexpectedReply,
    /// The token to add is supported already.
    TokenAlreadyAdded,
    /// The node to add is registered already.
    NodeAlreadyAdded,
    /// The token to remove is not supported.
    TokenNotFound,
    /// The node to remove is not registered.
    NodeNotFound,
}

impl Error {
    /// The class that the failure belongs to.
    pub open spec fn kind_spec(self) -> ErrorKind {
        match self {
            Error::SizeExceedsLimit => ErrorKind::LimitExceeded,
            Error::PriceNotConfigured => ErrorKind::ConfigurationError,
            Error::UnsupportedToken => ErrorKind::ValidationError,
            Error::UnknownNode => ErrorKind::ValidationError,
            Error::NoNodesAvailable => ErrorKind::ValidationError,
            Error::InsufficientPayment => ErrorKind::PaymentError,
            Error::NoConversionPath(_) => ErrorKind::ConversionError,
            Error::ZeroQuote => ErrorKind::ConversionError,
            Error::UnexpectedReply => ErrorKind::ConversionError,
            Error::TokenAlreadyAdded => ErrorKind::ValidationError,
            Error::NodeAlreadyAdded => ErrorKind::ValidationError,
            Error::TokenNotFound => ErrorKind::ValidationError,
            Error::NodeNotFound => ErrorKind::ValidationError,
        }
    }

    /// The text that describes the failure.
    pub open spec fn message_spec(self) -> Seq<char> {
        match self {
            Error::SizeExceedsLimit => "Size exceeds the limit"@,
            Error::PriceNotConfigured => "Order price has not been set"@,
            Error::UnsupportedToken => "Unsupported token to pay"@,
            Error::UnknownNode => "Unsupported node to order"@,
            Error::NoNodesAvailable => "No nodes to choose"@,
            Error::InsufficientPayment => "Payment amount less than price, please get price again"@,
            Error::NoConversionPath(MissingPool::BridgeToCanonical) => "Get egld cru swap pair failed"@,
            Error::NoConversionPath(MissingPool::BridgeToTarget) => "Get egld token swap pair failed"@,
            Error::ZeroQuote => "division by 0"@,
            Error::UnexpectedReply => "Unexpected reply"@,
            Error::TokenAlreadyAdded => "Token has been added"@,
            Error::NodeAlreadyAdded => "Node has been added"@,
            Error::TokenNotFound => "Token not found"@,
            Error::NodeNotFound => "Node not found"@,
        }
    }

    /// The class that the failure belongs to.
    pub fn kind(&self) -> (r: ErrorKind)
        ensures
            r == self.kind_spec(),
    {
        match self {
            Error::SizeExceedsLimit => ErrorKind::LimitExceeded,
            Error::PriceNotConfigured => ErrorKind::ConfigurationError,
            Error::InsufficientPayment => ErrorKind::PaymentError,
            Error::NoConversionPath(_) | Error::ZeroQuote | Error::UnexpectedReply => {
                ErrorKind::ConversionError
            },
            Error::UnsupportedToken
            | Error::UnknownNode
            | Error::NoNodesAvailable
            | Error::TokenAlreadyAdded
            | Error::NodeAlreadyAdded
            | Error::TokenNotFound
            | Error::NodeNotFound => ErrorKind::ValidationError,
        }
    }

    /// The text that describes the failure.
    pub fn message(&self) -> (r: &'static str)
        ensures
            r@ == self.message_spec(),
    {
        match self {
            Error::SizeExceedsLimit => "Size exceeds the limit",
            Error::PriceNotConfigured => "Order price has not been set",
            Error::UnsupportedToken => "Unsupported token to pay",
            Error::UnknownNode => "Unsupported node to order",
            Error::NoNodesAvailable => "No nodes to choose",
            Error::InsufficientPayment => "Payment amount less than price, please get price again",
            Error::NoConversionPath(MissingPool::BridgeToCanonical) => "Get egld cru swap pair failed",
            Error::NoConversionPath(MissingPool::BridgeToTarget) => "Get egld token swap pair failed",
            Error::ZeroQuote => "division by 0",
            Error::UnexpectedReply => "Unexpected reply",
            Error::TokenAlreadyAdded => "Token has been added",
            Error::NodeAlreadyAdded => "Node has been added",
            Error::TokenNotFound => "Token not found",
            Error::NodeNotFound => "Node not found",
        }
    }
}

} // verus!
