//! The failures of a Shopify tool.

use vstd::prelude::*;
use crate::content::{ErrorKind, NormalizedError, NormalizedErrorView, ShopifyErrorKind};
use crate::effect::FailureView;
use crate::text::concat;

verus! {

/// Why a Shopify tool failed.
#[derive(Debug, PartialEq)]
pub enum McpShopifyError {
    /// What Shopify handed back could not be written as JSON.
    ResponseSerializeError(String),
    /// The request could not be sent, or its response could not be read.
    HttpError(String),
    /// Shopify answered with a status that is no success.
    ApiError(String),
    /// An argument cannot be used.
    InvalidInput(String),
    /// The environment holds no shop domain.
    MissingShopifyDomain,
    /// The environment holds no access token.
    MissingShopifyAccessToken,
    /// The product ID cannot be used.
    InvalidProductId(String),
    /// The order ID cannot be used.
    InvalidOrderId(String),
    /// The customer ID cannot be used.
    InvalidCustomerId(String),
}

impl View for McpShopifyError {
    type V = FailureView;

    open spec fn view(&self) -> FailureView {
        match *self {
            McpShopifyError::ResponseSerializeError(detail) => FailureView {
                kind: ErrorKind::Shopify(ShopifyErrorKind::ResponseSerializeError),
                detail: detail@,
            },
            McpShopifyError::HttpError(detail) => FailureView {
                kind: ErrorKind::Shopify(ShopifyErrorKind::HttpError),
                detail: detail@,
            },
            McpShopifyError::ApiError(detail) => FailureView {
                kind: ErrorKind::Shopify(ShopifyErrorKind::ApiError),
                detail: detail@,
            },
            McpShopifyError::InvalidInput(detail) => FailureView {
                kind: ErrorKind::Shopify(ShopifyErrorKind::InvalidInput),
                detail: detail@,
            },
            McpShopifyError::MissingShopifyDomain => FailureView {
                kind: ErrorKind::Shopify(ShopifyErrorKind::MissingShopifyDomain),
                detail: Seq::empty(),
            },
            McpShopifyError::MissingShopifyAccessToken => FailureView {
                kind: ErrorKind::Shopify(ShopifyErrorKind::MissingShopifyAccessToken),
                detail: Seq::empty(),
            },
            McpShopifyError::InvalidProductId(detail) => FailureView {
                kind: ErrorKind::Shopify(ShopifyErrorKind::InvalidProductId),
                detail: detail@,
            },
            McpShopifyError::InvalidOrderId(detail) => FailureView {
                kind: ErrorKind::Shopify(ShopifyErrorKind::InvalidOrderId),
                detail: detail@,
            },
            McpShopifyError::InvalidCustomerId(detail) => FailureView {
                kind: ErrorKind::Shopify(ShopifyErrorKind::InvalidCustomerId),
                detail: detail@,
            },
        }
    }
}

/// The message of a failure of kind `kind` with detail `detail`: the words
/// that belong to the kind, and then the detail, as it is.
pub open spec fn shopify_message(kind: ShopifyErrorKind, detail: Seq<char>) -> Seq<char> {
    match kind {
        ShopifyErrorKind::ResponseSerializeError => "Failed to serialize response: "@ + detail,
        ShopifyErrorKind::HttpError => "HTTP error: "@ + detail,
        ShopifyErrorKind::ApiError => "API error: "@ + detail,
        ShopifyErrorKind::InvalidInput => "Invalid input: "@ + detail,
        ShopifyErrorKind::MissingShopifyDomain => "Missing Shopify Domain"@ + detail,
        ShopifyErrorKind::MissingShopifyAccessToken => "Missing Shopify Access Token"@ + detail,
        ShopifyErrorKind::InvalidProductId => "Invalid Product ID: "@ + detail,
        ShopifyErrorKind::InvalidOrderId => "Invalid Order ID: "@ + detail,
        ShopifyErrorKind::InvalidCustomerId => "Invalid Customer ID: "@ + detail,
    }
}

impl McpShopifyError {
    /// The kind of this failure.
    pub fn kind(&self) -> (kind: ShopifyErrorKind)
        ensures
            self@.kind == ErrorKind::Shopify(kind),
    {
        match self {
            McpShopifyError::ResponseSerializeError(_) => ShopifyErrorKind::ResponseSerializeError,
            McpShopifyError::HttpError(_) => ShopifyErrorKind::HttpError,
            McpShopifyError::ApiError(_) => ShopifyErrorKind::ApiError,
            McpShopifyError::InvalidInput(_) => ShopifyErrorKind::InvalidInput,
            McpShopifyError::MissingShopifyDomain => ShopifyErrorKind::MissingShopifyDomain,
            McpShopifyError::MissingShopifyAccessToken =>
                ShopifyErrorKind::MissingShopifyAccessToken,
            McpShopifyError::InvalidProductId(_) => ShopifyErrorKind::InvalidProductId,
            McpShopifyError::InvalidOrderId(_) => ShopifyErrorKind::InvalidOrderId,
            McpShopifyError::InvalidCustomerId(_) => ShopifyErrorKind::InvalidCustomerId,
        }
    }

    /// The message for people.
    pub fn message(&self) -> (message: String)
        ensures
            self@.kind matches ErrorKind::Shopify(kind) && message@ == shopify_message(
                kind,
                self@.detail,
            ),
    {
        match self {
            McpShopifyError::ResponseSerializeError(detail) => concat(
                "Failed to serialize response: ",
                detail.as_str(),
            ),
            McpShopifyError::HttpError(detail) => concat("HTTP error: ", detail.as_str()),
            McpShopifyError::ApiError(detail) => concat("API error: ", detail.as_str()),
            McpShopifyError::InvalidInput(detail) => concat("Invalid input: ", detail.as_str()),
            McpShopifyError::MissingShopifyDomain => {
                let message = String::from_str("Missing Shopify Domain");
                proof {
                    assert(message@ + Seq::<char>::empty() =~= message@);
                }
                message
            },
            McpShopifyError::MissingShopifyAccessToken => {
                let message = String::from_str("Missing Shopify Access Token");
                proof {
                    assert(message@ + Seq::<char>::empty() =~= message@);
                }
                message
            },
            McpShopifyError::InvalidProductId(detail) => concat(
                "Invalid Product ID: ",
                detail.as_str(),
            ),
            McpShopifyError::InvalidOrderId(detail) => concat(
                "Invalid Order ID: ",
                detail.as_str(),
            ),
            McpShopifyError::InvalidCustomerId(detail) => concat(
                "Invalid Customer ID: ",
                detail.as_str(),
            ),
        }
    }

    /// This failure in the uniform shape: the same kind, and a message that
    /// ends in the detail.
    pub fn normalize(&self) -> (error: NormalizedError)
        ensures
            self@.kind matches ErrorKind::Shopify(kind) && error@ == (NormalizedErrorView {
                domain: "shopify"@,
                kind: self@.kind,
                message: shopify_message(kind, self@.detail),
            }),
    {
        NormalizedError {
            domain: String::from_str("shopify"),
            kind: ErrorKind::Shopify(self.kind()),
            message: self.message(),
        }
    }
}

} // verus!
