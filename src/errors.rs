//! The errors that the library reports, gathered in one recoverable error type.
use vstd::prelude::*;

use crate::items::{item_type_of, HackerNewsItem, HackerNewsItemType};
use crate::HackerNewsID;

verus! {

/// A transport failure reported by the HTTP client: a network failure, a non-success
/// response or a body that could not be decoded.
#[verifier::external_type_specification]
#[verifier::external_body]
pub struct ExRequestError(reqwest::Error);

/// A failure to read a text as an unsigned integer.
#[verifier::external_type_specification]
#[verifier::external_body]
pub struct ExParseIntError(std::num::ParseIntError);

/// A result whose error is the library's error type.
pub type HackerNewsResult<T> = Result<T, HackerNewsClientError>;

/// The errors of the client and of the conversions between item types.
#[derive(Debug)]
pub enum HackerNewsClientError {
    /// A request to Hacker News failed, or its response could not be decoded.
    RequestError(reqwest::Error),
    /// An item was narrowed into a kind that it is not: the kind requested, then the
    /// kind that the item's discriminator names.
    InvalidTypeMapping(HackerNewsItemType, HackerNewsItemType),
    /// An item lacks the parent that its kind requires; carries the item's ID.
    AssociatedParentNotFound(HackerNewsID),
    /// An item of the given kind was converted implicitly into a typed result.
    ImplicitConversionError(HackerNewsItemType),
    /// A response expected to hold an ID could not be read as one.
    InvalidIdentifier(std::num::ParseIntError),
    /// An operation that cannot fail has failed.
    InfallibleOperation,
}

/// Converting an item implicitly into a typed result refuses it, with the item's kind.
impl<T> From<HackerNewsItem> for Result<T, HackerNewsClientError> {
    fn from(value: HackerNewsItem) -> Self {
        Err(HackerNewsClientError::ImplicitConversionError(value.get_item_type()))
    }
}

impl<T> vstd::std_specs::convert::FromSpecImpl<HackerNewsItem> for Result<T, HackerNewsClientError> {
    open spec fn obeys_from_spec() -> bool {
        true
    }

    open spec fn from_spec(v: HackerNewsItem) -> Self {
        Err(HackerNewsClientError::ImplicitConversionError(item_type_of(v@.response_type)))
    }
}

/// An operation that cannot fail reports, should it ever fail, `InfallibleOperation`.
impl From<std::convert::Infallible> for HackerNewsClientError {
    fn from(_value: std::convert::Infallible) -> Self {
        HackerNewsClientError::InfallibleOperation
    }
}

impl vstd::std_specs::convert::FromSpecImpl<std::convert::Infallible> for HackerNewsClientError {
    open spec fn obeys_from_spec() -> bool {
        true
    }

    open spec fn from_spec(v: std::convert::Infallible) -> Self {
        HackerNewsClientError::InfallibleOperation
    }
}

} // verus!
