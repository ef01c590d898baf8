//! Configuration shared by every request: the API version and its base URL, and
//! the default request timeout.
use vstd::prelude::*;

verus! {

/// Current URL of the API.
pub const API_BASE_URL: &'static str = "https://hacker-news.firebaseio.com/v0";

/// Default timeout for requests to the API, in seconds.
pub const DEFAULT_TIMEOUT_SECONDS: u64 = 10;

/// Version information for the Hacker News API containing the base URLs.
#[derive(Debug, Clone, Copy, PartialEq, Eq, Structural)]
pub enum ApiVersion {
    /// Represents version 0 of the Hacker News API.
    V0,
}

impl ApiVersion {
    /// The base URL of this version of the API.
    pub fn base_url(&self) -> (r: &'static str)
        ensures
            r@ == API_BASE_URL@,
    {
        match self {
            ApiVersion::V0 => API_BASE_URL,
        }
    }
}

} // verus!
