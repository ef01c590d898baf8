//! User profiles and their derived predicates.
use vstd::prelude::*;

use crate::timestamp::Timestamp;
use crate::HackerNewsID;

verus! {

/// The path of the user endpoint.
pub const USER_ENDPOINT: &'static str = "user";

/// Represents a Hacker News user and their associated metadata.
#[derive(Debug)]
pub struct HackerNewsUser {
    /// Username of the account.
    pub id: String,
    /// Creation date of the account.
    pub created: Timestamp,
    /// The user's karma.
    pub karma: i64,
    /// The user's optional self-description. HTML.
    pub about: Option<String>,
    /// List of the user's stories, polls and comments.
    pub stories: Option<Vec<HackerNewsID>>,
}

impl HackerNewsUser {
    /// Determines if the user's about section is populated.
    pub fn has_about_section(&self) -> (r: bool)
        ensures
            r == self.about is Some,
    {
        self.about.is_some()
    }

    /// Determines if the user has related Hacker News content.
    pub fn has_related_stories(&self) -> (r: bool)
        ensures
            r == self.stories is Some,
    {
        self.stories.is_some()
    }
}

} // verus!
