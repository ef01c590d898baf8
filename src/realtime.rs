//! Data of the live endpoints: the latest item ID, the story lists, and the
//! recently updated items and profiles.
use vstd::prelude::*;

use crate::errors::{HackerNewsClientError, HackerNewsResult};
use crate::HackerNewsID;

verus! {

/// Endpoint for the latest item ID.
pub const MAX_ITEM_ENDPOINT: &'static str = "maxitem";

/// Endpoint for the top stories.
pub const TOP_STORIES_ENDPOINT: &'static str = "topstories";

/// Endpoint for the newest stories.
pub const NEW_STORIES_ENDPOINT: &'static str = "newstories";

/// Endpoint for the best stories.
pub const BEST_STORIES_ENDPOINT: &'static str = "beststories";

/// Endpoint for the latest Ask HN stories.
pub const ASK_STORIES_ENDPOINT: &'static str = "askstories";

/// Endpoint for the latest Show HN stories.
pub const SHOW_STORIES_ENDPOINT: &'static str = "showstories";

/// Endpoint for the latest job stories.
pub const JOB_STORIES_ENDPOINT: &'static str = "jobstories";

/// Endpoint for updated items and profiles.
pub const UPDATES_ENDPOINT: &'static str = "updates";

/// Recently changed items and profiles from the live data endpoints.
#[derive(Debug)]
pub struct HackerNewsUpdatedItems {
    /// Represents recently updated item IDs.
    pub items: Vec<HackerNewsID>,
    /// Represents recently updated profile IDs.
    pub profiles: Vec<HackerNewsID>,
}

/// Whether a character is an ASCII decimal digit.
pub open spec fn is_digit(c: char) -> bool {
    '0' <= c && c <= '9'
}

/// The value of a run of decimal digits, most significant first.
pub open spec fn digits_value(s: Seq<char>) -> int
    decreases s.len(),
{
    if s.len() == 0 {
        0
    } else {
        digits_value(s.drop_last()) * 10 + (s.last() as int - '0' as int)
    }
}

/// A numeric text without its optional leading `+`.
pub open spec fn unsigned_digits(s: Seq<char>) -> Seq<char> {
    if s.len() > 0 && s[0] == '+' {
        s.drop_first()
    } else {
        s
    }
}

/// Whether a text reads as a `u32`: an optional `+`, then one or more decimal digits
/// whose value fits.
pub open spec fn is_u32_text(s: Seq<char>) -> bool {
    let d = unsigned_digits(s);
    &&& d.len() > 0
    &&& forall|i: int| 0 <= i < d.len() ==> is_digit(#[trigger] d[i])
    &&& digits_value(d) <= u32::MAX
}

/// Relies on `str::parse::<u32>` (`u32::from_str`): it accepts exactly an optional `+`
/// followed by one or more decimal digits whose value fits in a `u32`, and returns
/// that value; anything else is a `ParseIntError`.
#[verifier::external_body]
fn parse_u32(text: &str) -> (r: Result<u32, std::num::ParseIntError>)
    ensures
        r is Ok <==> is_u32_text(text@),
        r matches Ok(n) ==> n as int == digits_value(unsigned_digits(text@)),
{
    text.parse::<u32>()
}

/// Reads the body of an endpoint that answers with a bare ID, such as the latest
/// item ID.
pub fn parse_item_id(text: &str) -> (r: HackerNewsResult<HackerNewsID>)
    ensures
        r is Ok <==> is_u32_text(text@),
        r matches Ok(id) ==> id as int == digits_value(unsigned_digits(text@)),
        r matches Err(e) ==> e is InvalidIdentifier,
{
    match parse_u32(text) {
        Ok(id) => Ok(id),
        Err(e) => Err(HackerNewsClientError::InvalidIdentifier(e)),
    }
}

} // verus!
