//! Polls listed on Hacker News and all associated data.
use vstd::prelude::*;

use crate::errors::{HackerNewsClientError, HackerNewsResult};
use crate::items::{
    count_or_zero, ids_or_empty, item_type_of, take_count, take_ids, take_text,
    text_or_empty, HackerNewsItem, HackerNewsItemType, ItemView,
};
use crate::timestamp::Timestamp;
use crate::HackerNewsID;

verus! {

/// Represents a Hacker News poll and all associated data including comments on the poll, poll options, etc.
#[derive(Debug)]
pub struct HackerNewsPoll {
    /// The item's unique id.
    pub id: HackerNewsID,
    /// The number of comments on the poll.
    pub participants: u32,
    /// The associated comments on the poll.
    pub comments: Vec<HackerNewsID>,
    /// The associated poll choices, in display order.
    pub poll_options: Vec<HackerNewsID>,
    /// The number of upvotes on the poll.
    pub score: u32,
    /// Creation date of the poll.
    pub created_at: Timestamp,
    /// The poll title.
    pub title: String,
    /// The poll description.
    pub text: String,
    /// Username of the poll author.
    pub by: String,
}

/// The contents of a [`HackerNewsPoll`].
pub struct PollView {
    pub id: HackerNewsID,
    pub participants: u32,
    pub comments: Seq<HackerNewsID>,
    pub poll_options: Seq<HackerNewsID>,
    pub score: u32,
    pub created_at: i64,
    pub title: Seq<char>,
    pub text: Seq<char>,
    pub by: Seq<char>,
}

impl View for HackerNewsPoll {
    type V = PollView;

    open spec fn view(&self) -> PollView {
        PollView {
            id: self.id,
            participants: self.participants,
            comments: self.comments@,
            poll_options: self.poll_options@,
            score: self.score,
            created_at: self.created_at.unix_seconds,
            title: self.title@,
            text: self.text@,
            by: self.by@,
        }
    }
}

/// The poll that an item narrows to: an item whose discriminator names a poll gives
/// its fields, with absent ones empty or zero; any other item is refused with the
/// kind that it names.
pub open spec fn poll_of(item: ItemView) -> Result<PollView, HackerNewsClientError> {
    let kind = item_type_of(item.response_type);
    if kind != HackerNewsItemType::Poll {
        Err(HackerNewsClientError::InvalidTypeMapping(HackerNewsItemType::Poll, kind))
    } else {
        Ok(
            PollView {
                id: item.id,
                participants: count_or_zero(item.descendants),
                comments: ids_or_empty(item.kids),
                poll_options: ids_or_empty(item.parts),
                score: count_or_zero(item.score),
                created_at: item.created_at,
                title: text_or_empty(item.title),
                text: text_or_empty(item.text),
                by: text_or_empty(item.by),
            },
        )
    }
}

impl HackerNewsPoll {
    /// Narrows a generic item into a poll.
    pub fn from_item(item: HackerNewsItem) -> (r: HackerNewsResult<HackerNewsPoll>)
        ensures
            crate::items::result_view(r) == poll_of(item@),
    {
        let kind = item.get_item_type();
        if kind != HackerNewsItemType::Poll {
            return Err(HackerNewsClientError::InvalidTypeMapping(HackerNewsItemType::Poll, kind));
        }
        Ok(
            HackerNewsPoll {
                id: item.id,
                participants: take_count(item.descendants),
                comments: take_ids(item.kids),
                poll_options: take_ids(item.parts),
                score: take_count(item.score),
                created_at: item.created_at,
                title: take_text(item.title),
                text: take_text(item.text),
                by: take_text(item.by),
            },
        )
    }
}

} // verus!
