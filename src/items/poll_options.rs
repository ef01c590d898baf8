//! Poll options: the choices of a poll.
use vstd::prelude::*;

use crate::errors::{HackerNewsClientError, HackerNewsResult};
use crate::items::{
    count_or_zero, item_type_of, take_count, take_text, text_or_empty, HackerNewsItem, HackerNewsItemType, ItemView,
};
use crate::timestamp::Timestamp;
use crate::HackerNewsID;

verus! {

/// Represents a Hacker News poll option and all associated data to it including the parent poll and author.
#[derive(Debug)]
pub struct HackerNewsPollOption {
    /// The item's unique id.
    pub id: HackerNewsID,
    /// The parent poll ID of the poll option.
    pub poll: HackerNewsID,
    /// The number of votes for the option.
    pub score: u32,
    /// Creation date of the option.
    pub created_at: Timestamp,
    /// The option's text.
    pub text: String,
    /// Username of the option's author.
    pub by: String,
}

/// The contents of a [`HackerNewsPollOption`].
pub struct PollOptionView {
    pub id: HackerNewsID,
    pub poll: HackerNewsID,
    pub score: u32,
    pub created_at: i64,
    pub text: Seq<char>,
    pub by: Seq<char>,
}

impl View for HackerNewsPollOption {
    type V = PollOptionView;

    open spec fn view(&self) -> PollOptionView {
        PollOptionView {
            id: self.id,
            poll: self.poll,
            score: self.score,
            created_at: self.created_at.unix_seconds,
            text: self.text@,
            by: self.by@,
        }
    }
}

/// The poll option that an item narrows to. An item whose discriminator names
/// another kind is refused with that kind; an option without a poll is refused with
/// its ID; otherwise the item's fields are kept, with absent ones empty or zero.
pub open spec fn poll_option_of(item: ItemView) -> Result<PollOptionView, HackerNewsClientError> {
    let kind = item_type_of(item.response_type);
    if kind != HackerNewsItemType::PollOption {
        Err(HackerNewsClientError::InvalidTypeMapping(HackerNewsItemType::PollOption, kind))
    } else if item.poll is None {
        Err(HackerNewsClientError::AssociatedParentNotFound(item.id))
    } else {
        Ok(
            PollOptionView {
                id: item.id,
                poll: item.poll->Some_0,
                score: count_or_zero(item.score),
                created_at: item.created_at,
                text: text_or_empty(item.text),
                by: text_or_empty(item.by),
            },
        )
    }
}

impl HackerNewsPollOption {
    /// Narrows a generic item into a poll option.
    pub fn from_item(item: HackerNewsItem) -> (r: HackerNewsResult<HackerNewsPollOption>)
        ensures
            crate::items::result_view(r) == poll_option_of(item@),
    {
        let kind = item.get_item_type();
        if kind != HackerNewsItemType::PollOption {
            return Err(
                HackerNewsClientError::InvalidTypeMapping(HackerNewsItemType::PollOption, kind),
            );
        }
        let poll = match item.poll {
            Some(poll) => poll,
            None => {
                return Err(HackerNewsClientError::AssociatedParentNotFound(item.id));
            },
        };
        Ok(
            HackerNewsPollOption {
                id: item.id,
                poll,
                score: take_count(item.score),
                created_at: item.created_at,
                text: take_text(item.text),
                by: take_text(item.by),
            },
        )
    }
}

} // verus!
