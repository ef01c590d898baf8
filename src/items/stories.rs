//! Stories listed on the Hacker News homepage and all associated data.
use vstd::prelude::*;

use crate::errors::{HackerNewsClientError, HackerNewsResult};
use crate::items::{
    count_or_zero, ids_or_empty, item_type_of, take_count, take_ids, take_text, text_or_empty,
    HackerNewsItem, HackerNewsItemType, ItemView,
};
use crate::timestamp::Timestamp;
use crate::HackerNewsID;

verus! {

/// Represents a Hacker News story and all associated data to it including author, text, and child comments.
#[derive(Debug)]
pub struct HackerNewsStory {
    /// The item's unique id.
    pub id: HackerNewsID,
    /// The total comment count.
    pub number_of_comments: u32,
    /// A list of associated child comment IDs.
    pub comments: Vec<HackerNewsID>,
    /// The story's total number of upvotes.
    pub score: u32,
    /// Creation date of the story.
    pub created_at: Timestamp,
    /// Title of the story.
    pub title: String,
    /// URL of the story.
    pub url: String,
    /// Username of the story poster.
    pub by: String,
    /// Text associated to the story.
    pub text: String,
}

/// The contents of a [`HackerNewsStory`].
pub struct StoryView {
    pub id: HackerNewsID,
    pub number_of_comments: u32,
    pub comments: Seq<HackerNewsID>,
    pub score: u32,
    pub created_at: i64,
    pub title: Seq<char>,
    pub url: Seq<char>,
    pub by: Seq<char>,
    pub text: Seq<char>,
}

impl View for HackerNewsStory {
    type V = StoryView;

    open spec fn view(&self) -> StoryView {
        StoryView {
            id: self.id,
            number_of_comments: self.number_of_comments,
            comments: self.comments@,
            score: self.score,
            created_at: self.created_at.unix_seconds,
            title: self.title@,
            url: self.url@,
            by: self.by@,
            text: self.text@,
        }
    }
}

/// The story that an item narrows to: an item whose discriminator names a story
/// gives its fields, with absent ones empty or zero; any other item is refused with
/// the kind that it names.
pub open spec fn story_of(item: ItemView) -> Result<StoryView, HackerNewsClientError> {
    let kind = item_type_of(item.response_type);
    if kind != HackerNewsItemType::Story {
        Err(HackerNewsClientError::InvalidTypeMapping(HackerNewsItemType::Story, kind))
    } else {
        Ok(
            StoryView {
                id: item.id,
                number_of_comments: count_or_zero(item.descendants),
                comments: ids_or_empty(item.kids),
                score: count_or_zero(item.score),
                created_at: item.created_at,
                title: text_or_empty(item.title),
                url: text_or_empty(item.url),
                by: text_or_empty(item.by),
                text: text_or_empty(item.text),
            },
        )
    }
}

impl HackerNewsStory {
    /// Narrows a generic item into a story.
    pub fn from_item(item: HackerNewsItem) -> (r: HackerNewsResult<HackerNewsStory>)
        ensures
            crate::items::result_view(r) == story_of(item@),
    {
        let kind = item.get_item_type();
        if kind != HackerNewsItemType::Story {
            return Err(HackerNewsClientError::InvalidTypeMapping(HackerNewsItemType::Story, kind));
        }
        Ok(
            HackerNewsStory {
                id: item.id,
                number_of_comments: take_count(item.descendants),
                comments: take_ids(item.kids),
                score: take_count(item.score),
                created_at: item.created_at,
                title: take_text(item.title),
                url: take_text(item.url),
                by: take_text(item.by),
                text: take_text(item.text),
            },
        )
    }
}

} // verus!
