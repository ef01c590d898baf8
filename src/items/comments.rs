//! Comments on stories, polls and other comments, and all associated data.
use vstd::prelude::*;

use crate::errors::{HackerNewsClientError, HackerNewsResult};
use crate::items::{
    ids_or_empty, item_type_of, take_ids, take_text, text_or_empty, HackerNewsItem, HackerNewsItemType, ItemView,
};
use crate::timestamp::Timestamp;
use crate::HackerNewsID;

verus! {

/// Represents a Hacker News comment and all associated data to it including author and child comments.
#[derive(Debug)]
pub struct HackerNewsComment {
    /// The item's unique id.
    pub id: HackerNewsID,
    /// A list of associated child comment IDs.
    pub sub_comments: Vec<HackerNewsID>,
    /// Creation date of the comment.
    pub created_at: Timestamp,
    /// The ID of the parent: the story or the comment that this comment answers.
    pub parent_story: HackerNewsID,
    /// Content of the comment.
    pub text: String,
    /// Username of the comment poster.
    pub by: String,
}

/// The contents of a [`HackerNewsComment`].
pub struct CommentView {
    pub id: HackerNewsID,
    pub sub_comments: Seq<HackerNewsID>,
    pub created_at: i64,
    pub parent_story: HackerNewsID,
    pub text: Seq<char>,
    pub by: Seq<char>,
}

impl View for HackerNewsComment {
    type V = CommentView;

    open spec fn view(&self) -> CommentView {
        CommentView {
            id: self.id,
            sub_comments: self.sub_comments@,
            created_at: self.created_at.unix_seconds,
            parent_story: self.parent_story,
            text: self.text@,
            by: self.by@,
        }
    }
}

/// The comment that an item narrows to. An item whose discriminator names another
/// kind is refused with that kind; a comment without a parent is refused with its
/// ID, as a poll option without a poll is; otherwise the item's fields are kept,
/// with absent ones empty.
pub open spec fn comment_of(item: ItemView) -> Result<CommentView, HackerNewsClientError> {
    let kind = item_type_of(item.response_type);
    if kind != HackerNewsItemType::Comment {
        Err(HackerNewsClientError::InvalidTypeMapping(HackerNewsItemType::Comment, kind))
    } else if item.parent is None {
        Err(HackerNewsClientError::AssociatedParentNotFound(item.id))
    } else {
        Ok(
            CommentView {
                id: item.id,
                sub_comments: ids_or_empty(item.kids),
                created_at: item.created_at,
                parent_story: item.parent->Some_0,
                text: text_or_empty(item.text),
                by: text_or_empty(item.by),
            },
        )
    }
}

impl HackerNewsComment {
    /// Narrows a generic item into a comment.
    pub fn from_item(item: HackerNewsItem) -> (r: HackerNewsResult<HackerNewsComment>)
        ensures
            crate::items::result_view(r) == comment_of(item@),
    {
        let kind = item.get_item_type();
        if kind != HackerNewsItemType::Comment {
            return Err(
                HackerNewsClientError::InvalidTypeMapping(HackerNewsItemType::Comment, kind),
            );
        }
        let parent_story = match item.parent {
            Some(parent) => parent,
            None => {
                return Err(HackerNewsClientError::AssociatedParentNotFound(item.id));
            },
        };
        Ok(
            HackerNewsComment {
                id: item.id,
                sub_comments: take_ids(item.kids),
                created_at: item.created_at,
                parent_story,
                text: take_text(item.text),
                by: take_text(item.by),
            },
        )
    }
}

} // verus!
