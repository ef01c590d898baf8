//! Jobs listed on Hacker News and all associated data.
use vstd::prelude::*;

use crate::errors::{HackerNewsClientError, HackerNewsResult};
use crate::items::{
    count_or_zero, item_type_of, take_count, take_text, text_or_empty, HackerNewsItem, HackerNewsItemType, ItemView,
};
use crate::timestamp::Timestamp;
use crate::HackerNewsID;

verus! {

/// Represents a Hacker News job listing and all associated data to it including author, title and URL.
#[derive(Debug)]
pub struct HackerNewsJob {
    /// The item's unique id.
    pub id: HackerNewsID,
    /// The number of upvotes on the job posting.
    pub score: u32,
    /// Creation date of the job posting.
    pub created_at: Timestamp,
    /// The job listing title.
    pub title: String,
    /// The job listing description.
    pub text: String,
    /// Username of the job poster.
    pub by: String,
    /// URL of the job posting.
    pub url: String,
}

/// The contents of a [`HackerNewsJob`].
pub struct JobView {
    pub id: HackerNewsID,
    pub score: u32,
    pub created_at: i64,
    pub title: Seq<char>,
    pub text: Seq<char>,
    pub by: Seq<char>,
    pub url: Seq<char>,
}

impl View for HackerNewsJob {
    type V = JobView;

    open spec fn view(&self) -> JobView {
        JobView {
            id: self.id,
            score: self.score,
            created_at: self.created_at.unix_seconds,
            title: self.title@,
            text: self.text@,
            by: self.by@,
            url: self.url@,
        }
    }
}

/// The job that an item narrows to: an item whose discriminator names a job gives
/// its fields, with absent ones empty or zero; any other item is refused with the
/// kind that it names.
pub open spec fn job_of(item: ItemView) -> Result<JobView, HackerNewsClientError> {
    let kind = item_type_of(item.response_type);
    if kind != HackerNewsItemType::Job {
        Err(HackerNewsClientError::InvalidTypeMapping(HackerNewsItemType::Job, kind))
    } else {
        Ok(
            JobView {
                id: item.id,
                score: count_or_zero(item.score),
                created_at: item.created_at,
                title: text_or_empty(item.title),
                text: text_or_empty(item.text),
                by: text_or_empty(item.by),
                url: text_or_empty(item.url),
            },
        )
    }
}

impl HackerNewsJob {
    /// Narrows a generic item into a job listing.
    pub fn from_item(item: HackerNewsItem) -> (r: HackerNewsResult<HackerNewsJob>)
        ensures
            crate::items::result_view(r) == job_of(item@),
    {
        let kind = item.get_item_type();
        if kind != HackerNewsItemType::Job {
            return Err(HackerNewsClientError::InvalidTypeMapping(HackerNewsItemType::Job, kind));
        }
        Ok(
            HackerNewsJob {
                id: item.id,
                score: take_count(item.score),
                created_at: item.created_at,
                title: take_text(item.title),
                text: take_text(item.text),
                by: take_text(item.by),
                url: take_text(item.url),
            },
        )
    }
}

} // verus!
