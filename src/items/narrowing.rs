//! Laws that hold of narrowing a generic item into each of the five typed kinds.
use vstd::prelude::*;

use crate::errors::HackerNewsClientError;
use crate::items::comments::{comment_of, CommentView};
use crate::items::jobs::{job_of, JobView};
use crate::items::poll_options::{poll_option_of, PollOptionView};
use crate::items::polls::{poll_of, PollView};
use crate::items::stories::{story_of, StoryView};
use crate::items::{item_type_of, HackerNewsItem, HackerNewsItemType};

verus! {

/// Narrowing has no hidden state: narrowing an item twice, or narrowing two items
/// with the same contents, into the same kind gives equal results, for every kind.
pub proof fn lemma_narrowing_is_repeatable(a: HackerNewsItem, b: HackerNewsItem)
    requires
        a@ == b@,
    ensures
        story_of(a@) == story_of(b@),
        comment_of(a@) == comment_of(b@),
        job_of(a@) == job_of(b@),
        poll_of(a@) == poll_of(b@),
        poll_option_of(a@) == poll_option_of(b@),
{
}

/// Narrowing into a kind other than the one the item's discriminator names fails
/// with `InvalidTypeMapping`, carrying the kind requested and the kind named, for
/// each of the five targets and whatever kind the item has. Narrowing into the kind
/// named succeeds, but for a comment or a poll option that lacks its parent.
pub proof fn lemma_narrowing_checks_kind(item: HackerNewsItem)
    ensures
        ({
            let kind = item_type_of(item@.response_type);
            &&& kind != HackerNewsItemType::Story ==> story_of(item@)
                == Err::<StoryView, HackerNewsClientError>(
                HackerNewsClientError::InvalidTypeMapping(HackerNewsItemType::Story, kind),
            )
            &&& kind != HackerNewsItemType::Comment ==> comment_of(item@)
                == Err::<CommentView, HackerNewsClientError>(
                HackerNewsClientError::InvalidTypeMapping(HackerNewsItemType::Comment, kind),
            )
            &&& kind != HackerNewsItemType::Job ==> job_of(item@)
                == Err::<JobView, HackerNewsClientError>(
                HackerNewsClientError::InvalidTypeMapping(HackerNewsItemType::Job, kind),
            )
            &&& kind != HackerNewsItemType::Poll ==> poll_of(item@)
                == Err::<PollView, HackerNewsClientError>(
                HackerNewsClientError::InvalidTypeMapping(HackerNewsItemType::Poll, kind),
            )
            &&& kind != HackerNewsItemType::PollOption ==> poll_option_of(item@)
                == Err::<PollOptionView, HackerNewsClientError>(
                HackerNewsClientError::InvalidTypeMapping(HackerNewsItemType::PollOption, kind),
            )
            &&& kind == HackerNewsItemType::Story ==> story_of(item@) is Ok
            &&& kind == HackerNewsItemType::Job ==> job_of(item@) is Ok
            &&& kind == HackerNewsItemType::Poll ==> poll_of(item@) is Ok
            &&& kind == HackerNewsItemType::Comment ==> (comment_of(item@) is Ok
                <==> item@.parent is Some)
            &&& kind == HackerNewsItemType::PollOption ==> (poll_option_of(item@) is Ok
                <==> item@.poll is Some)
        }),
{
}

/// A poll option without a poll, and likewise a comment without a parent, fails to
/// narrow with `AssociatedParentNotFound` carrying the item's ID.
pub proof fn lemma_orphans_are_refused(item: HackerNewsItem)
    ensures
        item_type_of(item@.response_type) == HackerNewsItemType::PollOption && item@.poll is None
            ==> poll_option_of(item@) == Err::<PollOptionView, HackerNewsClientError>(
            HackerNewsClientError::AssociatedParentNotFound(item@.id),
        ),
        item_type_of(item@.response_type) == HackerNewsItemType::Comment && item@.parent is None
            ==> comment_of(item@) == Err::<CommentView, HackerNewsClientError>(
            HackerNewsClientError::AssociatedParentNotFound(item@.id),
        ),
{
}

} // verus!
