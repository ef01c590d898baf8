//! The generic item record shared by stories, comments, jobs, polls and poll options,
//! and the resolution of its kind discriminator.
use vstd::prelude::*;

use crate::timestamp::{decoded_seconds, Timestamp};
use crate::HackerNewsID;

pub mod comments;
pub mod jobs;
pub mod narrowing;
pub mod poll_options;
pub mod polls;
pub mod stories;

verus! {

/// The path of the item endpoint.
pub const ITEM_ENDPOINT: &'static str = "item";

/// The discriminator token of comments.
pub const ITEM_TYPE_COMMENT: &'static str = "comment";

/// The discriminator token of job listings.
pub const ITEM_TYPE_JOB: &'static str = "job";

/// The discriminator token of polls.
pub const ITEM_TYPE_POLL: &'static str = "poll";

/// The discriminator token of poll options.
pub const ITEM_TYPE_POLL_OPTION: &'static str = "pollopt";

/// The discriminator token of stories.
pub const ITEM_TYPE_STORY: &'static str = "story";

/// The kind of an item, resolved from its discriminator.
#[derive(Debug, Clone, Copy, PartialEq, Eq, Structural)]
pub enum HackerNewsItemType {
    /// The comment type, representing comments on articles and users.
    Comment,
    /// The job type, representing job listing.
    Job,
    /// The poll type, representing story polls.
    Poll,
    /// The poll option type, representing associated choices on a poll.
    PollOption,
    /// The story type, representing homepage story posts.
    Story,
    /// An unknown type in the case a match is not found for the item type.
    Unknown,
}

/// A character with ASCII upper case letters mapped to lower case, as a code point.
pub open spec fn ascii_fold(c: char) -> u32 {
    if 'A' <= c && c <= 'Z' {
        (c as u32 + 32) as u32
    } else {
        c as u32
    }
}

/// A text with ASCII upper case letters mapped to lower case, as code points.
pub open spec fn ascii_folded(s: Seq<char>) -> Seq<u32> {
    s.map_values(|c: char| ascii_fold(c))
}

/// Whether two texts are equal once ASCII letter case is ignored.
pub open spec fn eq_ignoring_ascii_case(a: Seq<char>, b: Seq<char>) -> bool {
    ascii_folded(a) == ascii_folded(b)
}

/// The kind that a discriminator text names: one of the five tokens, matched exactly
/// but for ASCII letter case, or `Unknown`.
pub open spec fn item_type_of_text(s: Seq<char>) -> HackerNewsItemType {
    if eq_ignoring_ascii_case(s, ITEM_TYPE_COMMENT@) {
        HackerNewsItemType::Comment
    } else if eq_ignoring_ascii_case(s, ITEM_TYPE_JOB@) {
        HackerNewsItemType::Job
    } else if eq_ignoring_ascii_case(s, ITEM_TYPE_POLL@) {
        HackerNewsItemType::Poll
    } else if eq_ignoring_ascii_case(s, ITEM_TYPE_POLL_OPTION@) {
        HackerNewsItemType::PollOption
    } else if eq_ignoring_ascii_case(s, ITEM_TYPE_STORY@) {
        HackerNewsItemType::Story
    } else {
        HackerNewsItemType::Unknown
    }
}

/// The kind of an item with the given optional discriminator.
pub open spec fn item_type_of(raw: Option<Seq<char>>) -> HackerNewsItemType {
    match raw {
        Some(s) => item_type_of_text(s),
        None => HackerNewsItemType::Unknown,
    }
}

/// Whether two characters are equal, or the same ASCII letter in two cases.
pub open spec fn same_letter(x: char, y: char) -> bool {
    ||| x == y
    ||| ('A' <= x && x <= 'Z' && y as u32 == x as u32 + 32)
    ||| ('A' <= y && y <= 'Z' && x as u32 == y as u32 + 32)
}

/// Whether `b` is `a` with the case of some of its ASCII letters changed.
pub open spec fn is_case_permutation(a: Seq<char>, b: Seq<char>) -> bool {
    &&& a.len() == b.len()
    &&& forall|i: int| 0 <= i < a.len() ==> #[trigger] same_letter(a[i], b[i])
}

/// The discriminator ignores letter case: a text and any case permutation of it
/// resolve to the same kind.
pub proof fn lemma_item_type_ignores_case(a: Seq<char>, b: Seq<char>)
    requires
        is_case_permutation(a, b),
    ensures
        item_type_of_text(a) == item_type_of_text(b),
{
    assert forall|i: int| 0 <= i < a.len() implies ascii_fold(a[i]) == ascii_fold(b[i]) by {
        assert(same_letter(a[i], b[i]));
    }
    assert(ascii_folded(a) =~= ascii_folded(b));
}

/// Each of the five tokens resolves to its own kind, and a text that matches none of
/// them, in any case, resolves to `Unknown`.
pub proof fn lemma_tokens_resolve(s: Seq<char>)
    ensures
        item_type_of_text(ITEM_TYPE_COMMENT@) == HackerNewsItemType::Comment,
        item_type_of_text(ITEM_TYPE_JOB@) == HackerNewsItemType::Job,
        item_type_of_text(ITEM_TYPE_POLL@) == HackerNewsItemType::Poll,
        item_type_of_text(ITEM_TYPE_POLL_OPTION@) == HackerNewsItemType::PollOption,
        item_type_of_text(ITEM_TYPE_STORY@) == HackerNewsItemType::Story,
        !eq_ignoring_ascii_case(s, ITEM_TYPE_COMMENT@) && !eq_ignoring_ascii_case(s, ITEM_TYPE_JOB@)
            && !eq_ignoring_ascii_case(s, ITEM_TYPE_POLL@) && !eq_ignoring_ascii_case(
            s,
            ITEM_TYPE_POLL_OPTION@,
        ) && !eq_ignoring_ascii_case(s, ITEM_TYPE_STORY@) ==> item_type_of_text(s)
            == HackerNewsItemType::Unknown,
{
    reveal_strlit("comment");
    reveal_strlit("job");
    reveal_strlit("poll");
    reveal_strlit("pollopt");
    reveal_strlit("story");
    let c = ascii_folded(ITEM_TYPE_COMMENT@);
    let j = ascii_folded(ITEM_TYPE_JOB@);
    let p = ascii_folded(ITEM_TYPE_POLL@);
    let o = ascii_folded(ITEM_TYPE_POLL_OPTION@);
    let t = ascii_folded(ITEM_TYPE_STORY@);
    assert(c[0] != j[0] && c[0] != p[0] && c[0] != o[0] && c[0] != t[0]);
    assert(j[0] != p[0] && j[0] != o[0] && j[0] != t[0]);
    assert(p.len() != o.len() && p[0] != t[0] && o[0] != t[0]);
}

fn fold_char(c: char) -> (r: u32)
    ensures
        r == ascii_fold(c),
{
    if 'A' <= c && c <= 'Z' {
        c as u32 + 32
    } else {
        c as u32
    }
}

/// Whether `raw` equals `token` once ASCII letter case is ignored.
fn matches_ignoring_ascii_case(raw: &str, token: &str) -> (r: bool)
    ensures
        r == eq_ignoring_ascii_case(raw@, token@),
{
    let n = raw.unicode_len();
    if n != token.unicode_len() {
        return false;
    }
    let mut i: usize = 0;
    while i < n
        invariant
            n == raw@.len(),
            n == token@.len(),
            i <= n,
            forall|j: int| 0 <= j < i ==> ascii_fold(raw@[j]) == ascii_fold(token@[j]),
        decreases n - i,
    {
        if fold_char(raw.get_char(i)) != fold_char(token.get_char(i)) {
            assert(ascii_folded(raw@)[i as int] != ascii_folded(token@)[i as int]);
            return false;
        }
        i = i + 1;
    }
    assert(ascii_folded(raw@) =~= ascii_folded(token@));
    true
}

/// Resolves a discriminator text into a kind.
pub fn parse_item_type(raw: &str) -> (r: HackerNewsItemType)
    ensures
        r == item_type_of_text(raw@),
{
    if matches_ignoring_ascii_case(raw, ITEM_TYPE_COMMENT) {
        HackerNewsItemType::Comment
    } else if matches_ignoring_ascii_case(raw, ITEM_TYPE_JOB) {
        HackerNewsItemType::Job
    } else if matches_ignoring_ascii_case(raw, ITEM_TYPE_POLL) {
        HackerNewsItemType::Poll
    } else if matches_ignoring_ascii_case(raw, ITEM_TYPE_POLL_OPTION) {
        HackerNewsItemType::PollOption
    } else if matches_ignoring_ascii_case(raw, ITEM_TYPE_STORY) {
        HackerNewsItemType::Story
    } else {
        HackerNewsItemType::Unknown
    }
}

/// The kinds of media that an item can be.
#[derive(Debug, Clone, Copy, PartialEq, Eq, Structural)]
pub enum HackerNewsMediaType {
    /// Comments on stories, polls and other comments.
    Comment,
    /// Job listings.
    Job,
    /// Polls.
    Poll,
    /// The choices of a poll.
    PollOpt,
    /// Stories.
    Story,
}

/// An item as the item endpoint sends it, for any of the five kinds: every field that
/// some kind carries is optional, and the creation time is raw seconds.
#[derive(Debug)]
pub struct ItemRecord {
    /// The item's unique id.
    pub id: HackerNewsID,
    /// Flag representing item state, true if the item is deleted.
    pub deleted: Option<bool>,
    /// The discriminator: one of "job", "story", "comment", "poll" or "pollopt".
    pub response_type: Option<String>,
    /// The username of the item's author.
    pub by: Option<String>,
    /// Creation date of the item, in Unix time.
    pub time: Option<i64>,
    /// Flag representing active state, true if the item is dead.
    pub dead: Option<bool>,
    /// The comment's parent: either another comment or the relevant story.
    pub parent: Option<HackerNewsID>,
    /// The poll option's associated poll.
    pub poll: Option<HackerNewsID>,
    /// The ids of the item's comments, in ranked display order.
    pub kids: Option<Vec<HackerNewsID>>,
    /// The URL of the story.
    pub url: Option<String>,
    /// The story's score, or the votes for a poll option.
    pub score: Option<u32>,
    /// The title of the story, poll or job. HTML.
    pub title: Option<String>,
    /// The comment, story or poll text. HTML.
    pub text: Option<String>,
    /// The poll's options, in display order.
    pub parts: Option<Vec<HackerNewsID>>,
    /// In the case of stories or polls, the total comment count.
    pub descendants: Option<u32>,
}

/// Represents a Hacker News item returned from the item endpoint.
#[derive(Debug)]
pub struct HackerNewsItem {
    /// The item's unique id.
    pub id: HackerNewsID,
    /// Flag representing item state, true if the item is deleted.
    pub deleted: Option<bool>,
    /// The discriminator: one of "job", "story", "comment", "poll" or "pollopt".
    pub response_type: Option<String>,
    /// The username of the item's author.
    pub by: Option<String>,
    /// Creation date of the item.
    pub created_at: Timestamp,
    /// Flag representing active state, true if the item is dead.
    pub dead: Option<bool>,
    /// The comment's parent: either another comment or the relevant story.
    pub parent: Option<HackerNewsID>,
    /// The poll option's associated poll.
    pub poll: Option<HackerNewsID>,
    /// The ids of the item's comments, in ranked display order.
    pub kids: Option<Vec<HackerNewsID>>,
    /// The URL of the story.
    pub url: Option<String>,
    /// The story's score, or the votes for a poll option.
    pub score: Option<u32>,
    /// The title of the story, poll or job. HTML.
    pub title: Option<String>,
    /// The comment, story or poll text. HTML.
    pub text: Option<String>,
    /// The poll's options, in display order.
    pub parts: Option<Vec<HackerNewsID>>,
    /// In the case of stories or polls, the total comment count.
    pub descendants: Option<u32>,
}

/// The contents of a [`HackerNewsItem`].
pub struct ItemView {
    pub id: HackerNewsID,
    pub deleted: Option<bool>,
    pub response_type: Option<Seq<char>>,
    pub by: Option<Seq<char>>,
    pub created_at: i64,
    pub dead: Option<bool>,
    pub parent: Option<HackerNewsID>,
    pub poll: Option<HackerNewsID>,
    pub kids: Option<Seq<HackerNewsID>>,
    pub url: Option<Seq<char>>,
    pub score: Option<u32>,
    pub title: Option<Seq<char>>,
    pub text: Option<Seq<char>>,
    pub parts: Option<Seq<HackerNewsID>>,
    pub descendants: Option<u32>,
}

/// The contents of an optional text.
pub open spec fn text_view(o: Option<String>) -> Option<Seq<char>> {
    match o {
        Some(s) => Some(s@),
        None => None,
    }
}

/// The contents of an optional list of IDs.
pub open spec fn ids_view(o: Option<Vec<HackerNewsID>>) -> Option<Seq<HackerNewsID>> {
    match o {
        Some(v) => Some(v@),
        None => None,
    }
}

/// An optional text, or the empty text where it is absent.
pub open spec fn text_or_empty(o: Option<Seq<char>>) -> Seq<char> {
    match o {
        Some(s) => s,
        None => Seq::empty(),
    }
}

/// An optional list of IDs, or the empty list where it is absent.
pub open spec fn ids_or_empty(o: Option<Seq<HackerNewsID>>) -> Seq<HackerNewsID> {
    match o {
        Some(s) => s,
        None => Seq::empty(),
    }
}

/// An optional count, or zero where it is absent.
pub open spec fn count_or_zero(o: Option<u32>) -> u32 {
    match o {
        Some(n) => n,
        None => 0,
    }
}

/// The result of a fallible conversion, with a successful value replaced by its view.
pub open spec fn result_view<T: View, E>(r: Result<T, E>) -> Result<T::V, E> {
    match r {
        Ok(t) => Ok(t@),
        Err(e) => Err(e),
    }
}

impl View for HackerNewsItem {
    type V = ItemView;

    open spec fn view(&self) -> ItemView {
        ItemView {
            id: self.id,
            deleted: self.deleted,
            response_type: text_view(self.response_type),
            by: text_view(self.by),
            created_at: self.created_at.unix_seconds,
            dead: self.dead,
            parent: self.parent,
            poll: self.poll,
            kids: ids_view(self.kids),
            url: text_view(self.url),
            score: self.score,
            title: text_view(self.title),
            text: text_view(self.text),
            parts: ids_view(self.parts),
            descendants: self.descendants,
        }
    }
}

pub(crate) fn take_text(o: Option<String>) -> (r: String)
    ensures
        r@ == text_or_empty(text_view(o)),
{
    match o {
        Some(s) => s,
        None => String::new(),
    }
}

pub(crate) fn take_ids(o: Option<Vec<HackerNewsID>>) -> (r: Vec<HackerNewsID>)
    ensures
        r@ == ids_or_empty(ids_view(o)),
{
    match o {
        Some(v) => v,
        None => Vec::new(),
    }
}

pub(crate) fn take_count(o: Option<u32>) -> (r: u32)
    ensures
        r == count_or_zero(o),
{
    match o {
        Some(n) => n,
        None => 0,
    }
}

impl HackerNewsItem {
    /// Decodes an item record: every field is kept exactly as it was sent, absent
    /// ones stay absent, and a missing creation time becomes the epoch.
    pub fn decode(record: ItemRecord) -> (r: HackerNewsItem)
        ensures
            r.id == record.id,
            r.deleted == record.deleted,
            r.response_type == record.response_type,
            r.by == record.by,
            r.created_at.unix_seconds == decoded_seconds(record.time),
            r.dead == record.dead,
            r.parent == record.parent,
            r.poll == record.poll,
            r.kids == record.kids,
            r.url == record.url,
            r.score == record.score,
            r.title == record.title,
            r.text == record.text,
            r.parts == record.parts,
            r.descendants == record.descendants,
    {
        HackerNewsItem {
            id: record.id,
            deleted: record.deleted,
            response_type: record.response_type,
            by: record.by,
            created_at: Timestamp::decode(record.time),
            dead: record.dead,
            parent: record.parent,
            poll: record.poll,
            kids: record.kids,
            url: record.url,
            score: record.score,
            title: record.title,
            text: record.text,
            parts: record.parts,
            descendants: record.descendants,
        }
    }

    fn is_item_type(&self, item_type: HackerNewsItemType) -> (r: bool)
        ensures
            r == (item_type_of(self@.response_type) == item_type),
    {
        self.get_item_type() == item_type
    }

    /// Returns a typed variant of the item type based on the response item.
    pub fn get_item_type(&self) -> (r: HackerNewsItemType)
        ensures
            r == item_type_of(self@.response_type),
    {
        match &self.response_type {
            Some(item_type) => parse_item_type(item_type.as_str()),
            None => HackerNewsItemType::Unknown,
        }
    }

    /// Determines if the item type is a comment.
    pub fn is_comment(&self) -> (r: bool)
        ensures
            r == (item_type_of(self@.response_type) == HackerNewsItemType::Comment),
    {
        self.is_item_type(HackerNewsItemType::Comment)
    }

    /// Determines if the item type is a job.
    pub fn is_job(&self) -> (r: bool)
        ensures
            r == (item_type_of(self@.response_type) == HackerNewsItemType::Job),
    {
        self.is_item_type(HackerNewsItemType::Job)
    }

    /// Determines if the item type is a poll.
    pub fn is_poll(&self) -> (r: bool)
        ensures
            r == (item_type_of(self@.response_type) == HackerNewsItemType::Poll),
    {
        self.is_item_type(HackerNewsItemType::Poll)
    }

    /// Determines if the item type is a poll option.
    pub fn is_poll_option(&self) -> (r: bool)
        ensures
            r == (item_type_of(self@.response_type) == HackerNewsItemType::PollOption),
    {
        self.is_item_type(HackerNewsItemType::PollOption)
    }

    /// Determines if the item type is a story.
    pub fn is_story(&self) -> (r: bool)
        ensures
            r == (item_type_of(self@.response_type) == HackerNewsItemType::Story),
    {
        self.is_item_type(HackerNewsItemType::Story)
    }
}

} // verus!
