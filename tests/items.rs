use newswrap::errors::{HackerNewsClientError, HackerNewsResult};
use newswrap::items::comments::HackerNewsComment;
use newswrap::items::jobs::HackerNewsJob;
use newswrap::items::poll_options::HackerNewsPollOption;
use newswrap::items::polls::HackerNewsPoll;
use newswrap::items::stories::HackerNewsStory;
use newswrap::items::{parse_item_type, HackerNewsItem, HackerNewsItemType, ItemRecord};

fn record(id: u32, kind: Option<&str>) -> ItemRecord {
    ItemRecord {
        id,
        deleted: None,
        response_type: kind.map(|k| k.to_string()),
        by: None,
        time: None,
        dead: None,
        parent: None,
        poll: None,
        kids: None,
        url: None,
        score: None,
        title: None,
        text: None,
        parts: None,
        descendants: None,
    }
}

fn item(id: u32, kind: &str) -> HackerNewsItem {
    HackerNewsItem::decode(record(id, Some(kind)))
}

fn dropbox_story() -> HackerNewsItem {
    let mut r = record(8863, Some("story"));
    r.by = Some("dhouston".to_string());
    r.descendants = Some(71);
    r.kids = Some(vec![8952, 9224, 8917, 8884, 8887]);
    r.score = Some(111);
    r.time = Some(1175714200);
    r.title = Some("My YC app: Dropbox - Throw away your USB drive".to_string());
    r.url = Some("http://www.getdropbox.com/u/2/screencast.html".to_string());
    HackerNewsItem::decode(r)
}

fn kind_of(token: &str) -> HackerNewsItemType {
    parse_item_type(token)
}

fn is_mismatch<T>(
    r: &HackerNewsResult<T>,
    expected: HackerNewsItemType,
    actual: HackerNewsItemType,
) -> bool {
    match r {
        Err(HackerNewsClientError::InvalidTypeMapping(e, a)) => *e == expected && *a == actual,
        _ => false,
    }
}

#[test]
fn item_endpoints_should_return_ok_when_item_is_valid() {
    let item = dropbox_story();
    assert_eq!(item.id, 8863);
    assert!(item.is_story());
    let story = HackerNewsStory::from_item(item);
    assert!(story.is_ok());
}

#[test]
fn return_ok_when_using_typed_clients() {
    let story = HackerNewsStory::from_item(dropbox_story()).unwrap();
    assert_eq!(story.id, 8863);
    assert_eq!(story.score, 111);
    assert_eq!(story.title, "My YC app: Dropbox - Throw away your USB drive");
    assert_eq!(story.number_of_comments, 71);
    assert_eq!(story.comments, vec![8952, 9224, 8917, 8884, 8887]);
    assert_eq!(story.by, "dhouston");
    assert_eq!(story.text, "");
    assert_eq!(story.created_at.unix_seconds, 1175714200);
}

#[test]
fn story_without_counts_defaults_to_zero_and_empty() {
    let story = HackerNewsStory::from_item(item(8863, "story")).unwrap();
    assert_eq!(story.number_of_comments, 0);
    assert!(story.comments.is_empty());
    assert_eq!(story.score, 0);
    assert_eq!(story.title, "");
    assert_eq!(story.url, "");
    assert_eq!(story.created_at.unix_seconds, 0);
}

#[test]
fn return_err_on_invalid_typed_client() {
    let poll = HackerNewsPoll::from_item(item(69, "comment"));
    assert!(poll.is_err());
    assert!(is_mismatch(&poll, HackerNewsItemType::Poll, HackerNewsItemType::Comment));
}

#[test]
fn discriminator_ignores_case() {
    for token in ["story", "STORY", "Story", "sToRy"] {
        assert_eq!(kind_of(token), HackerNewsItemType::Story);
    }
    assert_eq!(kind_of("COMMENT"), HackerNewsItemType::Comment);
    assert_eq!(kind_of("Job"), HackerNewsItemType::Job);
    assert_eq!(kind_of("POLL"), HackerNewsItemType::Poll);
    assert_eq!(kind_of("PollOpt"), HackerNewsItemType::PollOption);
    assert_eq!(kind_of("pollopt"), HackerNewsItemType::PollOption);
}

#[test]
fn discriminator_resolves_anything_else_to_unknown() {
    for token in ["", "stories", "stor", " story", "poll-opt", "pollOption", "user", "ſtory"] {
        assert_eq!(kind_of(token), HackerNewsItemType::Unknown);
    }
    let untyped = HackerNewsItem::decode(record(1, None));
    assert_eq!(untyped.get_item_type(), HackerNewsItemType::Unknown);
    assert!(!untyped.is_story());
}

#[test]
fn predicates_agree_with_item_type() {
    let tokens = ["comment", "job", "poll", "pollopt", "story", "other"];
    for token in tokens {
        let it = item(1, token);
        let kind = it.get_item_type();
        assert_eq!(it.is_comment(), kind == HackerNewsItemType::Comment);
        assert_eq!(it.is_job(), kind == HackerNewsItemType::Job);
        assert_eq!(it.is_poll(), kind == HackerNewsItemType::Poll);
        assert_eq!(it.is_poll_option(), kind == HackerNewsItemType::PollOption);
        assert_eq!(it.is_story(), kind == HackerNewsItemType::Story);
    }
}

#[test]
fn narrowing_twice_gives_equal_results() {
    let first = HackerNewsStory::from_item(dropbox_story()).unwrap();
    let second = HackerNewsStory::from_item(dropbox_story()).unwrap();
    assert_eq!(first.id, second.id);
    assert_eq!(first.number_of_comments, second.number_of_comments);
    assert_eq!(first.comments, second.comments);
    assert_eq!(first.score, second.score);
    assert_eq!(first.created_at, second.created_at);
    assert_eq!(first.title, second.title);
    assert_eq!(first.url, second.url);
    assert_eq!(first.by, second.by);
    assert_eq!(first.text, second.text);
    let a = HackerNewsJob::from_item(item(69, "comment"));
    let b = HackerNewsJob::from_item(item(69, "comment"));
    assert!(is_mismatch(&a, HackerNewsItemType::Job, HackerNewsItemType::Comment));
    assert!(is_mismatch(&b, HackerNewsItemType::Job, HackerNewsItemType::Comment));
}

#[test]
fn decoding_keeps_present_fields_and_leaves_absent_ones_absent() {
    let mut r = record(126809, Some("poll"));
    r.deleted = Some(false);
    r.dead = Some(true);
    r.by = Some("pg".to_string());
    r.time = Some(1204403652);
    r.parts = Some(vec![126810, 126811, 126812]);
    r.kids = Some(vec![126822, 126823]);
    r.text = Some("<i>text</i>".to_string());
    r.score = Some(46);
    r.descendants = Some(54);
    r.title = Some("Poll: What would happen if News.YC had explicit support for polls?".to_string());
    let it = HackerNewsItem::decode(r);
    assert_eq!(it.id, 126809);
    assert_eq!(it.deleted, Some(false));
    assert_eq!(it.dead, Some(true));
    assert_eq!(it.response_type.as_deref(), Some("poll"));
    assert_eq!(it.by.as_deref(), Some("pg"));
    assert_eq!(it.created_at.unix_seconds, 1204403652);
    assert_eq!(it.parts, Some(vec![126810, 126811, 126812]));
    assert_eq!(it.kids, Some(vec![126822, 126823]));
    assert_eq!(it.text.as_deref(), Some("<i>text</i>"));
    assert_eq!(it.score, Some(46));
    assert_eq!(it.descendants, Some(54));
    assert!(it.url.is_none());
    assert!(it.parent.is_none());
    assert!(it.poll.is_none());
}

#[test]
fn decoding_a_missing_time_gives_the_epoch() {
    let it = HackerNewsItem::decode(record(5, Some("job")));
    assert_eq!(it.created_at.unix_seconds, 0);
    let mut r = record(5, Some("job"));
    r.time = Some(-86400);
    assert_eq!(HackerNewsItem::decode(r).created_at.unix_seconds, -86400);
}

#[test]
fn mismatched_kinds_are_refused_for_every_pair() {
    let kinds = [
        ("comment", HackerNewsItemType::Comment),
        ("job", HackerNewsItemType::Job),
        ("poll", HackerNewsItemType::Poll),
        ("pollopt", HackerNewsItemType::PollOption),
        ("story", HackerNewsItemType::Story),
    ];
    for (token, actual) in kinds {
        let full = || {
            let mut r = record(7, Some(token));
            r.parent = Some(1);
            r.poll = Some(2);
            HackerNewsItem::decode(r)
        };
        let story = HackerNewsStory::from_item(full());
        let comment = HackerNewsComment::from_item(full());
        let job = HackerNewsJob::from_item(full());
        let poll = HackerNewsPoll::from_item(full());
        let option = HackerNewsPollOption::from_item(full());
        assert_eq!(story.is_ok(), actual == HackerNewsItemType::Story);
        assert_eq!(comment.is_ok(), actual == HackerNewsItemType::Comment);
        assert_eq!(job.is_ok(), actual == HackerNewsItemType::Job);
        assert_eq!(poll.is_ok(), actual == HackerNewsItemType::Poll);
        assert_eq!(option.is_ok(), actual == HackerNewsItemType::PollOption);
        if actual != HackerNewsItemType::Story {
            assert!(is_mismatch(&story, HackerNewsItemType::Story, actual));
        }
        if actual != HackerNewsItemType::Comment {
            assert!(is_mismatch(&comment, HackerNewsItemType::Comment, actual));
        }
        if actual != HackerNewsItemType::Job {
            assert!(is_mismatch(&job, HackerNewsItemType::Job, actual));
        }
        if actual != HackerNewsItemType::Poll {
            assert!(is_mismatch(&poll, HackerNewsItemType::Poll, actual));
        }
        if actual != HackerNewsItemType::PollOption {
            assert!(is_mismatch(&option, HackerNewsItemType::PollOption, actual));
        }
    }
}

#[test]
fn unknown_items_are_refused_by_every_kind() {
    let story = HackerNewsStory::from_item(item(3, "tombstone"));
    assert!(is_mismatch(&story, HackerNewsItemType::Story, HackerNewsItemType::Unknown));
    let option = HackerNewsPollOption::from_item(HackerNewsItem::decode(record(3, None)));
    assert!(is_mismatch(&option, HackerNewsItemType::PollOption, HackerNewsItemType::Unknown));
}

#[test]
fn poll_option_without_poll_is_refused_with_its_id() {
    let option = HackerNewsPollOption::from_item(item(160705, "pollopt"));
    assert!(matches!(option, Err(HackerNewsClientError::AssociatedParentNotFound(160705))));
}

#[test]
fn comment_without_parent_is_refused_with_its_id() {
    let comment = HackerNewsComment::from_item(item(2921983, "comment"));
    assert!(matches!(comment, Err(HackerNewsClientError::AssociatedParentNotFound(2921983))));
}

#[test]
fn comment_keeps_its_fields() {
    let mut r = record(2921983, Some("comment"));
    r.by = Some("norvig".to_string());
    r.kids = Some(vec![2922097, 2922429]);
    r.parent = Some(2921506);
    r.text = Some("Aw shucks".to_string());
    r.time = Some(1314211127);
    let c = HackerNewsComment::from_item(HackerNewsItem::decode(r)).unwrap();
    assert_eq!(c.id, 2921983);
    assert_eq!(c.parent_story, 2921506);
    assert_eq!(c.sub_comments, vec![2922097, 2922429]);
    assert_eq!(c.text, "Aw shucks");
    assert_eq!(c.by, "norvig");
    assert_eq!(c.created_at.unix_seconds, 1314211127);
}

#[test]
fn job_keeps_its_fields() {
    let mut r = record(192327, Some("job"));
    r.by = Some("justin".to_string());
    r.score = Some(6);
    r.text = Some("Justin.tv is looking".to_string());
    r.title = Some("Justin.tv is looking for a Lead Flash Engineer!".to_string());
    let j = HackerNewsJob::from_item(HackerNewsItem::decode(r)).unwrap();
    assert_eq!(j.id, 192327);
    assert_eq!(j.score, 6);
    assert_eq!(j.by, "justin");
    assert_eq!(j.text, "Justin.tv is looking");
    assert_eq!(j.title, "Justin.tv is looking for a Lead Flash Engineer!");
    assert_eq!(j.url, "");
}

#[test]
fn poll_and_option_keep_their_fields() {
    let mut r = record(126809, Some("poll"));
    r.parts = Some(vec![126810, 126811]);
    r.kids = Some(vec![126822]);
    r.descendants = Some(54);
    r.score = Some(46);
    let p = HackerNewsPoll::from_item(HackerNewsItem::decode(r)).unwrap();
    assert_eq!(p.id, 126809);
    assert_eq!(p.poll_options, vec![126810, 126811]);
    assert_eq!(p.comments, vec![126822]);
    assert_eq!(p.participants, 54);
    assert_eq!(p.score, 46);
    assert_eq!(p.title, "");

    let mut r = record(160705, Some("pollopt"));
    r.poll = Some(160704);
    r.score = Some(335);
    r.text = Some("Yes, ban them".to_string());
    let o = HackerNewsPollOption::from_item(HackerNewsItem::decode(r)).unwrap();
    assert_eq!(o.id, 160705);
    assert_eq!(o.poll, 160704);
    assert_eq!(o.score, 335);
    assert_eq!(o.text, "Yes, ban them");
    assert_eq!(o.by, "");
}

#[test]
fn implicit_conversion_refuses_the_item_with_its_kind() {
    let r: HackerNewsResult<HackerNewsStory> = item(69, "comment").into();
    assert!(matches!(
        r,
        Err(HackerNewsClientError::ImplicitConversionError(HackerNewsItemType::Comment))
    ));
}

fn infallible_text() -> HackerNewsResult<String> {
    let text = <String as std::str::FromStr>::from_str("8863")?;
    Ok(text)
}

#[test]
fn infallible_conversions_pass_their_value_through() {
    assert_eq!(infallible_text().unwrap(), "8863");
}
