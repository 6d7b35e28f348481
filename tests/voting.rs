use std::collections::HashMap;

use link_votes::decision::{decide, VoteContext, VoteRejected};
use link_votes::keys::{get_daily_user_history, get_settings, get_user, get_vote, key_of_write};
use link_votes::plan::{WriteItem};
use link_votes::reader::{plan_vote, read_link_details, read_vote_context, vote_context_keys, VoteError};
use link_votes::records::{StorageError, StoredItem, StoredValue};
use link_votes::types::{Link, LinkDetail, Settings, User, UserHistory, UserId, Vote};
use link_votes::validate::ValidationError;

const USER: u128 = 0x550e8400_e29b_41d4_a716_446655440000;
const USER_TEXT: &str = "550e8400-e29b-41d4-a716-446655440000";

/// Totals of the aggregates, keyed by partition and sort key.
type Aggregates = HashMap<(String, String), (i64, i64)>;

fn apply(store: &mut Aggregates, plan: &[WriteItem]) {
    for w in plan {
        if let WriteItem::Update { update } = w {
            let key = key_of_write(w);
            let entry = store.entry((key.pk, key.sk)).or_insert((0, 0));
            entry.0 += update.count_change as i64;
            entry.1 += update.sum_change as i64;
        }
    }
}

fn totals(store: &Aggregates, pk: &str, sk: &str) -> (i64, i64) {
    *store.get(&(pk.to_string(), sk.to_string())).unwrap_or(&(0, 0))
}

fn vote(value: i32, created_at: &str) -> Vote {
    Vote {
        link: Link::new("abc.com"),
        value,
        user_id: UserId { bits: USER },
        created_at: created_at.to_string(),
    }
}

fn context(existing_vote: Option<Vote>) -> VoteContext {
    VoteContext {
        settings: Settings::default_settings(),
        user_exists: true,
        user_is_banned: false,
        votes_today: 0,
        existing_vote,
    }
}

fn user_key() -> String {
    format!("user:{}", USER_TEXT)
}

#[test]
fn creation_counts_the_vote_everywhere() {
    let mut store = Aggregates::new();
    let new_vote = vote(1, "2023-02-09T10:00:00Z");
    let plan = decide(&new_vote, &context(None)).unwrap();
    assert_eq!(plan.len(), 4);
    assert!(matches!(&plan[0], WriteItem::PutVote { vote, creates: true } if vote.value == 1));
    apply(&mut store, &plan);
    assert_eq!(totals(&store, "link:abc.com", "link:abc.com"), (1, 1));
    assert_eq!(totals(&store, "day:2023-02-09", &user_key()), (1, 1));
    assert_eq!(totals(&store, "day:2023-02-09", "link:abc.com"), (1, 1));
}

#[test]
fn first_vote_of_a_new_user_creates_the_user() {
    let mut ctx = context(None);
    ctx.user_exists = false;
    let plan = decide(&vote(1, "2023-02-09T10:00:00Z"), &ctx).unwrap();
    assert_eq!(plan.len(), 5);
    match &plan[0] {
        WriteItem::PutUser { user_id, created_at } => {
            assert_eq!(user_id.bits, USER);
            assert_eq!(created_at, "2023-02-09T10:00:00Z");
        },
        other => panic!("unexpected first write {:?}", other),
    }
    assert_eq!(key_of_write(&plan[0]).pk, user_key());
}

#[test]
fn same_day_edit_moves_sums_only() {
    let mut store = Aggregates::new();
    let first = vote(1, "2023-02-09T10:00:00Z");
    apply(&mut store, &decide(&first, &context(None)).unwrap());
    let (count_before, sum_before) = totals(&store, "link:abc.com", "link:abc.com");
    let plan = decide(&vote(-1, "2023-02-09T18:00:00Z"), &context(Some(first))).unwrap();
    assert!(matches!(&plan[0], WriteItem::PutVote { vote, creates: false } if vote.value == -1));
    apply(&mut store, &plan);
    assert_eq!(totals(&store, "link:abc.com", "link:abc.com"), (count_before, sum_before - 2));
    assert_eq!(totals(&store, "day:2023-02-09", &user_key()), (1, -1));
    assert_eq!(totals(&store, "day:2023-02-09", "link:abc.com"), (1, -1));
}

#[test]
fn cross_day_edit_moves_the_vote_between_days() {
    let mut store = Aggregates::new();
    let first = vote(1, "2023-02-01T10:00:00Z");
    apply(&mut store, &decide(&first, &context(None)).unwrap());
    assert_eq!(totals(&store, "day:2023-02-01", "link:abc.com"), (1, 1));
    let plan = decide(&vote(-1, "2023-02-02T08:00:00Z"), &context(Some(first))).unwrap();
    assert_eq!(plan.len(), 6);
    apply(&mut store, &plan);
    assert_eq!(totals(&store, "day:2023-02-01", "link:abc.com"), (0, 0));
    assert_eq!(totals(&store, "day:2023-02-02", "link:abc.com"), (1, -1));
    assert_eq!(totals(&store, "day:2023-02-01", &user_key()), (0, 0));
    assert_eq!(totals(&store, "day:2023-02-02", &user_key()), (1, -1));
    assert_eq!(totals(&store, "link:abc.com", "link:abc.com"), (1, -1));
}

#[test]
fn day_sums_add_up_to_the_lifetime_sum() {
    let mut store = Aggregates::new();
    let first = vote(1, "2023-02-01T10:00:00Z");
    apply(&mut store, &decide(&first, &context(None)).unwrap());
    let second = vote(-1, "2023-02-03T10:00:00Z");
    apply(&mut store, &decide(&second, &context(Some(first))).unwrap());
    let third = vote(1, "2023-02-03T11:00:00Z");
    apply(&mut store, &decide(&third, &context(Some(second))).unwrap());
    let day_sum: i64 = store
        .iter()
        .filter(|((pk, sk), _)| pk.starts_with("day:") && sk == "link:abc.com")
        .map(|(_, t)| t.1)
        .sum();
    let (count, sum) = totals(&store, "link:abc.com", "link:abc.com");
    assert_eq!((count, sum), (1, 1));
    assert_eq!(day_sum, sum);
}

#[test]
fn rate_limit_rejects_without_writes() {
    let mut ctx = context(None);
    ctx.settings = Settings { voting_is_disabled: false, maximum_votes_per_user_per_day: 10 };
    ctx.votes_today = 10;
    assert_eq!(decide(&vote(1, "2023-02-09T10:00:00Z"), &ctx).unwrap_err(), VoteRejected::RateLimited);
    ctx.votes_today = 9;
    assert!(decide(&vote(1, "2023-02-09T10:00:00Z"), &ctx).is_ok());
}

#[test]
fn policy_checks_come_in_order() {
    let mut ctx = context(None);
    ctx.user_is_banned = true;
    ctx.settings.voting_is_disabled = true;
    ctx.votes_today = 100;
    let v = vote(1, "2023-02-09T10:00:00Z");
    assert_eq!(decide(&v, &ctx).unwrap_err(), VoteRejected::Banned);
    ctx.user_is_banned = false;
    assert_eq!(decide(&v, &ctx).unwrap_err(), VoteRejected::VotingDisabled);
    ctx.settings.voting_is_disabled = false;
    assert_eq!(decide(&v, &ctx).unwrap_err(), VoteRejected::RateLimited);
    assert_eq!(VoteRejected::Banned.message(), "User is banned");
}

#[test]
fn a_refused_vote_is_refused_again_for_the_same_reason() {
    let mut ctx = context(None);
    ctx.user_is_banned = true;
    let v = vote(1, "2023-02-09T10:00:00Z");
    assert_eq!(decide(&v, &ctx).unwrap_err(), decide(&v, &ctx).unwrap_err());
    let invalid = vote(5, "2023-02-09T10:00:00Z");
    let first = plan_vote(&invalid, &vec![]).unwrap_err();
    let second = plan_vote(&invalid, &vec![]).unwrap_err();
    assert_eq!(first, VoteError::Invalid(ValidationError::InvalidVoteValue));
    assert_eq!(first, second);
}

fn s(text: &str) -> StoredValue {
    StoredValue::S(text.to_string())
}

fn n(text: &str) -> StoredValue {
    StoredValue::N(text.to_string())
}

fn item(attributes: Vec<(&str, StoredValue)>) -> StoredItem {
    StoredItem { attributes: attributes.into_iter().map(|(k, v)| (k.to_string(), v)).collect() }
}

fn settings_item(maximum: &str) -> StoredItem {
    item(vec![
        ("PK", s("settings")),
        ("SK", s("settings")),
        ("entity_type", s("Settings")),
        ("voting_is_disabled", StoredValue::Bool(false)),
        ("maximum_votes_per_user_per_day", n(maximum)),
    ])
}

fn user_history_item(count: &str) -> StoredItem {
    item(vec![
        ("PK", s("day:2023-02-09")),
        ("SK", s(&user_key())),
        ("entity_type", s("UserHistory")),
        ("count_of_votes", n(count)),
        ("sum_of_votes", n("-3")),
    ])
}

fn vote_item(value: &str, created_at: &str) -> StoredItem {
    item(vec![
        ("PK", s("link:abc.com")),
        ("SK", s(&user_key())),
        ("entity_type", s("Vote")),
        ("value", n(value)),
        ("created_at", s(created_at)),
    ])
}

#[test]
fn keys_follow_the_key_scheme() {
    let v = vote(1, "2023-02-09T10:00:00Z");
    let settings = get_settings();
    assert_eq!((settings.pk.as_str(), settings.sk.as_str()), ("settings", "settings"));
    let user = get_user(&v.user_id);
    assert_eq!(user.pk, user_key());
    assert_eq!(user.sk, user_key());
    let history = get_daily_user_history(&"2023-02-09".to_string(), &v.user_id);
    assert_eq!(history.pk, "day:2023-02-09");
    assert_eq!(history.sk, user_key());
    let vote_key = get_vote(&v);
    assert_eq!(vote_key.pk, "link:abc.com");
    assert_eq!(vote_key.sk, user_key());
    let keys = vote_context_keys(&v).unwrap();
    assert_eq!(keys.len(), 4);
    assert_eq!(keys[2].pk, "day:2023-02-09");
    assert_eq!(
        vote_context_keys(&vote(1, "yesterday")).unwrap_err(),
        ValidationError::InvalidTimestamp
    );
}

#[test]
fn records_are_read_into_the_context() {
    let items = vec![
        settings_item("10"),
        item(vec![("entity_type", s("User")), ("is_banned", StoredValue::Bool(true))]),
        user_history_item("4"),
        vote_item("-1", "2023-02-01T10:00:00Z"),
    ];
    let ctx = read_vote_context(&items).unwrap();
    assert_eq!(ctx.settings.maximum_votes_per_user_per_day, 10);
    assert!(ctx.user_exists);
    assert!(ctx.user_is_banned);
    assert_eq!(ctx.votes_today, 4);
    let existing = ctx.existing_vote.unwrap();
    assert_eq!(existing.value, -1);
    assert_eq!(existing.user_id.bits, USER);
    assert_eq!(existing.link.hostname, "abc.com");
    assert_eq!(existing.created_at, "2023-02-01T10:00:00Z");
}

#[test]
fn nothing_read_means_defaults() {
    let ctx = read_vote_context(&vec![]).unwrap();
    assert!(!ctx.settings.voting_is_disabled);
    assert_eq!(ctx.settings.maximum_votes_per_user_per_day, 10);
    assert!(!ctx.user_exists);
    assert_eq!(ctx.votes_today, 0);
    assert!(ctx.existing_vote.is_none());
}

#[test]
fn malformed_records_fail_the_read() {
    let missing = item(vec![("entity_type", s("User"))]);
    assert_eq!(read_vote_context(&vec![missing]).unwrap_err(), StorageError::MissingAttribute);
    let wrong_type = item(vec![("entity_type", s("User")), ("is_banned", s("no"))]);
    assert_eq!(read_vote_context(&vec![wrong_type]).unwrap_err(), StorageError::WrongAttributeType);
    assert_eq!(
        read_vote_context(&vec![settings_item("-1")]).unwrap_err(),
        StorageError::MalformedNumber
    );
    assert_eq!(
        read_vote_context(&vec![settings_item("4294967296")]).unwrap_err(),
        StorageError::MalformedNumber
    );
    let unknown = item(vec![("entity_type", s("Comment"))]);
    assert_eq!(read_vote_context(&vec![unknown]).unwrap_err(), StorageError::UnknownEntityType);
    let bad_user = item(vec![
        ("PK", s("link:abc.com")),
        ("SK", s("user:not-a-uuid")),
        ("entity_type", s("Vote")),
        ("value", n("1")),
        ("created_at", s("2023-02-01T10:00:00Z")),
    ]);
    assert_eq!(read_vote_context(&vec![bad_user]).unwrap_err(), StorageError::MalformedKey);
    let no_separator = item(vec![
        ("PK", s("daily")),
        ("entity_type", s("UserHistory")),
        ("count_of_votes", n("1")),
        ("sum_of_votes", n("1")),
    ]);
    assert_eq!(read_vote_context(&vec![no_separator]).unwrap_err(), StorageError::MalformedKey);
    assert_eq!(
        read_vote_context(&vec![vote_item("2", "2023-02-01T10:00:00Z")]).unwrap_err(),
        StorageError::InvalidRecord(ValidationError::InvalidVoteValue)
    );
    assert_eq!(
        read_vote_context(&vec![vote_item("1", "2023-02-30T10:00:00Z")]).unwrap_err(),
        StorageError::InvalidRecord(ValidationError::InvalidTimestamp)
    );
}

#[test]
fn stored_numbers_parse_like_std() {
    let ctx = read_vote_context(&vec![settings_item("+7")]).unwrap();
    assert_eq!(ctx.settings.maximum_votes_per_user_per_day, 7);
    let history = UserHistory::from_item(&user_history_item("4")).unwrap();
    assert_eq!(history.day, "2023-02-09");
    assert_eq!(history.sum_of_votes, -3);
    assert!(User::from_item(&item(vec![("is_banned", StoredValue::Bool(false))])).is_ok());
    assert_eq!(
        Settings::from_item(&settings_item("")).unwrap_err(),
        StorageError::MalformedNumber
    );
}

#[test]
fn rate_limit_through_the_records() {
    let items = vec![settings_item("10"), user_history_item("10")];
    let result = plan_vote(&vote(1, "2023-02-09T10:00:00Z"), &items);
    assert_eq!(result.unwrap_err(), VoteError::Rejected(VoteRejected::RateLimited));
}

#[test]
fn plan_vote_edits_a_stored_vote() {
    let items = vec![settings_item("10"), user_history_item("1"), vote_item("1", "2023-02-09T08:00:00Z")];
    let plan = plan_vote(&vote(-1, "2023-02-09T10:00:00Z"), &items).unwrap();
    // new user, vote, lifetime totals, day totals of the link and of the user
    assert_eq!(plan.len(), 5);
    let mut store = Aggregates::new();
    apply(&mut store, &plan);
    assert_eq!(totals(&store, "link:abc.com", "link:abc.com"), (0, -2));
    assert_eq!(totals(&store, "day:2023-02-09", &user_key()), (0, -2));
}

#[test]
fn link_details_are_read_and_checked() {
    let good = item(vec![
        ("PK", s("link:abc.com")),
        ("SK", s("link:abc.com")),
        ("count_of_votes", n("3")),
        ("sum_of_votes", n("-2")),
    ]);
    let details: Vec<LinkDetail> = read_link_details(&vec![good]).unwrap();
    assert_eq!(details[0].link.hostname, "abc.com");
    assert_eq!((details[0].count_of_votes, details[0].sum_of_votes), (3, -2));
    let bad = item(vec![
        ("PK", s("link:abc..com")),
        ("count_of_votes", n("3")),
        ("sum_of_votes", n("-2")),
    ]);
    assert_eq!(
        read_link_details(&vec![bad]).unwrap_err(),
        StorageError::InvalidRecord(ValidationError::InvalidHostname)
    );
}

#[test]
fn malformed_records_stop_the_vote() {
    let items = vec![item(vec![("entity_type", s("Comment"))])];
    assert_eq!(
        plan_vote(&vote(1, "2023-02-09T10:00:00Z"), &items).unwrap_err(),
        VoteError::Storage(StorageError::UnknownEntityType)
    );
    assert_eq!(
        plan_vote(&vote(1, "2023-02-09 10:00"), &vec![]).unwrap_err(),
        VoteError::Invalid(ValidationError::InvalidTimestamp)
    );
}

#[test]
fn writes_carry_their_entity_type_and_key() {
    let first = vote(1, "2023-02-01T10:00:00Z");
    let plan = decide(&vote(-1, "2023-02-02T08:00:00Z"), &context(Some(first))).unwrap();
    let tags: Vec<&str> = plan.iter().map(|w| w.entity_type()).collect();
    assert_eq!(tags, vec!["Vote", "LinkDetail", "LinkHistory", "UserHistory", "LinkHistory", "UserHistory"]);
    let keys: Vec<(String, String)> = plan
        .iter()
        .map(|w| {
            let k = key_of_write(w);
            (k.pk, k.sk)
        })
        .collect();
    assert_eq!(keys[0], ("link:abc.com".to_string(), user_key()));
    assert_eq!(keys[1], ("link:abc.com".to_string(), "link:abc.com".to_string()));
    assert_eq!(keys[2], ("day:2023-02-01".to_string(), "link:abc.com".to_string()));
    assert_eq!(keys[3], ("day:2023-02-01".to_string(), user_key()));
    assert_eq!(keys[4], ("day:2023-02-02".to_string(), "link:abc.com".to_string()));
}
