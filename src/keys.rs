use vstd::prelude::*;
use vstd::string::*;
use crate::plan::{Aggregate, AggregateView, WriteItem, WriteItemView};
use crate::types::{Link, UserId, Vote};

verus! {

/// The composite key of a record: partition key and sort key.
#[derive(Debug, Clone)]
pub struct Key {
    pub pk: String,
    pub sk: String,
}

pub struct KeyView {
    pub pk: Seq<char>,
    pub sk: Seq<char>,
}

impl View for Key {
    type V = KeyView;

    open spec fn view(&self) -> KeyView {
        KeyView { pk: self.pk@, sk: self.sk@ }
    }
}

/// The text of a UUID with the given bits, in its hyphenated form.
pub uninterp spec fn hyphenated_of(bits: u128) -> Seq<char>;

/// Relies on uuid::Uuid::hyphenated (through Display): the hyphenated text of a UUID depends
/// on its bits alone.
#[verifier::external_body]
fn hyphenated_text(bits: u128) -> (r: String)
    ensures
        r@ == hyphenated_of(bits),
{
    uuid::Uuid::from_u128(bits).hyphenated().to_string()
}

/// The bits of the UUID that a text denotes, if it denotes one.
pub uninterp spec fn parsed_uuid_of(text: Seq<char>) -> Option<u128>;

/// Relies on uuid::Uuid::parse_str: whether a text parses, and to which UUID, depends on the
/// text alone.
#[verifier::external_body]
pub(crate) fn parse_uuid(text: &str) -> (r: Option<u128>)
    ensures
        r == parsed_uuid_of(text@),
{
    match uuid::Uuid::parse_str(text) {
        Ok(id) => Some(id.as_u128()),
        Err(_) => None,
    }
}

/// Parts of a key are joined by this character.
pub open spec fn separator() -> char {
    ':'
}

pub open spec fn settings_key_text() -> Seq<char> {
    "settings"@
}

pub open spec fn link_key_text(host: Seq<char>) -> Seq<char> {
    "link:"@ + host
}

pub open spec fn user_key_text(user: u128) -> Seq<char> {
    "user:"@ + hyphenated_of(user)
}

pub open spec fn day_key_text(day: Seq<char>) -> Seq<char> {
    "day:"@ + day
}

/// The key of each record.
pub open spec fn settings_key() -> KeyView {
    KeyView { pk: settings_key_text(), sk: settings_key_text() }
}

pub open spec fn user_key(user: u128) -> KeyView {
    KeyView { pk: user_key_text(user), sk: user_key_text(user) }
}

pub open spec fn vote_key(host: Seq<char>, user: u128) -> KeyView {
    KeyView { pk: link_key_text(host), sk: user_key_text(user) }
}

pub open spec fn link_detail_key(host: Seq<char>) -> KeyView {
    KeyView { pk: link_key_text(host), sk: link_key_text(host) }
}

pub open spec fn link_history_key(day: Seq<char>, host: Seq<char>) -> KeyView {
    KeyView { pk: day_key_text(day), sk: link_key_text(host) }
}

pub open spec fn user_history_key(day: Seq<char>, user: u128) -> KeyView {
    KeyView { pk: day_key_text(day), sk: user_key_text(user) }
}

pub open spec fn aggregate_key(a: AggregateView) -> KeyView {
    match a {
        AggregateView::LinkDetail { host } => link_detail_key(host),
        AggregateView::LinkHistory { day, host } => link_history_key(day, host),
        AggregateView::UserHistory { day, user } => user_history_key(day, user),
    }
}

/// The key of the record that a write changes.
pub open spec fn write_key(w: WriteItemView) -> KeyView {
    match w {
        WriteItemView::PutUser { user, .. } => user_key(user),
        WriteItemView::PutVote { vote, .. } => vote_key(vote.host, vote.user),
        WriteItemView::Update { aggregate, .. } => aggregate_key(aggregate),
    }
}

fn prefixed(prefix: &str, rest: &str) -> (r: String)
    ensures
        r@ == prefix@ + rest@,
{
    let mut text = String::from_str(prefix);
    text.append(rest);
    text
}

fn settings_text() -> (r: String)
    ensures
        r@ == settings_key_text(),
{
    String::from_str("settings")
}

fn link_text(link: &Link) -> (r: String)
    ensures
        r@ == link_key_text(link@),
{
    prefixed("link:", link.hostname.as_str())
}

fn user_text(user_id: &UserId) -> (r: String)
    ensures
        r@ == user_key_text(user_id.bits),
{
    let id = hyphenated_text(user_id.bits);
    prefixed("user:", id.as_str())
}

fn day_text(day: &String) -> (r: String)
    ensures
        r@ == day_key_text(day@),
{
    prefixed("day:", day.as_str())
}

/// The key of the settings record.
pub fn get_settings() -> (r: Key)
    ensures
        r@ == settings_key(),
{
    Key { pk: settings_text(), sk: settings_text() }
}

/// The key of a user record.
pub fn get_user(user_id: &UserId) -> (r: Key)
    ensures
        r@ == user_key(user_id.bits),
{
    Key { pk: user_text(user_id), sk: user_text(user_id) }
}

/// The key of a user's totals of a day.
pub fn get_daily_user_history(day: &String, user_id: &UserId) -> (r: Key)
    ensures
        r@ == user_history_key(day@, user_id.bits),
{
    Key { pk: day_text(day), sk: user_text(user_id) }
}

/// The key of the record of the user's vote on the vote's link.
pub fn get_vote(vote: &Vote) -> (r: Key)
    ensures
        r@ == vote_key(vote.link@, vote.user_id.bits),
{
    Key { pk: link_text(&vote.link), sk: user_text(&vote.user_id) }
}

/// The key of a link's lifetime totals.
pub fn get_link_detail(link: &Link) -> (r: Key)
    ensures
        r@ == link_detail_key(link@),
{
    Key { pk: link_text(link), sk: link_text(link) }
}

/// The key of the record that a write changes.
pub fn key_of_write(w: &WriteItem) -> (r: Key)
    ensures
        r@ == write_key(w@),
{
    match w {
        WriteItem::PutUser { user_id, .. } => get_user(user_id),
        WriteItem::PutVote { vote, .. } => get_vote(vote),
        WriteItem::Update { update } => match &update.aggregate {
            Aggregate::LinkDetail { link } => get_link_detail(link),
            Aggregate::LinkHistory { day, link } => Key { pk: day_text(day), sk: link_text(link) },
            Aggregate::UserHistory { day, user_id } => get_daily_user_history(day, user_id),
        },
    }
}

/// Where the first separator at or after `from` stands, or the length if there is none.
pub open spec fn separator_index(s: Seq<char>, from: int) -> int
    decreases s.len() - from,
{
    if from >= s.len() {
        s.len() as int
    } else if s[from] == separator() {
        from
    } else {
        separator_index(s, from + 1)
    }
}

/// The second part of a key text: what stands between its first and its second separator.
pub open spec fn key_part(s: Seq<char>) -> Option<Seq<char>> {
    let i = separator_index(s, 0);
    if i >= s.len() {
        None
    } else {
        Some(s.subrange(i + 1, separator_index(s, i + 1)))
    }
}

proof fn lemma_separator_index_bounds(s: Seq<char>, from: int)
    requires
        0 <= from,
    ensures
        from <= separator_index(s, from) <= s.len() || (from > s.len() && separator_index(s, from)
            == s.len()),
    decreases s.len() - from,
{
    if from < s.len() && s[from] != separator() {
        lemma_separator_index_bounds(s, from + 1);
    }
}

fn find_separator(s: &str, from: usize) -> (r: usize)
    requires
        from <= s@.len(),
    ensures
        r == separator_index(s@, from as int),
{
    let n = s.unicode_len();
    let mut k = from;
    while k < n
        invariant
            n == s@.len(),
            from <= k <= n,
            separator_index(s@, from as int) == separator_index(s@, k as int),
        decreases n - k,
    {
        if s.get_char(k) == ':' {
            return k;
        }
        k = k + 1;
    }
    k
}

/// The second part of a key text, as `key_part` says.
pub fn split_key_part(s: &str) -> (r: Option<String>)
    ensures
        match r {
            Some(p) => key_part(s@) == Some(p@),
            None => key_part(s@) is None,
        },
{
    let i = find_separator(s, 0);
    proof {
        lemma_separator_index_bounds(s@, 0);
    }
    if i >= s.unicode_len() {
        return None;
    }
    let j = find_separator(s, i + 1);
    proof {
        lemma_separator_index_bounds(s@, i + 1);
    }
    Some(s.substring_char(i + 1, j).to_owned())
}

} // verus!
