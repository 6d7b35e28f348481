use vstd::prelude::*;
use vstd::string::*;
use crate::keys::{key_part, parse_uuid, parsed_uuid_of, split_key_part};
use crate::types::{
    Link, LinkDetail, LinkDetailView, Settings, SettingsView, User, UserHistory, UserHistoryView,
    UserId, Vote, VoteView,
};
use crate::validate::{
    is_digit, digit_value, is_hostname_valid, is_timestamp_valid, is_valid_hostname,
    is_valid_timestamp, is_valid_vote_value, is_vote_value_valid, ValidationError,
};

verus! {

/// A typed attribute value of a stored record.
#[derive(Debug, Clone)]
pub enum StoredValue {
    S(String),
    /// A number, in its decimal text.
    N(String),
    Bool(bool),
    /// A value of a type that no record here uses.
    Other,
}

pub enum StoredValueView {
    S(Seq<char>),
    N(Seq<char>),
    Bool(bool),
    Other,
}

impl View for StoredValue {
    type V = StoredValueView;

    open spec fn view(&self) -> StoredValueView {
        match self {
            StoredValue::S(s) => StoredValueView::S(s@),
            StoredValue::N(s) => StoredValueView::N(s@),
            StoredValue::Bool(b) => StoredValueView::Bool(*b),
            StoredValue::Other => StoredValueView::Other,
        }
    }
}

/// A stored record: its attributes by name, each name once.
#[derive(Debug, Clone)]
pub struct StoredItem {
    pub attributes: Vec<(String, StoredValue)>,
}

pub type ItemView = Seq<(Seq<char>, StoredValueView)>;

impl View for StoredItem {
    type V = ItemView;

    open spec fn view(&self) -> ItemView {
        self.attributes@.map_values(|a: (String, StoredValue)| (a.0@, a.1@))
    }
}

/// Why a stored record could not be read.
#[derive(Debug, Clone, Copy, PartialEq, Eq, Structural)]
pub enum StorageError {
    MissingAttribute,
    WrongAttributeType,
    MalformedNumber,
    MalformedKey,
    InvalidRecord(ValidationError),
    UnknownEntityType,
}

/// The value of the first attribute of that name.
pub open spec fn attribute(item: ItemView, name: Seq<char>) -> Option<StoredValueView>
    decreases item.len(),
{
    if item.len() == 0 {
        None
    } else if item[0].0 == name {
        Some(item[0].1)
    } else {
        attribute(item.drop_first(), name)
    }
}

pub fn get_attribute<'a>(item: &'a StoredItem, name: &str) -> (r: Option<&'a StoredValue>)
    ensures
        match r {
            Some(v) => attribute(item@, name@) == Some(v@),
            None => attribute(item@, name@) is None,
        },
{
    let ghost all = item@;
    let wanted = String::from_str(name);
    assert(all.subrange(0, all.len() as int) =~= all);
    let mut j: usize = 0;
    while j < item.attributes.len()
        invariant
            all == item@,
            wanted@ == name@,
            j <= item.attributes@.len(),
            attribute(all, name@) == attribute(all.subrange(j as int, all.len() as int), name@),
        decreases item.attributes@.len() - j,
    {
        let a = &item.attributes[j];
        let ghost rest = all.subrange(j as int, all.len() as int);
        assert(rest[0] == (a.0@, a.1@));
        assert(rest.drop_first() =~= all.subrange(j + 1, all.len() as int));
        if a.0 == wanted {
            return Some(&a.1);
        }
        j = j + 1;
    }
    None
}

/// The number written by a non-empty run of decimal digits.
pub open spec fn digits_value(s: Seq<char>) -> int
    decreases s.len(),
{
    if s.len() == 0 {
        0
    } else {
        10 * digits_value(s.drop_last()) + digit_value(s.last())
    }
}

pub open spec fn is_digits(s: Seq<char>) -> bool {
    s.len() > 0 && forall|i: int| 0 <= i < s.len() ==> is_digit(#[trigger] s[i])
}

/// The integer of a decimal text: digits, after an optional `+` or `-`.
pub open spec fn signed_decimal(s: Seq<char>) -> Option<int> {
    if s.len() > 0 && s[0] == '-' && is_digits(s.drop_first()) {
        Some(-digits_value(s.drop_first()))
    } else if s.len() > 0 && s[0] == '+' && is_digits(s.drop_first()) {
        Some(digits_value(s.drop_first()))
    } else if is_digits(s) {
        Some(digits_value(s))
    } else {
        None
    }
}

/// What `i32` parses from a text.
pub open spec fn i32_of_text(s: Seq<char>) -> Option<int> {
    match signed_decimal(s) {
        Some(n) => if i32::MIN <= n <= i32::MAX {
            Some(n)
        } else {
            None
        },
        None => None,
    }
}

/// What `u32` parses from a text: no `-` sign is taken.
pub open spec fn u32_of_text(s: Seq<char>) -> Option<int> {
    if s.len() > 0 && s[0] == '-' {
        None
    } else {
        match signed_decimal(s) {
            Some(n) => if 0 <= n <= u32::MAX {
                Some(n)
            } else {
                None
            },
            None => None,
        }
    }
}

/// Relies on `<i32 as FromStr>::from_str` (str::parse): it takes an optional `+` or `-` and
/// decimal digits, and fails on anything else or out of range.
#[verifier::external_body]
fn parse_i32(text: &str) -> (r: Option<i32>)
    ensures
        match r {
            Some(n) => i32_of_text(text@) == Some(n as int),
            None => i32_of_text(text@) is None,
        },
{
    text.parse::<i32>().ok()
}

/// Relies on `<u32 as FromStr>::from_str` (str::parse): it takes an optional `+` and decimal
/// digits, and fails on anything else or out of range.
#[verifier::external_body]
fn parse_u32(text: &str) -> (r: Option<u32>)
    ensures
        match r {
            Some(n) => u32_of_text(text@) == Some(n as int),
            None => u32_of_text(text@) is None,
        },
{
    text.parse::<u32>().ok()
}

pub open spec fn string_attribute(item: ItemView, name: Seq<char>) -> Result<Seq<char>, StorageError> {
    match attribute(item, name) {
        Some(StoredValueView::S(s)) => Ok(s),
        Some(_) => Err(StorageError::WrongAttributeType),
        None => Err(StorageError::MissingAttribute),
    }
}

pub open spec fn bool_attribute(item: ItemView, name: Seq<char>) -> Result<bool, StorageError> {
    match attribute(item, name) {
        Some(StoredValueView::Bool(b)) => Ok(b),
        Some(_) => Err(StorageError::WrongAttributeType),
        None => Err(StorageError::MissingAttribute),
    }
}

pub open spec fn i32_attribute(item: ItemView, name: Seq<char>) -> Result<int, StorageError> {
    match attribute(item, name) {
        Some(StoredValueView::N(t)) => match i32_of_text(t) {
            Some(n) => Ok(n),
            None => Err(StorageError::MalformedNumber),
        },
        Some(_) => Err(StorageError::WrongAttributeType),
        None => Err(StorageError::MissingAttribute),
    }
}

pub open spec fn u32_attribute(item: ItemView, name: Seq<char>) -> Result<int, StorageError> {
    match attribute(item, name) {
        Some(StoredValueView::N(t)) => match u32_of_text(t) {
            Some(n) => Ok(n),
            None => Err(StorageError::MalformedNumber),
        },
        Some(_) => Err(StorageError::WrongAttributeType),
        None => Err(StorageError::MissingAttribute),
    }
}

/// The second part of a key attribute.
pub open spec fn key_attribute_part(item: ItemView, name: Seq<char>) -> Result<Seq<char>, StorageError> {
    match string_attribute(item, name) {
        Ok(k) => match key_part(k) {
            Some(p) => Ok(p),
            None => Err(StorageError::MalformedKey),
        },
        Err(e) => Err(e),
    }
}

fn read_string(item: &StoredItem, name: &str) -> (r: Result<String, StorageError>)
    ensures
        match r {
            Ok(s) => string_attribute(item@, name@) == Ok::<Seq<char>, StorageError>(s@),
            Err(e) => string_attribute(item@, name@) == Err::<Seq<char>, StorageError>(e),
        },
{
    match get_attribute(item, name) {
        Some(StoredValue::S(s)) => Ok(s.clone()),
        Some(_) => Err(StorageError::WrongAttributeType),
        None => Err(StorageError::MissingAttribute),
    }
}

fn read_bool(item: &StoredItem, name: &str) -> (r: Result<bool, StorageError>)
    ensures
        r == bool_attribute(item@, name@),
{
    match get_attribute(item, name) {
        Some(StoredValue::Bool(b)) => Ok(*b),
        Some(_) => Err(StorageError::WrongAttributeType),
        None => Err(StorageError::MissingAttribute),
    }
}

fn read_i32(item: &StoredItem, name: &str) -> (r: Result<i32, StorageError>)
    ensures
        match r {
            Ok(n) => i32_attribute(item@, name@) == Ok::<int, StorageError>(n as int),
            Err(e) => i32_attribute(item@, name@) == Err::<int, StorageError>(e),
        },
{
    match get_attribute(item, name) {
        Some(StoredValue::N(t)) => match parse_i32(t.as_str()) {
            Some(n) => Ok(n),
            None => Err(StorageError::MalformedNumber),
        },
        Some(_) => Err(StorageError::WrongAttributeType),
        None => Err(StorageError::MissingAttribute),
    }
}

fn read_u32(item: &StoredItem, name: &str) -> (r: Result<u32, StorageError>)
    ensures
        match r {
            Ok(n) => u32_attribute(item@, name@) == Ok::<int, StorageError>(n as int),
            Err(e) => u32_attribute(item@, name@) == Err::<int, StorageError>(e),
        },
{
    match get_attribute(item, name) {
        Some(StoredValue::N(t)) => match parse_u32(t.as_str()) {
            Some(n) => Ok(n),
            None => Err(StorageError::MalformedNumber),
        },
        Some(_) => Err(StorageError::WrongAttributeType),
        None => Err(StorageError::MissingAttribute),
    }
}

fn read_key_part(item: &StoredItem, name: &str) -> (r: Result<String, StorageError>)
    ensures
        match r {
            Ok(s) => key_attribute_part(item@, name@) == Ok::<Seq<char>, StorageError>(s@),
            Err(e) => key_attribute_part(item@, name@) == Err::<Seq<char>, StorageError>(e),
        },
{
    match read_string(item, name) {
        Ok(k) => match split_key_part(k.as_str()) {
            Some(p) => Ok(p),
            None => Err(StorageError::MalformedKey),
        },
        Err(e) => Err(e),
    }
}

/// The entity type that tags a record.
pub fn read_entity_type(item: &StoredItem) -> (r: Result<String, StorageError>)
    ensures
        match r {
            Ok(s) => string_attribute(item@, "entity_type"@) == Ok::<Seq<char>, StorageError>(s@),
            Err(e) => string_attribute(item@, "entity_type"@) == Err::<Seq<char>, StorageError>(e),
        },
{
    read_string(item, "entity_type")
}

/// A result with its success value in plain values.
pub open spec fn result_view<T: View>(r: Result<T, StorageError>) -> Result<T::V, StorageError> {
    match r {
        Ok(v) => Ok(v@),
        Err(e) => Err(e),
    }
}

pub open spec fn settings_record(item: ItemView) -> Result<SettingsView, StorageError> {
    match bool_attribute(item, "voting_is_disabled"@) {
        Err(e) => Err(e),
        Ok(disabled) => match u32_attribute(item, "maximum_votes_per_user_per_day"@) {
            Err(e) => Err(e),
            Ok(maximum) => Ok(
                SettingsView { voting_is_disabled: disabled, maximum_votes_per_user_per_day: maximum },
            ),
        },
    }
}

/// Whether the user of a user record is banned.
pub open spec fn user_record(item: ItemView) -> Result<bool, StorageError> {
    bool_attribute(item, "is_banned"@)
}

pub open spec fn user_history_record(item: ItemView) -> Result<UserHistoryView, StorageError> {
    match key_attribute_part(item, "PK"@) {
        Err(e) => Err(e),
        Ok(day) => match u32_attribute(item, "count_of_votes"@) {
            Err(e) => Err(e),
            Ok(count) => match i32_attribute(item, "sum_of_votes"@) {
                Err(e) => Err(e),
                Ok(sum) => Ok(UserHistoryView { day, count, sum }),
            },
        },
    }
}

pub open spec fn link_detail_record(item: ItemView) -> Result<LinkDetailView, StorageError> {
    match key_attribute_part(item, "PK"@) {
        Err(e) => Err(e),
        Ok(host) => match u32_attribute(item, "count_of_votes"@) {
            Err(e) => Err(e),
            Ok(count) => match i32_attribute(item, "sum_of_votes"@) {
                Err(e) => Err(e),
                Ok(sum) => if is_valid_hostname(host) {
                    Ok(LinkDetailView { host, count, sum })
                } else {
                    Err(StorageError::InvalidRecord(ValidationError::InvalidHostname))
                },
            },
        },
    }
}

/// The first failed check of a stored vote: hostname, value, timestamp.
pub open spec fn vote_error(v: VoteView) -> Option<ValidationError> {
    if !is_valid_hostname(v.host) {
        Some(ValidationError::InvalidHostname)
    } else if !is_valid_vote_value(v.value) {
        Some(ValidationError::InvalidVoteValue)
    } else if !is_valid_timestamp(v.created_at) {
        Some(ValidationError::InvalidTimestamp)
    } else {
        None
    }
}

pub open spec fn vote_record(item: ItemView) -> Result<VoteView, StorageError> {
    match key_attribute_part(item, "PK"@) {
        Err(e) => Err(e),
        Ok(host) => match i32_attribute(item, "value"@) {
            Err(e) => Err(e),
            Ok(value) => match key_attribute_part(item, "SK"@) {
                Err(e) => Err(e),
                Ok(user_text) => match parsed_uuid_of(user_text) {
                    None => Err(StorageError::MalformedKey),
                    Some(user) => match string_attribute(item, "created_at"@) {
                        Err(e) => Err(e),
                        Ok(created_at) => {
                            let v = VoteView { host, value, user, created_at };
                            match vote_error(v) {
                                Some(e) => Err(StorageError::InvalidRecord(e)),
                                None => Ok(v),
                            }
                        },
                    },
                },
            },
        },
    }
}

impl Settings {
    /// Reads a settings record.
    pub fn from_item(item: &StoredItem) -> (r: Result<Settings, StorageError>)
        ensures
            result_view(r) == settings_record(item@),
    {
        let voting_is_disabled = match read_bool(item, "voting_is_disabled") {
            Ok(b) => b,
            Err(e) => return Err(e),
        };
        let maximum_votes_per_user_per_day = match read_u32(
            item,
            "maximum_votes_per_user_per_day",
        ) {
            Ok(n) => n,
            Err(e) => return Err(e),
        };
        Ok(Settings { voting_is_disabled, maximum_votes_per_user_per_day })
    }
}

impl User {
    /// Reads a user record.
    pub fn from_item(item: &StoredItem) -> (r: Result<User, StorageError>)
        ensures
            match r {
                Ok(u) => user_record(item@) == Ok::<bool, StorageError>(u.is_banned),
                Err(e) => user_record(item@) == Err::<bool, StorageError>(e),
            },
    {
        match read_bool(item, "is_banned") {
            Ok(is_banned) => Ok(User { is_banned }),
            Err(e) => Err(e),
        }
    }
}

impl UserHistory {
    /// Reads a user's totals of a day; the day is the second part of the partition key.
    pub fn from_item(item: &StoredItem) -> (r: Result<UserHistory, StorageError>)
        ensures
            result_view(r) == user_history_record(item@),
    {
        let day = match read_key_part(item, "PK") {
            Ok(d) => d,
            Err(e) => return Err(e),
        };
        let count_of_votes = match read_u32(item, "count_of_votes") {
            Ok(n) => n,
            Err(e) => return Err(e),
        };
        let sum_of_votes = match read_i32(item, "sum_of_votes") {
            Ok(n) => n,
            Err(e) => return Err(e),
        };
        Ok(UserHistory { day, count_of_votes, sum_of_votes })
    }
}

impl LinkDetail {
    /// Reads a link's lifetime totals; the hostname is the second part of the partition key
    /// and must be valid.
    pub fn from_item(item: &StoredItem) -> (r: Result<LinkDetail, StorageError>)
        ensures
            result_view(r) == link_detail_record(item@),
    {
        let hostname = match read_key_part(item, "PK") {
            Ok(h) => h,
            Err(e) => return Err(e),
        };
        let count_of_votes = match read_u32(item, "count_of_votes") {
            Ok(n) => n,
            Err(e) => return Err(e),
        };
        let sum_of_votes = match read_i32(item, "sum_of_votes") {
            Ok(n) => n,
            Err(e) => return Err(e),
        };
        if is_hostname_valid(hostname.as_str()).is_err() {
            return Err(StorageError::InvalidRecord(ValidationError::InvalidHostname));
        }
        Ok(LinkDetail { link: Link { hostname }, count_of_votes, sum_of_votes })
    }
}

impl Vote {
    /// Reads a vote record: the link from the partition key, the user from the sort key, and
    /// a valid value and timestamp.
    pub fn from_item(item: &StoredItem) -> (r: Result<Vote, StorageError>)
        ensures
            result_view(r) == vote_record(item@),
    {
        let hostname = match read_key_part(item, "PK") {
            Ok(h) => h,
            Err(e) => return Err(e),
        };
        let value = match read_i32(item, "value") {
            Ok(n) => n,
            Err(e) => return Err(e),
        };
        let user_text = match read_key_part(item, "SK") {
            Ok(t) => t,
            Err(e) => return Err(e),
        };
        let bits = match parse_uuid(user_text.as_str()) {
            Some(b) => b,
            None => return Err(StorageError::MalformedKey),
        };
        let created_at = match read_string(item, "created_at") {
            Ok(t) => t,
            Err(e) => return Err(e),
        };
        if let Err(e) = is_hostname_valid(hostname.as_str()) {
            return Err(StorageError::InvalidRecord(e));
        }
        if let Err(e) = is_vote_value_valid(value) {
            return Err(StorageError::InvalidRecord(e));
        }
        if let Err(e) = is_timestamp_valid(created_at.as_str()) {
            return Err(StorageError::InvalidRecord(e));
        }
        Ok(Vote { link: Link { hostname }, value, user_id: UserId { bits }, created_at })
    }
}

} // verus!
