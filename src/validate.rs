use vstd::prelude::*;
use vstd::string::*;
use crate::types::{Link, ScoresRequest, VoteRequest};

verus! {

/// Why a request or a stored field failed validation.
#[derive(Debug, Clone, Copy, PartialEq, Eq, Structural)]
pub enum ValidationError {
    InvalidHostname,
    InvalidVoteValue,
    InvalidTimestamp,
    InvalidLinkCount,
}

impl ValidationError {
    /// The human-readable description of the error.
    pub fn message(&self) -> (r: &'static str)
        ensures
            *self == ValidationError::InvalidHostname ==> r@ == "Hostname is invalid"@,
            *self == ValidationError::InvalidVoteValue ==> r@ == "Vote should be -1 or 1"@,
            *self == ValidationError::InvalidTimestamp ==> r@ == "Timestamp is invalid"@,
            *self == ValidationError::InvalidLinkCount ==> r@
                == "Validation error: length, between 1 and 100 links are expected"@,
    {
        match self {
            ValidationError::InvalidHostname => "Hostname is invalid",
            ValidationError::InvalidVoteValue => "Vote should be -1 or 1",
            ValidationError::InvalidTimestamp => "Timestamp is invalid",
            ValidationError::InvalidLinkCount => "Validation error: length, between 1 and 100 links are expected",
        }
    }
}

/// The most links that one scores request may name.
pub const MAXIMUM_LINKS_PER_REQUEST: usize = 100;

/// The longest hostname, in characters.
pub const MAXIMUM_HOSTNAME_LENGTH: usize = 253;

/// The longest label of a hostname, in characters.
pub const MAXIMUM_LABEL_LENGTH: usize = 63;

/// A vote is one step up or one step down.
pub open spec fn is_valid_vote_value(value: int) -> bool {
    value == 1 || value == -1
}

pub open spec fn is_hostname_char(c: char) -> bool {
    ('a' <= c && c <= 'z') || ('A' <= c && c <= 'Z') || ('0' <= c && c <= '9') || c == '-'
        || c == '.'
}

/// A hostname in the sense of RFC 1123: 1 to 253 characters, letters, digits, `-` and `.`;
/// its `.`-separated labels are non-empty, at most 63 characters long, and neither start nor
/// end with `-`.
pub open spec fn is_valid_hostname(s: Seq<char>) -> bool {
    &&& 0 < s.len() <= MAXIMUM_HOSTNAME_LENGTH
    &&& forall|i: int| 0 <= i < s.len() ==> is_hostname_char(#[trigger] s[i])
    // no empty label: no leading or trailing dot, no two dots in a row
    &&& s[0] != '.'
    &&& s[s.len() - 1] != '.'
    &&& forall|i: int| 0 <= i < s.len() - 1 ==> !(#[trigger] s[i] == '.' && s[i + 1] == '.')
    // a hyphen is never the first or the last character of its label
    &&& forall|i: int|
        0 <= i < s.len() && #[trigger] s[i] == '-' ==> 0 < i && s[i - 1] != '.' && i < s.len() - 1
            && s[i + 1] != '.'
    // no label is longer than 63: any 64 consecutive characters hold a dot
    &&& forall|i: int|
        0 <= i && i + MAXIMUM_LABEL_LENGTH < s.len() ==> #[trigger] has_dot_in(s, i, i
            + MAXIMUM_LABEL_LENGTH + 1)
}

pub open spec fn has_dot_in(s: Seq<char>, from: int, to: int) -> bool {
    exists|k: int| from <= k < to && #[trigger] s[k] == '.'
}

const DOT: u8 = 46;

const HYPHEN: u8 = 45;

fn is_hostname_byte(b: u8) -> (r: bool)
    ensures
        r == is_hostname_char(b as char),
{
    // 'a'..='z', 'A'..='Z', '0'..='9'
    (97 <= b && b <= 122) || (65 <= b && b <= 90) || (48 <= b && b <= 57) || b == HYPHEN || b
        == DOT
}

/// Accepts exactly the valid hostnames.
pub fn is_hostname_valid(hostname: &str) -> (r: Result<(), ValidationError>)
    ensures
        r == check(is_valid_hostname(hostname@), ValidationError::InvalidHostname),
{
    if !hostname.is_ascii() {
        proof {
            let k = choose|k: int|
                0 <= k < hostname@.len() && !('\0' <= #[trigger] hostname@[k] <= '\u{7f}');
            assert(!is_hostname_char(hostname@[k]));
        }
        return Err(ValidationError::InvalidHostname);
    }
    let n = hostname.unicode_len();
    if n == 0 || n > MAXIMUM_HOSTNAME_LENGTH {
        return Err(ValidationError::InvalidHostname);
    }
    let s = Ghost(hostname@);
    let mut i: usize = 0;
    // length of the label that ends just before `i`
    let mut run: usize = 0;
    while i < n
        invariant
            s@ == hostname@,
            n == s@.len(),
            0 < n <= MAXIMUM_HOSTNAME_LENGTH,
            hostname.is_ascii(),
            i <= n,
            run <= i,
            run <= MAXIMUM_LABEL_LENGTH,
            forall|k: int| i - run <= k < i ==> s@[k] != '.',
            run < i ==> s@[i - run - 1] == '.',
            i > 0 ==> s@[0] != '.',
            forall|k: int| 0 <= k < i ==> is_hostname_char(#[trigger] s@[k]),
            forall|k: int| 0 <= k < i - 1 ==> !(#[trigger] s@[k] == '.' && s@[k + 1] == '.'),
            forall|k: int|
                0 <= k < i && #[trigger] s@[k] == '-' ==> 0 < k && s@[k - 1] != '.',
            forall|k: int|
                0 <= k < i - 1 && #[trigger] s@[k] == '-' ==> s@[k + 1] != '.',
            forall|k: int|
                0 <= k && k + MAXIMUM_LABEL_LENGTH < i ==> #[trigger] has_dot_in(
                    s@,
                    k,
                    k + MAXIMUM_LABEL_LENGTH + 1,
                ),
        decreases n - i,
    {
        let c = hostname.get_ascii(i);
        assert(c as char == s@[i as int]);
        if !is_hostname_byte(c) {
            return Err(ValidationError::InvalidHostname);
        }
        if c == DOT {
            if run == 0 {
                // a leading dot, or a dot right after another one
                return Err(ValidationError::InvalidHostname);
            }
            let prev = hostname.get_ascii(i - 1);
            assert(prev as char == s@[i - 1]);
            if prev == HYPHEN {
                return Err(ValidationError::InvalidHostname);
            }
            proof {
                assert forall|k: int|
                    0 <= k && k + MAXIMUM_LABEL_LENGTH < i + 1 implies #[trigger] has_dot_in(
                    s@,
                    k,
                    k + MAXIMUM_LABEL_LENGTH + 1,
                ) by {
                    if k + MAXIMUM_LABEL_LENGTH == i {
                        assert(s@[i as int] == '.');
                    }
                }
            }
            run = 0;
        } else {
            if c == HYPHEN && (run == 0) {
                return Err(ValidationError::InvalidHostname);
            }
            if run == MAXIMUM_LABEL_LENGTH {
                proof {
                    let k = i - MAXIMUM_LABEL_LENGTH;
                    if 0 <= k {
                        assert(k + MAXIMUM_LABEL_LENGTH < n);
                        assert(!has_dot_in(s@, k, k + MAXIMUM_LABEL_LENGTH + 1));
                    }
                }
                return Err(ValidationError::InvalidHostname);
            }
            proof {
                assert forall|k: int|
                    0 <= k && k + MAXIMUM_LABEL_LENGTH < i + 1 implies #[trigger] has_dot_in(
                    s@,
                    k,
                    k + MAXIMUM_LABEL_LENGTH + 1,
                ) by {
                    if k + MAXIMUM_LABEL_LENGTH == i {
                        assert(run < i);
                        assert(s@[i - run - 1] == '.');
                    }
                }
            }
            run = run + 1;
        }
        i = i + 1;
    }
    if run == 0 {
        return Err(ValidationError::InvalidHostname);
    }
    let last = hostname.get_ascii(n - 1);
    assert(last as char == s@[n - 1]);
    if last == HYPHEN {
        return Err(ValidationError::InvalidHostname);
    }
    assert(s@[n - 1] != '.');
    Ok(())
}

/// The first failed check of a vote request: its hostname, then its value.
pub open spec fn vote_request_error(host: Seq<char>, value: int) -> Option<ValidationError> {
    if !is_valid_hostname(host) {
        Some(ValidationError::InvalidHostname)
    } else if !is_valid_vote_value(value) {
        Some(ValidationError::InvalidVoteValue)
    } else {
        None
    }
}

/// Passes where `ok` holds, else fails with `e`.
pub open spec fn check(ok: bool, e: ValidationError) -> Result<(), ValidationError> {
    if ok {
        Ok(())
    } else {
        Err(e)
    }
}

pub open spec fn check_result(e: Option<ValidationError>) -> Result<(), ValidationError> {
    match e {
        Some(e) => Err(e),
        None => Ok(()),
    }
}

/// Checks the link and the value of a vote request.
pub fn validate_vote_request(request: &VoteRequest) -> (r: Result<(), ValidationError>)
    ensures
        r == check_result(vote_request_error(request.link@, request.value as int)),
{
    match is_hostname_valid(request.link.hostname.as_str()) {
        Err(e) => Err(e),
        Ok(()) => is_vote_value_valid(request.value),
    }
}

/// The first failed check of a scores request: the number of links, then each hostname.
pub open spec fn scores_request_error(hosts: Seq<Seq<char>>) -> Option<ValidationError> {
    if !(1 <= hosts.len() <= MAXIMUM_LINKS_PER_REQUEST) {
        Some(ValidationError::InvalidLinkCount)
    } else if exists|i: int| 0 <= i < hosts.len() && !is_valid_hostname(#[trigger] hosts[i]) {
        Some(ValidationError::InvalidHostname)
    } else {
        None
    }
}

pub open spec fn link_hosts(links: Seq<Link>) -> Seq<Seq<char>> {
    links.map_values(|l: Link| l@)
}

/// Checks that a scores request names 1 to 100 links, each with a valid hostname.
pub fn validate_get_scores_request(request: &ScoresRequest) -> (r: Result<(), ValidationError>)
    ensures
        r == check_result(scores_request_error(link_hosts(request.links@))),
{
    let n = request.links.len();
    if n < 1 || n > MAXIMUM_LINKS_PER_REQUEST {
        return Err(ValidationError::InvalidLinkCount);
    }
    let ghost hosts = link_hosts(request.links@);
    let mut i: usize = 0;
    while i < n
        invariant
            n == request.links@.len(),
            1 <= n <= MAXIMUM_LINKS_PER_REQUEST,
            hosts == link_hosts(request.links@),
            i <= n,
            forall|k: int| 0 <= k < i ==> is_valid_hostname(#[trigger] hosts[k]),
        decreases n - i,
    {
        let checked = is_hostname_valid(request.links[i].hostname.as_str());
        assert(hosts[i as int] == request.links@[i as int]@);
        if checked.is_err() {
            assert(!is_valid_hostname(hosts[i as int]));
            return Err(ValidationError::InvalidHostname);
        }
        i = i + 1;
    }
    assert(!exists|k: int| 0 <= k < hosts.len() && !is_valid_hostname(#[trigger] hosts[k]));
    Ok(())
}

/// Accepts exactly the two vote values.
pub fn is_vote_value_valid(vote_value: i32) -> (r: Result<(), ValidationError>)
    ensures
        r == check(is_valid_vote_value(vote_value as int), ValidationError::InvalidVoteValue),
{
    if vote_value != -1 && vote_value != 1 {
        return Err(ValidationError::InvalidVoteValue);
    }
    Ok(())
}

pub open spec fn is_digit(c: char) -> bool {
    '0' <= c && c <= '9'
}

pub open spec fn digit_value(c: char) -> int {
    c as int - '0' as int
}

/// The number written by the two digits at `i` and `i + 1`.
pub open spec fn two_digits_at(s: Seq<char>, i: int) -> int {
    10 * digit_value(s[i]) + digit_value(s[i + 1])
}

/// The number written by the four digits from `i` to `i + 3`.
pub open spec fn four_digits_at(s: Seq<char>, i: int) -> int {
    100 * two_digits_at(s, i) + two_digits_at(s, i + 2)
}

pub open spec fn is_leap_year(year: int) -> bool {
    (year % 4 == 0 && year % 100 != 0) || year % 400 == 0
}

pub open spec fn days_in_month(year: int, month: int) -> int {
    if month == 2 {
        if is_leap_year(year) {
            29
        } else {
            28
        }
    } else if month == 4 || month == 6 || month == 9 || month == 11 {
        30
    } else {
        31
    }
}

/// The Gregorian calendar has this day.
pub open spec fn is_calendar_date(year: int, month: int, day: int) -> bool {
    1 <= month <= 12 && 1 <= day <= days_in_month(year, month)
}

/// Where `YYYY-MM-DDTHH:MM:SSZ` has a digit.
pub open spec fn is_timestamp_digit_position(i: int) -> bool {
    0 <= i < 19 && i != 4 && i != 7 && i != 10 && i != 13 && i != 16
}

/// `s` has the layout `YYYY-MM-DDTHH:MM:SSZ`.
pub open spec fn has_timestamp_layout(s: Seq<char>) -> bool {
    &&& s.len() == 20
    &&& forall|i: int| is_timestamp_digit_position(i) ==> is_digit(#[trigger] s[i])
    &&& s[4] == '-' && s[7] == '-' && s[10] == 'T' && s[13] == ':' && s[16] == ':' && s[19] == 'Z'
}

/// A UTC timestamp to the second, `YYYY-MM-DDTHH:MM:SSZ`, naming a real date and time.
pub open spec fn is_valid_timestamp(s: Seq<char>) -> bool {
    &&& has_timestamp_layout(s)
    &&& is_calendar_date(four_digits_at(s, 0), two_digits_at(s, 5), two_digits_at(s, 8))
    &&& two_digits_at(s, 11) < 24
    &&& two_digits_at(s, 14) < 60
    &&& two_digits_at(s, 17) < 60
}

/// Relies on chrono::NaiveDate::from_ymd_opt: it returns a date exactly when the proleptic
/// Gregorian calendar has that day, for every year from 0 to 9999.
#[verifier::external_body]
fn calendar_date_exists(year: i32, month: u32, day: u32) -> (r: bool)
    requires
        0 <= year <= 9999,
    ensures
        r == is_calendar_date(year as int, month as int, day as int),
{
    chrono::NaiveDate::from_ymd_opt(year, month, day).is_some()
}

fn digit_at(s: &str, i: usize) -> (r: Option<u32>)
    requires
        i < s@.len(),
    ensures
        r is Some <==> is_digit(s@[i as int]),
        r matches Some(d) ==> d == digit_value(s@[i as int]) && d <= 9,
{
    let c = s.get_char(i);
    if '0' <= c && c <= '9' {
        Some((c as u32) - ('0' as u32))
    } else {
        None
    }
}

fn two_digits(s: &str, i: usize) -> (r: Option<u32>)
    requires
        i + 1 < s@.len() <= 20,
    ensures
        r is Some <==> is_digit(s@[i as int]) && is_digit(s@[i + 1]),
        r matches Some(n) ==> n == two_digits_at(s@, i as int) && n <= 99,
{
    match (digit_at(s, i), digit_at(s, i + 1)) {
        (Some(a), Some(b)) => Some(10 * a + b),
        _ => None,
    }
}

/// Accepts exactly the valid timestamps.
pub fn is_timestamp_valid(timestamp: &str) -> (r: Result<(), ValidationError>)
    ensures
        r == check(is_valid_timestamp(timestamp@), ValidationError::InvalidTimestamp),
{
    let s = Ghost(timestamp@);
    if timestamp.unicode_len() != 20 {
        return Err(ValidationError::InvalidTimestamp);
    }
    if timestamp.get_char(4) != '-' || timestamp.get_char(7) != '-' || timestamp.get_char(10)
        != 'T' || timestamp.get_char(13) != ':' || timestamp.get_char(16) != ':'
        || timestamp.get_char(19) != 'Z' {
        return Err(ValidationError::InvalidTimestamp);
    }
    let parts = (
        two_digits(timestamp, 0),
        two_digits(timestamp, 2),
        two_digits(timestamp, 5),
        two_digits(timestamp, 8),
        two_digits(timestamp, 11),
        two_digits(timestamp, 14),
        two_digits(timestamp, 17),
    );
    match parts {
        (Some(c), Some(y), Some(mo), Some(d), Some(h), Some(mi), Some(se)) => {
            assert forall|i: int| is_timestamp_digit_position(i) implies is_digit(
                #[trigger] s@[i],
            ) by {
                assert(i == 0 || i == 1 || i == 2 || i == 3 || i == 5 || i == 6 || i == 8 || i
                    == 9 || i == 11 || i == 12 || i == 14 || i == 15 || i == 17 || i == 18);
            }
            let year = (100 * c + y) as i32;
            if calendar_date_exists(year, mo, d) && h < 24 && mi < 60 && se < 60 {
                Ok(())
            } else {
                Err(ValidationError::InvalidTimestamp)
            }
        },
        _ => {
            proof {
                if has_timestamp_layout(s@) {
                    assert(is_timestamp_digit_position(0) && is_timestamp_digit_position(1));
                    assert(is_timestamp_digit_position(2) && is_timestamp_digit_position(3));
                    assert(is_timestamp_digit_position(5) && is_timestamp_digit_position(6));
                    assert(is_timestamp_digit_position(8) && is_timestamp_digit_position(9));
                    assert(is_timestamp_digit_position(11) && is_timestamp_digit_position(12));
                    assert(is_timestamp_digit_position(14) && is_timestamp_digit_position(15));
                    assert(is_timestamp_digit_position(17) && is_timestamp_digit_position(18));
                }
            }
            Err(ValidationError::InvalidTimestamp)
        },
    }
}

} // verus!
