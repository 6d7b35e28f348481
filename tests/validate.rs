use link_votes::types::{Link, ScoresRequest, VoteRequest, UserId};
use link_votes::validate::{
    is_hostname_valid, is_timestamp_valid, is_vote_value_valid, validate_get_scores_request,
    validate_vote_request, ValidationError,
};

fn scores_request(links: Vec<&str>) -> ScoresRequest {
    ScoresRequest { links: links.into_iter().map(Link::new).collect::<Vec<Link>>() }
}

#[test]
fn test_validate_get_scores_request() {
    // Happy path
    let value = scores_request(vec!["www.google.com", "abc.com", "domain.me"]);
    assert!(validate_get_scores_request(&value).is_ok());

    // Not enough links
    let value = scores_request(vec![]);
    let result = validate_get_scores_request(&value);
    assert!(result.is_err());
    assert!(result.unwrap_err().message().contains("Validation error: length"));

    // Too many links
    let value = scores_request(vec!["www.google.com"; 101]);
    let result = validate_get_scores_request(&value);
    assert!(result.is_err());
    assert!(result.unwrap_err().message().contains("Validation error: length"));

    // Invalid hostname
    let value = scores_request(vec!["www.google.com", "abc;;;com"]);
    let result = validate_get_scores_request(&value);
    assert!(result.is_err());
    assert!(result.unwrap_err().message().contains("Hostname is invalid"));
}

#[test]
fn scores_request_bounds_are_inclusive() {
    assert!(validate_get_scores_request(&scores_request(vec!["abc.com"])).is_ok());
    assert!(validate_get_scores_request(&scores_request(vec!["abc.com"; 100])).is_ok());
    assert_eq!(
        validate_get_scores_request(&scores_request(vec!["abc.com"; 101])),
        Err(ValidationError::InvalidLinkCount)
    );
}

#[test]
fn test_is_vote_value_valid() {
    assert_eq!(is_vote_value_valid(1), Ok(()));
    assert_eq!(is_vote_value_valid(-1), Ok(()));
    for invalid_vote in [2, 0, 223, -5, -9999] {
        assert_eq!(is_vote_value_valid(invalid_vote), Err(ValidationError::InvalidVoteValue));
        assert_eq!(
            is_vote_value_valid(invalid_vote).unwrap_err().message(),
            "Vote should be -1 or 1"
        );
    }
}

#[test]
fn test_is_hostname_valid() {
    // Valid hostnames
    for hostname in &[
        "VaLiD-HoStNaMe",
        "50-name",
        "235235",
        "example.com",
        "VaLid.HoStNaMe",
        "www.place.au",
        "123.456",
    ] {
        assert_eq!(is_hostname_valid(hostname), Ok(()));
    }

    // Invalid hostnames
    for hostname in &[
        "-invalid-name",
        "also-invalid-",
        "asdf@fasd",
        "@asdfl",
        "asd f@",
        ".invalid",
        "invalid.name.",
        "foo.label-is-way-to-longgggggggggggggggggggggggggggggggggggggggggggg.org",
        "invalid.-starting.char",
        "invalid.ending-.char",
        "empty..label",
    ] {
        assert_eq!(is_hostname_valid(hostname), Err(ValidationError::InvalidHostname));
        assert_eq!(
            is_hostname_valid(hostname).unwrap_err().message(),
            "Hostname is invalid"
        );
    }
}

#[test]
fn hostname_length_limits() {
    let label63 = "a".repeat(63);
    let label64 = "a".repeat(64);
    assert_eq!(is_hostname_valid(&label63), Ok(()));
    assert_eq!(is_hostname_valid(&label64), Err(ValidationError::InvalidHostname));
    assert_eq!(is_hostname_valid(&format!("{}.com", label63)), Ok(()));
    // 4 labels of 63 and one dot-separated "a": 63*4 + 3 dots = 255 characters
    let long = vec![label63.as_str(); 4].join(".");
    assert_eq!(long.len(), 255);
    assert_eq!(is_hostname_valid(&long), Err(ValidationError::InvalidHostname));
    let at_limit = format!("{}.{}.{}.{}", label63, label63, label63, "a".repeat(61));
    assert_eq!(at_limit.len(), 253);
    assert_eq!(is_hostname_valid(&at_limit), Ok(()));
    assert_eq!(is_hostname_valid(""), Err(ValidationError::InvalidHostname));
    assert_eq!(is_hostname_valid("bücher.de"), Err(ValidationError::InvalidHostname));
}

#[test]
fn timestamps_follow_the_calendar() {
    assert_eq!(is_timestamp_valid("2023-02-02T09:36:03Z"), Ok(()));
    assert_eq!(is_timestamp_valid("2024-02-29T23:59:59Z"), Ok(()));
    assert_eq!(is_timestamp_valid("2000-02-29T00:00:00Z"), Ok(()));
    assert_eq!(is_timestamp_valid("2023-02-29T00:00:00Z"), Err(ValidationError::InvalidTimestamp));
    assert_eq!(is_timestamp_valid("1900-02-29T00:00:00Z"), Err(ValidationError::InvalidTimestamp));
    assert_eq!(is_timestamp_valid("2023-04-31T00:00:00Z"), Err(ValidationError::InvalidTimestamp));
    assert_eq!(is_timestamp_valid("2023-13-01T00:00:00Z"), Err(ValidationError::InvalidTimestamp));
    assert_eq!(is_timestamp_valid("2023-02-02T24:00:00Z"), Err(ValidationError::InvalidTimestamp));
    assert_eq!(is_timestamp_valid("2023-02-02T23:60:00Z"), Err(ValidationError::InvalidTimestamp));
    assert_eq!(is_timestamp_valid("2023-02-02 09:36:03Z"), Err(ValidationError::InvalidTimestamp));
    assert_eq!(is_timestamp_valid("2023-02-02T09:36:03"), Err(ValidationError::InvalidTimestamp));
    assert_eq!(is_timestamp_valid("2023-2-02T09:36:03Z"), Err(ValidationError::InvalidTimestamp));
    assert_eq!(
        ValidationError::InvalidTimestamp.message(),
        "Timestamp is invalid"
    );
}

#[test]
fn vote_requests_check_link_then_value() {
    let user_id = UserId { bits: 7 };
    let good = VoteRequest { link: Link::new("abc.com"), value: 1, user_id };
    assert_eq!(validate_vote_request(&good), Ok(()));
    let bad_value = VoteRequest { link: Link::new("abc.com"), value: 3, user_id };
    assert_eq!(validate_vote_request(&bad_value), Err(ValidationError::InvalidVoteValue));
    let bad_both = VoteRequest { link: Link::new("abc..com"), value: 3, user_id };
    assert_eq!(validate_vote_request(&bad_both), Err(ValidationError::InvalidHostname));
}
