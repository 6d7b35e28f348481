use vstd::prelude::*;

verus! {

/// Process-wide settings, loaded once at start and passed to every request.
#[derive(Debug)]
pub struct Config {
    pub table_name: String,
    pub use_local_database: bool,
    pub randomize_scores: bool,
    pub use_system_time: bool,
}

/// A link, identified by its hostname.
#[derive(Debug, Clone)]
pub struct Link {
    pub hostname: String,
}

impl View for Link {
    type V = Seq<char>;

    open spec fn view(&self) -> Seq<char> {
        self.hostname@
    }
}

impl Link {
    pub fn new(hostname: &str) -> (r: Link)
        ensures
            r@ == hostname@,
    {
        Link { hostname: hostname.to_owned() }
    }
}

/// The score category of a link.
#[derive(Debug, Clone, Copy, PartialEq, Eq, Structural)]
pub enum Score {
    Good,
    Bad,
    Controversial,
    NoScore,
}

/// A link together with its score.
#[derive(Debug, Clone)]
pub struct LinkScore {
    pub link: Link,
    pub score: Score,
}

impl LinkScore {
    pub fn new(link: Link, score: Score) -> (r: LinkScore)
        ensures
            r.link@ == link@,
            r.score == score,
    {
        LinkScore { link, score }
    }

    pub fn link(&self) -> (r: &Link)
        ensures
            r@ == self.link@,
    {
        &self.link
    }

    pub fn score(&self) -> (r: Score)
        ensures
            r == self.score,
    {
        self.score
    }
}

/// The identifier of a voting user, as the 128 bits of its UUID.
#[derive(Debug, Clone, Copy, PartialEq, Eq, Structural)]
pub struct UserId {
    pub bits: u128,
}

/// A user's request to vote on a link.
#[derive(Debug, Clone)]
pub struct VoteRequest {
    pub link: Link,
    pub value: i32,
    pub user_id: UserId,
}

/// A request for the scores of a list of links.
#[derive(Debug, Clone)]
pub struct ScoresRequest {
    pub links: Vec<Link>,
}

/// The scores of the links of a request, in the request's order.
#[derive(Debug, Clone)]
pub struct ScoresResponse {
    pub scores: Vec<LinkScore>,
}

impl ScoresResponse {
    pub fn new(scores: Vec<LinkScore>) -> (r: ScoresResponse)
        ensures
            r.scores@ == scores@,
    {
        ScoresResponse { scores }
    }

    pub fn scores(&self) -> (r: &Vec<LinkScore>)
        ensures
            r@ == self.scores@,
    {
        &self.scores
    }
}

/// A user's current vote on a link.
#[derive(Debug, Clone)]
pub struct Vote {
    pub link: Link,
    pub value: i32,
    pub user_id: UserId,
    pub created_at: String,
}

/// The plain-value form of a vote.
pub struct VoteView {
    pub host: Seq<char>,
    pub value: int,
    pub user: u128,
    pub created_at: Seq<char>,
}

impl View for Vote {
    type V = VoteView;

    open spec fn view(&self) -> VoteView {
        VoteView {
            host: self.link@,
            value: self.value as int,
            user: self.user_id.bits,
            created_at: self.created_at@,
        }
    }
}

/// A user's vote totals for one day.
#[derive(Debug, Clone)]
pub struct UserHistory {
    pub day: String,
    pub count_of_votes: u32,
    pub sum_of_votes: i32,
}

pub struct UserHistoryView {
    pub day: Seq<char>,
    pub count: int,
    pub sum: int,
}

impl View for UserHistory {
    type V = UserHistoryView;

    open spec fn view(&self) -> UserHistoryView {
        UserHistoryView {
            day: self.day@,
            count: self.count_of_votes as int,
            sum: self.sum_of_votes as int,
        }
    }
}

/// A user record.
#[derive(Debug, Clone, Copy)]
pub struct User {
    pub is_banned: bool,
}

/// The global settings record.
#[derive(Debug, Clone, Copy)]
pub struct Settings {
    pub voting_is_disabled: bool,
    pub maximum_votes_per_user_per_day: u32,
}

pub struct SettingsView {
    pub voting_is_disabled: bool,
    pub maximum_votes_per_user_per_day: int,
}

impl View for Settings {
    type V = SettingsView;

    open spec fn view(&self) -> SettingsView {
        SettingsView {
            voting_is_disabled: self.voting_is_disabled,
            maximum_votes_per_user_per_day: self.maximum_votes_per_user_per_day as int,
        }
    }
}

/// The daily vote limit that applies when no settings record is stored.
pub const DEFAULT_MAXIMUM_VOTES_PER_USER_PER_DAY: u32 = 10;

impl Settings {
    /// The settings that apply when none are stored: voting enabled, ten votes a day.
    pub fn default_settings() -> (r: Settings)
        ensures
            !r.voting_is_disabled,
            r.maximum_votes_per_user_per_day == DEFAULT_MAXIMUM_VOTES_PER_USER_PER_DAY,
    {
        Settings {
            voting_is_disabled: false,
            maximum_votes_per_user_per_day: DEFAULT_MAXIMUM_VOTES_PER_USER_PER_DAY,
        }
    }
}

/// The lifetime vote totals of a link.
#[derive(Debug, Clone)]
pub struct LinkDetail {
    pub link: Link,
    pub count_of_votes: u32,
    pub sum_of_votes: i32,
}

pub struct LinkDetailView {
    pub host: Seq<char>,
    pub count: int,
    pub sum: int,
}

impl View for LinkDetail {
    type V = LinkDetailView;

    open spec fn view(&self) -> LinkDetailView {
        LinkDetailView {
            host: self.link@,
            count: self.count_of_votes as int,
            sum: self.sum_of_votes as int,
        }
    }
}

} // verus!
