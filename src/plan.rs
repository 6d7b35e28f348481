use vstd::prelude::*;
use crate::types::{Link, UserId, Vote, VoteView};

verus! {

/// The calendar day, `YYYY-MM-DD`, of a timestamp `YYYY-MM-DDTHH:MM:SSZ`.
pub open spec fn day_of(timestamp: Seq<char>) -> Seq<char> {
    timestamp.subrange(0, 10)
}

pub fn day_of_timestamp(timestamp: &str) -> (r: String)
    requires
        timestamp@.len() >= 10,
    ensures
        r@ == day_of(timestamp@),
{
    timestamp.substring_char(0, 10).to_owned()
}

impl Link {
    /// A copy of the link.
    pub fn duplicate(&self) -> (r: Link)
        ensures
            r@ == self@,
    {
        Link { hostname: self.hostname.clone() }
    }
}

impl Vote {
    /// A copy of the vote.
    pub fn duplicate(&self) -> (r: Vote)
        ensures
            r@ == self@,
    {
        Vote {
            link: self.link.duplicate(),
            value: self.value,
            user_id: self.user_id,
            created_at: self.created_at.clone(),
        }
    }
}

/// An aggregate record: lifetime totals of a link, or one day's totals of a link or a user.
#[derive(Debug, Clone)]
pub enum Aggregate {
    LinkDetail { link: Link },
    LinkHistory { day: String, link: Link },
    UserHistory { day: String, user_id: UserId },
}

pub enum AggregateView {
    LinkDetail { host: Seq<char> },
    LinkHistory { day: Seq<char>, host: Seq<char> },
    UserHistory { day: Seq<char>, user: u128 },
}

impl View for Aggregate {
    type V = AggregateView;

    open spec fn view(&self) -> AggregateView {
        match self {
            Aggregate::LinkDetail { link } => AggregateView::LinkDetail { host: link@ },
            Aggregate::LinkHistory { day, link } => AggregateView::LinkHistory {
                day: day@,
                host: link@,
            },
            Aggregate::UserHistory { day, user_id } => AggregateView::UserHistory {
                day: day@,
                user: user_id.bits,
            },
        }
    }
}

/// Adds `count_change` to an aggregate's vote count and `sum_change` to its vote sum, an
/// absent aggregate counting as zero. Where `creates` holds, the update also tags the record
/// with its entity type, as the first update of an aggregate does.
#[derive(Debug, Clone)]
pub struct CounterUpdate {
    pub aggregate: Aggregate,
    pub count_change: i32,
    pub sum_change: i32,
    pub creates: bool,
}

/// One mutation of the store; a plan is a list of them, applied all together or not at all.
#[derive(Debug, Clone)]
pub enum WriteItem {
    /// Stores a new, unbanned user; the write fails where the user is already stored.
    PutUser { user_id: UserId, created_at: String },
    /// Stores the vote as the user's current vote on its link. A first vote (`creates`) is
    /// stored only where the user has no vote on the link yet; another replaces the earlier
    /// vote.
    PutVote { vote: Vote, creates: bool },
    /// Changes an aggregate's totals.
    Update { update: CounterUpdate },
}

pub enum WriteItemView {
    PutUser { user: u128, created_at: Seq<char> },
    PutVote { vote: VoteView, creates: bool },
    Update { aggregate: AggregateView, count_change: int, sum_change: int, creates: bool },
}

impl View for WriteItem {
    type V = WriteItemView;

    open spec fn view(&self) -> WriteItemView {
        match self {
            WriteItem::PutUser { user_id, created_at } => WriteItemView::PutUser {
                user: user_id.bits,
                created_at: created_at@,
            },
            WriteItem::PutVote { vote, creates } => WriteItemView::PutVote {
                vote: vote@,
                creates: *creates,
            },
            WriteItem::Update { update } => WriteItemView::Update {
                aggregate: update.aggregate@,
                count_change: update.count_change as int,
                sum_change: update.sum_change as int,
                creates: update.creates,
            },
        }
    }
}

impl WriteItem {
    /// The entity type that tags the record this write creates or changes.
    pub fn entity_type(&self) -> (r: &'static str)
        ensures
            match self@ {
                WriteItemView::PutUser { .. } => r@ == "User"@,
                WriteItemView::PutVote { .. } => r@ == "Vote"@,
                WriteItemView::Update { aggregate, .. } => match aggregate {
                    AggregateView::LinkDetail { .. } => r@ == "LinkDetail"@,
                    AggregateView::LinkHistory { .. } => r@ == "LinkHistory"@,
                    AggregateView::UserHistory { .. } => r@ == "UserHistory"@,
                },
            },
    {
        match self {
            WriteItem::PutUser { .. } => "User",
            WriteItem::PutVote { .. } => "Vote",
            WriteItem::Update { update } => match &update.aggregate {
                Aggregate::LinkDetail { .. } => "LinkDetail",
                Aggregate::LinkHistory { .. } => "LinkHistory",
                Aggregate::UserHistory { .. } => "UserHistory",
            },
        }
    }
}

/// The plain-value form of a plan.
pub open spec fn plan_view(plan: Seq<WriteItem>) -> Seq<WriteItemView> {
    plan.map_values(|w: WriteItem| w@)
}

pub open spec fn counter_update(
    aggregate: AggregateView,
    count_change: int,
    sum_change: int,
    creates: bool,
) -> WriteItemView {
    WriteItemView::Update { aggregate, count_change, sum_change, creates }
}

fn update(aggregate: Aggregate, count_change: i32, sum_change: i32, creates: bool) -> (r: WriteItem)
    ensures
        r@ == counter_update(aggregate@, count_change as int, sum_change as int, creates),
{
    WriteItem::Update { update: CounterUpdate { aggregate, count_change, sum_change, creates } }
}

/// Creates the user record.
pub fn put_new_user(user_id: &UserId, created_at: &String) -> (r: WriteItem)
    ensures
        r@ == (WriteItemView::PutUser { user: user_id.bits, created_at: created_at@ }),
{
    WriteItem::PutUser { user_id: *user_id, created_at: created_at.clone() }
}

/// Stores the vote in place of the user's earlier vote on its link.
pub fn put_vote(vote: &Vote) -> (r: WriteItem)
    ensures
        r@ == (WriteItemView::PutVote { vote: vote@, creates: false }),
{
    WriteItem::PutVote { vote: vote.duplicate(), creates: false }
}

/// Stores the user's first vote on its link; the write fails where a vote is already stored.
pub fn put_new_vote(vote: &Vote) -> (r: WriteItem)
    ensures
        r@ == (WriteItemView::PutVote { vote: vote@, creates: true }),
{
    WriteItem::PutVote { vote: vote.duplicate(), creates: true }
}

/// Counts a first vote on the link in its lifetime totals.
pub fn update_link_detail(link: &Link, vote_value: i32) -> (r: WriteItem)
    ensures
        r@ == counter_update(
            AggregateView::LinkDetail { host: link@ },
            1,
            vote_value as int,
            true,
        ),
{
    update(Aggregate::LinkDetail { link: link.duplicate() }, 1, vote_value, true)
}

/// Moves the link's lifetime sum by the change of an edited vote.
pub fn update_existing_link_detail(link: &Link, vote_value_change: i32) -> (r: WriteItem)
    ensures
        r@ == counter_update(
            AggregateView::LinkDetail { host: link@ },
            0,
            vote_value_change as int,
            false,
        ),
{
    update(Aggregate::LinkDetail { link: link.duplicate() }, 0, vote_value_change, false)
}

/// Counts the vote in its link's totals for `day`.
pub fn increment_link_history(day: &String, vote: &Vote) -> (r: WriteItem)
    ensures
        r@ == counter_update(
            AggregateView::LinkHistory { day: day@, host: vote.link@ },
            1,
            vote.value as int,
            true,
        ),
{
    update(
        Aggregate::LinkHistory { day: day.clone(), link: vote.link.duplicate() },
        1,
        vote.value,
        true,
    )
}

/// Counts the vote in its user's totals for `day`.
pub fn increment_user_history(day: &String, vote: &Vote) -> (r: WriteItem)
    ensures
        r@ == counter_update(
            AggregateView::UserHistory { day: day@, user: vote.user_id.bits },
            1,
            vote.value as int,
            true,
        ),
{
    update(
        Aggregate::UserHistory { day: day.clone(), user_id: vote.user_id },
        1,
        vote.value,
        true,
    )
}

/// Takes an earlier vote out of the link's totals for the day it was cast.
pub fn revert_link_history(old_vote: &Vote, link: &Link) -> (r: WriteItem)
    requires
        old_vote.created_at@.len() >= 10,
        old_vote.value > i32::MIN,
    ensures
        r@ == counter_update(
            AggregateView::LinkHistory { day: day_of(old_vote.created_at@), host: link@ },
            -1,
            -old_vote.value,
            false,
        ),
{
    let old_day = day_of_timestamp(old_vote.created_at.as_str());
    update(
        Aggregate::LinkHistory { day: old_day, link: link.duplicate() },
        -1,
        -old_vote.value,
        false,
    )
}

/// Takes an earlier vote out of the user's totals for the day it was cast.
pub fn revert_user_history(old_vote: &Vote, user_id: &UserId) -> (r: WriteItem)
    requires
        old_vote.created_at@.len() >= 10,
        old_vote.value > i32::MIN,
    ensures
        r@ == counter_update(
            AggregateView::UserHistory { day: day_of(old_vote.created_at@), user: user_id.bits },
            -1,
            -old_vote.value,
            false,
        ),
{
    let old_day = day_of_timestamp(old_vote.created_at.as_str());
    update(
        Aggregate::UserHistory { day: old_day, user_id: *user_id },
        -1,
        -old_vote.value,
        false,
    )
}

/// Moves the link's sum for `day` by the change from `old_vote` to `vote`.
pub fn update_link_history(day: &String, old_vote: &Vote, vote: &Vote) -> (r: WriteItem)
    requires
        i32::MIN <= vote.value - old_vote.value <= i32::MAX,
    ensures
        r@ == counter_update(
            AggregateView::LinkHistory { day: day@, host: vote.link@ },
            0,
            vote.value - old_vote.value,
            false,
        ),
{
    update(
        Aggregate::LinkHistory { day: day.clone(), link: vote.link.duplicate() },
        0,
        vote.value - old_vote.value,
        false,
    )
}

/// Moves the user's sum for `day` by the change from `old_vote` to `vote`.
pub fn update_user_history(day: &String, old_vote: &Vote, vote: &Vote) -> (r: WriteItem)
    requires
        i32::MIN <= vote.value - old_vote.value <= i32::MAX,
    ensures
        r@ == counter_update(
            AggregateView::UserHistory { day: day@, user: vote.user_id.bits },
            0,
            vote.value - old_vote.value,
            false,
        ),
{
    update(
        Aggregate::UserHistory { day: day.clone(), user_id: vote.user_id },
        0,
        vote.value - old_vote.value,
        false,
    )
}

} // verus!
