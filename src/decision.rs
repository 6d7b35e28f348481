use vstd::prelude::*;
use crate::plan::{
    counter_update, day_of, day_of_timestamp, increment_link_history, increment_user_history,
    plan_view, put_new_user, put_new_vote, put_vote, revert_link_history, revert_user_history,
    update_existing_link_detail, update_link_detail, update_link_history, update_user_history,
    AggregateView, WriteItem, WriteItemView,
};
use crate::types::{Settings, Vote, VoteView};
use crate::validate::{is_valid_hostname, is_valid_timestamp, is_valid_vote_value};

verus! {

/// A vote that passed validation.
pub open spec fn is_valid_vote(v: VoteView) -> bool {
    is_valid_hostname(v.host) && is_valid_vote_value(v.value) && is_valid_timestamp(v.created_at)
}

/// What was read from the store to decide on a vote: the settings (or their defaults), the
/// voting user, how many votes the user has cast today, and the user's current vote on the
/// link, if any.
#[derive(Debug, Clone)]
pub struct VoteContext {
    pub settings: Settings,
    pub user_exists: bool,
    pub user_is_banned: bool,
    pub votes_today: u32,
    pub existing_vote: Option<Vote>,
}

pub struct VoteContextView {
    pub voting_is_disabled: bool,
    pub maximum_votes_per_user_per_day: int,
    pub user_exists: bool,
    pub user_is_banned: bool,
    pub votes_today: int,
    pub existing_vote: Option<VoteView>,
}

impl View for VoteContext {
    type V = VoteContextView;

    open spec fn view(&self) -> VoteContextView {
        VoteContextView {
            voting_is_disabled: self.settings.voting_is_disabled,
            maximum_votes_per_user_per_day: self.settings.maximum_votes_per_user_per_day as int,
            user_exists: self.user_exists,
            user_is_banned: self.user_is_banned,
            votes_today: self.votes_today as int,
            existing_vote: match self.existing_vote {
                Some(v) => Some(v@),
                None => None,
            },
        }
    }
}

/// Why a valid vote was refused.
#[derive(Debug, Clone, Copy, PartialEq, Eq, Structural)]
pub enum VoteRejected {
    Banned,
    VotingDisabled,
    RateLimited,
}

impl VoteRejected {
    /// The human-readable description of the rejection.
    pub fn message(&self) -> (r: &'static str)
        ensures
            *self == VoteRejected::Banned ==> r@ == "User is banned"@,
            *self == VoteRejected::VotingDisabled ==> r@ == "Voting is disabled"@,
            *self == VoteRejected::RateLimited ==> r@ == "User has voted too many times today"@,
    {
        match self {
            VoteRejected::Banned => "User is banned",
            VoteRejected::VotingDisabled => "Voting is disabled",
            VoteRejected::RateLimited => "User has voted too many times today",
        }
    }
}

/// The policy checks, in order: a banned user, voting switched off, the daily limit reached.
pub open spec fn rejection_of(ctx: VoteContextView) -> Option<VoteRejected> {
    if ctx.user_is_banned {
        Some(VoteRejected::Banned)
    } else if ctx.voting_is_disabled {
        Some(VoteRejected::VotingDisabled)
    } else if ctx.votes_today >= ctx.maximum_votes_per_user_per_day {
        Some(VoteRejected::RateLimited)
    } else {
        None
    }
}

/// The writes that record `vote` given what was read: the user record if it is new, then the
/// vote itself and the changes of the aggregates.
/// - A first vote on the link counts in the link's lifetime totals and in today's totals of
///   the link and of the user.
/// - An edit on the day of the earlier vote moves those sums by the change, counts untouched.
/// - An edit on a later day moves the lifetime sum by the change, takes the earlier vote out
///   of its day's totals, and counts the new one in today's.
pub open spec fn plan_of(vote: VoteView, ctx: VoteContextView) -> Seq<WriteItemView> {
    let today = day_of(vote.created_at);
    let user_part = if ctx.user_exists {
        Seq::empty()
    } else {
        seq![WriteItemView::PutUser { user: vote.user, created_at: vote.created_at }]
    };
    let counted_today = seq![
        counter_update(AggregateView::LinkHistory { day: today, host: vote.host }, 1, vote.value, true),
        counter_update(AggregateView::UserHistory { day: today, user: vote.user }, 1, vote.value, true),
    ];
    let vote_part = match ctx.existing_vote {
        None => seq![
            WriteItemView::PutVote { vote, creates: true },
            counter_update(AggregateView::LinkDetail { host: vote.host }, 1, vote.value, true),
        ] + counted_today,
        Some(old) => {
            let change = vote.value - old.value;
            let old_day = day_of(old.created_at);
            seq![
                WriteItemView::PutVote { vote, creates: false },
                counter_update(AggregateView::LinkDetail { host: vote.host }, 0, change, false),
            ] + if old_day == today {
                seq![
                    counter_update(AggregateView::LinkHistory { day: today, host: vote.host }, 0, change, false),
                    counter_update(AggregateView::UserHistory { day: today, user: vote.user }, 0, change, false),
                ]
            } else {
                seq![
                    counter_update(AggregateView::LinkHistory { day: old_day, host: vote.host }, -1, -old.value, false),
                    counter_update(AggregateView::UserHistory { day: old_day, user: vote.user }, -1, -old.value, false),
                ] + counted_today
            }
        },
    };
    user_part + vote_part
}

/// The outcome of a vote: the first failed policy check, or the plan of writes.
pub open spec fn decision_of(vote: VoteView, ctx: VoteContextView) -> Result<
    Seq<WriteItemView>,
    VoteRejected,
> {
    match rejection_of(ctx) {
        Some(reason) => Err(reason),
        None => Ok(plan_of(vote, ctx)),
    }
}

pub open spec fn decision_view(r: Result<Vec<WriteItem>, VoteRejected>) -> Result<
    Seq<WriteItemView>,
    VoteRejected,
> {
    match r {
        Ok(plan) => Ok(plan_view(plan@)),
        Err(reason) => Err(reason),
    }
}

/// Decides on a valid vote: refuses it by the policy checks, or returns the writes that
/// record it, to be applied all together.
pub fn decide(vote: &Vote, context: &VoteContext) -> (r: Result<Vec<WriteItem>, VoteRejected>)
    requires
        is_valid_vote(vote@),
        context.existing_vote matches Some(old) ==> is_valid_vote(old@),
    ensures
        decision_view(r) == decision_of(vote@, context@),
{
    if context.user_is_banned {
        return Err(VoteRejected::Banned);
    }
    if context.settings.voting_is_disabled {
        return Err(VoteRejected::VotingDisabled);
    }
    if context.votes_today >= context.settings.maximum_votes_per_user_per_day {
        return Err(VoteRejected::RateLimited);
    }
    let day = day_of_timestamp(vote.created_at.as_str());
    let mut writes: Vec<WriteItem> = Vec::new();
    if !context.user_exists {
        writes.push(put_new_user(&vote.user_id, &vote.created_at));
    }
    let ghost user_part = plan_view(writes@);
    match &context.existing_vote {
        None => {
            writes.push(put_new_vote(vote));
            writes.push(update_link_detail(&vote.link, vote.value));
            writes.push(increment_link_history(&day, vote));
            writes.push(increment_user_history(&day, vote));
        },
        Some(old_vote) => {
            let old_day = day_of_timestamp(old_vote.created_at.as_str());
            writes.push(put_vote(vote));
            writes.push(update_existing_link_detail(&vote.link, vote.value - old_vote.value));
            if old_day == day {
                writes.push(update_link_history(&day, old_vote, vote));
                writes.push(update_user_history(&day, old_vote, vote));
            } else {
                writes.push(revert_link_history(old_vote, &vote.link));
                writes.push(revert_user_history(old_vote, &vote.user_id));
                writes.push(increment_link_history(&day, vote));
                writes.push(increment_user_history(&day, vote));
            }
        },
    }
    assert(plan_view(writes@) =~= plan_of(vote@, context@));
    Ok(writes)
}

} // verus!
