use vstd::prelude::*;
use crate::decision::{decision_of, plan_of, VoteRejected};
use crate::validate::{vote_request_error, ValidationError};
use crate::plan::{counter_update, day_of, AggregateView, WriteItemView};
use crate::store::{
    add_to_totals, apply_plan, apply_write, context_of, lemma_apply_plan_concat,
    lemma_sum_of_insert, sum_of, totals_in, zero_totals, StoreView, Totals,
};
use crate::types::VoteView;

verus! {

/// The sum of the values of the votes of a map.
pub open spec fn vote_value_sum(votes: Map<u128, VoteView>) -> int {
    sum_of(votes, |v: VoteView| v.value)
}

/// The sum of the vote sums of a map of day totals.
pub open spec fn day_sum_total(days: Map<Seq<char>, Totals>) -> int {
    sum_of(days, |t: Totals| t.sum)
}

/// A link's lifetime totals count its current votes and add up their values.
pub open spec fn link_totals_match_votes(s: StoreView, host: Seq<char>) -> bool {
    s.link_detail(host) == Totals {
        count: s.votes_on(host).dom().len() as int,
        sum: vote_value_sum(s.votes_on(host)),
    }
}

/// A link's day sums add up to its lifetime sum.
pub open spec fn link_days_match_detail(s: StoreView, host: Seq<char>) -> bool {
    day_sum_total(s.link_days(host)) == s.link_detail(host).sum
}

/// What one write adds to a link's lifetime totals.
pub open spec fn write_detail_change(w: WriteItemView, host: Seq<char>) -> Totals {
    match w {
        WriteItemView::Update { aggregate, count_change, sum_change, .. } => match aggregate {
            AggregateView::LinkDetail { host: h } => if h == host {
                Totals { count: count_change, sum: sum_change }
            } else {
                zero_totals()
            },
            _ => zero_totals(),
        },
        _ => zero_totals(),
    }
}

/// What one write adds to the day sums of a link.
pub open spec fn write_day_sum_change(w: WriteItemView, host: Seq<char>) -> int {
    match w {
        WriteItemView::Update { aggregate, sum_change, .. } => match aggregate {
            AggregateView::LinkHistory { host: h, .. } => if h == host {
                sum_change
            } else {
                0
            },
            _ => 0,
        },
        _ => 0,
    }
}

pub open spec fn plan_detail_change(p: Seq<WriteItemView>, host: Seq<char>) -> Totals
    decreases p.len(),
{
    if p.len() == 0 {
        zero_totals()
    } else {
        let w = write_detail_change(p[0], host);
        add_to_totals(plan_detail_change(p.drop_first(), host), w.count, w.sum)
    }
}

pub open spec fn plan_day_sum_change(p: Seq<WriteItemView>, host: Seq<char>) -> int
    decreases p.len(),
{
    if p.len() == 0 {
        0
    } else {
        write_day_sum_change(p[0], host) + plan_day_sum_change(p.drop_first(), host)
    }
}

proof fn lemma_detail_change_applies(s: StoreView, p: Seq<WriteItemView>, host: Seq<char>)
    ensures
        apply_plan(s, p).link_detail(host) == add_to_totals(
            s.link_detail(host),
            plan_detail_change(p, host).count,
            plan_detail_change(p, host).sum,
        ),
    decreases p.len(),
{
    if p.len() > 0 {
        lemma_detail_change_applies(apply_write(s, p[0]), p.drop_first(), host);
    }
}

proof fn lemma_day_sum_change_applies(s: StoreView, p: Seq<WriteItemView>, host: Seq<char>)
    requires
        s.finite_for(host),
    ensures
        apply_plan(s, p).finite_for(host),
        day_sum_total(apply_plan(s, p).link_days(host)) == day_sum_total(s.link_days(host))
            + plan_day_sum_change(p, host),
    decreases p.len(),
{
    if p.len() > 0 {
        let s1 = apply_write(s, p[0]);
        match p[0] {
            WriteItemView::Update { aggregate, count_change, sum_change, .. } => match aggregate {
                AggregateView::LinkHistory { day, host: h } => {
                    if h == host {
                        let days = s.link_days(host);
                        lemma_sum_of_insert(
                            days,
                            |t: Totals| t.sum,
                            day,
                            add_to_totals(totals_in(days, day), count_change, sum_change),
                        );
                    }
                },
                _ => {},
            },
            _ => {},
        }
        assert(s1.finite_for(host));
        lemma_day_sum_change_applies(s1, p.drop_first(), host);
    }
}

proof fn lemma_changes_concat(a: Seq<WriteItemView>, b: Seq<WriteItemView>, host: Seq<char>)
    ensures
        plan_detail_change(a + b, host) == add_to_totals(
            plan_detail_change(b, host),
            plan_detail_change(a, host).count,
            plan_detail_change(a, host).sum,
        ),
        plan_day_sum_change(a + b, host) == plan_day_sum_change(a, host) + plan_day_sum_change(
            b,
            host,
        ),
    decreases a.len(),
{
    if a.len() > 0 {
        assert((a + b).drop_first() =~= a.drop_first() + b);
        lemma_changes_concat(a.drop_first(), b, host);
    } else {
        assert(a + b =~= b);
    }
}

/// Writes other than votes leave the votes as they are.
proof fn lemma_votes_kept(s: StoreView, p: Seq<WriteItemView>)
    requires
        forall|i: int| 0 <= i < p.len() ==> !(#[trigger] p[i] is PutVote),
    ensures
        apply_plan(s, p).votes == s.votes,
    decreases p.len(),
{
    if p.len() > 0 {
        assert(!(p[0] is PutVote));
        assert forall|i: int| 0 <= i < p.drop_first().len() implies !(
        #[trigger] p.drop_first()[i] is PutVote) by {
            assert(p.drop_first()[i] == p[i + 1]);
        }
        lemma_votes_kept(apply_write(s, p[0]), p.drop_first());
    }
}

/// The plan of a recorded vote, cut after its first write on the vote record: what comes
/// before that write and what comes after it write no votes.
proof fn lemma_plan_parts(vote: VoteView, s: StoreView) -> (parts: (
    Seq<WriteItemView>,
    Seq<WriteItemView>,
))
    ensures
        plan_of(vote, context_of(s, vote)) == parts.0 + seq![
            WriteItemView::PutVote { vote, creates: context_of(s, vote).existing_vote is None },
        ] + parts.1,
        forall|i: int| 0 <= i < parts.0.len() ==> !(#[trigger] parts.0[i] is PutVote),
        forall|i: int| 0 <= i < parts.1.len() ==> !(#[trigger] parts.1[i] is PutVote),
        plan_detail_change(plan_of(vote, context_of(s, vote)), vote.host) == (match context_of(
            s,
            vote,
        ).existing_vote {
            None => Totals { count: 1, sum: vote.value },
            Some(old) => Totals { count: 0, sum: vote.value - old.value },
        }),
        plan_day_sum_change(plan_of(vote, context_of(s, vote)), vote.host) == plan_detail_change(
            plan_of(vote, context_of(s, vote)),
            vote.host,
        ).sum,
        forall|h: Seq<char>|
            h != vote.host ==> plan_detail_change(plan_of(vote, context_of(s, vote)), h)
                == zero_totals() && plan_day_sum_change(plan_of(vote, context_of(s, vote)), h)
                == 0,
{
    reveal_with_fuel(plan_detail_change, 7);
    reveal_with_fuel(plan_day_sum_change, 7);
    let ctx = context_of(s, vote);
    let plan = plan_of(vote, ctx);
    let today = day_of(vote.created_at);
    let user_part: Seq<WriteItemView> = if ctx.user_exists {
        Seq::empty()
    } else {
        seq![WriteItemView::PutUser { user: vote.user, created_at: vote.created_at }]
    };
    let link_today = AggregateView::LinkHistory { day: today, host: vote.host };
    let user_today = AggregateView::UserHistory { day: today, user: vote.user };
    let detail = AggregateView::LinkDetail { host: vote.host };
    let rest: Seq<WriteItemView> = match ctx.existing_vote {
        None => seq![
            counter_update(detail, 1, vote.value, true),
            counter_update(link_today, 1, vote.value, true),
            counter_update(user_today, 1, vote.value, true),
        ],
        Some(old) => {
            let change = vote.value - old.value;
            let old_day = day_of(old.created_at);
            if old_day == today {
                seq![
                    counter_update(detail, 0, change, false),
                    counter_update(link_today, 0, change, false),
                    counter_update(user_today, 0, change, false),
                ]
            } else {
                seq![
                    counter_update(detail, 0, change, false),
                    counter_update(AggregateView::LinkHistory { day: old_day, host: vote.host }, -1, -old.value, false),
                    counter_update(AggregateView::UserHistory { day: old_day, user: vote.user }, -1, -old.value, false),
                    counter_update(link_today, 1, vote.value, true),
                    counter_update(user_today, 1, vote.value, true),
                ]
            }
        },
    };
    let put = seq![WriteItemView::PutVote { vote, creates: ctx.existing_vote is None }];
    assert(plan =~= user_part + put + rest);
    let head = user_part + put;
    assert forall|h: Seq<char>|
        plan_detail_change(plan, h) == plan_detail_change(rest, h) && plan_day_sum_change(plan, h)
            == plan_day_sum_change(rest, h) by {
        lemma_changes_concat(head, rest, h);
        lemma_changes_concat(user_part, put, h);
    }
    (user_part, rest)
}

/// Recording a vote keeps the lifetime totals of every link equal to the number of its
/// current votes and the sum of their values.
pub proof fn lemma_recorded_vote_keeps_link_totals(s: StoreView, vote: VoteView, host: Seq<char>)
    requires
        s.finite_for(host),
        link_totals_match_votes(s, host),
        decision_of(vote, context_of(s, vote)) is Ok,
    ensures
        apply_plan(s, plan_of(vote, context_of(s, vote))).finite_for(host),
        link_totals_match_votes(apply_plan(s, plan_of(vote, context_of(s, vote))), host),
{
    let ctx = context_of(s, vote);
    let plan = plan_of(vote, ctx);
    let put = seq![WriteItemView::PutVote { vote, creates: ctx.existing_vote is None }];
    let (before, after) = lemma_plan_parts(vote, s);
    lemma_apply_plan_concat(s, before + put, after);
    lemma_apply_plan_concat(s, before, put);
    lemma_votes_kept(s, before);
    let s1 = apply_plan(s, before);
    let s2 = apply_plan(s1, put);
    reveal_with_fuel(apply_plan, 2);
    assert(s2 == apply_write(s1, put[0]));
    lemma_votes_kept(s2, after);
    lemma_detail_change_applies(s, plan, host);
    lemma_day_sum_change_applies(s, plan, host);
    let end = apply_plan(s, plan);
    assert(end.votes == s2.votes);
    if host == vote.host {
        let old_votes = s.votes_on(host);
        assert(end.votes_on(host) == old_votes.insert(vote.user, vote));
        lemma_sum_of_insert(old_votes, |v: VoteView| v.value, vote.user, vote);
        if old_votes.contains_key(vote.user) {
            assert(old_votes.insert(vote.user, vote).dom() =~= old_votes.dom());
        } else {
            assert(old_votes.insert(vote.user, vote).dom().len() == old_votes.dom().len() + 1);
        }
    } else {
        assert(end.votes_on(host) == s.votes_on(host));
    }
}

/// Recording a vote keeps the day sums of every link adding up to its lifetime sum.
pub proof fn lemma_recorded_vote_keeps_day_sums(s: StoreView, vote: VoteView, host: Seq<char>)
    requires
        s.finite_for(host),
        link_days_match_detail(s, host),
        decision_of(vote, context_of(s, vote)) is Ok,
    ensures
        apply_plan(s, plan_of(vote, context_of(s, vote))).finite_for(host),
        link_days_match_detail(apply_plan(s, plan_of(vote, context_of(s, vote))), host),
{
    let plan = plan_of(vote, context_of(s, vote));
    let _ = lemma_plan_parts(vote, s);
    lemma_detail_change_applies(s, plan, host);
    lemma_day_sum_change_applies(s, plan, host);
}

/// How a vote submission ended.
pub enum SubmitOutcome {
    Invalid(ValidationError),
    Rejected(VoteRejected),
    Recorded,
}

/// A vote submission on the store: validation of the request, then the decision on what was
/// read for it, then, where it was accepted, its writes.
pub open spec fn submit(s: StoreView, host: Seq<char>, value: int, user: u128, now: Seq<char>) -> (
    SubmitOutcome,
    StoreView,
) {
    match vote_request_error(host, value) {
        Some(e) => (SubmitOutcome::Invalid(e), s),
        None => {
            let vote = VoteView { host, value, user, created_at: now };
            match decision_of(vote, context_of(s, vote)) {
                Err(reason) => (SubmitOutcome::Rejected(reason), s),
                Ok(plan) => (SubmitOutcome::Recorded, apply_plan(s, plan)),
            }
        },
    }
}

/// A refused vote writes nothing, so submitting the same vote again is refused for the same
/// reason.
pub proof fn lemma_refusal_repeats(
    s: StoreView,
    host: Seq<char>,
    value: int,
    user: u128,
    now: Seq<char>,
)
    requires
        !(submit(s, host, value, user, now).0 is Recorded),
    ensures
        submit(s, host, value, user, now).1 == s,
        submit(submit(s, host, value, user, now).1, host, value, user, now) == submit(
            s,
            host,
            value,
            user,
            now,
        ),
{
}

/// A vote as submitted: the link, the value, the user, and the time of submission.
pub struct Submission {
    pub host: Seq<char>,
    pub value: int,
    pub user: u128,
    pub now: Seq<char>,
}

/// The store after the submissions, in order.
pub open spec fn submit_all(s: StoreView, subs: Seq<Submission>) -> StoreView
    decreases subs.len(),
{
    if subs.len() == 0 {
        s
    } else {
        let last = subs.last();
        submit(submit_all(s, subs.drop_last()), last.host, last.value, last.user, last.now).1
    }
}

/// The store before any vote: no settings, users, votes or totals.
pub open spec fn empty_store() -> StoreView {
    StoreView {
        settings: None,
        users: Map::empty(),
        votes: Map::empty(),
        link_details: Map::empty(),
        link_history: Map::empty(),
        user_history: Map::empty(),
    }
}

/// Whatever votes are submitted, starting from the empty store, every link's lifetime totals
/// count its current votes and add up their values, and its day sums add up to its lifetime
/// sum.
pub proof fn lemma_link_totals_always_match(subs: Seq<Submission>, host: Seq<char>)
    ensures
        submit_all(empty_store(), subs).finite_for(host),
        link_totals_match_votes(submit_all(empty_store(), subs), host),
        link_days_match_detail(submit_all(empty_store(), subs), host),
    decreases subs.len(),
{
    if subs.len() == 0 {
        let e = empty_store();
        assert(e.votes_on(host) =~= Map::<u128, VoteView>::empty());
        assert(e.link_days(host) =~= Map::<Seq<char>, Totals>::empty());
        assert(e.votes_on(host).dom() =~= Set::<u128>::empty());
        assert(e.link_days(host).dom() =~= Set::<Seq<char>>::empty());
    } else {
        lemma_link_totals_always_match(subs.drop_last(), host);
        let s = submit_all(empty_store(), subs.drop_last());
        let last = subs.last();
        if vote_request_error(last.host, last.value) is None {
            let vote = VoteView {
                host: last.host,
                value: last.value,
                user: last.user,
                created_at: last.now,
            };
            if decision_of(vote, context_of(s, vote)) is Ok {
                lemma_recorded_vote_keeps_link_totals(s, vote, host);
                lemma_recorded_vote_keeps_day_sums(s, vote, host);
            }
        }
    }
}

} // verus!
