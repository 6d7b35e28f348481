use vstd::prelude::*;
use crate::decision::VoteContextView;
use crate::plan::{day_of, AggregateView, WriteItemView};
use crate::types::{DEFAULT_MAXIMUM_VOTES_PER_USER_PER_DAY, SettingsView, VoteView};

verus! {

/// A vote count and a vote sum.
pub struct Totals {
    pub count: int,
    pub sum: int,
}

pub open spec fn zero_totals() -> Totals {
    Totals { count: 0, sum: 0 }
}

pub open spec fn totals_in<K>(m: Map<K, Totals>, k: K) -> Totals {
    if m.contains_key(k) {
        m[k]
    } else {
        zero_totals()
    }
}

pub open spec fn add_to_totals(t: Totals, count_change: int, sum_change: int) -> Totals {
    Totals { count: t.count + count_change, sum: t.sum + sum_change }
}

/// The whole store as plain values.
pub struct StoreView {
    pub settings: Option<SettingsView>,
    /// Each user, and whether the user is banned.
    pub users: Map<u128, bool>,
    /// For each link, each user's current vote on it.
    pub votes: Map<Seq<char>, Map<u128, VoteView>>,
    /// For each link, its lifetime totals.
    pub link_details: Map<Seq<char>, Totals>,
    /// For each link, its totals of each day.
    pub link_history: Map<Seq<char>, Map<Seq<char>, Totals>>,
    /// For each user, the user's totals of each day.
    pub user_history: Map<u128, Map<Seq<char>, Totals>>,
}

impl StoreView {
    pub open spec fn votes_on(self, host: Seq<char>) -> Map<u128, VoteView> {
        if self.votes.contains_key(host) {
            self.votes[host]
        } else {
            Map::empty()
        }
    }

    pub open spec fn link_detail(self, host: Seq<char>) -> Totals {
        totals_in(self.link_details, host)
    }

    pub open spec fn link_days(self, host: Seq<char>) -> Map<Seq<char>, Totals> {
        if self.link_history.contains_key(host) {
            self.link_history[host]
        } else {
            Map::empty()
        }
    }

    pub open spec fn user_days(self, user: u128) -> Map<Seq<char>, Totals> {
        if self.user_history.contains_key(user) {
            self.user_history[user]
        } else {
            Map::empty()
        }
    }

    /// The records of the link are finitely many.
    pub open spec fn finite_for(self, host: Seq<char>) -> bool {
        self.votes_on(host).dom().finite() && self.link_days(host).dom().finite()
    }
}

/// The effect of one write on the store.
pub open spec fn apply_write(s: StoreView, w: WriteItemView) -> StoreView {
    match w {
        WriteItemView::PutUser { user, .. } => StoreView { users: s.users.insert(user, false), ..s },
        WriteItemView::PutVote { vote, .. } => StoreView {
            votes: s.votes.insert(vote.host, s.votes_on(vote.host).insert(vote.user, vote)),
            ..s
        },
        WriteItemView::Update { aggregate, count_change, sum_change, .. } => match aggregate {
            AggregateView::LinkDetail { host } => StoreView {
                link_details: s.link_details.insert(
                    host,
                    add_to_totals(s.link_detail(host), count_change, sum_change),
                ),
                ..s
            },
            AggregateView::LinkHistory { day, host } => StoreView {
                link_history: s.link_history.insert(
                    host,
                    s.link_days(host).insert(
                        day,
                        add_to_totals(totals_in(s.link_days(host), day), count_change, sum_change),
                    ),
                ),
                ..s
            },
            AggregateView::UserHistory { day, user } => StoreView {
                user_history: s.user_history.insert(
                    user,
                    s.user_days(user).insert(
                        day,
                        add_to_totals(totals_in(s.user_days(user), day), count_change, sum_change),
                    ),
                ),
                ..s
            },
        },
    }
}

/// The effect of a plan, its writes applied in order.
pub open spec fn apply_plan(s: StoreView, plan: Seq<WriteItemView>) -> StoreView
    decreases plan.len(),
{
    if plan.len() == 0 {
        s
    } else {
        apply_plan(apply_write(s, plan[0]), plan.drop_first())
    }
}

/// What the state reader returns for `vote` on the store: the settings or their defaults,
/// the user, the user's vote count of the vote's day, and the user's vote on the link.
pub open spec fn context_of(s: StoreView, vote: VoteView) -> VoteContextView {
    VoteContextView {
        voting_is_disabled: match s.settings {
            Some(st) => st.voting_is_disabled,
            None => false,
        },
        maximum_votes_per_user_per_day: match s.settings {
            Some(st) => st.maximum_votes_per_user_per_day,
            None => DEFAULT_MAXIMUM_VOTES_PER_USER_PER_DAY as int,
        },
        user_exists: s.users.contains_key(vote.user),
        user_is_banned: s.users.contains_key(vote.user) && s.users[vote.user],
        votes_today: totals_in(s.user_days(vote.user), day_of(vote.created_at)).count,
        existing_vote: if s.votes_on(vote.host).contains_key(vote.user) {
            Some(s.votes_on(vote.host)[vote.user])
        } else {
            None
        },
    }
}

/// The sum of `f` over the values of a finite map.
pub open spec fn sum_of<K, V>(m: Map<K, V>, f: spec_fn(V) -> int) -> int
    decreases m.dom().len(),
{
    if m.dom().finite() && m.dom().len() > 0 {
        let k = m.dom().choose();
        f(m[k]) + sum_of(m.remove(k), f)
    } else {
        0
    }
}

pub proof fn lemma_sum_of_remove<K, V>(m: Map<K, V>, f: spec_fn(V) -> int, k: K)
    requires
        m.dom().finite(),
        m.contains_key(k),
    ensures
        sum_of(m, f) == f(m[k]) + sum_of(m.remove(k), f),
    decreases m.dom().len(),
{
    let k0 = m.dom().choose();
    assert(m.dom().contains(k0));
    if k0 != k {
        lemma_sum_of_remove(m.remove(k0), f, k);
        lemma_sum_of_remove(m.remove(k), f, k0);
        assert(m.remove(k0).remove(k) =~= m.remove(k).remove(k0));
    }
}

pub proof fn lemma_sum_of_insert<K, V>(m: Map<K, V>, f: spec_fn(V) -> int, k: K, v: V)
    requires
        m.dom().finite(),
    ensures
        sum_of(m.insert(k, v), f) == sum_of(m, f) + f(v) - (if m.contains_key(k) {
            f(m[k])
        } else {
            0
        }),
{
    lemma_sum_of_remove(m.insert(k, v), f, k);
    if m.contains_key(k) {
        lemma_sum_of_remove(m, f, k);
        assert(m.insert(k, v).remove(k) =~= m.remove(k));
    } else {
        assert(m.insert(k, v).remove(k) =~= m);
    }
}

pub proof fn lemma_apply_plan_concat(s: StoreView, a: Seq<WriteItemView>, b: Seq<WriteItemView>)
    ensures
        apply_plan(s, a + b) == apply_plan(apply_plan(s, a), b),
    decreases a.len(),
{
    if a.len() > 0 {
        assert((a + b).drop_first() =~= a.drop_first() + b);
        lemma_apply_plan_concat(apply_write(s, a[0]), a.drop_first(), b);
    } else {
        assert(a + b =~= b);
    }
}

} // verus!
