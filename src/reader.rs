use vstd::prelude::*;
use vstd::string::*;
use crate::decision::{decide, decision_of, is_valid_vote, VoteContext, VoteContextView, VoteRejected};
use crate::keys::{
    get_daily_user_history, get_link_detail, get_settings, get_user, get_vote, link_detail_key,
    settings_key, user_history_key, user_key, vote_key, Key, KeyView,
};
use crate::plan::{day_of, day_of_timestamp, plan_view, WriteItem, WriteItemView};
use crate::records::{
    link_detail_record, read_entity_type, settings_record, string_attribute, user_history_record,
    user_record, vote_error, vote_record, ItemView, StorageError, StoredItem,
};
use crate::types::{
    Link, LinkDetail, LinkDetailView, Settings, User, UserHistory, Vote, VoteView,
    DEFAULT_MAXIMUM_VOTES_PER_USER_PER_DAY,
};
use crate::validate::{
    is_hostname_valid, is_timestamp_valid, is_valid_timestamp, is_vote_value_valid,
    ValidationError,
};

verus! {

pub open spec fn key_views(keys: Seq<Key>) -> Seq<KeyView> {
    keys.map_values(|k: Key| k@)
}

pub open spec fn item_views(items: Seq<StoredItem>) -> Seq<ItemView> {
    items.map_values(|i: StoredItem| i@)
}

/// The records to read before deciding on a vote: the settings, the user, the user's totals of
/// the vote's day, and the user's vote on the link.
pub open spec fn vote_context_key_views(vote: VoteView) -> Seq<KeyView> {
    seq![
        settings_key(),
        user_key(vote.user),
        user_history_key(day_of(vote.created_at), vote.user),
        vote_key(vote.host, vote.user),
    ]
}

/// The keys of the records to read for a vote; its timestamp must be valid.
pub fn vote_context_keys(vote: &Vote) -> (r: Result<Vec<Key>, ValidationError>)
    ensures
        match r {
            Ok(keys) => is_valid_timestamp(vote.created_at@) && key_views(keys@)
                == vote_context_key_views(vote@),
            Err(e) => !is_valid_timestamp(vote.created_at@) && e
                == ValidationError::InvalidTimestamp,
        },
{
    if is_timestamp_valid(vote.created_at.as_str()).is_err() {
        return Err(ValidationError::InvalidTimestamp);
    }
    let day = day_of_timestamp(vote.created_at.as_str());
    let mut keys: Vec<Key> = Vec::new();
    keys.push(get_settings());
    keys.push(get_user(&vote.user_id));
    keys.push(get_daily_user_history(&day, &vote.user_id));
    keys.push(get_vote(vote));
    assert(key_views(keys@) =~= vote_context_key_views(vote@));
    Ok(keys)
}

/// The context before any record is read: default settings, an unknown user, no votes.
pub open spec fn empty_context() -> VoteContextView {
    VoteContextView {
        voting_is_disabled: false,
        maximum_votes_per_user_per_day: DEFAULT_MAXIMUM_VOTES_PER_USER_PER_DAY as int,
        user_exists: false,
        user_is_banned: false,
        votes_today: 0,
        existing_vote: None,
    }
}

/// What one record read for a vote adds to the context, by its entity type.
pub open spec fn read_step(c: VoteContextView, item: ItemView) -> Result<
    VoteContextView,
    StorageError,
> {
    match string_attribute(item, "entity_type"@) {
        Err(e) => Err(e),
        Ok(t) => if t == "Settings"@ {
            match settings_record(item) {
                Ok(st) => Ok(
                    VoteContextView {
                        voting_is_disabled: st.voting_is_disabled,
                        maximum_votes_per_user_per_day: st.maximum_votes_per_user_per_day,
                        ..c
                    },
                ),
                Err(e) => Err(e),
            }
        } else if t == "User"@ {
            match user_record(item) {
                Ok(banned) => Ok(VoteContextView { user_exists: true, user_is_banned: banned, ..c }),
                Err(e) => Err(e),
            }
        } else if t == "UserHistory"@ {
            match user_history_record(item) {
                Ok(h) => Ok(VoteContextView { votes_today: h.count, ..c }),
                Err(e) => Err(e),
            }
        } else if t == "Vote"@ {
            match vote_record(item) {
                Ok(v) => Ok(VoteContextView { existing_vote: Some(v), ..c }),
                Err(e) => Err(e),
            }
        } else {
            Err(StorageError::UnknownEntityType)
        },
    }
}

/// The context that the records read for a vote give, taken in order; the first malformed
/// record fails the read.
pub open spec fn read_items(items: Seq<ItemView>) -> Result<VoteContextView, StorageError>
    decreases items.len(),
{
    if items.len() == 0 {
        Ok(empty_context())
    } else {
        match read_items(items.drop_last()) {
            Err(e) => Err(e),
            Ok(c) => read_step(c, items.last()),
        }
    }
}

pub open spec fn context_result_view(r: Result<VoteContext, StorageError>) -> Result<
    VoteContextView,
    StorageError,
> {
    match r {
        Ok(c) => Ok(c@),
        Err(e) => Err(e),
    }
}

fn is_text(s: &String, text: &str) -> (r: bool)
    ensures
        r == (s@ == text@),
{
    *s == String::from_str(text)
}

/// Adds one record read for a vote to the context, as `read_step` says.
fn add_record(context: &mut VoteContext, item: &StoredItem) -> (r: Result<(), StorageError>)
    requires
        old(context).existing_vote matches Some(v) ==> is_valid_vote(v@),
    ensures
        match r {
            Ok(()) => read_step(old(context)@, item@) == Ok::<VoteContextView, StorageError>(
                final(context)@,
            ),
            Err(e) => read_step(old(context)@, item@) == Err::<VoteContextView, StorageError>(e),
        },
        final(context).existing_vote matches Some(v) ==> is_valid_vote(v@),
{
    let entity_type = match read_entity_type(item) {
        Ok(t) => t,
        Err(e) => return Err(e),
    };
    if is_text(&entity_type, "Settings") {
        match Settings::from_item(item) {
            Ok(settings) => {
                context.settings = settings;
                Ok(())
            },
            Err(e) => Err(e),
        }
    } else if is_text(&entity_type, "User") {
        match User::from_item(item) {
            Ok(user) => {
                context.user_exists = true;
                context.user_is_banned = user.is_banned;
                Ok(())
            },
            Err(e) => Err(e),
        }
    } else if is_text(&entity_type, "UserHistory") {
        match UserHistory::from_item(item) {
            Ok(history) => {
                context.votes_today = history.count_of_votes;
                Ok(())
            },
            Err(e) => Err(e),
        }
    } else if is_text(&entity_type, "Vote") {
        match Vote::from_item(item) {
            Ok(vote) => {
                context.existing_vote = Some(vote);
                Ok(())
            },
            Err(e) => Err(e),
        }
    } else {
        Err(StorageError::UnknownEntityType)
    }
}

/// Once a prefix of the records fails to read, so do all of them.
proof fn lemma_read_error_persists(items: Seq<ItemView>, k: int, e: StorageError)
    requires
        0 <= k <= items.len(),
        read_items(items.take(k)) == Err::<VoteContextView, StorageError>(e),
    ensures
        read_items(items) == Err::<VoteContextView, StorageError>(e),
    decreases items.len() - k,
{
    if k == items.len() {
        assert(items.take(k) =~= items);
    } else {
        assert(items.take(k + 1).drop_last() =~= items.take(k));
        lemma_read_error_persists(items, k + 1, e);
    }
}

/// Builds the context of a vote from the records read for it.
pub fn read_vote_context(items: &Vec<StoredItem>) -> (r: Result<VoteContext, StorageError>)
    ensures
        context_result_view(r) == read_items(item_views(items@)),
        r matches Ok(c) ==> (c.existing_vote matches Some(v) ==> is_valid_vote(v@)),
{
    let ghost all = item_views(items@);
    let mut context = VoteContext {
        settings: Settings::default_settings(),
        user_exists: false,
        user_is_banned: false,
        votes_today: 0,
        existing_vote: None,
    };
    assert(all.take(0) =~= Seq::<ItemView>::empty());
    let mut i: usize = 0;
    while i < items.len()
        invariant
            all == item_views(items@),
            i <= items@.len(),
            read_items(all.take(i as int)) == Ok::<VoteContextView, StorageError>(context@),
            context.existing_vote matches Some(v) ==> is_valid_vote(v@),
        decreases items@.len() - i,
    {
        let item = &items[i];
        assert(all.take(i + 1).drop_last() =~= all.take(i as int));
        assert(all.take(i + 1).last() == item@);
        if let Err(e) = add_record(&mut context, item) {
            proof {
                lemma_read_error_persists(all, i + 1, e);
            }
            return Err(e);
        }
        i = i + 1;
    }
    assert(all.take(items@.len() as int) =~= all);
    Ok(context)
}

/// Why a vote was not recorded.
#[derive(Debug, Clone, Copy, PartialEq, Eq, Structural)]
pub enum VoteError {
    Invalid(ValidationError),
    Storage(StorageError),
    Rejected(VoteRejected),
}

/// The outcome of a vote given the records read for it: the vote's own checks, then the read,
/// then the decision.
pub open spec fn vote_outcome(vote: VoteView, items: Seq<ItemView>) -> Result<
    Seq<WriteItemView>,
    VoteError,
> {
    match vote_error(vote) {
        Some(e) => Err(VoteError::Invalid(e)),
        None => match read_items(items) {
            Err(e) => Err(VoteError::Storage(e)),
            Ok(ctx) => match decision_of(vote, ctx) {
                Err(reason) => Err(VoteError::Rejected(reason)),
                Ok(plan) => Ok(plan),
            },
        },
    }
}

/// Decides on a vote from the records read for it, and returns the writes that record it.
pub fn plan_vote(vote: &Vote, items: &Vec<StoredItem>) -> (r: Result<Vec<WriteItem>, VoteError>)
    ensures
        match r {
            Ok(plan) => vote_outcome(vote@, item_views(items@)) == Ok::<
                Seq<WriteItemView>,
                VoteError,
            >(plan_view(plan@)),
            Err(e) => vote_outcome(vote@, item_views(items@)) == Err::<
                Seq<WriteItemView>,
                VoteError,
            >(e),
        },
{
    if let Err(e) = is_hostname_valid(vote.link.hostname.as_str()) {
        return Err(VoteError::Invalid(e));
    }
    if let Err(e) = is_vote_value_valid(vote.value) {
        return Err(VoteError::Invalid(e));
    }
    if let Err(e) = is_timestamp_valid(vote.created_at.as_str()) {
        return Err(VoteError::Invalid(e));
    }
    let context = match read_vote_context(items) {
        Ok(c) => c,
        Err(e) => return Err(VoteError::Storage(e)),
    };
    match decide(vote, &context) {
        Ok(plan) => Ok(plan),
        Err(reason) => Err(VoteError::Rejected(reason)),
    }
}

/// The keys of the lifetime totals of the links.
pub fn link_detail_keys(links: &Vec<Link>) -> (r: Vec<Key>)
    ensures
        r@.len() == links@.len(),
        forall|i: int|
            #![trigger r@[i]]
            0 <= i < links@.len() ==> r@[i]@ == link_detail_key(links@[i]@),
{
    let mut keys: Vec<Key> = Vec::new();
    let mut i: usize = 0;
    while i < links.len()
        invariant
            i <= links@.len(),
            keys@.len() == i,
            forall|k: int|
                #![trigger keys@[k]]
                0 <= k < i ==> keys@[k]@ == link_detail_key(links@[k]@),
        decreases links@.len() - i,
    {
        keys.push(get_link_detail(&links[i]));
        i = i + 1;
    }
    keys
}

/// Reads the lifetime totals of links; the first malformed record fails the read.
pub fn read_link_details(items: &Vec<StoredItem>) -> (r: Result<Vec<LinkDetail>, StorageError>)
    ensures
        match r {
            Ok(details) => details@.len() == items@.len() && forall|i: int|
                #![trigger details@[i]]
                0 <= i < items@.len() ==> link_detail_record(items@[i]@) == Ok::<
                    LinkDetailView,
                    StorageError,
                >(details@[i]@),
            Err(e) => exists|i: int|
                0 <= i < items@.len() && #[trigger] link_detail_record(items@[i]@) == Err::<
                    LinkDetailView,
                    StorageError,
                >(e) && forall|k: int| 0 <= k < i ==> #[trigger] link_detail_record(items@[k]@) is Ok,
        },
{
    let mut details: Vec<LinkDetail> = Vec::new();
    let mut i: usize = 0;
    while i < items.len()
        invariant
            i <= items@.len(),
            details@.len() == i,
            forall|k: int|
                #![trigger details@[k]]
                0 <= k < i ==> link_detail_record(items@[k]@) == Ok::<LinkDetailView, StorageError>(
                    details@[k]@,
                ),
        decreases items@.len() - i,
    {
        match LinkDetail::from_item(&items[i]) {
            Ok(d) => details.push(d),
            Err(e) => {
                assert forall|k: int| 0 <= k < i implies #[trigger] link_detail_record(
                    items@[k]@,
                ) is Ok by {
                    assert(link_detail_record(items@[k]@) == Ok::<LinkDetailView, StorageError>(
                        details@[k]@,
                    ));
                }
                return Err(e);
            },
        }
        i = i + 1;
    }
    Ok(details)
}

} // verus!
