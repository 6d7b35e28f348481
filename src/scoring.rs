use vstd::prelude::*;
use crate::types::{Link, LinkDetail, LinkDetailView, LinkScore, Score};

verus! {

/// A lifetime sum at or above this makes a link good.
pub const GOOD_SCORE_BOUND: i32 = 20;

/// A lifetime sum at or below this makes a link bad.
pub const BAD_SCORE_BOUND: i32 = -10;

/// More votes than this, with a sum strictly between the bounds, make a link controversial.
pub const CONTROVERSIAL_MINIMUM_VOTES: u32 = 50;

/// The score of a link with lifetime totals `count` and `sum`: the good and the bad bounds
/// first, then many votes that cancel out, else no score.
pub open spec fn score_of_totals(count: int, sum: int) -> Score {
    if sum >= GOOD_SCORE_BOUND {
        Score::Good
    } else if sum <= BAD_SCORE_BOUND {
        Score::Bad
    } else if count > CONTROVERSIAL_MINIMUM_VOTES {
        Score::Controversial
    } else {
        Score::NoScore
    }
}

/// The score of a link with the given lifetime totals, or with none.
pub open spec fn score_of(detail: Option<LinkDetailView>) -> Score {
    match detail {
        Some(d) => score_of_totals(d.count, d.sum),
        None => Score::NoScore,
    }
}

/// Scores a link from its lifetime totals, if it has any.
pub fn score(detail: Option<&LinkDetail>) -> (r: Score)
    ensures
        r == score_of(
            match detail {
                Some(d) => Some(d@),
                None => None,
            },
        ),
{
    match detail {
        None => Score::NoScore,
        Some(d) => {
            if d.sum_of_votes >= GOOD_SCORE_BOUND {
                Score::Good
            } else if d.sum_of_votes <= BAD_SCORE_BOUND {
                Score::Bad
            } else if d.count_of_votes > CONTROVERSIAL_MINIMUM_VOTES && d.sum_of_votes
                > BAD_SCORE_BOUND && d.sum_of_votes < GOOD_SCORE_BOUND {
                Score::Controversial
            } else {
                Score::NoScore
            }
        },
    }
}

pub open spec fn detail_views(details: Seq<LinkDetail>) -> Seq<LinkDetailView> {
    details.map_values(|d: LinkDetail| d@)
}

/// The first of the totals that belong to `host`.
pub open spec fn detail_for(details: Seq<LinkDetailView>, host: Seq<char>) -> Option<
    LinkDetailView,
>
    decreases details.len(),
{
    if details.len() == 0 {
        None
    } else if details[0].host == host {
        Some(details[0])
    } else {
        detail_for(details.drop_first(), host)
    }
}

/// Finds the totals of `link` among those read from the store.
pub fn find_link_detail<'a>(link: &Link, link_details: &'a Vec<LinkDetail>) -> (r: Option<
    &'a LinkDetail,
>)
    ensures
        match r {
            Some(d) => detail_for(detail_views(link_details@), link@) == Some(d@),
            None => detail_for(detail_views(link_details@), link@) is None,
        },
{
    let ghost all = detail_views(link_details@);
    assert(all.subrange(0, all.len() as int) =~= all);
    let mut j: usize = 0;
    while j < link_details.len()
        invariant
            all == detail_views(link_details@),
            j <= link_details@.len(),
            detail_for(all, link@) == detail_for(all.subrange(j as int, all.len() as int), link@),
        decreases link_details@.len() - j,
    {
        let d = &link_details[j];
        let ghost rest = all.subrange(j as int, all.len() as int);
        assert(rest[0] == d@);
        assert(rest.drop_first() =~= all.subrange(j + 1, all.len() as int));
        if d.link.hostname == link.hostname {
            return Some(d);
        }
        j = j + 1;
    }
    None
}

/// Scores each link from the lifetime totals read for it; a link without totals has no
/// score.
pub fn calculate_link_scores(links: &Vec<Link>, link_details: &Vec<LinkDetail>) -> (r: Vec<
    LinkScore,
>)
    ensures
        r@.len() == links@.len(),
        forall|i: int|
            #![trigger r@[i]]
            0 <= i < links@.len() ==> r@[i].link@ == links@[i]@ && r@[i].score == score_of(
                detail_for(detail_views(link_details@), links@[i]@),
            ),
{
    let mut scores: Vec<LinkScore> = Vec::new();
    let mut i: usize = 0;
    while i < links.len()
        invariant
            i <= links@.len(),
            scores@.len() == i,
            forall|k: int|
                #![trigger scores@[k]]
                0 <= k < i ==> scores@[k].link@ == links@[k]@ && scores@[k].score == score_of(
                    detail_for(detail_views(link_details@), links@[k]@),
                ),
        decreases links@.len() - i,
    {
        let link = &links[i];
        let detail = find_link_detail(link, link_details);
        let s = score(detail);
        let ghost expected = score_of(detail_for(detail_views(link_details@), links@[i as int]@));
        assert(s == expected);
        scores.push(LinkScore::new(link.duplicate(), s));
        assert(scores@[i as int].score == expected);
        i = i + 1;
    }
    scores
}

/// The four scores, in the order a random draw picks them.
pub open spec fn score_of_draw(draw: int) -> Score {
    let k = draw % 4;
    if k == 0 {
        Score::Good
    } else if k == 1 {
        Score::Bad
    } else if k == 2 {
        Score::Controversial
    } else {
        Score::NoScore
    }
}

/// Picks a score from a random number.
pub fn score_for_draw(draw: usize) -> (r: Score)
    ensures
        r == score_of_draw(draw as int),
{
    let score_enums = [Score::Good, Score::Bad, Score::Controversial, Score::NoScore];
    score_enums[draw % 4]
}

/// Relies on rand::random, which draws a value from the thread-local generator; nothing is
/// promised of the value.
pub assume_specification<T>[ rand::random::<T> ]() -> (r: T)
    where
        rand::distributions::Standard: rand::distributions::Distribution<T>,
;

/// Gives each link a score picked at random, for demonstrations.
pub fn random_link_scores(links: &Vec<Link>) -> (r: Vec<LinkScore>)
    ensures
        r@.len() == links@.len(),
        forall|i: int| #![trigger r@[i]] 0 <= i < links@.len() ==> r@[i].link@ == links@[i]@,
{
    let mut scores: Vec<LinkScore> = Vec::new();
    let mut i: usize = 0;
    while i < links.len()
        invariant
            i <= links@.len(),
            scores@.len() == i,
            forall|k: int| #![trigger scores@[k]] 0 <= k < i ==> scores@[k].link@ == links@[k]@,
        decreases links@.len() - i,
    {
        let draw: usize = rand::random::<usize>();
        scores.push(LinkScore::new(links[i].duplicate(), score_for_draw(draw)));
        i = i + 1;
    }
    scores
}

} // verus!
