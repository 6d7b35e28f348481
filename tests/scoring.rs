use link_votes::scoring::{calculate_link_scores, random_link_scores, score, score_for_draw};
use link_votes::types::{Link, LinkDetail, Score};

fn detail(hostname: &str, count_of_votes: u32, sum_of_votes: i32) -> LinkDetail {
    LinkDetail { link: Link::new(hostname), count_of_votes, sum_of_votes }
}

#[test]
fn scoring_examples() {
    assert_eq!(score(Some(&detail("a.com", 30, 25))), Score::Good);
    assert_eq!(score(Some(&detail("a.com", 20, -15))), Score::Bad);
    assert_eq!(score(Some(&detail("a.com", 60, 5))), Score::Controversial);
    assert_eq!(score(Some(&detail("a.com", 10, 5))), Score::NoScore);
    assert_eq!(score(None), Score::NoScore);
}

#[test]
fn scoring_bounds() {
    assert_eq!(score(Some(&detail("a.com", 20, 20))), Score::Good);
    assert_eq!(score(Some(&detail("a.com", 100, 19))), Score::Controversial);
    assert_eq!(score(Some(&detail("a.com", 10, -10))), Score::Bad);
    assert_eq!(score(Some(&detail("a.com", 100, -9))), Score::Controversial);
    assert_eq!(score(Some(&detail("a.com", 50, 0))), Score::NoScore);
    assert_eq!(score(Some(&detail("a.com", 51, 0))), Score::Controversial);
    // the bounds come before the vote count
    assert_eq!(score(Some(&detail("a.com", 500, 20))), Score::Good);
    assert_eq!(score(Some(&detail("a.com", 500, -10))), Score::Bad);
}

#[test]
fn scores_keep_the_request_order() {
    let links = vec![Link::new("good.com"), Link::new("unknown.com"), Link::new("bad.com")];
    let details = vec![detail("bad.com", 12, -12), detail("good.com", 40, 30)];
    let scores = calculate_link_scores(&links, &details);
    assert_eq!(scores.len(), 3);
    assert_eq!(scores[0].link().hostname, "good.com");
    assert_eq!(scores[0].score(), Score::Good);
    assert_eq!(scores[1].link().hostname, "unknown.com");
    assert_eq!(scores[1].score(), Score::NoScore);
    assert_eq!(scores[2].link().hostname, "bad.com");
    assert_eq!(scores[2].score(), Score::Bad);
}

#[test]
fn random_scores_cover_every_link() {
    let links = vec![Link::new("a.com"), Link::new("b.com"), Link::new("c.com")];
    let scores = random_link_scores(&links);
    assert_eq!(scores.len(), 3);
    for (s, l) in scores.iter().zip(links.iter()) {
        assert_eq!(s.link().hostname, l.hostname);
    }
}

#[test]
fn draws_pick_scores_in_turn() {
    assert_eq!(score_for_draw(0), Score::Good);
    assert_eq!(score_for_draw(1), Score::Bad);
    assert_eq!(score_for_draw(2), Score::Controversial);
    assert_eq!(score_for_draw(3), Score::NoScore);
    assert_eq!(score_for_draw(9), Score::Bad);
}
