use auction_metrics::listing::AuctionListing;
use auction_metrics::names::NameResolver;
use auction_metrics::pipeline::{ErrorKind, PairTask, RunError, RunPhase, UpdateRun};
use auction_metrics::token::AccessToken;

fn listing(item_id: i64, buyout: i64, quantity: i64) -> AuctionListing {
    AuctionListing {
        id: 0,
        item_id,
        rand: None,
        seed: None,
        bid: 0,
        buyout,
        quantity,
        time_left: String::from("SHORT"),
    }
}

fn resolver() -> NameResolver {
    NameResolver::from_csv(b"id,c1,c2,c3,c4,c5,name\n1,a,b,c,d,e,Wolf Pelt\n")
}

fn two_pairs() -> UpdateRun {
    UpdateRun::new(vec![
        PairTask { realm: 4440, auction_house: 2 },
        PairTask { realm: 4441, auction_house: 7 },
    ])
}

#[test]
fn full_run_over_two_pairs() {
    let mut run = two_pairs();
    assert_eq!(run.phase, RunPhase::NeedAuth);
    run.auth_succeeded(AccessToken::new(String::from("Bearer abc")));
    assert_eq!(run.phase, RunPhase::NeedFetch);
    assert_eq!(run.current_pair(), PairTask { realm: 4440, auction_house: 2 });

    let names = resolver();
    let points = run.fetch_succeeded(&vec![listing(1, 100, 10)], &names);
    assert_eq!(points.len(), 1);
    assert_eq!(points[0].realm_id, 4440);
    assert_eq!(points[0].ah_id, 2);
    let next = run.write_succeeded();
    assert_eq!(next, Some(PairTask { realm: 4441, auction_house: 7 }));
    assert_eq!(run.pairs_written, 1);

    let points = run.fetch_succeeded(&vec![listing(2, 60, 2)], &names);
    assert_eq!(points.len(), 1);
    assert_eq!(points[0].realm_id, 4441);
    let next = run.write_succeeded();
    assert_eq!(next, None);
    assert_eq!(run.phase, RunPhase::Done);
    assert_eq!(run.pairs_written, 2);
}

#[test]
fn malformed_response_aborts_with_parse_error_and_no_write() {
    let mut run = two_pairs();
    run.auth_succeeded(AccessToken::new(String::from("Bearer abc")));
    run.fetch_failed(ErrorKind::Parse, String::from("response did not match the schema"));
    assert_eq!(run.phase, RunPhase::Failed);
    let failure = run.failure.as_ref().unwrap();
    assert_eq!(failure.kind, ErrorKind::Parse);
    assert_eq!(
        failure.describe().as_str(),
        "parse error: response did not match the schema"
    );
    // No pair reached its write.
    assert_eq!(run.pairs_written, 0);
}

#[test]
fn first_pair_write_survives_second_pair_failure() {
    let mut run = two_pairs();
    run.auth_succeeded(AccessToken::new(String::from("Bearer abc")));
    let names = resolver();
    let _points = run.fetch_succeeded(&vec![listing(1, 100, 10)], &names);
    let next = run.write_succeeded();
    assert_eq!(next, Some(PairTask { realm: 4441, auction_house: 7 }));

    run.fetch_failed(ErrorKind::Transport, String::from("connection reset"));
    assert_eq!(run.phase, RunPhase::Failed);
    // The first pair's completed write is untouched by the later failure.
    assert_eq!(run.pairs_written, 1);
    assert_eq!(run.failure.as_ref().unwrap().kind, ErrorKind::Transport);
}

#[test]
fn auth_failure_stops_the_run_before_any_fetch() {
    let mut run = two_pairs();
    run.auth_failed(String::from("invalid credentials"));
    assert_eq!(run.phase, RunPhase::Failed);
    let failure = run.failure.as_ref().unwrap();
    assert_eq!(failure.kind, ErrorKind::Auth);
    assert_eq!(failure.describe().as_str(), "authentication error: invalid credentials");
    assert_eq!(run.pairs_written, 0);
}

#[test]
fn write_rejection_fails_the_run() {
    let mut run = two_pairs();
    run.auth_succeeded(AccessToken::new(String::from("Bearer abc")));
    let names = resolver();
    let _points = run.fetch_succeeded(&vec![listing(1, 100, 10)], &names);
    run.write_failed(String::from("bucket rejected the batch"));
    assert_eq!(run.phase, RunPhase::Failed);
    let failure = run.failure.as_ref().unwrap();
    assert_eq!(failure.kind, ErrorKind::Write);
    assert_eq!(failure.describe().as_str(), "write error: bucket rejected the batch");
    assert_eq!(run.pairs_written, 0);
}

#[test]
fn every_error_kind_has_its_label() {
    for (kind, text) in [
        (ErrorKind::Config, "configuration error: missing bucket"),
        (ErrorKind::Auth, "authentication error: missing bucket"),
        (ErrorKind::Transport, "transport error: missing bucket"),
        (ErrorKind::Parse, "parse error: missing bucket"),
        (ErrorKind::Write, "write error: missing bucket"),
    ] {
        let error = RunError { kind, context: String::from("missing bucket") };
        assert_eq!(error.describe().as_str(), text);
    }
}

#[test]
fn no_configured_pairs_finishes_at_once() {
    let mut run = UpdateRun::new(vec![]);
    run.auth_succeeded(AccessToken::new(String::from("Bearer abc")));
    assert_eq!(run.phase, RunPhase::Done);
    assert_eq!(run.pairs_written, 0);
}

#[test]
fn token_is_held_for_the_whole_run() {
    let mut run = two_pairs();
    run.auth_succeeded(AccessToken::new(String::from("Bearer abc")));
    assert_eq!(run.bearer().header_value().as_str(), "Bearer abc");
}
