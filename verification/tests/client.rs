use dot4ch::client::{
    Client, Event, Fetch, FetchOutcome, Phase, Reply, Request, Step, Token, IF_MODIFIED_SINCE,
    LAST_MODIFIED, USER_AGENT,
};
use dot4ch::Error;

fn request(stamp: Option<&str>) -> Request {
    Request {
        url: "https://a.4cdn.org/po/thread/570368.json".to_string(),
        if_modified_since: stamp.map(|s| s.to_string()),
    }
}

fn in_flight(stamp: Option<&str>) -> Fetch {
    let (fetch, step) = Fetch::start::<Vec<u32>>(request(stamp), 0);
    assert_eq!(step, Step::Acquire);
    let (fetch, step) = fetch.step::<Vec<u32>>(Event::Permit);
    assert_eq!(step, Step::Send(request(stamp)));
    fetch
}

#[test]
fn header_names_and_agent() {
    assert_eq!(USER_AGENT, "Dot4chClient/1.0");
    assert_eq!(LAST_MODIFIED, "last-modified");
    assert_eq!(IF_MODIFIED_SINCE, "if-modified-since");
    assert_eq!(request(None).user_agent(), "Dot4chClient/1.0");
}

#[test]
fn default_client_paces_one_request_a_second() {
    let client = Client::new();
    let limiter = client.limiter();
    assert_eq!(limiter.available_permits(), 0);
    assert_eq!(limiter.limit(), 0);
    assert_eq!(limiter.refill_rate(), 1);
    assert_eq!(Client::default(), client);
}

#[test]
fn fetch_json_begins_with_the_wait_for_a_token() {
    let client = Client::new();
    let (fetch, step) = client.fetch_json::<Vec<u32>>(
        "https://a.4cdn.org/boards.json".to_string(),
        Some("Wed, 21 Oct 2015 07:28:00 GMT".to_string()),
    );
    assert_eq!(step, Step::Acquire);
    assert_eq!(fetch.phase, Phase::Queued);
    assert_eq!(fetch.wait, 0);
    assert_eq!(fetch.token, Token::Unclaimed);
    assert_eq!(fetch.request.url, "https://a.4cdn.org/boards.json");
    assert_eq!(
        fetch.request.if_modified_since,
        Some("Wed, 21 Oct 2015 07:28:00 GMT".to_string())
    );
}

#[test]
fn a_cooldown_is_slept_before_the_token_is_asked_for() {
    let (fetch, step) = Fetch::start::<Vec<u32>>(request(None), 2500);
    assert_eq!(step, Step::Sleep(2500));
    assert_eq!(fetch.phase, Phase::Cooling);
    let (fetch, step) = fetch.step::<Vec<u32>>(Event::Permit);
    assert_eq!(step, Step::Idle);
    assert_eq!(fetch.phase, Phase::Cooling);
    let (fetch, step) = fetch.step::<Vec<u32>>(Event::Woke);
    assert_eq!(step, Step::Acquire);
    let (fetch, step) = fetch.step::<Vec<u32>>(Event::Permit);
    assert_eq!(step, Step::Send(request(None)));
    assert_eq!(fetch.token, Token::Held);
}

#[test]
fn a_200_with_stamp_and_body_is_fresh() {
    let fetch = in_flight(None);
    let (fetch, step) = fetch.step::<Vec<u32>>(Event::Response {
        status: 200,
        last_modified: Some("Wed, 21 Oct 2015 07:28:00 GMT".to_string()),
    });
    assert_eq!(step, Step::Decode);
    assert_eq!(fetch.phase, Phase::Reading);
    assert_eq!(fetch.token, Token::Spent);
    let (fetch, step) = fetch.step(Event::Body(vec![1u32, 2, 3]));
    assert_eq!(fetch.phase, Phase::Finished);
    let reply = match step {
        Step::Done(reply) => reply,
        other => panic!("unexpected step {:?}", other),
    };
    assert_eq!(reply.inner, Ok(vec![1, 2, 3]));
    assert_eq!(reply.last_modified, Some("Wed, 21 Oct 2015 07:28:00 GMT".to_string()));
    assert_eq!(
        reply.outcome(),
        FetchOutcome::Fresh(vec![1, 2, 3], "Wed, 21 Oct 2015 07:28:00 GMT".to_string())
    );
}

#[test]
fn a_200_without_stamp_is_a_missing_header() {
    let fetch = in_flight(None);
    let (fetch, step) =
        fetch.step::<Vec<u32>>(Event::Response { status: 200, last_modified: None });
    assert_eq!(step, Step::Decode);
    let (_, step) = fetch.step(Event::Body(vec![1u32]));
    assert_eq!(
        step,
        Step::Done(Reply { inner: Err(Error::MissingHeader("last-modified")), last_modified: None })
    );
}

#[test]
fn a_body_that_does_not_decode_is_a_parse_error() {
    let fetch = in_flight(None);
    let (fetch, _) = fetch.step::<Vec<u32>>(Event::Response {
        status: 200,
        last_modified: Some("stamp".to_string()),
    });
    let (fetch, step) = fetch.step::<Vec<u32>>(Event::Malformed("expected value".to_string()));
    assert_eq!(fetch.phase, Phase::Finished);
    assert_eq!(
        step,
        Step::Done(Reply {
            inner: Err(Error::Parse("expected value".to_string())),
            last_modified: Some("stamp".to_string()),
        })
    );
}

#[test]
fn a_parse_error_comes_before_a_missing_header() {
    let fetch = in_flight(None);
    let (fetch, _) = fetch.step::<Vec<u32>>(Event::Response { status: 200, last_modified: None });
    let (_, step) = fetch.step::<Vec<u32>>(Event::Malformed("eof".to_string()));
    assert_eq!(
        step,
        Step::Done(Reply { inner: Err(Error::Parse("eof".to_string())), last_modified: None })
    );
}

#[test]
fn a_304_is_not_modified_and_reads_no_body() {
    let fetch = in_flight(Some("stamp"));
    let (fetch, step) =
        fetch.step::<Vec<u32>>(Event::Response { status: 304, last_modified: None });
    assert_eq!(fetch.phase, Phase::Finished);
    assert_eq!(fetch.token, Token::Spent);
    assert_eq!(step, Step::Done(Reply { inner: Err(Error::NotModified), last_modified: None }));
    let (_, step) = fetch.step(Event::Body(vec![9u32]));
    assert_eq!(step, Step::Idle);
}

#[test]
fn a_304_hands_on_a_stamp_that_came_again() {
    let fetch = in_flight(Some("old"));
    let (_, step) = fetch.step::<Vec<u32>>(Event::Response {
        status: 304,
        last_modified: Some("new".to_string()),
    });
    let reply = match step {
        Step::Done(reply) => reply,
        other => panic!("unexpected step {:?}", other),
    };
    assert_eq!(reply.outcome(), FetchOutcome::NotModified(Some("new".to_string())));
}

#[test]
fn any_other_status_is_unexpected() {
    for status in [100u16, 201, 204, 301, 400, 404, 429, 500, 503] {
        let fetch = in_flight(None);
        let (fetch, step) = fetch.step::<Vec<u32>>(Event::Response {
            status,
            last_modified: Some("stamp".to_string()),
        });
        assert_eq!(fetch.phase, Phase::Finished);
        assert_eq!(
            step,
            Step::Done(Reply {
                inner: Err(Error::UnexpectedStatus(status)),
                last_modified: Some("stamp".to_string()),
            })
        );
    }
}

#[test]
fn a_transport_failure_gives_the_token_back() {
    let fetch = in_flight(None);
    let (fetch, step) = fetch.step::<Vec<u32>>(Event::Transport("connection refused".to_string()));
    assert_eq!(fetch.token, Token::Returned);
    assert_eq!(fetch.phase, Phase::Finished);
    assert_eq!(
        step,
        Step::Done(Reply {
            inner: Err(Error::Http("connection refused".to_string())),
            last_modified: None,
        })
    );
}

#[test]
fn a_closed_limiter_ends_the_fetch() {
    let (fetch, _) = Fetch::start::<Vec<u32>>(request(None), 0);
    let (fetch, step) = fetch.step::<Vec<u32>>(Event::Closed);
    assert_eq!(fetch.phase, Phase::Finished);
    assert_eq!(fetch.token, Token::Unclaimed);
    assert_eq!(step, Step::Done(Reply { inner: Err(Error::RateLimit), last_modified: None }));
}

#[test]
fn a_second_permit_sends_nothing_more() {
    let fetch = in_flight(None);
    let before = fetch.clone();
    let (fetch, step) = fetch.step::<Vec<u32>>(Event::Permit);
    assert_eq!(step, Step::Idle);
    assert_eq!(fetch, before);
}

#[test]
fn the_request_is_sent_as_it_was_given() {
    let stamp = "  Wed, 21 Oct 2015 07:28:00 GMT\t";
    let (fetch, _) = Fetch::start::<Vec<u32>>(request(Some(stamp)), 0);
    let (_, step) = fetch.step::<Vec<u32>>(Event::Permit);
    match step {
        Step::Send(sent) => assert_eq!(sent.if_modified_since.as_deref(), Some(stamp)),
        other => panic!("unexpected step {:?}", other),
    }
}

#[test]
fn outcome_of_each_kind_of_reply() {
    let fresh: Reply<u8> = Reply { inner: Ok(7), last_modified: Some("s".to_string()) };
    assert_eq!(fresh.outcome(), FetchOutcome::Fresh(7, "s".to_string()));
    let bare: Reply<u8> = Reply { inner: Ok(7), last_modified: None };
    assert_eq!(bare.outcome(), FetchOutcome::Failure(Error::MissingHeader("last-modified")));
    let same: Reply<u8> = Reply { inner: Err(Error::NotModified), last_modified: None };
    assert_eq!(same.outcome(), FetchOutcome::NotModified(None));
    let failed: Reply<u8> =
        Reply { inner: Err(Error::UnexpectedStatus(500)), last_modified: Some("s".to_string()) };
    assert_eq!(failed.outcome(), FetchOutcome::Failure(Error::UnexpectedStatus(500)));
}
