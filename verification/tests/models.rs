use dot4ch::client::{Event, FetchOutcome, Phase, Reply, Request, Step};
use dot4ch::models::archive::Archive;
use dot4ch::models::board::{Board, Boards};
use dot4ch::models::catalog::{CatPost, Catalog, Page};
use dot4ch::models::thread::{Post, Thread};
use dot4ch::models::threadlist::{BaseThread, ThreadAttributes, ThreadList};
use dot4ch::models::{cooldown_wait, de_bool, maybe_de_bool, Metadata, Resource, COOLDOWN};
use dot4ch::Error;

const STAMP: &str = "Wed, 21 Oct 2015 07:28:00 GMT";

fn fresh<T>(payload: T, stamp: &str) -> Reply<T> {
    Reply { inner: Ok(payload), last_modified: Some(stamp.to_string()) }
}

fn unchanged<T>(stamp: Option<&str>) -> Reply<T> {
    Reply { inner: Err(Error::NotModified), last_modified: stamp.map(|s| s.to_string()) }
}

fn failed<T>(error: Error) -> Reply<T> {
    Reply { inner: Err(error), last_modified: None }
}

fn post(no: u32) -> Post {
    Post { no, now: "10/21/15(Wed)07:28".to_string(), name: "Anonymous".to_string(), ..Post::default() }
}

fn archived_post(no: u32, on: Option<u64>) -> Post {
    Post { archived: Some(true), archived_on: on, ..post(no) }
}

#[test]
fn cooldown_is_ten_seconds() {
    assert_eq!(COOLDOWN, 10_000);
}

#[test]
fn cooldown_wait_is_what_is_left() {
    assert_eq!(cooldown_wait(1_000, 1_000, 10_000), Ok(10_000));
    assert_eq!(cooldown_wait(1_000, 4_500, 10_000), Ok(6_500));
    assert_eq!(cooldown_wait(1_000, 10_999, 10_000), Ok(1));
    assert_eq!(cooldown_wait(1_000, 11_000, 10_000), Ok(0));
    assert_eq!(cooldown_wait(1_000, 99_000, 10_000), Ok(0));
    assert_eq!(cooldown_wait(0, 0, 0), Ok(0));
}

#[test]
fn cooldown_wait_with_a_clock_that_went_back() {
    assert_eq!(cooldown_wait(5_000, 2_000, 10_000), Ok(13_000));
    assert_eq!(cooldown_wait(i64::MAX, i64::MIN, 0), Ok(u64::MAX));
}

#[test]
fn cooldown_wait_that_does_not_fit() {
    assert_eq!(cooldown_wait(i64::MAX, i64::MIN, 1), Err(Error::Overflow));
    assert_eq!(cooldown_wait(0, -1, u64::MAX), Err(Error::Overflow));
    assert_eq!(cooldown_wait(0, 0, u64::MAX), Ok(u64::MAX));
}

#[test]
fn wire_flags() {
    assert!(de_bool(1));
    assert!(!de_bool(0));
    assert!(!de_bool(2));
    assert_eq!(maybe_de_bool(Some(1)), Some(true));
    assert_eq!(maybe_de_bool(Some(0)), Some(false));
    assert_eq!(maybe_de_bool(Some(7)), Some(false));
    assert_eq!(maybe_de_bool(None), None);
}

#[test]
fn urls_of_every_kind() {
    assert_eq!(Archive::url("po"), "https://a.4cdn.org/po/archive.json");
    assert_eq!(Boards::url(), "https://a.4cdn.org/boards.json");
    assert_eq!(Catalog::url("g"), "https://a.4cdn.org/g/catalog.json");
    assert_eq!(ThreadList::url("g"), "https://a.4cdn.org/g/threads.json");
    assert_eq!(Thread::url("po", 570368), "https://a.4cdn.org/po/thread/570368.json");
    assert_eq!(Thread::url("po", 0), "https://a.4cdn.org/po/thread/0.json");
    assert_eq!(Thread::url("", u32::MAX), "https://a.4cdn.org//thread/4294967295.json");
}

#[test]
fn first_fetch_is_unconditional() {
    let (fetch, step) = Thread::fetch("po", 570368);
    assert_eq!(step, Step::Acquire);
    assert_eq!(fetch.wait, 0);
    assert_eq!(
        fetch.request,
        Request { url: "https://a.4cdn.org/po/thread/570368.json".to_string(), if_modified_since: None }
    );
    assert_eq!(Archive::fetch("po").0.request.url, "https://a.4cdn.org/po/archive.json");
    assert_eq!(Archive::fetch("po").0.request.if_modified_since, None);
    assert_eq!(Boards::fetch().0.request.url, "https://a.4cdn.org/boards.json");
    assert_eq!(Catalog::fetch("g").0.request.if_modified_since, None);
    assert_eq!(ThreadList::fetch("g").0.request.url, "https://a.4cdn.org/g/threads.json");
}

#[test]
fn construction_takes_payload_and_stamp() {
    let archive = Archive::new("po", fresh(vec![1, 2, 3], STAMP), 42).unwrap();
    assert_eq!(*archive, vec![1, 2, 3]);
    assert_eq!(archive.metadata().url(), "https://a.4cdn.org/po/archive.json");
    assert_eq!(archive.metadata().last_modified, STAMP);
    assert_eq!(archive.last_refreshed(), 42);
    assert_eq!(archive.len(), 3);
}

#[test]
fn construction_fails_on_anything_but_fresh() {
    assert_eq!(Archive::new("po", unchanged(Some(STAMP)), 0), Err(Error::NotModified));
    assert_eq!(Archive::new("po", unchanged(None), 0), Err(Error::NotModified));
    for status in [201u16, 301, 403, 404, 500] {
        assert_eq!(
            Archive::new("po", failed(Error::UnexpectedStatus(status)), 0),
            Err(Error::UnexpectedStatus(status))
        );
    }
    assert_eq!(
        Archive::new("po", Reply { inner: Ok(vec![1]), last_modified: None }, 0),
        Err(Error::MissingHeader("last-modified"))
    );
    assert_eq!(
        Thread::new("po", 1, failed(Error::Http("refused".to_string())), 0),
        Err(Error::Http("refused".to_string()))
    );
    assert_eq!(
        Catalog::new("g", failed(Error::Parse("eof".to_string())), 0),
        Err(Error::Parse("eof".to_string()))
    );
    assert_eq!(ThreadList::new("g", failed(Error::RateLimit), 0), Err(Error::RateLimit));
    assert!(matches!(Boards::new(failed(Error::UnexpectedStatus(503)), 0), Err(Error::UnexpectedStatus(503))));
}

#[test]
fn construction_from_a_status_the_fetch_classified() {
    for status in [204u16, 304, 404, 500] {
        let (fetch, _) = Archive::fetch("po");
        let (fetch, _) = fetch.step::<Vec<u32>>(Event::Permit);
        let (fetch, step) =
            fetch.step::<Vec<u32>>(Event::Response { status, last_modified: Some(STAMP.to_string()) });
        assert_eq!(fetch.phase, Phase::Finished);
        let reply = match step {
            Step::Done(reply) => reply,
            other => panic!("unexpected step {:?}", other),
        };
        let expected = if status == 304 { Error::NotModified } else { Error::UnexpectedStatus(status) };
        assert_eq!(Archive::new("po", reply, 0), Err(expected));
    }
}

#[test]
fn not_modified_leaves_the_payload() {
    let mut archive = Archive::new("po", fresh(vec![1, 2, 3], STAMP), 0).unwrap();
    assert_eq!(archive.update(unchanged(None), 77), Ok(()));
    assert_eq!(*archive, vec![1, 2, 3]);
    assert_eq!(archive.metadata().last_modified, STAMP);
    assert_eq!(archive.last_refreshed(), 77);
}

#[test]
fn not_modified_takes_a_stamp_that_came_again() {
    let mut archive = Archive::new("po", fresh(vec![1, 2, 3], STAMP), 0).unwrap();
    assert_eq!(archive.update(unchanged(Some("Thu, 22 Oct 2015 00:00:00 GMT")), 5), Ok(()));
    assert_eq!(*archive, vec![1, 2, 3]);
    assert_eq!(archive.metadata().last_modified, "Thu, 22 Oct 2015 00:00:00 GMT");
    assert_eq!(archive.metadata().url(), "https://a.4cdn.org/po/archive.json");
}

#[test]
fn fresh_replaces_the_payload_whole() {
    let mut archive = Archive::new("po", fresh(vec![1, 2, 3], STAMP), 0).unwrap();
    assert_eq!(archive.update(fresh(vec![3, 4], "Thu, 22 Oct 2015 00:00:00 GMT"), 9), Ok(()));
    assert_eq!(*archive, vec![3, 4]);
    assert!(!archive.contains(&1));
    assert!(!archive.contains(&2));
    assert_eq!(archive.metadata().last_modified, "Thu, 22 Oct 2015 00:00:00 GMT");
    assert_eq!(archive.last_refreshed(), 9);
}

#[test]
fn failure_leaves_payload_and_stamp() {
    let mut archive = Archive::new("po", fresh(vec![1, 2, 3], STAMP), 0).unwrap();
    assert_eq!(
        archive.update(failed(Error::UnexpectedStatus(500)), 11),
        Err(Error::UnexpectedStatus(500))
    );
    assert_eq!(*archive, vec![1, 2, 3]);
    assert_eq!(archive.metadata().last_modified, STAMP);
    assert_eq!(archive.last_refreshed(), 11);
    assert_eq!(
        archive.update(Reply { inner: Ok(vec![9]), last_modified: None }, 12),
        Err(Error::MissingHeader("last-modified"))
    );
    assert_eq!(*archive, vec![1, 2, 3]);
    assert_eq!(
        archive.update(
            Reply { inner: Err(Error::Http("reset".to_string())), last_modified: Some("x".to_string()) },
            13
        ),
        Err(Error::Http("reset".to_string()))
    );
    assert_eq!(archive.metadata().last_modified, STAMP);
}

#[test]
fn stamp_makes_the_round_trip() {
    let odd = " wed, 21 OCT 2015  07:28:00 gmt ";
    let mut list = ThreadList::new("g", fresh(vec![], STAMP), 0).unwrap();
    let (fetch, _) = list.refresh();
    assert_eq!(fetch.request.if_modified_since.as_deref(), Some(STAMP));
    assert_eq!(fetch.request.url, "https://a.4cdn.org/g/threads.json");
    assert_eq!(list.update(fresh(vec![], odd), 1), Ok(()));
    let (fetch, step) = list.refresh();
    assert_eq!(step, Step::Acquire);
    let (_, step) = fetch.step::<Vec<BaseThread>>(Event::Permit);
    assert_eq!(
        step,
        Step::Send(Request {
            url: "https://a.4cdn.org/g/threads.json".to_string(),
            if_modified_since: Some(odd.to_string()),
        })
    );
}

#[test]
fn a_catalog_sits_out_its_cooldown() {
    let catalog = Catalog::new("g", fresh(vec![], STAMP), 100_000).unwrap();
    let (fetch, step) = catalog.refresh(100_000).unwrap();
    assert_eq!(step, Step::Sleep(10_000));
    assert_eq!(fetch.phase, Phase::Cooling);
    let (fetch, step) = catalog.refresh(104_000).unwrap();
    assert_eq!(step, Step::Sleep(6_000));
    assert_eq!(fetch.request.if_modified_since.as_deref(), Some(STAMP));
    let (_, step) = catalog.refresh(110_000).unwrap();
    assert_eq!(step, Step::Acquire);
    let (_, step) = catalog.refresh(500_000).unwrap();
    assert_eq!(step, Step::Acquire);
}

#[test]
fn a_thread_refreshed_twice_in_a_row_waits_ten_seconds() {
    let mut thread = Thread::new("po", 570368, fresh(vec![post(570368)], STAMP), 1_000).unwrap();
    let (_, step) = thread.refresh(1_000).unwrap();
    assert_eq!(step, Step::Sleep(10_000));
    assert_eq!(thread.update(unchanged(None), 11_200), Ok(()));
    let (fetch, step) = thread.refresh(11_200).unwrap();
    assert_eq!(step, Step::Sleep(10_000));
    let (fetch, step) = fetch.step::<Vec<Post>>(Event::Permit);
    assert_eq!(step, Step::Idle);
    let (fetch, step) = fetch.step::<Vec<Post>>(Event::Woke);
    assert_eq!(step, Step::Acquire);
    let (_, step) = fetch.step::<Vec<Post>>(Event::Permit);
    assert!(matches!(step, Step::Send(_)));
}

#[test]
fn a_failed_refresh_counts_against_the_cooldown() {
    let mut thread = Thread::new("po", 1, fresh(vec![post(1)], STAMP), 0).unwrap();
    assert_eq!(
        thread.update(failed(Error::Http("timeout".to_string())), 50_000),
        Err(Error::Http("timeout".to_string()))
    );
    assert_eq!(thread.last_refreshed(), 50_000);
    let (_, step) = thread.refresh(52_000).unwrap();
    assert_eq!(step, Step::Sleep(8_000));
}

#[test]
fn a_refresh_whose_wait_does_not_fit_fails() {
    let thread = Thread::new("po", 1, fresh(vec![post(1)], STAMP), i64::MAX).unwrap();
    assert_eq!(thread.refresh(i64::MIN), Err(Error::Overflow));
}

#[test]
fn an_archived_thread_takes_no_refresh() {
    let posts = vec![archived_post(570368, Some(1431648000)), post(570369)];
    let mut thread = Thread::new("po", 570368, fresh(posts, STAMP), 0).unwrap();
    assert!(thread.is_archived());
    let error = Error::Archived { thread: 570368, time: Some(1431648000) };
    assert_eq!(thread.refresh(1_000_000), Err(error.clone()));
    for round in 0..3 {
        assert_eq!(thread.update(fresh(vec![post(1)], "later"), 1_000_000 + round), Err(error.clone()));
        assert_eq!(thread.update(unchanged(None), 2_000_000 + round), Err(error.clone()));
        assert_eq!(thread.len(), 2);
        assert_eq!(thread[0].no, 570368);
        assert_eq!(thread.metadata().last_modified, STAMP);
        assert_eq!(thread.last_refreshed(), 0);
        assert_eq!(thread.refresh(3_000_000), Err(error.clone()));
    }
}

#[test]
fn archival_is_read_off_the_opening_post_only() {
    let mut thread =
        Thread::new("po", 1, fresh(vec![post(1), archived_post(2, Some(5))], STAMP), 0).unwrap();
    assert!(!thread.is_archived());
    let flagged_false = Post { archived: Some(false), ..post(1) };
    assert_eq!(thread.update(fresh(vec![flagged_false], STAMP), 1), Ok(()));
    assert!(!thread.is_archived());
    assert_eq!(thread.update(fresh(vec![], STAMP), 2), Ok(()));
    assert!(!thread.is_archived());
    assert_eq!(thread.update(fresh(vec![archived_post(1, None)], STAMP), 3), Ok(()));
    assert!(thread.is_archived());
    assert_eq!(thread.refresh(900_000), Err(Error::Archived { thread: 1, time: None }));
}

#[test]
fn deleted_posts_are_lost_on_a_fresh_reply() {
    let mut thread =
        Thread::new("po", 1, fresh(vec![post(1), post(2), post(3)], STAMP), 0).unwrap();
    assert_eq!(thread.update(fresh(vec![post(1), post(3)], "later"), 20_000), Ok(()));
    let numbers: Vec<u32> = thread.iter().map(|p| p.no()).collect();
    assert_eq!(numbers, vec![1, 3]);
}

#[test]
fn boards_and_lists_keep_their_items() {
    let g = Board { board: "g".to_string(), title: "Technology".to_string(), ..Board::default() };
    let po = Board { board: "po".to_string(), title: "Papercraft".to_string(), ..Board::default() };
    let mut boards = Boards::new(fresh(vec![g, po], STAMP), 0).unwrap();
    assert_eq!(boards.len(), 2);
    assert_eq!(boards[1].title(), "Papercraft");
    assert_eq!(boards.metadata().url(), "https://a.4cdn.org/boards.json");
    assert!(boards.update(unchanged(None), 1).is_ok());
    assert_eq!(boards[0].board(), "g");
    let (fetch, step) = boards.refresh();
    assert_eq!(step, Step::Acquire);
    assert_eq!(fetch.request.if_modified_since.as_deref(), Some(STAMP));

    let page = BaseThread {
        page: 1,
        threads: vec![ThreadAttributes { no: 5, last_modified: 9, replies: 2 }],
    };
    let list = ThreadList::new("g", fresh(vec![page.clone()], STAMP), 0).unwrap();
    assert_eq!(list[0], page);
    assert_eq!(list[0].threads()[0].no(), 5);

    let cat = Page { page: 1, threads: vec![CatPost { no: 8, ..CatPost::default() }] };
    let catalog = Catalog::new("g", fresh(vec![cat], STAMP), 0).unwrap();
    assert_eq!(catalog[0].page(), 1);
    assert_eq!(catalog[0].threads()[0].no(), 8);
    assert_eq!(catalog.metadata().url(), "https://a.4cdn.org/g/catalog.json");
}

#[test]
fn resource_lifecycle_on_a_plain_payload() {
    let mut resource = Resource::construct("u".to_string(), fresh(1u8, "a"), 3).unwrap();
    assert_eq!(
        resource,
        Resource {
            payload: 1,
            metadata: Metadata { url: "u".to_string(), last_modified: "a".to_string() },
            refreshed: 3,
        }
    );
    assert_eq!(resource.metadata.request(), Request { url: "u".to_string(), if_modified_since: Some("a".to_string()) });
    assert_eq!(resource.update(fresh(2, "b"), 4), Ok(()));
    assert_eq!(resource.payload, 2);
    assert_eq!(resource.metadata.last_modified, "b");
    let (fetch, step) = resource.refresh(5, 100).unwrap();
    assert_eq!(step, Step::Sleep(99));
    assert_eq!(fetch.wait, 99);
    assert_eq!(fresh(1u8, "a").outcome(), FetchOutcome::Fresh(1, "a".to_string()));
}
