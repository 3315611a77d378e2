//! The resources of the API and the lifecycle they share.
//!
//! Every resource is constructed from the reply to an unconditional fetch
//! and refreshed from the reply to a conditional one. [`Resource`] is that
//! lifecycle once, for any payload; the kinds differ in their URL, in their
//! cooldown, and a thread in that it can be archived.

use vstd::prelude::*;

use crate::client::{
    dispatch_follows_sleep, dispatch_needs_token, Event, Fetch, FetchOutcome, Phase, Reply, Request,
    Step,
};
use crate::error::Error;

pub mod archive;
pub mod board;
pub mod catalog;
pub mod thread;
pub mod threadlist;

verus! {

/// The milliseconds a thread or a catalog lets pass between two refreshes.
pub const COOLDOWN: u64 = 10_000;

/// Where a resource lives and the stamp the server last gave it.
#[derive(Debug, Clone, Default, PartialEq, Eq)]
pub struct Metadata {
    /// The URL the resource is fetched from.
    pub url: String,
    /// The `Last-Modified` value of the latest response that carried one,
    /// letter for letter.
    pub last_modified: String,
}

impl Metadata {
    /// The URL the resource is fetched from.
    pub fn url(&self) -> (url: &str)
        ensures
            url@ == self.url@,
    {
        self.url.as_str()
    }

    /// The request of the next refresh: the same URL, conditioned on the
    /// stamp exactly as it was received.
    pub open spec fn request_spec(self) -> Request {
        Request { url: self.url, if_modified_since: Some(self.last_modified) }
    }

    /// Builds the request of the next refresh.
    pub fn request(&self) -> (request: Request)
        ensures
            request == self.request_spec(),
    {
        Request { url: self.url.clone(), if_modified_since: Some(self.last_modified.clone()) }
    }

    /// The metadata after a reply: a stamp that came with a payload, or
    /// again with a 304, takes the place of the old one; a failure changes
    /// nothing. The URL never changes.
    pub open spec fn settled<T>(self, reply: Reply<T>) -> Metadata {
        match reply.outcome_spec() {
            FetchOutcome::Fresh(_, stamp) => Metadata { url: self.url, last_modified: stamp },
            FetchOutcome::NotModified(Some(stamp)) => Metadata {
                url: self.url,
                last_modified: stamp,
            },
            FetchOutcome::NotModified(None) => self,
            FetchOutcome::Failure(_) => self,
        }
    }
}

/// The time still to sit out at `now` when the last refresh was at
/// `refreshed` and `cooldown` must pass between two refreshes. All three in
/// milliseconds.
pub open spec fn remaining(refreshed: int, now: int, cooldown: int) -> int {
    if now - refreshed >= cooldown {
        0
    } else {
        cooldown - (now - refreshed)
    }
}

/// Computes the wait, or fails where it does not fit 64 bits.
pub fn cooldown_wait(refreshed: i64, now: i64, cooldown: u64) -> (wait: Result<u64, Error>)
    ensures
        remaining(refreshed as int, now as int, cooldown as int) <= u64::MAX ==> wait == Ok::<
            u64,
            Error,
        >(remaining(refreshed as int, now as int, cooldown as int) as u64),
        remaining(refreshed as int, now as int, cooldown as int) > u64::MAX ==> wait == Err::<
            u64,
            Error,
        >(Error::Overflow),
{
    let elapsed: i128 = now as i128 - refreshed as i128;
    let cooldown: i128 = cooldown as i128;
    if elapsed >= cooldown {
        Ok(0)
    } else {
        let left: i128 = cooldown - elapsed;
        if left > u64::MAX as i128 {
            Err(Error::Overflow)
        } else {
            Ok(left as u64)
        }
    }
}

/// A payload with what is needed to refresh it.
#[derive(Debug, PartialEq, Eq)]
pub struct Resource<T> {
    pub payload: T,
    pub metadata: Metadata,
    /// The local time of the last refresh attempt, in milliseconds.
    pub refreshed: i64,
}

impl<T> Resource<T> {
    /// What constructing from `reply` gives: a resource for a payload with
    /// its stamp, and the reply's failure otherwise. A 304 is a failure
    /// here, since there is nothing it could leave unchanged.
    pub open spec fn constructed(url: String, reply: Reply<T>, now: i64) -> Result<
        Resource<T>,
        Error,
    > {
        match reply.outcome_spec() {
            FetchOutcome::Fresh(payload, stamp) => Ok(
                Resource { payload, metadata: Metadata { url, last_modified: stamp }, refreshed: now },
            ),
            FetchOutcome::NotModified(_) => Err(Error::NotModified),
            FetchOutcome::Failure(error) => Err(error),
        }
    }

    /// Begins the first fetch of the resource at `url`: with nothing to sit
    /// out and no condition, since there is no stamp yet.
    pub fn fetch(url: String) -> (begun: (Fetch, Step<T>))
        ensures
            begun.0 == Fetch::start_spec(Request { url, if_modified_since: None }, 0),
            begun.1 == Step::<T>::Acquire,
    {
        Fetch::start(Request { url, if_modified_since: None }, 0)
    }

    /// Builds the resource at `url` from the reply to its first fetch.
    pub fn construct(url: String, reply: Reply<T>, now: i64) -> (built: Result<Resource<T>, Error>)
        ensures
            built == Self::constructed(url, reply, now),
    {
        match reply.outcome() {
            FetchOutcome::Fresh(payload, stamp) => Ok(
                Resource { payload, metadata: Metadata { url, last_modified: stamp }, refreshed: now },
            ),
            FetchOutcome::NotModified(_) => Err(Error::NotModified),
            FetchOutcome::Failure(error) => Err(error),
        }
    }

    /// The resource was built for `url` from `reply`, received at `now`.
    pub open spec fn built_from(self, url: Seq<char>, reply: Reply<T>, now: i64) -> bool {
        &&& reply.outcome_spec() matches FetchOutcome::Fresh(payload, stamp)
        &&& self.payload == payload
        &&& self.metadata.url@ == url
        &&& self.metadata.last_modified == stamp
        &&& self.refreshed == now
    }

    /// The error that construction from `reply` ends in, where it fails.
    pub open spec fn refusal(reply: Reply<T>) -> Option<Error> {
        match reply.outcome_spec() {
            FetchOutcome::Fresh(_, _) => None,
            FetchOutcome::NotModified(_) => Some(Error::NotModified),
            FetchOutcome::Failure(error) => Some(error),
        }
    }

    /// The fetch that refreshes the resource at `now`: it first sits out
    /// what is left of `cooldown`, then sends the stored URL with the stored
    /// stamp. Where the wait does not fit 64 bits there is no fetch.
    pub open spec fn refreshing(self, now: i64, cooldown: u64) -> Result<(Fetch, Step<T>), Error> {
        let wait = remaining(self.refreshed as int, now as int, cooldown as int);
        if wait <= u64::MAX {
            let fetch = Fetch::start_spec(self.metadata.request_spec(), wait as u64);
            Ok((fetch, fetch.first_step::<T>()))
        } else {
            Err(Error::Overflow)
        }
    }

    /// Begins a refresh at `now` under `cooldown`.
    pub fn refresh(&self, now: i64, cooldown: u64) -> (begun: Result<(Fetch, Step<T>), Error>)
        ensures
            begun == self.refreshing(now, cooldown),
    {
        match cooldown_wait(self.refreshed, now, cooldown) {
            Ok(wait) => Ok(Fetch::start(self.metadata.request(), wait)),
            Err(error) => Err(error),
        }
    }

    /// The resource after the reply to a refresh: a fresh payload replaces
    /// the old one whole, together with its stamp; a 304 and a failure leave
    /// the payload as it was. The time of the attempt is recorded whatever
    /// came back.
    pub open spec fn updated(self, reply: Reply<T>, now: i64) -> Resource<T> {
        Resource {
            payload: match reply.outcome_spec() {
                FetchOutcome::Fresh(payload, _) => payload,
                _ => self.payload,
            },
            metadata: self.metadata.settled(reply),
            refreshed: now,
        }
    }

    /// What a refresh reports: a failure is handed on, a 304 is none.
    pub open spec fn reported(reply: Reply<T>) -> Result<(), Error> {
        match reply.outcome_spec() {
            FetchOutcome::Failure(error) => Err(error),
            _ => Ok(()),
        }
    }

    /// Takes up the reply to a refresh.
    pub fn update(&mut self, reply: Reply<T>, now: i64) -> (done: Result<(), Error>)
        ensures
            *final(self) == old(self).updated(reply, now),
            done == Self::reported(reply),
    {
        self.refreshed = now;
        match reply.outcome() {
            FetchOutcome::Fresh(payload, stamp) => {
                self.payload = payload;
                self.metadata.last_modified = stamp;
                Ok(())
            },
            FetchOutcome::NotModified(Some(stamp)) => {
                self.metadata.last_modified = stamp;
                Ok(())
            },
            FetchOutcome::NotModified(None) => Ok(()),
            FetchOutcome::Failure(error) => Err(error),
        }
    }
}

/// A refresh that finds the resource unchanged leaves the payload exactly
/// as it was, and reports success.
pub proof fn not_modified_keeps_payload<T>(resource: Resource<T>, reply: Reply<T>, now: i64)
    requires
        reply.outcome_spec() is NotModified,
    ensures
        resource.updated(reply, now).payload == resource.payload,
        resource.updated(reply, now).metadata.url == resource.metadata.url,
        Resource::<T>::reported(reply) == Ok::<(), Error>(()),
{
}

/// A refresh that finds fresh data replaces the payload whole: afterwards
/// the resource holds the new payload and nothing of the old one, and the
/// stamp that came with it.
pub proof fn fresh_replaces_payload<T>(
    resource: Resource<T>,
    reply: Reply<T>,
    now: i64,
    payload: T,
    stamp: String,
)
    requires
        reply.outcome_spec() == FetchOutcome::Fresh(payload, stamp),
    ensures
        resource.updated(reply, now).payload == payload,
        resource.updated(reply, now).metadata.last_modified == stamp,
        resource.updated(reply, now).metadata.url == resource.metadata.url,
        Resource::<T>::reported(reply) == Ok::<(), Error>(()),
{
}

/// For a payload that is a list: after a refresh that found fresh data
/// every element of the resource is an element of the new list, so none of
/// the old list survives unless the new one holds it too.
pub proof fn nothing_old_survives<A>(
    resource: Resource<Vec<A>>,
    reply: Reply<Vec<A>>,
    now: i64,
    fresh: Vec<A>,
    stamp: String,
    element: A,
)
    requires
        reply.outcome_spec() == FetchOutcome::Fresh(fresh, stamp),
        resource.updated(reply, now).payload@.contains(element),
    ensures
        fresh@.contains(element),
{
}

/// A refresh that fails leaves payload and metadata exactly as they were
/// and hands the failure on. Only the time of the attempt is recorded.
pub proof fn failure_changes_nothing<T>(resource: Resource<T>, reply: Reply<T>, now: i64, error: Error)
    requires
        reply.outcome_spec() == FetchOutcome::<T>::Failure(error),
    ensures
        resource.updated(reply, now).payload == resource.payload,
        resource.updated(reply, now).metadata == resource.metadata,
        resource.updated(reply, now).refreshed == now,
        Resource::<T>::reported(reply) == Err::<(), Error>(error),
{
}

/// A refresh begun before the cooldown is over sleeps first, and at least
/// until the cooldown is over: the request is not sent before the driver
/// reports the sleep as done, and the sleep ends no earlier than `cooldown`
/// after the last refresh.
pub proof fn refresh_waits_for_cooldown<T>(
    resource: Resource<T>,
    now: i64,
    cooldown: u64,
    events: Seq<Event<T>>,
    j: int,
)
    requires
        now - resource.refreshed < cooldown,
        resource.refreshing(now, cooldown) matches Ok((fetch, _)) && 0 <= j < events.len()
            && fetch.answer(events, j) is Send,
    ensures
        resource.refreshing(now, cooldown) matches Ok((fetch, step)) && {
            &&& step == Step::<T>::Sleep(fetch.wait)
            &&& now + fetch.wait >= resource.refreshed + cooldown
            &&& exists|i: int| 0 <= i < j && events[i] == Event::<T>::Woke
        },
{
    let fetch = resource.refreshing(now, cooldown)->Ok_0.0;
    dispatch_follows_sleep(resource.metadata.request_spec(), fetch.wait, events, j);
}

/// A resource is made of a 200 response only: whatever else a request under
/// way is answered with, the reply it comes to makes no resource.
pub proof fn construction_needs_200<T>(
    fetch: Fetch,
    status: u16,
    last_modified: Option<String>,
    url: String,
    now: i64,
)
    requires
        fetch.phase == Phase::InFlight,
        status != 200,
    ensures
        fetch.next(Event::<T>::Response { status, last_modified }).1 matches Step::Done(reply)
            && Resource::constructed(url, reply, now) == Err::<Resource<T>, Error>(
            if status == 304 {
                Error::NotModified
            } else {
                Error::UnexpectedStatus(status)
            },
        ),
{
}

/// The stamp makes the round trip untouched. When a request under way is
/// answered with a 200 that carries `stamp` and a body that decodes, then
/// the resource built from the reply, and any resource refreshed from it,
/// sends exactly `stamp` as the condition of its next request.
pub proof fn stamp_round_trip<T>(
    fetch: Fetch,
    stamp: String,
    payload: T,
    resource: Resource<T>,
    url: String,
    now: i64,
    later: i64,
    cooldown: u64,
    events: Seq<Event<T>>,
    i: int,
)
    requires
        fetch.phase == Phase::InFlight,
    ensures
        ({
            let head = Event::<T>::Response { status: 200, last_modified: Some(stamp) };
            &&& fetch.next(head).0.next(Event::Body(payload)).1 matches Step::Done(reply)
            &&& Resource::constructed(url, reply, now) matches Ok(built)
            &&& built.metadata.request_spec().if_modified_since == Some(stamp)
            &&& resource.updated(reply, now).metadata.request_spec().if_modified_since == Some(
                stamp,
            )
            &&& resource.updated(reply, now).refreshing(later, cooldown) matches Ok((next, _))
                ==> {
                &&& next.request.if_modified_since == Some(stamp)
                &&& (0 <= i < events.len() && next.answer(events, i) is Send) ==> next.answer(
                    events,
                    i,
                ) == Step::<T>::Send(
                    Request { url: resource.metadata.url, if_modified_since: Some(stamp) },
                )
            }
        }),
{
    let head = Event::<T>::Response { status: 200, last_modified: Some(stamp) };
    let reply = fetch.next(head).0.next(Event::Body(payload)).1->Done_0;
    if resource.updated(reply, now).refreshing(later, cooldown) is Ok {
        let next = resource.updated(reply, now).refreshing(later, cooldown)->Ok_0.0;
        if 0 <= i < events.len() && next.answer(events, i) is Send {
            dispatch_needs_token(next, events, i);
        }
    }
}

/// The two hold the same text, or both hold none.
pub open spec fn same_text(borrowed: Option<&str>, owned: Option<String>) -> bool {
    match (borrowed, owned) {
        (Some(a), Some(b)) => a@ == b@,
        (None, None) => true,
        _ => false,
    }
}

/// Borrows the text of an optional string.
pub fn str_opt_ref(text: &Option<String>) -> (borrowed: Option<&str>)
    ensures
        same_text(borrowed, *text),
{
    match text {
        Some(t) => Some(t.as_str()),
        None => None,
    }
}

/// Whether a flag of the wire format is set: the API writes `1` for true.
pub fn de_bool(value: u32) -> (flag: bool)
    ensures
        flag == (value == 1),
{
    value == 1
}

/// The same for a flag that may be absent.
pub fn maybe_de_bool(value: Option<u32>) -> (flag: Option<bool>)
    ensures
        flag == match value {
            Some(v) => Some(v == 1),
            None => None::<bool>,
        },
{
    match value {
        Some(v) => Some(v == 1),
        None => None,
    }
}

} // verus!
