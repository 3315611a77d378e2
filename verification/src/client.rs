//! One conditional GET, step by step.
//!
//! A fetch alternates between waiting on the outside world and deciding what
//! to do next. The waiting belongs to a driver; the deciding is [`Fetch`].
//! The driver performs the step it is handed, reports the event that
//! followed, and gets the next step, until the step is [`Step::Done`].

use vstd::prelude::*;

use crate::error::Error;
use crate::limiter::RateLimit;

verus! {

/// The value of the `User-Agent` header of every request.
pub const USER_AGENT: &'static str = "Dot4chClient/1.0";

/// The response header that carries the server's freshness stamp.
pub const LAST_MODIFIED: &'static str = "last-modified";

/// The request header that replays the stamp.
pub const IF_MODIFIED_SINCE: &'static str = "if-modified-since";

/// One HTTP GET: where it goes and the stamp it is conditioned on.
#[derive(Debug, Clone, PartialEq, Eq)]
pub struct Request {
    /// Where the request goes.
    pub url: String,
    /// The value of the `If-Modified-Since` header, if the request has one.
    pub if_modified_since: Option<String>,
}

impl Request {
    /// The `User-Agent` the request goes out with.
    pub fn user_agent(&self) -> (agent: &'static str)
        ensures
            agent == USER_AGENT,
    {
        USER_AGENT
    }
}

/// What one fetch attempt came to: the payload or the reason there is none,
/// beside the `Last-Modified` stamp of the response where it had one.
#[derive(Debug, PartialEq, Eq)]
pub struct Reply<T> {
    /// The payload, or why there is none.
    pub inner: Result<T, Error>,
    /// The `Last-Modified` value of the response, if it had one.
    pub last_modified: Option<String>,
}

/// The three ways a fetch attempt can end.
#[derive(Debug, PartialEq, Eq)]
pub enum FetchOutcome<T> {
    /// A 200 response: the payload and the stamp it came with.
    Fresh(T, String),
    /// A 304 response, with a stamp if the server sent one again.
    NotModified(Option<String>),
    /// Anything else.
    Failure(Error),
}

impl<T> Reply<T> {
    /// The outcome a reply stands for. A payload without a stamp is a
    /// failure: freshness cannot be tracked without it.
    pub open spec fn outcome_spec(self) -> FetchOutcome<T> {
        match self.inner {
            Ok(payload) => match self.last_modified {
                Some(stamp) => FetchOutcome::Fresh(payload, stamp),
                None => FetchOutcome::Failure(Error::MissingHeader(LAST_MODIFIED)),
            },
            Err(Error::NotModified) => FetchOutcome::NotModified(self.last_modified),
            Err(error) => FetchOutcome::Failure(error),
        }
    }

    /// The stamp to keep after the reply when `kept` was kept before: that
    /// of a payload, whether it has one or not; that of a 304 if it has
    /// one; and the old one after a failure.
    pub open spec fn stamp_after(self, kept: Option<String>) -> Option<String> {
        match self.inner {
            Ok(_) => self.last_modified,
            Err(Error::NotModified) => match self.last_modified {
                Some(stamp) => Some(stamp),
                None => kept,
            },
            Err(_) => kept,
        }
    }

    /// Classifies the reply.
    pub fn outcome(self) -> (outcome: FetchOutcome<T>)
        ensures
            outcome == self.outcome_spec(),
    {
        match self.inner {
            Ok(payload) => match self.last_modified {
                Some(stamp) => FetchOutcome::Fresh(payload, stamp),
                None => FetchOutcome::Failure(Error::MissingHeader(LAST_MODIFIED)),
            },
            Err(Error::NotModified) => FetchOutcome::NotModified(self.last_modified),
            Err(error) => FetchOutcome::Failure(error),
        }
    }
}

/// How far a fetch has come.
#[derive(Debug, Clone, Copy, PartialEq, Eq)]
pub enum Phase {
    /// Sitting out the entity's cooldown.
    Cooling,
    /// Waiting for a rate token.
    Queued,
    /// The request is on the wire.
    InFlight,
    /// A 200 response arrived and its body is being decoded.
    Reading,
    /// The outcome has been handed over.
    Finished,
}

/// What has become of the rate token of a fetch.
#[derive(Debug, Clone, Copy, PartialEq, Eq)]
pub enum Token {
    /// None has been granted yet.
    Unclaimed,
    /// Granted and not yet used up: the request is under way.
    Held,
    /// A response arrived; the token is gone for good.
    Spent,
    /// The request never reached the server; the token goes back to the
    /// limiter.
    Returned,
}

/// What the driver reports.
#[derive(Debug, PartialEq, Eq)]
pub enum Event<T> {
    /// The cooldown sleep is over.
    Woke,
    /// The limiter granted a token.
    Permit,
    /// The limiter was shut down.
    Closed,
    /// A response arrived, with this status and this `Last-Modified` value.
    Response { status: u16, last_modified: Option<String> },
    /// The request failed below HTTP.
    Transport(String),
    /// The body decoded into a payload.
    Body(T),
    /// The body did not decode.
    Malformed(String),
}

/// What the driver is to do next.
#[derive(Debug, PartialEq, Eq)]
pub enum Step<T> {
    /// Sleep this many milliseconds, then report `Woke`.
    Sleep(u64),
    /// Wait for a rate token, then report `Permit` or `Closed`.
    Acquire,
    /// Send this request, then report `Response` or `Transport`.
    Send(Request),
    /// Decode the body, then report `Body` or `Malformed`.
    Decode,
    /// The fetch is over; this is what it came to.
    Done(Reply<T>),
    /// The event answered nothing that was asked; nothing is to be done.
    Idle,
}

/// The state of one fetch.
#[derive(Debug, Clone, PartialEq, Eq)]
pub struct Fetch {
    /// How far the fetch has come.
    pub phase: Phase,
    /// The milliseconds of cooldown to sit out before anything else.
    pub wait: u64,
    /// The request the fetch is for.
    pub request: Request,
    /// What has become of its rate token.
    pub token: Token,
    /// The stamp of the response, kept while the body is decoded.
    pub last_modified: Option<String>,
}

/// Copies a stamp, letter for letter.
pub fn copy_stamp(stamp: &Option<String>) -> (copy: Option<String>)
    ensures
        copy == *stamp,
{
    match stamp {
        Some(text) => Some(text.clone()),
        None => None,
    }
}

impl Fetch {
    /// The fetch before its first step.
    pub open spec fn start_spec(request: Request, wait: u64) -> Fetch {
        Fetch {
            phase: if wait > 0 {
                Phase::Cooling
            } else {
                Phase::Queued
            },
            wait,
            request,
            token: Token::Unclaimed,
            last_modified: None,
        }
    }

    /// The step a fetch is waiting on, where there is one to repeat.
    pub open spec fn first_step<T>(self) -> Step<T> {
        match self.phase {
            Phase::Cooling => Step::Sleep(self.wait),
            Phase::Queued => Step::Acquire,
            _ => Step::Idle,
        }
    }

    /// The transition: the state after `event` and the step that answers it.
    ///
    /// A 200 response is read before its stamp is asked for, so a body that
    /// does not decode is a parse failure whether or not a stamp came. A 304
    /// ends the fetch without a body. Any other status is a failure with
    /// that status. A transport failure hands the token back. An event that
    /// does not answer the step last handed out changes nothing.
    pub open spec fn next<T>(self, event: Event<T>) -> (Fetch, Step<T>) {
        match (self.phase, event) {
            (Phase::Cooling, Event::Woke) => (
                Fetch { phase: Phase::Queued, ..self },
                Step::Acquire,
            ),
            (Phase::Queued, Event::Permit) => (
                Fetch { phase: Phase::InFlight, token: Token::Held, ..self },
                Step::Send(self.request),
            ),
            (Phase::Queued, Event::Closed) => (
                Fetch { phase: Phase::Finished, ..self },
                Step::Done(Reply { inner: Err(Error::RateLimit), last_modified: None }),
            ),
            (Phase::InFlight, Event::Response { status, last_modified }) => if status == 200 {
                (
                    Fetch { phase: Phase::Reading, token: Token::Spent, last_modified, ..self },
                    Step::Decode,
                )
            } else if status == 304 {
                (
                    Fetch { phase: Phase::Finished, token: Token::Spent, ..self },
                    Step::Done(Reply { inner: Err(Error::NotModified), last_modified }),
                )
            } else {
                (
                    Fetch { phase: Phase::Finished, token: Token::Spent, ..self },
                    Step::Done(
                        Reply { inner: Err(Error::UnexpectedStatus(status)), last_modified },
                    ),
                )
            },
            (Phase::InFlight, Event::Transport(message)) => (
                Fetch { phase: Phase::Finished, token: Token::Returned, ..self },
                Step::Done(Reply { inner: Err(Error::Http(message)), last_modified: None }),
            ),
            (Phase::Reading, Event::Body(payload)) => (
                Fetch { phase: Phase::Finished, last_modified: None, ..self },
                Step::Done(
                    match self.last_modified {
                        Some(stamp) => Reply { inner: Ok(payload), last_modified: Some(stamp) },
                        None => Reply {
                            inner: Err(Error::MissingHeader(LAST_MODIFIED)),
                            last_modified: None,
                        },
                    },
                ),
            ),
            (Phase::Reading, Event::Malformed(message)) => (
                Fetch { phase: Phase::Finished, last_modified: None, ..self },
                Step::Done(
                    Reply { inner: Err(Error::Parse(message)), last_modified: self.last_modified },
                ),
            ),
            _ => (self, Step::Idle),
        }
    }

    /// Begins a fetch of `request` that first sits out `wait` milliseconds.
    /// The step to start with is a sleep if there is anything to sit out,
    /// and the wait for a token if not.
    pub fn start<T>(request: Request, wait: u64) -> (begun: (Fetch, Step<T>))
        ensures
            begun.0 == Fetch::start_spec(request, wait),
            begun.1 == begun.0.first_step::<T>(),
            wait > 0 ==> begun.1 == Step::<T>::Sleep(wait),
            wait == 0 ==> begun.1 == Step::<T>::Acquire,
    {
        if wait > 0 {
            (
                Fetch {
                    phase: Phase::Cooling,
                    wait,
                    request,
                    token: Token::Unclaimed,
                    last_modified: None,
                },
                Step::Sleep(wait),
            )
        } else {
            (
                Fetch {
                    phase: Phase::Queued,
                    wait,
                    request,
                    token: Token::Unclaimed,
                    last_modified: None,
                },
                Step::Acquire,
            )
        }
    }

    /// Takes up what the driver reports and says what to do next.
    pub fn step<T>(self, event: Event<T>) -> (moved: (Fetch, Step<T>))
        ensures
            moved == self.next(event),
    {
        let Fetch { phase, wait, request, token, last_modified: kept } = self;
        match (phase, event) {
            (Phase::Cooling, Event::Woke) => (
                Fetch { phase: Phase::Queued, wait, request, token, last_modified: kept },
                Step::Acquire,
            ),
            (Phase::Queued, Event::Permit) => {
                let outgoing = Request {
                    url: request.url.clone(),
                    if_modified_since: copy_stamp(&request.if_modified_since),
                };
                (
                    Fetch {
                        phase: Phase::InFlight,
                        wait,
                        request,
                        token: Token::Held,
                        last_modified: kept,
                    },
                    Step::Send(outgoing),
                )
            },
            (Phase::Queued, Event::Closed) => (
                Fetch { phase: Phase::Finished, wait, request, token, last_modified: kept },
                Step::Done(Reply { inner: Err(Error::RateLimit), last_modified: None }),
            ),
            (Phase::InFlight, Event::Response { status, last_modified }) => {
                if status == 200 {
                    (
                        Fetch {
                            phase: Phase::Reading,
                            wait,
                            request,
                            token: Token::Spent,
                            last_modified,
                        },
                        Step::Decode,
                    )
                } else if status == 304 {
                    (
                        Fetch {
                            phase: Phase::Finished,
                            wait,
                            request,
                            token: Token::Spent,
                            last_modified: kept,
                        },
                        Step::Done(Reply { inner: Err(Error::NotModified), last_modified }),
                    )
                } else {
                    (
                        Fetch {
                            phase: Phase::Finished,
                            wait,
                            request,
                            token: Token::Spent,
                            last_modified: kept,
                        },
                        Step::Done(
                            Reply { inner: Err(Error::UnexpectedStatus(status)), last_modified },
                        ),
                    )
                }
            },
            (Phase::InFlight, Event::Transport(message)) => (
                Fetch {
                    phase: Phase::Finished,
                    wait,
                    request,
                    token: Token::Returned,
                    last_modified: kept,
                },
                Step::Done(Reply { inner: Err(Error::Http(message)), last_modified: None }),
            ),
            (Phase::Reading, Event::Body(payload)) => {
                let reply = match kept {
                    Some(stamp) => Reply { inner: Ok(payload), last_modified: Some(stamp) },
                    None => Reply {
                        inner: Err(Error::MissingHeader(LAST_MODIFIED)),
                        last_modified: None,
                    },
                };
                (
                    Fetch { phase: Phase::Finished, wait, request, token, last_modified: None },
                    Step::Done(reply),
                )
            },
            (Phase::Reading, Event::Malformed(message)) => (
                Fetch { phase: Phase::Finished, wait, request, token, last_modified: None },
                Step::Done(Reply { inner: Err(Error::Parse(message)), last_modified: kept }),
            ),
            (phase, _) => (
                Fetch { phase, wait, request, token, last_modified: kept },
                Step::Idle,
            ),
        }
    }
}

impl Fetch {
    /// How far the fetch has come, as a number: phases are passed in this
    /// order and never gone back to.
    pub open spec fn progress(self) -> nat {
        match self.phase {
            Phase::Cooling => 0,
            Phase::Queued => 1,
            Phase::InFlight => 2,
            Phase::Reading => 3,
            Phase::Finished => 4,
        }
    }

    /// The fetch after a run of events.
    pub open spec fn after<T>(self, events: Seq<Event<T>>) -> Fetch
        decreases events.len(),
    {
        if events.len() == 0 {
            self
        } else {
            self.after(events.drop_last()).next(events.last()).0
        }
    }

    /// The step that answers event `i` of a run.
    pub open spec fn answer<T>(self, events: Seq<Event<T>>, i: int) -> Step<T> {
        self.after(events.take(i)).next(events[i]).1
    }
}

/// A fetch never changes what it asks for or how long it sits out, and it
/// never goes back to an earlier phase.
pub proof fn fetch_only_advances<T>(fetch: Fetch, events: Seq<Event<T>>)
    ensures
        fetch.after(events).request == fetch.request,
        fetch.after(events).wait == fetch.wait,
        fetch.after(events).progress() >= fetch.progress(),
    decreases events.len(),
{
    if events.len() > 0 {
        fetch_only_advances(fetch, events.drop_last());
    }
}

/// A request goes out only in answer to a granted token, it is the request
/// the fetch was begun with, and the fetch is then under way.
pub proof fn dispatch_needs_token<T>(fetch: Fetch, events: Seq<Event<T>>, i: int)
    requires
        0 <= i < events.len(),
        fetch.answer(events, i) is Send,
    ensures
        events[i] == Event::<T>::Permit,
        fetch.answer(events, i) == Step::<T>::Send(fetch.request),
        fetch.after(events.take(i)).phase == Phase::Queued,
        fetch.after(events.take(i + 1)).phase == Phase::InFlight,
        fetch.after(events.take(i + 1)).token == Token::Held,
{
    fetch_only_advances(fetch, events.take(i));
    assert(events.take(i + 1).drop_last() =~= events.take(i));
}

/// A token is good for one request: a fetch sends at most once, whatever
/// the driver reports and however often.
pub proof fn one_dispatch<T>(fetch: Fetch, events: Seq<Event<T>>, i: int, j: int)
    requires
        0 <= i <= j < events.len(),
        fetch.answer(events, i) is Send,
        fetch.answer(events, j) is Send,
    ensures
        i == j,
{
    if i < j {
        dispatch_needs_token(fetch, events, i);
        dispatch_needs_token(fetch, events, j);
        let reached = fetch.after(events.take(i + 1));
        let rest = events.take(j).skip(i + 1);
        run_splits(fetch, events.take(j), i + 1);
        assert(events.take(j).take(i + 1) =~= events.take(i + 1));
        fetch_only_advances(reached, rest);
    }
}

/// A run can be taken in two parts.
proof fn run_splits<T>(fetch: Fetch, events: Seq<Event<T>>, at: int)
    requires
        0 <= at <= events.len(),
    ensures
        fetch.after(events) == fetch.after(events.take(at)).after(events.skip(at)),
    decreases events.len(),
{
    if at == events.len() {
        assert(events.take(at) =~= events);
    } else {
        run_splits(fetch, events.drop_last(), at);
        assert(events.drop_last().take(at) =~= events.take(at));
        assert(events.skip(at).drop_last() =~= events.drop_last().skip(at));
    }
}

/// A fetch that has a cooldown to sit out sends nothing before the driver
/// has reported the sleep as done.
pub proof fn dispatch_follows_sleep<T>(request: Request, wait: u64, events: Seq<Event<T>>, j: int)
    requires
        wait > 0,
        0 <= j < events.len(),
        Fetch::start_spec(request, wait).answer(events, j) is Send,
    ensures
        exists|i: int| 0 <= i < j && events[i] == Event::<T>::Woke,
{
    let fetch = Fetch::start_spec(request, wait);
    dispatch_needs_token(fetch, events, j);
    if forall|i: int| 0 <= i < j ==> events[i] != Event::<T>::Woke {
        stays_cooling(fetch, events.take(j));
        assert(false);
    }
}

/// Without the report that the sleep is done a cooling fetch keeps cooling.
proof fn stays_cooling<T>(fetch: Fetch, events: Seq<Event<T>>)
    requires
        fetch.phase == Phase::Cooling,
        forall|i: int| 0 <= i < events.len() ==> events[i] != Event::<T>::Woke,
    ensures
        fetch.after(events).phase == Phase::Cooling,
    decreases events.len(),
{
    if events.len() > 0 {
        stays_cooling(fetch, events.drop_last());
    }
}

/// What a response comes to. A 200 whose body decodes gives the payload
/// with the very stamp of the response; without a stamp it is a failure. A
/// 304 gives no payload and is no failure of the fetch. Every other status
/// is a failure that names it.
pub proof fn response_is_classified<T>(
    fetch: Fetch,
    status: u16,
    last_modified: Option<String>,
    payload: T,
)
    requires
        fetch.phase == Phase::InFlight,
    ensures
        ({
            let (reading, step) = fetch.next(Event::<T>::Response { status, last_modified });
            if status == 200 {
                &&& step == Step::<T>::Decode
                &&& reading.next(Event::Body(payload)).1 matches Step::Done(reply)
                &&& reply.outcome_spec() == match last_modified {
                    Some(stamp) => FetchOutcome::Fresh(payload, stamp),
                    None => FetchOutcome::Failure(Error::MissingHeader(LAST_MODIFIED)),
                }
            } else {
                &&& step matches Step::Done(reply)
                &&& reply.outcome_spec() == if status == 304 {
                    FetchOutcome::<T>::NotModified(last_modified)
                } else {
                    FetchOutcome::<T>::Failure(Error::UnexpectedStatus(status))
                }
            }
        }),
{
}

/// The configuration every fetch of a client shares: how its requests are
/// paced.
#[derive(Debug, Clone, Copy, PartialEq, Eq)]
pub struct Client {
    limiter: RateLimit,
}

impl Client {
    /// The limiter the client's requests go through.
    pub closed spec fn pacing(self) -> RateLimit {
        self.limiter
    }

    /// A client whose limiter starts empty, holds at most one token and
    /// gains one every second.
    pub fn new() -> (client: Client)
        ensures
            client.pacing()@.permits == 0,
            client.pacing()@.limit == 0,
            client.pacing().period() == 1,
    {
        Client { limiter: RateLimit::new(0, 0, 1) }
    }

    /// The limiter the client's requests go through.
    pub fn limiter(&self) -> (limiter: RateLimit)
        ensures
            limiter == self.pacing(),
    {
        self.limiter
    }

    /// Begins the fetch of `url`, conditioned on `last_modified` where one
    /// is given. The string is handed on as it is.
    pub fn fetch_json<T>(&self, url: String, last_modified: Option<String>) -> (begun: (
        Fetch,
        Step<T>,
    ))
        ensures
            begun.0 == Fetch::start_spec(Request { url, if_modified_since: last_modified }, 0),
            begun.1 == Step::<T>::Acquire,
    {
        Fetch::start(Request { url, if_modified_since: last_modified }, 0)
    }
}

impl Default for Client {
    fn default() -> (client: Client)
        ensures
            client.pacing()@.permits == 0,
            client.pacing()@.limit == 0,
            client.pacing().period() == 1,
    {
        Client::new()
    }
}

} // verus!
