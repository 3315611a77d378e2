//! The thread list of a board: every thread with the page it is on.

use vstd::prelude::*;
use vstd::string::*;

use crate::client::{Fetch, Reply, Step};
use crate::error::Error;
use crate::models::{Metadata, Resource};

verus! {

/// The threads of one board, page by page.
#[derive(Debug, PartialEq, Eq)]
pub struct ThreadList {
    inner: Resource<Vec<BaseThread>>,
}

impl View for ThreadList {
    type V = Resource<Vec<BaseThread>>;

    closed spec fn view(&self) -> Resource<Vec<BaseThread>> {
        self.inner
    }
}

impl ThreadList {
    /// The URL of the thread list of `board`.
    pub open spec fn url_spec(board: Seq<char>) -> Seq<char> {
        "https://a.4cdn.org/"@ + board + "/threads.json"@
    }

    /// Builds the URL of the thread list of `board`.
    pub fn url(board: &str) -> (url: String)
        ensures
            url@ == Self::url_spec(board@),
    {
        let mut url = String::new();
        url.append("https://a.4cdn.org/");
        url.append(board);
        url.append("/threads.json");
        url
    }

    /// Begins the first fetch of the thread list of `board`: an unconditional
    /// request, with nothing to sit out.
    pub fn fetch(board: &str) -> (begun: (Fetch, Step<Vec<BaseThread>>))
        ensures
            begun.0.request.url@ == Self::url_spec(board@),
            begun.0.request.if_modified_since is None,
            begun.0 == Fetch::start_spec(begun.0.request, 0),
            begun.1 == Step::<Vec<BaseThread>>::Acquire,
    {
        Resource::fetch(Self::url(board))
    }

    /// Builds a thread list of `board` from the reply to its first fetch, received at
    /// `now`. Only a payload that came with its stamp makes one.
    pub fn new(board: &str, reply: Reply<Vec<BaseThread>>, now: i64) -> (built: Result<ThreadList, Error>)
        ensures
            match built {
                Ok(made) => made@.built_from(Self::url_spec(board@), reply, now),
                Err(error) => Resource::refusal(reply) == Some(error),
            },
    {
        match Resource::construct(Self::url(board), reply, now) {
            Ok(inner) => Ok(ThreadList { inner }),
            Err(error) => Err(error),
        }
    }

    /// Begins a refresh. A thread list has no cooldown of its own: the fetch goes
    /// straight to the wait for a rate token.
    pub fn refresh(&self) -> (begun: (Fetch, Step<Vec<BaseThread>>))
        ensures
            begun.0 == Fetch::start_spec(self@.metadata.request_spec(), 0),
            begun.1 == Step::<Vec<BaseThread>>::Acquire,
    {
        Fetch::start(self.inner.metadata.request(), 0)
    }

    /// Takes up the reply to a refresh, received at `now`. A fresh payload
    /// replaces the old one whole; a 304 leaves it as it is; a failure
    /// leaves payload and stamp as they are and is handed on.
    pub fn update(&mut self, reply: Reply<Vec<BaseThread>>, now: i64) -> (done: Result<(), Error>)
        ensures
            final(self)@ == old(self)@.updated(reply, now),
            done == Resource::<Vec<BaseThread>>::reported(reply),
    {
        self.inner.update(reply, now)
    }

    /// Where a thread list lives and the stamp the server last gave it.
    pub fn metadata(&self) -> (metadata: &Metadata)
        ensures
            *metadata == self@.metadata,
    {
        &self.inner.metadata
    }

    /// The local time of the last refresh attempt, in milliseconds.
    pub fn last_refreshed(&self) -> (at: i64)
        ensures
            at == self@.refreshed,
    {
        self.inner.refreshed
    }
}

impl core::ops::Deref for ThreadList {
    type Target = Vec<BaseThread>;

    fn deref(&self) -> (pages: &Vec<BaseThread>)
        ensures
            *pages == self@.payload,
    {
        &self.inner.payload
    }
}

/// One page of the thread list.
#[derive(Debug, Clone, Default, PartialEq, Eq)]
pub struct BaseThread {
    /// The number of the page the threads are listed on.
    pub page: u32,
    /// The threads on the page.
    pub threads: Vec<ThreadAttributes>,
}

impl BaseThread {
    /// Returns the number of the page the threads are listed on.
    pub fn page(&self) -> (value: u32)
        ensures
            value == self.page,
    {
        self.page
    }

    /// Returns the threads on the page.
    pub fn threads(&self) -> (value: &[ThreadAttributes])
        ensures
            value@ == self.threads@,
    {
        self.threads.as_slice()
    }
}

/// What the thread list tells of one thread.
#[derive(Debug, Clone, Copy, Default, PartialEq, Eq)]
pub struct ThreadAttributes {
    /// The number of the thread's opening post.
    pub no: u32,
    /// The UNIX time at which the thread was last modified.
    pub last_modified: u64,
    /// The number of replies in the thread.
    pub replies: u32,
}

impl ThreadAttributes {
    /// Returns the number of the thread's opening post.
    pub fn no(&self) -> (value: u32)
        ensures
            value == self.no,
    {
        self.no
    }

    /// Returns the UNIX time at which the thread was last modified.
    pub fn last_modified(&self) -> (value: u64)
        ensures
            value == self.last_modified,
    {
        self.last_modified
    }

    /// Returns the number of replies in the thread.
    pub fn replies(&self) -> (value: u32)
        ensures
            value == self.replies,
    {
        self.replies
    }
}

} // verus!
