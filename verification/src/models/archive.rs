//! The archive of a board: the numbers of its archived threads.

use vstd::prelude::*;
use vstd::string::*;

use crate::client::{Fetch, Reply, Step};
use crate::error::Error;
use crate::models::{Metadata, Resource};

verus! {

/// The numbers of the archived threads of one board.
#[derive(Debug, PartialEq, Eq)]
pub struct Archive {
    inner: Resource<Vec<u32>>,
}

impl View for Archive {
    type V = Resource<Vec<u32>>;

    closed spec fn view(&self) -> Resource<Vec<u32>> {
        self.inner
    }
}

impl Archive {
    /// The URL of the archive of `board`.
    pub open spec fn url_spec(board: Seq<char>) -> Seq<char> {
        "https://a.4cdn.org/"@ + board + "/archive.json"@
    }

    /// Builds the URL of the archive of `board`.
    pub fn url(board: &str) -> (url: String)
        ensures
            url@ == Self::url_spec(board@),
    {
        let mut url = String::new();
        url.append("https://a.4cdn.org/");
        url.append(board);
        url.append("/archive.json");
        url
    }

    /// Begins the first fetch of the archive of `board`: an unconditional
    /// request, with nothing to sit out.
    pub fn fetch(board: &str) -> (begun: (Fetch, Step<Vec<u32>>))
        ensures
            begun.0.request.url@ == Self::url_spec(board@),
            begun.0.request.if_modified_since is None,
            begun.0 == Fetch::start_spec(begun.0.request, 0),
            begun.1 == Step::<Vec<u32>>::Acquire,
    {
        Resource::fetch(Self::url(board))
    }

    /// Builds the archive of `board` from the reply to its first fetch,
    /// received at `now`. Only a payload that came with its stamp makes one.
    pub fn new(board: &str, reply: Reply<Vec<u32>>, now: i64) -> (built: Result<Archive, Error>)
        ensures
            match built {
                Ok(archive) => archive@.built_from(Self::url_spec(board@), reply, now),
                Err(error) => Resource::refusal(reply) == Some(error),
            },
    {
        match Resource::construct(Self::url(board), reply, now) {
            Ok(inner) => Ok(Archive { inner }),
            Err(error) => Err(error),
        }
    }

    /// Begins a refresh. An archive has no cooldown of its own: the fetch
    /// goes straight to the wait for a rate token.
    pub fn refresh(&self) -> (begun: (Fetch, Step<Vec<u32>>))
        ensures
            begun.0 == Fetch::start_spec(self@.metadata.request_spec(), 0),
            begun.1 == Step::<Vec<u32>>::Acquire,
    {
        Fetch::start(self.inner.metadata.request(), 0)
    }

    /// Takes up the reply to a refresh, received at `now`. A fresh payload
    /// replaces the old one whole; a 304 leaves it as it is; a failure
    /// leaves payload and stamp as they are and is handed on.
    pub fn update(&mut self, reply: Reply<Vec<u32>>, now: i64) -> (done: Result<(), Error>)
        ensures
            final(self)@ == old(self)@.updated(reply, now),
            done == Resource::<Vec<u32>>::reported(reply),
    {
        self.inner.update(reply, now)
    }

    /// The local time of the last refresh attempt, in milliseconds.
    pub fn last_refreshed(&self) -> (at: i64)
        ensures
            at == self@.refreshed,
    {
        self.inner.refreshed
    }

    /// Where the archive lives and the stamp the server last gave it.
    pub fn metadata(&self) -> (metadata: &Metadata)
        ensures
            *metadata == self@.metadata,
    {
        &self.inner.metadata
    }
}

impl core::ops::Deref for Archive {
    type Target = Vec<u32>;

    fn deref(&self) -> (fields: &Vec<u32>)
        ensures
            *fields == self@.payload,
    {
        &self.inner.payload
    }
}

} // verus!
