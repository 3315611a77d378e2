//! The thread list of a board in its short form, with its own cooldown.

use vstd::prelude::*;
use vstd::string::*;

use crate::cat_thread::{all_ids, page_ids, pages_text, pages_text_fails_for_good, Page};
use crate::client::{copy_stamp, Fetch, Reply, Request, Step};
use crate::error::Error;
use crate::models::{cooldown_wait, remaining, COOLDOWN};
use crate::text::{calendar_text, calendar_time, seconds, whole_seconds, written, HTTP_DATE};

verus! {

/// The threads of one board, page by page, and when they were last asked
/// for.
#[derive(Debug, PartialEq, Eq)]
pub struct Catalog {
    board: String,
    threads: Vec<Page>,
    last_accessed: i64,
    last_modified: Option<String>,
}

/// What a catalog holds.
pub ghost struct Listing {
    pub board: Seq<char>,
    pub pages: Seq<Page>,
    /// The local time the catalog was last asked for, in milliseconds.
    pub accessed: i64,
    /// The `Last-Modified` value the server last gave, letter for letter.
    pub stamp: Option<String>,
}

impl Listing {
    /// The catalog in a few lines: its board, the date and time it was last
    /// asked for, and its pages. There are none where one of the times has
    /// no calendar form.
    pub open spec fn describe(self) -> Option<Seq<char>> {
        match (calendar_text(seconds(self.accessed), HTTP_DATE@), pages_text(self.pages)) {
            (Some(time), Some(lines)) => Some(
                "Board: /"@ + self.board + "/\nLast accessed: "@ + time + "\nPages: "@ + lines,
            ),
            _ => None,
        }
    }
}

impl View for Catalog {
    type V = Listing;

    closed spec fn view(&self) -> Listing {
        Listing {
            board: self.board@,
            pages: self.threads@,
            accessed: self.last_accessed,
            stamp: self.last_modified,
        }
    }
}

impl Catalog {
    /// The URL of the thread list of `board`.
    pub open spec fn url_spec(board: Seq<char>) -> Seq<char> {
        "https://a.4cdn.org/"@ + board + "/threads.json"@
    }

    /// Builds the URL of the thread list of `board`.
    pub fn url(board: &str) -> (url: String)
        ensures
            url@ == Self::url_spec(board@),
    {
        let mut url = String::new();
        url.append("https://a.4cdn.org/");
        url.append(board);
        url.append("/threads.json");
        url
    }

    /// Builds the catalog of `board` from the reply to its first fetch,
    /// received at `now`. Whatever a reply holds in place of a payload is
    /// handed on as the error.
    pub fn new(board: &str, reply: Reply<Vec<Page>>, now: i64) -> (built: Result<Catalog, Error>)
        ensures
            match reply.inner {
                Ok(pages) => built matches Ok(catalog) && catalog@ == (Listing {
                    board: board@,
                    pages: pages@,
                    accessed: now,
                    stamp: reply.last_modified,
                }),
                Err(error) => built == Err::<Catalog, Error>(error),
            },
    {
        match reply.inner {
            Ok(pages) => Ok(
                Catalog {
                    board: board.to_owned(),
                    threads: pages,
                    last_accessed: now,
                    last_modified: reply.last_modified,
                },
            ),
            Err(error) => Err(error),
        }
    }

    /// Records `now` as the time the catalog was last asked for.
    pub fn update_time(&mut self, now: i64)
        ensures
            final(self)@ == (Listing { accessed: now, ..old(self)@ }),
    {
        self.last_accessed = now;
    }

    /// Returns the page at `index`, if there is one.
    pub fn page(&self, index: usize) -> (page: Option<&Page>)
        ensures
            match page {
                Some(found) => index < self@.pages.len() && *found == self@.pages[index as int],
                None => index >= self@.pages.len(),
            },
    {
        if index < self.threads.len() {
            Some(&self.threads[index])
        } else {
            None
        }
    }

    /// Gives up the catalog for its pages.
    pub fn all_pages(self) -> (pages: Vec<Page>)
        ensures
            pages@ == self@.pages,
    {
        self.threads
    }

    /// Returns the board the catalog belongs to.
    pub fn board(&self) -> (board: &str)
        ensures
            board@ == self@.board,
    {
        self.board.as_str()
    }

    /// Returns the numbers of all threads, page after page.
    pub fn thread_ids(&self) -> (ids: Vec<u32>)
        ensures
            ids@ == all_ids(self@.pages),
    {
        let mut ids: Vec<u32> = Vec::new();
        let mut i: usize = 0;
        while i < self.threads.len()
            invariant
                i <= self.threads.len(),
                ids@ == all_ids(self.threads@.take(i as int)),
            decreases self.threads.len() - i,
        {
            let page = &self.threads[i];
            let mut j: usize = 0;
            while j < page.threads.len()
                invariant
                    i < self.threads.len(),
                    *page == self.threads@[i as int],
                    j <= page.threads.len(),
                    ids@ == all_ids(self.threads@.take(i as int)) + page_ids(
                        page.threads@.take(j as int),
                    ),
                decreases page.threads.len() - j,
            {
                ids.push(page.threads[j].no);
                j += 1;
            }
            assert(self.threads@.take(i + 1).drop_last() =~= self.threads@.take(i as int));
            i += 1;
        }
        assert(self.threads@.take(i as int) =~= self.threads@);
        ids
    }

    /// Writes the catalog in a few lines.
    pub fn describe(&self) -> (text: Option<String>)
        ensures
            written(text, self@.describe()),
    {
        let time = match calendar_time(whole_seconds(self.last_accessed), HTTP_DATE) {
            Some(time) => time,
            None => {
                return None;
            },
        };
        let mut text = String::new();
        text.append("Board: /");
        text.append(self.board.as_str());
        text.append("/\nLast accessed: ");
        text.append(time.as_str());
        text.append("\nPages: ");
        let ghost head = text@;
        let mut i: usize = 0;
        while i < self.threads.len()
            invariant
                i <= self.threads.len(),
                calendar_text(seconds(self.last_accessed), HTTP_DATE@) == Some(time@),
                head == "Board: /"@ + self.board@ + "/\nLast accessed: "@ + time@ + "\nPages: "@,
                pages_text(self.threads@.take(i as int)) matches Some(lines) && text@ == head
                    + lines,
            decreases self.threads.len() - i,
        {
            assert(self.threads@.take(i + 1).drop_last() =~= self.threads@.take(i as int));
            match self.threads[i].describe() {
                Some(lines) => {
                    text.append(lines.as_str());
                },
                None => {
                    proof {
                        pages_text_fails_for_good(self.threads@, i + 1);
                    }
                    return None;
                },
            }
            i += 1;
        }
        assert(self.threads@.take(i as int) =~= self.threads@);
        Some(text)
    }

    /// Computes the milliseconds a refresh at `now` has to sit out first:
    /// what is left of the ten seconds since the catalog was last asked
    /// for. Fails where the wait does not fit 64 bits.
    pub fn refresh_time(&self, now: i64) -> (wait: Result<u64, Error>)
        ensures
            remaining(self@.accessed as int, now as int, COOLDOWN as int) <= u64::MAX ==> wait
                == Ok::<u64, Error>(
                remaining(self@.accessed as int, now as int, COOLDOWN as int) as u64,
            ),
            remaining(self@.accessed as int, now as int, COOLDOWN as int) > u64::MAX ==> wait
                == Err::<u64, Error>(Error::Overflow),
    {
        cooldown_wait(self.last_accessed, now, COOLDOWN)
    }

    /// Begins a refresh at `now`: the wait that `refresh_time` gives, then
    /// a request for the thread list of the board, conditioned on the stamp
    /// the server last gave, exactly as it was received.
    pub fn fetch(&self, now: i64) -> (begun: Result<(Fetch, Step<Vec<Page>>), Error>)
        ensures
            match begun {
                Ok((fetch, step)) => {
                    &&& remaining(self@.accessed as int, now as int, COOLDOWN as int) <= u64::MAX
                    &&& fetch.wait == remaining(self@.accessed as int, now as int, COOLDOWN as int)
                    &&& fetch.request.url@ == Self::url_spec(self@.board)
                    &&& fetch.request.if_modified_since == self@.stamp
                    &&& fetch == Fetch::start_spec(fetch.request, fetch.wait)
                    &&& step == fetch.first_step::<Vec<Page>>()
                },
                Err(error) => {
                    &&& remaining(self@.accessed as int, now as int, COOLDOWN as int) > u64::MAX
                    &&& error == Error::Overflow
                },
            },
    {
        match self.refresh_time(now) {
            Ok(wait) => {
                let request = Request {
                    url: Self::url(self.board.as_str()),
                    if_modified_since: copy_stamp(&self.last_modified),
                };
                Ok(Fetch::start(request, wait))
            },
            Err(error) => Err(error),
        }
    }

    /// Replaces the pages whole by fresh ones, received at `now` with the
    /// stamp `stamp`.
    pub fn from_response(&mut self, pages: Vec<Page>, stamp: Option<String>, now: i64)
        ensures
            final(self)@ == (Listing { board: old(self)@.board, pages: pages@, accessed: now, stamp }),
    {
        self.threads = pages;
        self.last_accessed = now;
        self.last_modified = stamp;
    }

    /// What a reply makes of the catalog: fresh pages replace the old ones
    /// whole, together with the stamp; a 304 leaves the pages and takes a
    /// stamp that came again; a failure leaves pages and stamp. The time is
    /// recorded whatever came back.
    pub open spec fn answered(before: Listing, reply: Reply<Vec<Page>>, now: i64) -> Listing {
        Listing {
            board: before.board,
            pages: match reply.inner {
                Ok(pages) => pages@,
                Err(_) => before.pages,
            },
            accessed: now,
            stamp: reply.stamp_after(before.stamp),
        }
    }

    /// What a refresh reports: a failure is handed on, a 304 is none.
    pub open spec fn reported(reply: Reply<Vec<Page>>) -> Result<(), Error> {
        match reply.inner {
            Ok(_) => Ok(()),
            Err(Error::NotModified) => Ok(()),
            Err(error) => Err(error),
        }
    }

    /// Takes up the reply to a refresh, received at `now`.
    pub fn fetch_status(&mut self, reply: Reply<Vec<Page>>, now: i64) -> (done: Result<(), Error>)
        ensures
            final(self)@ == Self::answered(old(self)@, reply, now),
            done == Self::reported(reply),
    {
        let Reply { inner, last_modified } = reply;
        match inner {
            Ok(pages) => {
                self.from_response(pages, last_modified, now);
                Ok(())
            },
            Err(Error::NotModified) => {
                self.last_accessed = now;
                if last_modified.is_some() {
                    self.last_modified = last_modified;
                }
                Ok(())
            },
            Err(error) => {
                self.last_accessed = now;
                Err(error)
            },
        }
    }

    /// Refreshes the catalog from the reply to the fetch that `fetch`
    /// began, received at `now`.
    pub fn update(&mut self, reply: Reply<Vec<Page>>, now: i64) -> (done: Result<(), Error>)
        ensures
            final(self)@ == Self::answered(old(self)@, reply, now),
            done == Self::reported(reply),
    {
        self.fetch_status(reply, now)
    }
}

} // verus!
