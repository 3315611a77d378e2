//! A thread with its opening post set apart from the replies, and with what
//! the opening post says of its archival.

use std::collections::HashMap;
use vstd::prelude::*;
use vstd::string::*;

use crate::board::Board;
use crate::client::{copy_stamp, Fetch, Reply, Request, Step};
use crate::error::Error;
use crate::models::{cooldown_wait, remaining, COOLDOWN};
use crate::post::Post;
use crate::text::{decimal, push_decimal, truth, truth_text};

verus! {

broadcast use vstd::std_specs::hash::group_hash_axioms;

/// One thread of a board.
#[derive(Debug, PartialEq, Eq)]
pub struct Thread {
    op: Post,
    board: String,
    replies_no: usize,
    last_reply: Option<u32>,
    all_replies: Vec<Post>,
    archive_time: Option<i64>,
    archived: bool,
    last_update: Option<i64>,
    last_modified: Option<String>,
}

/// What a thread holds: everything else it keeps follows from these.
pub ghost struct Posts {
    pub op: Post,
    pub board: Seq<char>,
    pub replies: Seq<Post>,
    /// The local time of the last refresh, in milliseconds, if there was
    /// one.
    pub updated: Option<i64>,
    /// The `Last-Modified` value the server last gave, letter for letter.
    pub stamp: Option<String>,
}

impl Posts {
    /// The posts of a payload as a thread of `board`: the first opens it,
    /// the rest reply.
    pub open spec fn of(
        board: Seq<char>,
        posts: Seq<Post>,
        updated: Option<i64>,
        stamp: Option<String>,
    ) -> Posts {
        Posts { op: posts[0], board, replies: posts.skip(1), updated, stamp }
    }

    /// Whether the opening post reports the thread as archived.
    pub open spec fn archived(self) -> bool {
        self.op.archived == 1
    }

    /// The number of the last post of the thread.
    pub open spec fn last_id(self) -> u32 {
        if self.replies.len() > 0 {
            self.replies.last().no
        } else {
            self.op.no
        }
    }

    /// The error every refresh of the archived thread ends in.
    pub open spec fn archived_error(self) -> Error {
        Error::Archived {
            thread: self.op.no,
            time: if self.op.archived_on >= 0 {
                Some(self.op.archived_on as u64)
            } else {
                None
            },
        }
    }

    /// The URL of the thread.
    pub open spec fn url(self) -> Seq<char> {
        Thread::url_spec(self.board, self.op.no)
    }

    /// The thread in a few lines: the number of its opening post, its
    /// board, the number of its replies and whether it is archived.
    pub open spec fn describe(self) -> Seq<char> {
        "OP ID: "@ + decimal(self.op.no as nat) + "\nBoard: /"@ + self.board
            + "/\nNumber of Replies: "@ + decimal(self.replies.len()) + "\nArchived: "@ + truth(
            self.archived(),
        ) + "\n"@
    }

    /// The wait a refresh at `now` begins with. A thread that was never
    /// refreshed has nothing to sit out.
    pub open spec fn wait(self, now: i64) -> int {
        match self.updated {
            Some(at) => remaining(at as int, now as int, COOLDOWN as int),
            None => 0,
        }
    }

    /// What a reply makes of the thread: fresh posts replace the old ones
    /// whole, together with the stamp; a 304 leaves the posts and takes a
    /// stamp that came again; a failure leaves posts and stamp. The time is
    /// recorded whatever came back.
    pub open spec fn taken(self, reply: Reply<Vec<Post>>, now: i64) -> Posts {
        match reply.inner {
            Ok(posts) => Posts::of(self.board, posts@, Some(now), reply.last_modified),
            Err(_) => Posts { updated: Some(now), stamp: reply.stamp_after(self.stamp), ..self },
        }
    }

    /// What a reply is reported as: a failure is handed on, a 304 is none.
    pub open spec fn settled(reply: Reply<Vec<Post>>) -> Result<(), Error> {
        match reply.inner {
            Ok(_) => Ok(()),
            Err(Error::NotModified) => Ok(()),
            Err(error) => Err(error),
        }
    }

    /// What a refresh makes of the thread. An archived thread takes no
    /// reply: it stays exactly as it is.
    pub open spec fn answered(self, reply: Reply<Vec<Post>>, now: i64) -> Posts {
        if self.archived() {
            self
        } else {
            self.taken(reply, now)
        }
    }

    /// What a refresh reports: for an archived thread the archived error,
    /// whatever the reply.
    pub open spec fn reported(self, reply: Reply<Vec<Post>>) -> Result<(), Error> {
        if self.archived() {
            Err(self.archived_error())
        } else {
            Self::settled(reply)
        }
    }
}

impl View for Thread {
    type V = Posts;

    closed spec fn view(&self) -> Posts {
        Posts {
            op: self.op,
            board: self.board@,
            replies: self.all_replies@,
            updated: self.last_update,
            stamp: self.last_modified,
        }
    }
}

impl Thread {
    /// What every thread satisfies: the counts and flags it keeps agree
    /// with its posts.
    #[verifier::type_invariant]
    closed spec fn wf(self) -> bool {
        &&& self.replies_no == self.all_replies@.len()
        &&& self.last_reply == Some(self@.last_id())
        &&& self.archived == self@.archived()
        &&& self.archive_time == if self.archived {
            Some(self.op.archived_on)
        } else {
            None
        }
    }

    /// The URL of the thread that `post_id` opens on `board`.
    pub open spec fn url_spec(board: Seq<char>, post_id: u32) -> Seq<char> {
        "https://a.4cdn.org/"@ + board + "/thread/"@ + decimal(post_id as nat) + ".json"@
    }

    /// Builds the URL of the thread that `post_id` opens on `board`.
    pub fn url(board: &str, post_id: u32) -> (url: String)
        ensures
            url@ == Self::url_spec(board@, post_id),
    {
        let mut url = String::new();
        url.append("https://a.4cdn.org/");
        url.append(board);
        url.append("/thread/");
        push_decimal(&mut url, post_id as u64);
        url.append(".json");
        url
    }

    /// Builds a thread of `board` from the reply to its first fetch.
    /// Whatever a reply holds in place of a payload is handed on as the
    /// error. The first post of the payload opens the thread, so there has
    /// to be one.
    pub fn new(board: &str, reply: Reply<Vec<Post>>) -> (built: Result<Thread, Error>)
        requires
            reply.inner matches Ok(posts) ==> posts.len() > 0,
        ensures
            match reply.inner {
                Ok(posts) => built matches Ok(thread) && thread@ == Posts::of(
                    board@,
                    posts@,
                    None,
                    reply.last_modified,
                ),
                Err(error) => built == Err::<Thread, Error>(error),
            },
    {
        match reply.inner {
            Ok(posts) => Ok(Self::assemble(board.to_owned(), posts, None, reply.last_modified)),
            Err(error) => Err(error),
        }
    }

    fn assemble(
        board: String,
        posts: Vec<Post>,
        updated: Option<i64>,
        stamp: Option<String>,
    ) -> (thread: Thread)
        requires
            posts.len() > 0,
        ensures
            thread@ == Posts::of(board@, posts@, updated, stamp),
    {
        let mut replies = posts;
        let op = replies.remove(0);
        let archived = op.archived();
        let last_reply = if replies.len() > 0 {
            Some(replies[replies.len() - 1].id())
        } else {
            Some(op.id())
        };
        let archive_time = if archived {
            Some(op.archived_on())
        } else {
            None
        };
        Thread {
            op,
            board,
            replies_no: replies.len(),
            last_reply,
            all_replies: replies,
            archive_time,
            archived,
            last_update: updated,
            last_modified: stamp,
        }
    }

    /// Returns the first reply with the number `id`.
    pub fn find(&self, id: u32) -> (found: Option<&Post>)
        ensures
            match found {
                Some(post) => exists|i: int|
                    {
                        &&& 0 <= i < self@.replies.len()
                        &&& *post == #[trigger] self@.replies[i]
                        &&& post.no == id
                        &&& forall|k: int| 0 <= k < i ==> (#[trigger] self@.replies[k]).no != id
                    },
                None => forall|k: int|
                    0 <= k < self@.replies.len() ==> (#[trigger] self@.replies[k]).no != id,
            },
    {
        let mut i: usize = 0;
        while i < self.all_replies.len()
            invariant
                i <= self.all_replies.len(),
                forall|k: int| 0 <= k < i ==> (#[trigger] self.all_replies@[k]).no != id,
            decreases self.all_replies.len() - i,
        {
            if self.all_replies[i].id() == id {
                assert(self@.replies[i as int].no == id);
                return Some(&self.all_replies[i]);
            }
            i += 1;
        }
        None
    }

    /// Records `now` as the time of the last refresh.
    pub fn update_time(&mut self, now: i64)
        ensures
            final(self)@ == (Posts { updated: Some(now), ..old(self)@ }),
    {
        proof {
            use_type_invariant(&*self);
        }
        self.last_update = Some(now);
    }

    /// Returns the opening post.
    pub fn op(&self) -> (op: &Post)
        ensures
            *op == self@.op,
    {
        &self.op
    }

    /// Returns the replies, in order.
    pub fn replies(&self) -> (replies: &[Post])
        ensures
            replies@ == self@.replies,
    {
        self.all_replies.as_slice()
    }

    /// Returns the last reply, if there is any.
    pub fn last_post(&self) -> (last: Option<&Post>)
        ensures
            match last {
                Some(post) => self@.replies.len() > 0 && *post == self@.replies.last(),
                None => self@.replies.len() == 0,
            },
    {
        if self.all_replies.len() > 0 {
            Some(&self.all_replies[self.all_replies.len() - 1])
        } else {
            None
        }
    }

    /// Returns the number of the last post of the thread.
    pub fn last_reply(&self) -> (last: Option<u32>)
        ensures
            last == Some(self@.last_id()),
    {
        proof {
            use_type_invariant(&*self);
        }
        self.last_reply
    }

    /// Returns the number of replies.
    pub fn replies_no(&self) -> (count: usize)
        ensures
            count == self@.replies.len(),
    {
        proof {
            use_type_invariant(&*self);
        }
        self.replies_no
    }

    /// Returns the board the thread is on.
    pub fn board(&self) -> (board: &str)
        ensures
            board@ == self@.board,
    {
        self.board.as_str()
    }

    /// Returns whether the thread is archived.
    pub fn is_archived(&self) -> (flag: bool)
        ensures
            flag == self@.archived(),
    {
        proof {
            use_type_invariant(&*self);
        }
        self.archived
    }

    /// Returns the URL the thread is fetched from.
    pub fn thread_url(&self) -> (url: String)
        ensures
            url@ == self@.url(),
    {
        Self::url(self.board.as_str(), self.op.id())
    }

    /// Writes the thread in a few lines.
    pub fn describe(&self) -> (text: String)
        ensures
            text@ == self@.describe(),
    {
        proof {
            use_type_invariant(self);
        }
        let mut text = String::new();
        text.append("OP ID: ");
        push_decimal(&mut text, self.op.id() as u64);
        text.append("\nBoard: /");
        text.append(self.board.as_str());
        text.append("/\nNumber of Replies: ");
        push_decimal(&mut text, self.replies_no as u64);
        text.append("\nArchived: ");
        text.append(truth_text(self.archived));
        text.append("\n");
        text
    }

    /// Makes a board cache that holds this thread alone, under the number
    /// of its opening post.
    pub fn into_board(self) -> (board: Board)
        ensures
            board.board@ == self@.board,
            board.threads@ == Map::<u32, Thread>::empty().insert(self@.op.no, self),
    {
        let mut threads: HashMap<u32, Thread> = HashMap::new();
        let number = self.op.id();
        let board = self.board.clone();
        threads.insert(number, self);
        Board { threads, board }
    }

    fn archived_error(&self) -> (error: Error)
        ensures
            error == self@.archived_error(),
    {
        let on = self.op.archived_on();
        Error::Archived {
            thread: self.op.id(),
            time: if on >= 0 {
                Some(on as u64)
            } else {
                None
            },
        }
    }

    /// Computes the milliseconds a refresh at `now` has to sit out first:
    /// what is left of the ten seconds since the last refresh. Fails where
    /// the wait does not fit 64 bits.
    pub fn refresh_time(&self, now: i64) -> (wait: Result<u64, Error>)
        ensures
            self@.wait(now) <= u64::MAX ==> wait == Ok::<u64, Error>(self@.wait(now) as u64),
            self@.wait(now) > u64::MAX ==> wait == Err::<u64, Error>(Error::Overflow),
    {
        match self.last_update {
            Some(at) => cooldown_wait(at, now, COOLDOWN),
            None => Ok(0),
        }
    }

    /// Begins a refresh at `now`. An archived thread is not fetched again:
    /// the refresh ends at once in the archived error. Otherwise the fetch
    /// sits out the wait that `refresh_time` gives and then asks for the
    /// thread, conditioned on the stamp the server last gave, exactly as it
    /// was received.
    pub fn fetch(&self, now: i64) -> (begun: Result<(Fetch, Step<Vec<Post>>), Error>)
        ensures
            match begun {
                Ok((fetch, step)) => {
                    &&& !self@.archived()
                    &&& self@.wait(now) <= u64::MAX
                    &&& fetch.wait == self@.wait(now)
                    &&& fetch.request.url@ == self@.url()
                    &&& fetch.request.if_modified_since == self@.stamp
                    &&& fetch == Fetch::start_spec(fetch.request, fetch.wait)
                    &&& step == fetch.first_step::<Vec<Post>>()
                },
                Err(error) => if self@.archived() {
                    error == self@.archived_error()
                } else {
                    self@.wait(now) > u64::MAX && error == Error::Overflow
                },
            },
    {
        proof {
            use_type_invariant(&*self);
        }
        if self.archived {
            return Err(self.archived_error());
        }
        match self.refresh_time(now) {
            Ok(wait) => {
                let request = Request {
                    url: self.thread_url(),
                    if_modified_since: copy_stamp(&self.last_modified),
                };
                Ok(Fetch::start(request, wait))
            },
            Err(error) => Err(error),
        }
    }

    /// Replaces the posts whole by those of a fresh payload, received at
    /// `now` with the stamp `stamp`.
    pub fn from_response(&mut self, posts: Vec<Post>, stamp: Option<String>, now: i64)
        requires
            posts.len() > 0,
        ensures
            final(self)@ == Posts::of(old(self)@.board, posts@, Some(now), stamp),
    {
        let board = self.board.clone();
        *self = Self::assemble(board, posts, Some(now), stamp);
    }

    /// Takes up the reply to a fetch, received at `now`: fresh posts
    /// replace the old ones whole, a 304 leaves them, a failure leaves them
    /// and is handed on. The time is recorded whatever came back.
    pub fn fetch_status(&mut self, reply: Reply<Vec<Post>>, now: i64) -> (done: Result<(), Error>)
        requires
            reply.inner matches Ok(posts) ==> posts.len() > 0,
        ensures
            final(self)@ == old(self)@.taken(reply, now),
            done == Posts::settled(reply),
    {
        proof {
            use_type_invariant(&*self);
        }
        let Reply { inner, last_modified } = reply;
        match inner {
            Ok(posts) => {
                self.from_response(posts, last_modified, now);
                Ok(())
            },
            Err(Error::NotModified) => {
                self.last_update = Some(now);
                if last_modified.is_some() {
                    self.last_modified = last_modified;
                }
                Ok(())
            },
            Err(error) => {
                self.last_update = Some(now);
                Err(error)
            },
        }
    }

    /// Refreshes the thread from the reply to the fetch that `fetch` began,
    /// received at `now`. An archived thread takes no reply: it stays
    /// exactly as it is, and the refresh fails with the archived error.
    pub fn update(&mut self, reply: Reply<Vec<Post>>, now: i64) -> (done: Result<(), Error>)
        requires
            reply.inner matches Ok(posts) ==> posts.len() > 0,
        ensures
            final(self)@ == old(self)@.answered(reply, now),
            done == old(self)@.reported(reply),
    {
        proof {
            use_type_invariant(&*self);
        }
        if self.archived {
            Err(self.archived_error())
        } else {
            self.fetch_status(reply, now)
        }
    }
}

} // verus!
