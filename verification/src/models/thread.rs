//! A thread: its posts in order, the opening post first.

use vstd::prelude::*;
use vstd::string::*;

use crate::client::{Fetch, Reply, Step};
use crate::error::Error;
use crate::models::{same_text, str_opt_ref, Metadata, Resource, COOLDOWN};
use crate::text::{decimal, push_decimal};

verus! {

/// The posts of one thread.
///
/// A thread whose opening post says that it is archived takes no more
/// refreshes. Since nothing replaces its posts after that, it stays
/// archived.
#[derive(Debug, PartialEq, Eq)]
pub struct Thread {
    inner: Resource<Vec<Post>>,
}

impl View for Thread {
    type V = Resource<Vec<Post>>;

    closed spec fn view(&self) -> Resource<Vec<Post>> {
        self.inner
    }
}

/// The opening post of these posts reports the thread as archived.
pub open spec fn archived(posts: Seq<Post>) -> bool {
    posts.len() > 0 && posts[0].archived == Some(true)
}

/// The error every refresh of an archived thread ends in: the number of the
/// thread and the time its opening post gives for the archival.
pub open spec fn archived_error(posts: Seq<Post>) -> Error {
    Error::Archived { thread: posts[0].no, time: posts[0].archived_on }
}

/// What a refresh of `thread` at `now` begins with: the fetch, or the
/// error it ends in at once. An archived thread is not fetched again.
pub open spec fn refreshing(thread: Resource<Vec<Post>>, now: i64) -> Result<
    (Fetch, Step<Vec<Post>>),
    Error,
> {
    if archived(thread.payload@) {
        Err(archived_error(thread.payload@))
    } else {
        thread.refreshing(now, COOLDOWN)
    }
}

/// What taking up `reply` at `now` makes of `thread`, and what the refresh
/// reports. An archived thread takes no reply: it stays exactly as it is.
pub open spec fn updated(thread: Resource<Vec<Post>>, reply: Reply<Vec<Post>>, now: i64) -> (
    Resource<Vec<Post>>,
    Result<(), Error>,
) {
    if archived(thread.payload@) {
        (thread, Err(archived_error(thread.payload@)))
    } else {
        (thread.updated(reply, now), Resource::<Vec<Post>>::reported(reply))
    }
}

/// The thread after a run of refreshes, each with the reply it got and the
/// time it got it.
pub open spec fn after(thread: Resource<Vec<Post>>, run: Seq<(Reply<Vec<Post>>, i64)>) -> Resource<
    Vec<Post>,
>
    decreases run.len(),
{
    if run.len() == 0 {
        thread
    } else {
        updated(after(thread, run.drop_last()), run.last().0, run.last().1).0
    }
}

impl Thread {
    /// The URL of the thread that `op_id` opens on `board`.
    pub open spec fn url_spec(board: Seq<char>, op_id: u32) -> Seq<char> {
        "https://a.4cdn.org/"@ + board + "/thread/"@ + decimal(op_id as nat) + ".json"@
    }

    /// Builds the URL of the thread that `op_id` opens on `board`.
    pub fn url(board: &str, op_id: u32) -> (url: String)
        ensures
            url@ == Self::url_spec(board@, op_id),
    {
        let mut url = String::new();
        url.append("https://a.4cdn.org/");
        url.append(board);
        url.append("/thread/");
        push_decimal(&mut url, op_id as u64);
        url.append(".json");
        url
    }

    /// Begins the first fetch of the thread that `op_id` opens on `board`:
    /// an unconditional request, with nothing to sit out.
    pub fn fetch(board: &str, op_id: u32) -> (begun: (Fetch, Step<Vec<Post>>))
        ensures
            begun.0.request.url@ == Self::url_spec(board@, op_id),
            begun.0.request.if_modified_since is None,
            begun.0 == Fetch::start_spec(begun.0.request, 0),
            begun.1 == Step::<Vec<Post>>::Acquire,
    {
        Resource::fetch(Self::url(board, op_id))
    }

    /// Builds the thread that `op_id` opens on `board` from the reply to
    /// its first fetch, received at `now`. Only a payload that came with its
    /// stamp makes one.
    pub fn new(board: &str, op_id: u32, reply: Reply<Vec<Post>>, now: i64) -> (built: Result<
        Thread,
        Error,
    >)
        ensures
            match built {
                Ok(made) => made@.built_from(Self::url_spec(board@, op_id), reply, now),
                Err(error) => Resource::refusal(reply) == Some(error),
            },
    {
        match Resource::construct(Self::url(board, op_id), reply, now) {
            Ok(inner) => Ok(Thread { inner }),
            Err(error) => Err(error),
        }
    }

    /// Whether the thread is archived.
    pub fn is_archived(&self) -> (flag: bool)
        ensures
            flag == archived(self@.payload@),
    {
        if self.inner.payload.len() > 0 {
            match self.inner.payload[0].archived {
                Some(flag) => flag,
                None => false,
            }
        } else {
            false
        }
    }

    /// Begins a refresh at `now`. Ten seconds must lie between two
    /// refreshes of a thread; what is left of them is slept first.
    pub fn refresh(&self, now: i64) -> (begun: Result<(Fetch, Step<Vec<Post>>), Error>)
        ensures
            begun == refreshing(self@, now),
    {
        if self.is_archived() {
            Err(Error::Archived {
                thread: self.inner.payload[0].no,
                time: self.inner.payload[0].archived_on,
            })
        } else {
            self.inner.refresh(now, COOLDOWN)
        }
    }

    /// Takes up the reply to a refresh, received at `now`. An archived
    /// thread takes none: it stays exactly as it is. Otherwise a fresh
    /// payload replaces the posts whole; a 304 leaves them as they are; a
    /// failure leaves posts and stamp as they are and is handed on.
    pub fn update(&mut self, reply: Reply<Vec<Post>>, now: i64) -> (done: Result<(), Error>)
        ensures
            (final(self)@, done) == updated(old(self)@, reply, now),
    {
        if self.is_archived() {
            Err(Error::Archived {
                thread: self.inner.payload[0].no,
                time: self.inner.payload[0].archived_on,
            })
        } else {
            self.inner.update(reply, now)
        }
    }

    /// Where the thread lives and the stamp the server last gave it.
    pub fn metadata(&self) -> (metadata: &Metadata)
        ensures
            *metadata == self@.metadata,
    {
        &self.inner.metadata
    }

    /// The local time of the last refresh attempt, in milliseconds.
    pub fn last_refreshed(&self) -> (at: i64)
        ensures
            at == self@.refreshed,
    {
        self.inner.refreshed
    }
}

impl core::ops::Deref for Thread {
    type Target = Vec<Post>;

    fn deref(&self) -> (posts: &Vec<Post>)
        ensures
            *posts == self@.payload,
    {
        &self.inner.payload
    }
}

/// An archived thread is archived for good. Whatever replies a run of
/// refreshes is given, and whenever: the thread is afterwards what it was,
/// every refresh of the run has failed with the archived error, and so does
/// the next one before any fetch begins.
pub proof fn archived_is_final(
    thread: Resource<Vec<Post>>,
    run: Seq<(Reply<Vec<Post>>, i64)>,
    later: i64,
)
    requires
        archived(thread.payload@),
    ensures
        after(thread, run) == thread,
        forall|i: int|
            0 <= i < run.len() ==> (#[trigger] updated(
                after(thread, run.take(i)),
                run[i].0,
                run[i].1,
            )).1 == Err::<(), Error>(archived_error(thread.payload@)),
        refreshing(after(thread, run), later) == Err::<(Fetch, Step<Vec<Post>>), Error>(
            archived_error(thread.payload@),
        ),
    decreases run.len(),
{
    if run.len() > 0 {
        archived_is_final(thread, run.drop_last(), later);
    }
    assert forall|i: int| 0 <= i < run.len() implies (#[trigger] updated(
        after(thread, run.take(i)),
        run[i].0,
        run[i].1,
    )).1 == Err::<(), Error>(archived_error(thread.payload@)) by {
        archived_is_final(thread, run.take(i), later);
    }
}

/// One post of a thread, as the API gives it.
#[derive(Debug, Clone, Default, PartialEq, Eq)]
pub struct Post {
    /// The number of the post.
    pub no: u32,
    /// The number of the thread the post replies to, 0 for an opening post.
    pub resto: u32,
    /// Whether the thread is pinned to the top of its page.
    pub sticky: Option<bool>,
    /// Whether the thread is closed to replies.
    pub closed: Option<bool>,
    /// The time of posting as the board prints it.
    pub now: String,
    /// The UNIX time of posting.
    pub time: u64,
    /// The name the poster gave.
    pub name: String,
    /// The poster's tripcode.
    pub trip: Option<String>,
    /// The poster's ID.
    pub id: Option<String>,
    /// The capcode of the post.
    pub capcode: Option<String>,
    /// The poster's two-letter country code.
    pub country: Option<String>,
    /// The name of the poster's country.
    pub country_name: Option<String>,
    /// The code of the poster's board flag.
    pub board_flag: Option<String>,
    /// The name of the poster's board flag.
    pub flag_name: Option<String>,
    /// The subject of the thread.
    pub sub: Option<String>,
    /// The comment, HTML-escaped.
    pub com: Option<String>,
    /// The time of the upload, UNIX time with microseconds.
    pub tim: Option<u64>,
    /// The file's name on the poster's device.
    pub filename: Option<String>,
    /// The file's extension.
    pub ext: Option<String>,
    /// The size of the file in bytes.
    pub fsize: Option<u32>,
    /// The MD5 hash of the file, in base64.
    pub md5: Option<String>,
    /// The width of the image.
    pub w: Option<u32>,
    /// The height of the image.
    pub h: Option<u32>,
    /// The width of the thumbnail.
    pub tn_w: Option<u32>,
    /// The height of the thumbnail.
    pub tn_h: Option<u32>,
    /// Whether the file was deleted from the post.
    pub filedeleted: Option<bool>,
    /// Whether the image is marked as a spoiler.
    pub spoiler: Option<bool>,
    /// The number of the custom spoiler image.
    pub custom_spoiler: Option<u32>,
    /// The number of replies to the thread.
    pub replies: Option<u32>,
    /// The number of image replies to the thread.
    pub images: Option<u32>,
    /// Whether the thread has reached its bump limit.
    pub bumplimit: Option<bool>,
    /// Whether the thread has reached its image limit.
    pub imagelimit: Option<bool>,
    /// The category of a Flash upload.
    pub tag: Option<String>,
    /// The slug of the thread's URL.
    pub semantic_url: Option<String>,
    /// The year the poster bought a pass.
    pub since4pass: Option<u32>,
    /// The number of distinct posters in the thread.
    pub unique_ips: Option<u32>,
    /// Whether a mobile-optimised image exists.
    pub m_img: Option<bool>,
    /// Whether the thread is archived.
    pub archived: Option<bool>,
    /// The UNIX time at which the thread was archived.
    pub archived_on: Option<u64>,
}

impl Post {
    /// Returns the number of the post.
    pub fn no(&self) -> (value: u32)
        ensures
            value == self.no,
    {
        self.no
    }

    /// Returns the number of the thread the post replies to, 0 for an opening post.
    pub fn resto(&self) -> (value: u32)
        ensures
            value == self.resto,
    {
        self.resto
    }

    /// Returns whether the thread is pinned to the top of its page.
    pub fn sticky(&self) -> (value: Option<bool>)
        ensures
            value == self.sticky,
    {
        self.sticky
    }

    /// Returns whether the thread is closed to replies.
    pub fn closed(&self) -> (value: Option<bool>)
        ensures
            value == self.closed,
    {
        self.closed
    }

    /// Returns the time of posting as the board prints it.
    pub fn now(&self) -> (value: &str)
        ensures
            value@ == self.now@,
    {
        self.now.as_str()
    }

    /// Returns the UNIX time of posting.
    pub fn time(&self) -> (value: u64)
        ensures
            value == self.time,
    {
        self.time
    }

    /// Returns the name the poster gave.
    pub fn name(&self) -> (value: &str)
        ensures
            value@ == self.name@,
    {
        self.name.as_str()
    }

    /// Returns the poster's tripcode.
    pub fn trip(&self) -> (value: Option<&str>)
        ensures
            same_text(value, self.trip),
    {
        str_opt_ref(&self.trip)
    }

    /// Returns the poster's ID.
    pub fn id(&self) -> (value: Option<&str>)
        ensures
            same_text(value, self.id),
    {
        str_opt_ref(&self.id)
    }

    /// Returns the capcode of the post.
    pub fn capcode(&self) -> (value: Option<&str>)
        ensures
            same_text(value, self.capcode),
    {
        str_opt_ref(&self.capcode)
    }

    /// Returns the poster's two-letter country code.
    pub fn country(&self) -> (value: Option<&str>)
        ensures
            same_text(value, self.country),
    {
        str_opt_ref(&self.country)
    }

    /// Returns the name of the poster's country.
    pub fn country_name(&self) -> (value: Option<&str>)
        ensures
            same_text(value, self.country_name),
    {
        str_opt_ref(&self.country_name)
    }

    /// Returns the code of the poster's board flag.
    pub fn board_flag(&self) -> (value: Option<&str>)
        ensures
            same_text(value, self.board_flag),
    {
        str_opt_ref(&self.board_flag)
    }

    /// Returns the name of the poster's board flag.
    pub fn flag_name(&self) -> (value: Option<&str>)
        ensures
            same_text(value, self.flag_name),
    {
        str_opt_ref(&self.flag_name)
    }

    /// Returns the subject of the thread.
    pub fn sub(&self) -> (value: Option<&str>)
        ensures
            same_text(value, self.sub),
    {
        str_opt_ref(&self.sub)
    }

    /// Returns the comment, HTML-escaped.
    pub fn com(&self) -> (value: Option<&str>)
        ensures
            same_text(value, self.com),
    {
        str_opt_ref(&self.com)
    }

    /// Returns the time of the upload, UNIX time with microseconds.
    pub fn tim(&self) -> (value: Option<u64>)
        ensures
            value == self.tim,
    {
        self.tim
    }

    /// Returns the file's name on the poster's device.
    pub fn filename(&self) -> (value: Option<&str>)
        ensures
            same_text(value, self.filename),
    {
        str_opt_ref(&self.filename)
    }

    /// Returns the file's extension.
    pub fn ext(&self) -> (value: Option<&str>)
        ensures
            same_text(value, self.ext),
    {
        str_opt_ref(&self.ext)
    }

    /// Returns the size of the file in bytes.
    pub fn fsize(&self) -> (value: Option<u32>)
        ensures
            value == self.fsize,
    {
        self.fsize
    }

    /// Returns the MD5 hash of the file, in base64.
    pub fn md5(&self) -> (value: Option<&str>)
        ensures
            same_text(value, self.md5),
    {
        str_opt_ref(&self.md5)
    }

    /// Returns the width of the image.
    pub fn w(&self) -> (value: Option<u32>)
        ensures
            value == self.w,
    {
        self.w
    }

    /// Returns the height of the image.
    pub fn h(&self) -> (value: Option<u32>)
        ensures
            value == self.h,
    {
        self.h
    }

    /// Returns the width of the thumbnail.
    pub fn tn_w(&self) -> (value: Option<u32>)
        ensures
            value == self.tn_w,
    {
        self.tn_w
    }

    /// Returns the height of the thumbnail.
    pub fn tn_h(&self) -> (value: Option<u32>)
        ensures
            value == self.tn_h,
    {
        self.tn_h
    }

    /// Returns whether the file was deleted from the post.
    pub fn filedeleted(&self) -> (value: Option<bool>)
        ensures
            value == self.filedeleted,
    {
        self.filedeleted
    }

    /// Returns whether the image is marked as a spoiler.
    pub fn spoiler(&self) -> (value: Option<bool>)
        ensures
            value == self.spoiler,
    {
        self.spoiler
    }

    /// Returns the number of the custom spoiler image.
    pub fn custom_spoiler(&self) -> (value: Option<u32>)
        ensures
            value == self.custom_spoiler,
    {
        self.custom_spoiler
    }

    /// Returns the number of replies to the thread.
    pub fn replies(&self) -> (value: Option<u32>)
        ensures
            value == self.replies,
    {
        self.replies
    }

    /// Returns the number of image replies to the thread.
    pub fn images(&self) -> (value: Option<u32>)
        ensures
            value == self.images,
    {
        self.images
    }

    /// Returns whether the thread has reached its bump limit.
    pub fn bumplimit(&self) -> (value: Option<bool>)
        ensures
            value == self.bumplimit,
    {
        self.bumplimit
    }

    /// Returns whether the thread has reached its image limit.
    pub fn imagelimit(&self) -> (value: Option<bool>)
        ensures
            value == self.imagelimit,
    {
        self.imagelimit
    }

    /// Returns the category of a Flash upload.
    pub fn tag(&self) -> (value: Option<&str>)
        ensures
            same_text(value, self.tag),
    {
        str_opt_ref(&self.tag)
    }

    /// Returns the slug of the thread's URL.
    pub fn semantic_url(&self) -> (value: Option<&str>)
        ensures
            same_text(value, self.semantic_url),
    {
        str_opt_ref(&self.semantic_url)
    }

    /// Returns the year the poster bought a pass.
    pub fn since4pass(&self) -> (value: Option<u32>)
        ensures
            value == self.since4pass,
    {
        self.since4pass
    }

    /// Returns the number of distinct posters in the thread.
    pub fn unique_ips(&self) -> (value: Option<u32>)
        ensures
            value == self.unique_ips,
    {
        self.unique_ips
    }

    /// Returns whether a mobile-optimised image exists.
    pub fn m_img(&self) -> (value: Option<bool>)
        ensures
            value == self.m_img,
    {
        self.m_img
    }

    /// Returns whether the thread is archived.
    pub fn archived(&self) -> (value: Option<bool>)
        ensures
            value == self.archived,
    {
        self.archived
    }

    /// Returns the UNIX time at which the thread was archived.
    pub fn archived_on(&self) -> (value: Option<u64>)
        ensures
            value == self.archived_on,
    {
        self.archived_on
    }
}

} // verus!
