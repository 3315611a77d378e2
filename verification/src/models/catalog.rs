//! The catalog of a board: its threads with their opening posts, page by
//! page.

use vstd::prelude::*;
use vstd::string::*;

use crate::client::{Fetch, Reply, Step};
use crate::error::Error;
use crate::models::{same_text, str_opt_ref, Metadata, Resource, COOLDOWN};

verus! {

/// The threads of one board with their opening posts, page by page.
#[derive(Debug, PartialEq, Eq)]
pub struct Catalog {
    inner: Resource<Vec<Page>>,
}

impl View for Catalog {
    type V = Resource<Vec<Page>>;

    closed spec fn view(&self) -> Resource<Vec<Page>> {
        self.inner
    }
}

impl Catalog {
    /// The URL of the catalog of `board`.
    pub open spec fn url_spec(board: Seq<char>) -> Seq<char> {
        "https://a.4cdn.org/"@ + board + "/catalog.json"@
    }

    /// Builds the URL of the catalog of `board`.
    pub fn url(board: &str) -> (url: String)
        ensures
            url@ == Self::url_spec(board@),
    {
        let mut url = String::new();
        url.append("https://a.4cdn.org/");
        url.append(board);
        url.append("/catalog.json");
        url
    }

    /// Begins the first fetch of the catalog of `board`: an unconditional
    /// request, with nothing to sit out.
    pub fn fetch(board: &str) -> (begun: (Fetch, Step<Vec<Page>>))
        ensures
            begun.0.request.url@ == Self::url_spec(board@),
            begun.0.request.if_modified_since is None,
            begun.0 == Fetch::start_spec(begun.0.request, 0),
            begun.1 == Step::<Vec<Page>>::Acquire,
    {
        Resource::fetch(Self::url(board))
    }

    /// Builds a catalog of `board` from the reply to its first fetch, received at
    /// `now`. Only a payload that came with its stamp makes one.
    pub fn new(board: &str, reply: Reply<Vec<Page>>, now: i64) -> (built: Result<Catalog, Error>)
        ensures
            match built {
                Ok(made) => made@.built_from(Self::url_spec(board@), reply, now),
                Err(error) => Resource::refusal(reply) == Some(error),
            },
    {
        match Resource::construct(Self::url(board), reply, now) {
            Ok(inner) => Ok(Catalog { inner }),
            Err(error) => Err(error),
        }
    }

    /// Begins a refresh at `now`. Ten seconds must lie between two
    /// refreshes of a catalog; what is left of them is slept first.
    pub fn refresh(&self, now: i64) -> (begun: Result<(Fetch, Step<Vec<Page>>), Error>)
        ensures
            begun == self@.refreshing(now, COOLDOWN),
    {
        self.inner.refresh(now, COOLDOWN)
    }

    /// Takes up the reply to a refresh, received at `now`. A fresh payload
    /// replaces the old one whole; a 304 leaves it as it is; a failure
    /// leaves payload and stamp as they are and is handed on.
    pub fn update(&mut self, reply: Reply<Vec<Page>>, now: i64) -> (done: Result<(), Error>)
        ensures
            final(self)@ == old(self)@.updated(reply, now),
            done == Resource::<Vec<Page>>::reported(reply),
    {
        self.inner.update(reply, now)
    }

    /// Where a catalog lives and the stamp the server last gave it.
    pub fn metadata(&self) -> (metadata: &Metadata)
        ensures
            *metadata == self@.metadata,
    {
        &self.inner.metadata
    }

    /// The local time of the last refresh attempt, in milliseconds.
    pub fn last_refreshed(&self) -> (at: i64)
        ensures
            at == self@.refreshed,
    {
        self.inner.refreshed
    }
}

impl core::ops::Deref for Catalog {
    type Target = Vec<Page>;

    fn deref(&self) -> (pages: &Vec<Page>)
        ensures
            *pages == self@.payload,
    {
        &self.inner.payload
    }
}

/// One page of the catalog.
#[derive(Debug, Default, PartialEq, Eq)]
pub struct Page {
    /// The number of the page.
    pub page: u32,
    /// The threads on the page.
    pub threads: Vec<CatPost>,
}

impl Page {
    /// Returns the number of the page.
    pub fn page(&self) -> (value: u32)
        ensures
            value == self.page,
    {
        self.page
    }

    /// Returns the threads on the page.
    pub fn threads(&self) -> (value: &[CatPost])
        ensures
            value@ == self.threads@,
    {
        self.threads.as_slice()
    }
}

/// One post as the catalog gives it.
#[derive(Debug, Default, PartialEq, Eq)]
pub struct CatPost {
    /// The number of the post.
    pub no: i32,
    /// The number of the thread the post replies to, 0 for an opening post.
    pub resto: i32,
    /// Whether the thread is pinned to the top of its page.
    pub sticky: Option<bool>,
    /// Whether the thread is closed to replies.
    pub closed: Option<bool>,
    /// The time of posting as the board prints it.
    pub now: String,
    /// The UNIX time of posting.
    pub time: u64,
    /// The name the poster gave.
    pub name: String,
    /// The poster's tripcode.
    pub trip: Option<String>,
    /// The poster's ID.
    pub id: Option<String>,
    /// The capcode of the post.
    pub capcode: Option<String>,
    /// The poster's two-letter country code.
    pub country: Option<String>,
    /// The name of the poster's country.
    pub country_name: Option<String>,
    /// The subject of the thread.
    pub sub: Option<String>,
    /// The comment, HTML-escaped, empty where the post has none.
    pub com: String,
    /// The time of the upload, UNIX time with microseconds.
    pub tim: Option<i64>,
    /// The file's name on the poster's device.
    pub filename: Option<String>,
    /// The file's extension.
    pub ext: Option<String>,
    /// The size of the file in bytes.
    pub fsize: Option<i32>,
    /// The MD5 hash of the file, in base64.
    pub md5: Option<String>,
    /// The width of the image.
    pub w: Option<i32>,
    /// The height of the image.
    pub h: Option<i32>,
    /// The width of the thumbnail.
    pub tn_w: Option<i32>,
    /// The height of the thumbnail.
    pub tn_h: Option<i32>,
    /// 1 where the file was deleted from the post.
    pub filedeleted: Option<i32>,
    /// 1 where the image is marked as a spoiler.
    pub spoiler: Option<i32>,
    /// The number of the custom spoiler image.
    pub custom_spoiler: Option<i32>,
    /// The number of replies that the catalog leaves out.
    pub omitted_posts: Option<i32>,
    /// The number of image replies that the catalog leaves out.
    pub omitted_images: Option<i32>,
    /// The number of replies to the thread.
    pub replies: Option<i32>,
    /// The number of image replies to the thread.
    pub images: Option<i32>,
    /// Whether the thread has reached its bump limit.
    pub bumplimit: Option<bool>,
    /// Whether the thread has reached its image limit.
    pub imagelimit: Option<bool>,
    /// The UNIX time at which the thread was last modified.
    pub last_modified: Option<u64>,
    /// The category of a Flash upload.
    pub tag: Option<String>,
    /// The slug of the thread's URL.
    pub semantic_url: Option<String>,
    /// The year the poster bought a pass.
    pub since4pass: Option<i32>,
    /// The number of distinct posters in the thread.
    pub unique_ips: Option<i32>,
    /// Whether a mobile-optimised image exists.
    pub m_img: Option<bool>,
    /// The latest replies to the thread.
    pub last_replies: Option<Vec<CatPost>>,
}

impl CatPost {
    /// Returns the number of the post.
    pub fn no(&self) -> (value: i32)
        ensures
            value == self.no,
    {
        self.no
    }

    /// Returns the number of the thread the post replies to, 0 for an opening post.
    pub fn resto(&self) -> (value: i32)
        ensures
            value == self.resto,
    {
        self.resto
    }

    /// Returns whether the thread is pinned to the top of its page.
    pub fn sticky(&self) -> (value: Option<bool>)
        ensures
            value == self.sticky,
    {
        self.sticky
    }

    /// Returns whether the thread is closed to replies.
    pub fn closed(&self) -> (value: Option<bool>)
        ensures
            value == self.closed,
    {
        self.closed
    }

    /// Returns the time of posting as the board prints it.
    pub fn now(&self) -> (value: &str)
        ensures
            value@ == self.now@,
    {
        self.now.as_str()
    }

    /// Returns the UNIX time of posting.
    pub fn time(&self) -> (value: u64)
        ensures
            value == self.time,
    {
        self.time
    }

    /// Returns the name the poster gave.
    pub fn name(&self) -> (value: &str)
        ensures
            value@ == self.name@,
    {
        self.name.as_str()
    }

    /// Returns the poster's tripcode.
    pub fn trip(&self) -> (value: Option<&str>)
        ensures
            same_text(value, self.trip),
    {
        str_opt_ref(&self.trip)
    }

    /// Returns the poster's ID.
    pub fn id(&self) -> (value: Option<&str>)
        ensures
            same_text(value, self.id),
    {
        str_opt_ref(&self.id)
    }

    /// Returns the capcode of the post.
    pub fn capcode(&self) -> (value: Option<&str>)
        ensures
            same_text(value, self.capcode),
    {
        str_opt_ref(&self.capcode)
    }

    /// Returns the poster's two-letter country code.
    pub fn country(&self) -> (value: Option<&str>)
        ensures
            same_text(value, self.country),
    {
        str_opt_ref(&self.country)
    }

    /// Returns the name of the poster's country.
    pub fn country_name(&self) -> (value: Option<&str>)
        ensures
            same_text(value, self.country_name),
    {
        str_opt_ref(&self.country_name)
    }

    /// Returns the subject of the thread.
    pub fn sub(&self) -> (value: Option<&str>)
        ensures
            same_text(value, self.sub),
    {
        str_opt_ref(&self.sub)
    }

    /// Returns the comment, HTML-escaped, empty where the post has none.
    pub fn com(&self) -> (value: &str)
        ensures
            value@ == self.com@,
    {
        self.com.as_str()
    }

    /// Returns the time of the upload, UNIX time with microseconds.
    pub fn tim(&self) -> (value: Option<i64>)
        ensures
            value == self.tim,
    {
        self.tim
    }

    /// Returns the file's name on the poster's device.
    pub fn filename(&self) -> (value: Option<&str>)
        ensures
            same_text(value, self.filename),
    {
        str_opt_ref(&self.filename)
    }

    /// Returns the file's extension.
    pub fn ext(&self) -> (value: Option<&str>)
        ensures
            same_text(value, self.ext),
    {
        str_opt_ref(&self.ext)
    }

    /// Returns the size of the file in bytes.
    pub fn fsize(&self) -> (value: Option<i32>)
        ensures
            value == self.fsize,
    {
        self.fsize
    }

    /// Returns the MD5 hash of the file, in base64.
    pub fn md5(&self) -> (value: Option<&str>)
        ensures
            same_text(value, self.md5),
    {
        str_opt_ref(&self.md5)
    }

    /// Returns the width of the image.
    pub fn w(&self) -> (value: Option<i32>)
        ensures
            value == self.w,
    {
        self.w
    }

    /// Returns the height of the image.
    pub fn h(&self) -> (value: Option<i32>)
        ensures
            value == self.h,
    {
        self.h
    }

    /// Returns the width of the thumbnail.
    pub fn tn_w(&self) -> (value: Option<i32>)
        ensures
            value == self.tn_w,
    {
        self.tn_w
    }

    /// Returns the height of the thumbnail.
    pub fn tn_h(&self) -> (value: Option<i32>)
        ensures
            value == self.tn_h,
    {
        self.tn_h
    }

    /// Returns 1 where the file was deleted from the post.
    pub fn filedeleted(&self) -> (value: Option<i32>)
        ensures
            value == self.filedeleted,
    {
        self.filedeleted
    }

    /// Returns 1 where the image is marked as a spoiler.
    pub fn spoiler(&self) -> (value: Option<i32>)
        ensures
            value == self.spoiler,
    {
        self.spoiler
    }

    /// Returns the number of the custom spoiler image.
    pub fn custom_spoiler(&self) -> (value: Option<i32>)
        ensures
            value == self.custom_spoiler,
    {
        self.custom_spoiler
    }

    /// Returns the number of replies that the catalog leaves out.
    pub fn omitted_posts(&self) -> (value: Option<i32>)
        ensures
            value == self.omitted_posts,
    {
        self.omitted_posts
    }

    /// Returns the number of image replies that the catalog leaves out.
    pub fn omitted_images(&self) -> (value: Option<i32>)
        ensures
            value == self.omitted_images,
    {
        self.omitted_images
    }

    /// Returns the number of replies to the thread.
    pub fn replies(&self) -> (value: Option<i32>)
        ensures
            value == self.replies,
    {
        self.replies
    }

    /// Returns the number of image replies to the thread.
    pub fn images(&self) -> (value: Option<i32>)
        ensures
            value == self.images,
    {
        self.images
    }

    /// Returns whether the thread has reached its bump limit.
    pub fn bumplimit(&self) -> (value: Option<bool>)
        ensures
            value == self.bumplimit,
    {
        self.bumplimit
    }

    /// Returns whether the thread has reached its image limit.
    pub fn imagelimit(&self) -> (value: Option<bool>)
        ensures
            value == self.imagelimit,
    {
        self.imagelimit
    }

    /// Returns the UNIX time at which the thread was last modified.
    pub fn last_modified(&self) -> (value: Option<u64>)
        ensures
            value == self.last_modified,
    {
        self.last_modified
    }

    /// Returns the category of a Flash upload.
    pub fn tag(&self) -> (value: Option<&str>)
        ensures
            same_text(value, self.tag),
    {
        str_opt_ref(&self.tag)
    }

    /// Returns the slug of the thread's URL.
    pub fn semantic_url(&self) -> (value: Option<&str>)
        ensures
            same_text(value, self.semantic_url),
    {
        str_opt_ref(&self.semantic_url)
    }

    /// Returns the year the poster bought a pass.
    pub fn since4pass(&self) -> (value: Option<i32>)
        ensures
            value == self.since4pass,
    {
        self.since4pass
    }

    /// Returns the number of distinct posters in the thread.
    pub fn unique_ips(&self) -> (value: Option<i32>)
        ensures
            value == self.unique_ips,
    {
        self.unique_ips
    }

    /// Returns whether a mobile-optimised image exists.
    pub fn m_img(&self) -> (value: Option<bool>)
        ensures
            value == self.m_img,
    {
        self.m_img
    }

    /// Returns the latest replies to the thread.
    pub fn last_replies(&self) -> (value: Option<&[CatPost]>)
        ensures
            match (value, self.last_replies) {
                (Some(borrowed), Some(owned)) => borrowed@ == owned@,
                (None, None) => true,
                _ => false,
            },
    {
        match &self.last_replies {
            Some(replies) => Some(replies.as_slice()),
            None => None,
        }
    }
}

} // verus!
