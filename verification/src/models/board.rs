//! The boards of the site and what each of them allows.

use std::collections::HashMap;
use vstd::prelude::*;
use vstd::std_specs::cmp::PartialEqSpecImpl;
use vstd::string::*;

use crate::client::{Fetch, Reply, Step};
use crate::error::Error;
use crate::models::{Metadata, Resource};

verus! {

/// The list of all boards.
#[derive(Debug)]
pub struct Boards {
    inner: Resource<Vec<Board>>,
}

impl View for Boards {
    type V = Resource<Vec<Board>>;

    closed spec fn view(&self) -> Resource<Vec<Board>> {
        self.inner
    }
}

impl Boards {
    /// The URL of the board list.
    pub open spec fn url_spec() -> Seq<char> {
        "https://a.4cdn.org/boards.json"@
    }

    /// Builds the URL of the board list.
    pub fn url() -> (url: String)
        ensures
            url@ == Self::url_spec(),
    {
        let mut url = String::new();
        url.append("https://a.4cdn.org/boards.json");
        url
    }

    /// Begins the first fetch of the board list: an unconditional
    /// request, with nothing to sit out.
    pub fn fetch() -> (begun: (Fetch, Step<Vec<Board>>))
        ensures
            begun.0.request.url@ == Self::url_spec(),
            begun.0.request.if_modified_since is None,
            begun.0 == Fetch::start_spec(begun.0.request, 0),
            begun.1 == Step::<Vec<Board>>::Acquire,
    {
        Resource::fetch(Self::url())
    }

    /// Builds the board list from the reply to its first fetch, received at
    /// `now`. Only a payload that came with its stamp makes one.
    pub fn new(reply: Reply<Vec<Board>>, now: i64) -> (built: Result<Boards, Error>)
        ensures
            match built {
                Ok(made) => made@.built_from(Self::url_spec(), reply, now),
                Err(error) => Resource::refusal(reply) == Some(error),
            },
    {
        match Resource::construct(Self::url(), reply, now) {
            Ok(inner) => Ok(Boards { inner }),
            Err(error) => Err(error),
        }
    }

    /// Begins a refresh. The board list has no cooldown of its own: the fetch goes
    /// straight to the wait for a rate token.
    pub fn refresh(&self) -> (begun: (Fetch, Step<Vec<Board>>))
        ensures
            begun.0 == Fetch::start_spec(self@.metadata.request_spec(), 0),
            begun.1 == Step::<Vec<Board>>::Acquire,
    {
        Fetch::start(self.inner.metadata.request(), 0)
    }

    /// Takes up the reply to a refresh, received at `now`. A fresh payload
    /// replaces the old one whole; a 304 leaves it as it is; a failure
    /// leaves payload and stamp as they are and is handed on.
    pub fn update(&mut self, reply: Reply<Vec<Board>>, now: i64) -> (done: Result<(), Error>)
        ensures
            final(self)@ == old(self)@.updated(reply, now),
            done == Resource::<Vec<Board>>::reported(reply),
    {
        self.inner.update(reply, now)
    }

    /// Where the board list lives and the stamp the server last gave it.
    pub fn metadata(&self) -> (metadata: &Metadata)
        ensures
            *metadata == self@.metadata,
    {
        &self.inner.metadata
    }

    /// The local time of the last refresh attempt, in milliseconds.
    pub fn last_refreshed(&self) -> (at: i64)
        ensures
            at == self@.refreshed,
    {
        self.inner.refreshed
    }
}

impl core::ops::Deref for Boards {
    type Target = Vec<Board>;

    fn deref(&self) -> (boards: &Vec<Board>)
        ensures
            *boards == self@.payload,
    {
        &self.inner.payload
    }
}

/// One board and what it allows.
///
/// Two boards are equal when they live in the same directory.
#[derive(Debug, Clone, Default)]
pub struct Board {
    /// The directory the board lives in.
    pub board: String,
    /// The title at the top of the board.
    pub title: String,
    /// Whether the board is worksafe.
    pub ws_board: bool,
    /// The number of threads on one index page.
    pub per_page: u32,
    /// The number of index pages.
    pub pages: u32,
    /// The largest file, in KB, that is not a `.webm`.
    pub max_filesize: u32,
    /// The largest `.webm`, in KB.
    pub max_webm_filesize: u32,
    /// The largest number of characters in a comment.
    pub max_comment_chars: u32,
    /// The longest `.webm`, in seconds.
    pub max_webm_duration: u32,
    /// The number of replies after which a thread stops bumping.
    pub bump_limit: u32,
    /// The number of image replies after which images are discarded.
    pub image_limit: u32,
    /// The posting cooldowns of the board.
    pub cooldowns: Cooldowns,
    /// The description of the board for search engines.
    pub meta_description: String,
    /// Whether spoilers are enabled.
    pub spoilers: Option<bool>,
    /// The number of custom spoilers the board has.
    pub custom_spoilers: Option<u32>,
    /// Whether archives are enabled.
    pub is_archived: Option<bool>,
    /// The flag codes of the board with their names.
    pub board_flags: Option<HashMap<String, String>>,
    /// Whether posts show the poster's country.
    pub country_flags: Option<bool>,
    /// Whether posts show poster IDs.
    pub user_ids: Option<bool>,
    /// Whether drawings can be submitted.
    pub oekaki: Option<bool>,
    /// Whether `[sjis]` tags are supported.
    pub sjis_tags: Option<bool>,
    /// Whether `[code]` tags are supported.
    pub code_tags: Option<bool>,
    /// Whether `[math]` and `[eqn]` tags are supported.
    pub math_tags: Option<bool>,
    /// Whether image posting is disabled.
    pub text_only: Option<bool>,
    /// Whether the name field is disabled.
    pub forced_anon: Option<bool>,
    /// Whether a `.webm` may carry audio.
    pub webm_audio: Option<bool>,
    /// Whether an opening post needs a subject.
    pub require_subject: Option<bool>,
    /// The smallest width of an image, in pixels.
    pub min_image_width: Option<u32>,
    /// The smallest height of an image, in pixels.
    pub min_image_height: Option<u32>,
}

impl PartialEq for Board {
    fn eq(&self, other: &Self) -> (equal: bool) {
        self.board == other.board
    }
}

impl PartialEqSpecImpl for Board {
    open spec fn obeys_eq_spec() -> bool {
        true
    }

    open spec fn eq_spec(&self, other: &Self) -> bool {
        self.board@ == other.board@
    }
}

/// The posting cooldowns of a board, in seconds.
#[derive(Debug, Clone, Copy, Default, PartialEq, Eq)]
pub struct Cooldowns {
    /// The seconds before a user can open another thread.
    pub threads: u32,
    /// The seconds before a user can post another reply.
    pub replies: u32,
    /// The seconds before a user can upload another image.
    pub images: u32,
}

impl Cooldowns {
    /// Returns the seconds before a user can upload another image.
    pub fn images(&self) -> (value: u32)
        ensures
            value == self.images,
    {
        self.images
    }

    /// Returns the seconds before a user can post another reply.
    pub fn replies(&self) -> (value: u32)
        ensures
            value == self.replies,
    {
        self.replies
    }

    /// Returns the seconds before a user can open another thread.
    pub fn threads(&self) -> (value: u32)
        ensures
            value == self.threads,
    {
        self.threads
    }
}

impl Board {
    /// Returns the directory the board lives in.
    pub fn board(&self) -> (value: &str)
        ensures
            value@ == self.board@,
    {
        self.board.as_str()
    }

    /// Returns the title at the top of the board.
    pub fn title(&self) -> (value: &str)
        ensures
            value@ == self.title@,
    {
        self.title.as_str()
    }

    /// Returns whether the board is worksafe.
    pub fn ws_board(&self) -> (value: bool)
        ensures
            value == self.ws_board,
    {
        self.ws_board
    }

    /// Returns the number of threads on one index page.
    pub fn per_page(&self) -> (value: u32)
        ensures
            value == self.per_page,
    {
        self.per_page
    }

    /// Returns the number of index pages.
    pub fn pages(&self) -> (value: u32)
        ensures
            value == self.pages,
    {
        self.pages
    }

    /// Returns the largest file, in KB, that is not a `.webm`.
    pub fn max_filesize(&self) -> (value: u32)
        ensures
            value == self.max_filesize,
    {
        self.max_filesize
    }

    /// Returns the largest `.webm`, in KB.
    pub fn max_webm_filesize(&self) -> (value: u32)
        ensures
            value == self.max_webm_filesize,
    {
        self.max_webm_filesize
    }

    /// Returns the largest number of characters in a comment.
    pub fn max_comment_chars(&self) -> (value: u32)
        ensures
            value == self.max_comment_chars,
    {
        self.max_comment_chars
    }

    /// Returns the longest `.webm`, in seconds.
    pub fn max_webm_duration(&self) -> (value: u32)
        ensures
            value == self.max_webm_duration,
    {
        self.max_webm_duration
    }

    /// Returns the number of replies after which a thread stops bumping.
    pub fn bump_limit(&self) -> (value: u32)
        ensures
            value == self.bump_limit,
    {
        self.bump_limit
    }

    /// Returns the number of image replies after which images are discarded.
    pub fn image_limit(&self) -> (value: u32)
        ensures
            value == self.image_limit,
    {
        self.image_limit
    }

    /// Returns the description of the board for search engines.
    pub fn meta_description(&self) -> (value: &str)
        ensures
            value@ == self.meta_description@,
    {
        self.meta_description.as_str()
    }

    /// Returns whether spoilers are enabled.
    pub fn spoilers(&self) -> (value: Option<bool>)
        ensures
            value == self.spoilers,
    {
        self.spoilers
    }

    /// Returns the number of custom spoilers the board has.
    pub fn custom_spoilers(&self) -> (value: Option<u32>)
        ensures
            value == self.custom_spoilers,
    {
        self.custom_spoilers
    }

    /// Returns whether archives are enabled.
    pub fn is_archived(&self) -> (value: Option<bool>)
        ensures
            value == self.is_archived,
    {
        self.is_archived
    }

    /// Returns whether posts show the poster's country.
    pub fn country_flags(&self) -> (value: Option<bool>)
        ensures
            value == self.country_flags,
    {
        self.country_flags
    }

    /// Returns whether posts show poster IDs.
    pub fn user_ids(&self) -> (value: Option<bool>)
        ensures
            value == self.user_ids,
    {
        self.user_ids
    }

    /// Returns whether drawings can be submitted.
    pub fn oekaki(&self) -> (value: Option<bool>)
        ensures
            value == self.oekaki,
    {
        self.oekaki
    }

    /// Returns whether `[sjis]` tags are supported.
    pub fn sjis_tags(&self) -> (value: Option<bool>)
        ensures
            value == self.sjis_tags,
    {
        self.sjis_tags
    }

    /// Returns whether `[code]` tags are supported.
    pub fn code_tags(&self) -> (value: Option<bool>)
        ensures
            value == self.code_tags,
    {
        self.code_tags
    }

    /// Returns whether `[math]` and `[eqn]` tags are supported.
    pub fn math_tags(&self) -> (value: Option<bool>)
        ensures
            value == self.math_tags,
    {
        self.math_tags
    }

    /// Returns whether image posting is disabled.
    pub fn text_only(&self) -> (value: Option<bool>)
        ensures
            value == self.text_only,
    {
        self.text_only
    }

    /// Returns whether the name field is disabled.
    pub fn forced_anon(&self) -> (value: Option<bool>)
        ensures
            value == self.forced_anon,
    {
        self.forced_anon
    }

    /// Returns whether a `.webm` may carry audio.
    pub fn webm_audio(&self) -> (value: Option<bool>)
        ensures
            value == self.webm_audio,
    {
        self.webm_audio
    }

    /// Returns whether an opening post needs a subject.
    pub fn require_subject(&self) -> (value: Option<bool>)
        ensures
            value == self.require_subject,
    {
        self.require_subject
    }

    /// Returns the smallest width of an image, in pixels.
    pub fn min_image_width(&self) -> (value: Option<u32>)
        ensures
            value == self.min_image_width,
    {
        self.min_image_width
    }

    /// Returns the smallest height of an image, in pixels.
    pub fn min_image_height(&self) -> (value: Option<u32>)
        ensures
            value == self.min_image_height,
    {
        self.min_image_height
    }

    /// Returns the posting cooldowns of the board.
    pub fn cooldowns(&self) -> (value: &Cooldowns)
        ensures
            *value == self.cooldowns,
    {
        &self.cooldowns
    }

    /// Returns the flag codes of the board with their names.
    pub fn board_flags(&self) -> (value: Option<&HashMap<String, String>>)
        ensures
            match (value, self.board_flags) {
                (Some(borrowed), Some(owned)) => *borrowed == owned,
                (None, None) => true,
                _ => false,
            },
    {
        match &self.board_flags {
            Some(flags) => Some(flags),
            None => None,
        }
    }
}

} // verus!
