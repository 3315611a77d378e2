//! A post in its flat form: what the API leaves out stands as zero or as
//! the empty string.

use vstd::prelude::*;
use vstd::string::*;

use crate::text::{decimal, push_decimal, truth, truth_text};

verus! {

/// The text, if it is not empty.
fn nonempty(text: &String) -> (value: Option<&str>)
    ensures
        text@.len() > 0 <==> value is Some,
        value matches Some(borrowed) ==> borrowed@ == text@,
{
    if text.as_str().is_empty() {
        None
    } else {
        Some(text.as_str())
    }
}

/// One post of a thread, with a value in every field.
#[derive(Debug, Clone, Default, PartialEq, Eq)]
pub struct Post {
    /// The number of the post.
    pub no: u32,
    /// The number of the thread the post replies to, 0 for an opening post.
    pub resto: u32,
    /// Not 0 where the thread is pinned to the top of its page.
    pub sticky: u8,
    /// Not 0 where the thread is closed to replies.
    pub closed: u8,
    /// The time of posting as the board prints it.
    pub now: String,
    /// The UNIX time of posting.
    pub time: i64,
    /// The name the poster gave.
    pub name: String,
    /// The poster's tripcode, empty where there is none.
    pub trip: String,
    /// The poster's ID, empty where there is none.
    pub id: String,
    /// The capcode of the post, empty where there is none.
    pub capcode: String,
    /// The poster's two-letter country code, empty where there is none.
    pub country: String,
    /// The name of the poster's country, empty where there is none.
    pub country_name: String,
    /// The code of the poster's board flag, empty where there is none.
    pub board_flag: String,
    /// The name of the poster's board flag, empty where there is none.
    pub flag_name: String,
    /// The subject of the thread, empty where there is none.
    pub sub: String,
    /// The comment, HTML-escaped, empty where there is none.
    pub com: String,
    /// The time of the upload, UNIX time with microseconds, 0 without a file.
    pub tim: u64,
    /// The file's name on the poster's device, empty without a file.
    pub filename: String,
    /// The file's extension, empty without a file.
    pub ext: String,
    /// The size of the file in bytes, 0 without a file.
    pub fsize: u32,
    /// The MD5 hash of the file in base64, empty without a file.
    pub md5: String,
    /// The width of the image.
    pub w: u32,
    /// The height of the image.
    pub h: u32,
    /// The width of the thumbnail.
    pub tn_w: u32,
    /// The height of the thumbnail.
    pub tn_h: u32,
    /// Not 0 where the file was deleted from the post.
    pub filedeleted: u8,
    /// Not 0 where the image is marked as a spoiler.
    pub spoiler: u8,
    /// The number of the custom spoiler image.
    pub custom_spoiler: u8,
    /// The number of replies to the thread.
    pub replies: u32,
    /// The number of image replies to the thread.
    pub images: u32,
    /// Not 0 where the thread has reached its bump limit.
    pub bumplimit: u8,
    /// Not 0 where the thread has reached its image limit.
    pub imagelimit: u8,
    /// The category of a Flash upload, empty where there is none.
    pub tag: String,
    /// The slug of the thread's URL, empty where there is none.
    pub semantic_url: String,
    /// The year the poster bought a pass, 0 where there is none.
    pub since4pass: u16,
    /// The number of distinct posters in the thread.
    pub unique_ips: u16,
    /// Not 0 where a mobile-optimised image exists.
    pub m_img: u8,
    /// 1 where the thread is archived.
    pub archived: u8,
    /// The UNIX time at which the thread was archived, 0 where it is not.
    pub archived_on: i64,
}

impl Post {
    /// Returns the number of the post.
    pub fn id(&self) -> (value: u32)
        ensures
            value == self.no,
    {
        self.no
    }

    /// Returns the subject, empty where there is none.
    pub fn subject(&self) -> (value: &str)
        ensures
            value@ == self.sub@,
    {
        self.sub.as_str()
    }

    /// Returns the time of posting as the board prints it.
    pub fn time_now(&self) -> (value: &str)
        ensures
            value@ == self.now@,
    {
        self.now.as_str()
    }

    /// Returns the comment.
    pub fn content(&self) -> (value: &str)
        ensures
            value@ == self.com@,
    {
        self.com.as_str()
    }

    /// Returns the file's name, empty without a file.
    pub fn filename(&self) -> (value: &str)
        ensures
            value@ == self.filename@,
    {
        self.filename.as_str()
    }

    /// Returns the file's extension, empty without a file.
    pub fn ext(&self) -> (value: &str)
        ensures
            value@ == self.ext@,
    {
        self.ext.as_str()
    }

    /// Returns the number of replies to the post.
    pub fn replies(&self) -> (value: u32)
        ensures
            value == self.replies,
    {
        self.replies
    }

    /// Returns whether the thread is archived.
    pub fn archived(&self) -> (flag: bool)
        ensures
            flag == (self.archived == 1),
    {
        self.archived == 1
    }

    /// Returns the width and the height of the image.
    pub fn image_dimensions(&self) -> (size: (u32, u32))
        ensures
            size == (self.w, self.h),
    {
        (self.w, self.h)
    }

    /// Returns the UNIX time at which the thread was archived.
    pub fn archived_on(&self) -> (value: i64)
        ensures
            value == self.archived_on,
    {
        self.archived_on
    }

    /// The URL of the post's image on `board`: the time of the upload
    /// followed by the extension, under the board's directory.
    pub open spec fn image_url_spec(self, board: Seq<char>) -> Seq<char> {
        "https://i.4cdn.org/"@ + board + "/"@ + decimal(self.tim as nat) + self.ext@
    }

    /// Returns the URL of the post's image on `board`, if the post has a
    /// file.
    pub fn image_url(&self, board: &str) -> (url: Option<String>)
        ensures
            self.filename@.len() == 0 <==> url is None,
            url matches Some(text) ==> text@ == self.image_url_spec(board@),
    {
        if self.filename.as_str().is_empty() {
            None
        } else {
            let mut url = String::new();
            url.append("https://i.4cdn.org/");
            url.append(board);
            url.append("/");
            push_decimal(&mut url, self.tim);
            url.append(self.ext.as_str());
            Some(url)
        }
    }

    /// Returns the UNIX time of posting.
    pub fn post_time(&self) -> (value: i64)
        ensures
            value == self.time,
    {
        self.time
    }

    /// Returns whether the thread is pinned.
    pub fn sticky(&self) -> (flag: bool)
        ensures
            flag == (self.sticky != 0),
    {
        self.sticky != 0
    }

    /// Returns whether the thread is closed to replies.
    pub fn closed(&self) -> (flag: bool)
        ensures
            flag == (self.closed != 0),
    {
        self.closed != 0
    }

    /// Returns the poster's tripcode, if there is one.
    pub fn tripcode(&self) -> (value: Option<&str>)
        ensures
            self.trip@.len() > 0 <==> value is Some,
            value matches Some(text) ==> text@ == self.trip@,
    {
        nonempty(&self.trip)
    }

    /// Returns the capcode of the post, if there is one.
    pub fn capcode(&self) -> (value: Option<&str>)
        ensures
            self.capcode@.len() > 0 <==> value is Some,
            value matches Some(text) ==> text@ == self.capcode@,
    {
        nonempty(&self.capcode)
    }

    /// Returns the name of the poster's country, if there is one.
    pub fn country(&self) -> (value: Option<&str>)
        ensures
            self.country_name@.len() > 0 <==> value is Some,
            value matches Some(text) ==> text@ == self.country_name@,
    {
        nonempty(&self.country_name)
    }

    /// Returns the MD5 hash of the file, if there is one.
    pub fn md5hash(&self) -> (value: Option<&str>)
        ensures
            self.md5@.len() > 0 <==> value is Some,
            value matches Some(text) ==> text@ == self.md5@,
    {
        nonempty(&self.md5)
    }

    /// Returns whether the file was deleted from the post.
    pub fn file_deleted(&self) -> (flag: bool)
        ensures
            flag == (self.filedeleted != 0),
    {
        self.filedeleted != 0
    }

    /// Returns the size of the file in bytes, if the post has one.
    pub fn filesize(&self) -> (size: Option<u32>)
        ensures
            size == if self.fsize != 0 {
                Some(self.fsize)
            } else {
                None
            },
    {
        if self.fsize != 0 {
            Some(self.fsize)
        } else {
            None
        }
    }

    /// Returns whether the thread has reached its image limit.
    pub fn image_limit(&self) -> (flag: bool)
        ensures
            flag == (self.imagelimit != 0),
    {
        self.imagelimit != 0
    }

    /// Returns whether the thread has reached its bump limit.
    pub fn bump_limit(&self) -> (flag: bool)
        ensures
            flag == (self.bumplimit != 0),
    {
        self.bumplimit != 0
    }

    /// The post in a few lines: its number, whether it is archived and
    /// closed, its subject and its comment.
    pub open spec fn describe_spec(self) -> Seq<char> {
        "Post ID: "@ + decimal(self.no as nat) + ", Status: Archived: "@ + truth(self.archived == 1)
            + " | Closed: "@ + truth(self.closed != 0) + "\n Subject: "@ + self.sub@
            + "\n Content: "@ + self.com@ + "\n"@
    }

    /// Writes the post in a few lines.
    pub fn describe(&self) -> (text: String)
        ensures
            text@ == self.describe_spec(),
    {
        let mut text = String::new();
        text.append("Post ID: ");
        push_decimal(&mut text, self.no as u64);
        text.append(", Status: Archived: ");
        text.append(truth_text(self.archived()));
        text.append(" | Closed: ");
        text.append(truth_text(self.closed()));
        text.append("\n Subject: ");
        text.append(self.sub.as_str());
        text.append("\n Content: ");
        text.append(self.com.as_str());
        text.append("\n");
        text
    }
}

} // verus!
