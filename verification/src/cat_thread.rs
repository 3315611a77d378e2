//! The short form of the thread list: a thread as three numbers.

use vstd::prelude::*;
use vstd::string::*;

use crate::text::{calendar_text, calendar_time, decimal, push_decimal, written, PLAIN_DATE};

verus! {

/// What the thread list tells of one thread.
#[derive(Debug, Clone, Copy, Default, PartialEq, Eq)]
pub struct CatalogThread {
    /// The number of the thread's opening post.
    pub no: u32,
    /// The UNIX time at which the thread was last modified.
    pub last_modified: i64,
    /// The number of replies in the thread.
    pub replies: u32,
}

impl CatalogThread {
    /// Returns the number of the thread.
    pub fn id(&self) -> (value: u32)
        ensures
            value == self.no,
    {
        self.no
    }

    /// Returns the UNIX time at which the thread was last modified.
    pub fn last_modified(&self) -> (value: i64)
        ensures
            value == self.last_modified,
    {
        self.last_modified
    }

    /// Returns the number of replies in the thread.
    pub fn replies(&self) -> (value: u32)
        ensures
            value == self.replies,
    {
        self.replies
    }

    /// The thread in one line: its number, the date and time of its last
    /// change, and the number of its replies. There is none where the time
    /// has no calendar form.
    pub open spec fn describe_spec(self) -> Option<Seq<char>> {
        match calendar_text(self.last_modified, PLAIN_DATE@) {
            Some(time) => Some(
                "\n\tThread ID: "@ + decimal(self.no as nat) + " | Last Modified: "@ + time
                    + " | Number of Replies: "@ + decimal(self.replies as nat),
            ),
            None => None,
        }
    }

    /// Writes the thread in one line.
    pub fn describe(&self) -> (text: Option<String>)
        ensures
            written(text, self.describe_spec()),
    {
        match calendar_time(self.last_modified, PLAIN_DATE) {
            Some(time) => {
                let mut text = String::new();
                text.append("\n\tThread ID: ");
                push_decimal(&mut text, self.no as u64);
                text.append(" | Last Modified: ");
                text.append(time.as_str());
                text.append(" | Number of Replies: ");
                push_decimal(&mut text, self.replies as u64);
                Some(text)
            },
            None => None,
        }
    }
}

/// The lines of the threads, one after the other. There are none where one
/// of the threads has none.
pub open spec fn threads_text(threads: Seq<CatalogThread>) -> Option<Seq<char>>
    decreases threads.len(),
{
    if threads.len() == 0 {
        Some(Seq::empty())
    } else {
        match (threads_text(threads.drop_last()), threads.last().describe_spec()) {
            (Some(before), Some(line)) => Some(before + line),
            _ => None,
        }
    }
}

/// Where the first threads have no text, neither have all of them.
proof fn threads_text_fails_for_good(threads: Seq<CatalogThread>, n: int)
    requires
        0 <= n <= threads.len(),
        threads_text(threads.take(n)) is None,
    ensures
        threads_text(threads) is None,
    decreases threads.len() - n,
{
    if n < threads.len() {
        assert(threads.take(n + 1).drop_last() =~= threads.take(n));
        threads_text_fails_for_good(threads, n + 1);
    } else {
        assert(threads.take(n) =~= threads);
    }
}

/// One page of the thread list.
#[derive(Debug, Clone, Default, PartialEq, Eq)]
pub struct Page {
    /// The number of the page.
    pub page: u8,
    /// The threads on the page.
    pub threads: Vec<CatalogThread>,
}

impl Page {
    /// Gives up the page for its threads.
    pub fn threads(self) -> (value: Vec<CatalogThread>)
        ensures
            value == self.threads,
    {
        self.threads
    }

    /// Gives up the page for its number.
    pub fn num(self) -> (value: u8)
        ensures
            value == self.page,
    {
        self.page
    }

    /// The page in a few lines: its number and its threads. There are none
    /// where one of the threads has none.
    pub open spec fn describe_spec(self) -> Option<Seq<char>> {
        match threads_text(self.threads@) {
            Some(lines) => Some(
                "\nPage Number: "@ + decimal(self.page as nat) + "\nThreads: "@ + lines,
            ),
            None => None,
        }
    }

    /// Writes the page in a few lines.
    pub fn describe(&self) -> (text: Option<String>)
        ensures
            written(text, self.describe_spec()),
    {
        let mut text = String::new();
        text.append("\nPage Number: ");
        push_decimal(&mut text, self.page as u64);
        text.append("\nThreads: ");
        let ghost head = text@;
        let mut i: usize = 0;
        while i < self.threads.len()
            invariant
                i <= self.threads.len(),
                head == "\nPage Number: "@ + decimal(self.page as nat) + "\nThreads: "@,
                threads_text(self.threads@.take(i as int)) matches Some(lines) && text@ == head
                    + lines,
            decreases self.threads.len() - i,
        {
            assert(self.threads@.take(i + 1).drop_last() =~= self.threads@.take(i as int));
            match self.threads[i].describe() {
                Some(line) => {
                    text.append(line.as_str());
                },
                None => {
                    proof {
                        threads_text_fails_for_good(self.threads@, i + 1);
                    }
                    return None;
                },
            }
            i += 1;
        }
        assert(self.threads@.take(i as int) =~= self.threads@);
        Some(text)
    }
}

/// The lines of the pages, one after the other. There are none where one of
/// the pages has none.
pub open spec fn pages_text(pages: Seq<Page>) -> Option<Seq<char>>
    decreases pages.len(),
{
    if pages.len() == 0 {
        Some(Seq::empty())
    } else {
        match (pages_text(pages.drop_last()), pages.last().describe_spec()) {
            (Some(before), Some(lines)) => Some(before + lines),
            _ => None,
        }
    }
}

/// Where the first pages have no text, neither have all of them.
pub(crate) proof fn pages_text_fails_for_good(pages: Seq<Page>, n: int)
    requires
        0 <= n <= pages.len(),
        pages_text(pages.take(n)) is None,
    ensures
        pages_text(pages) is None,
    decreases pages.len() - n,
{
    if n < pages.len() {
        assert(pages.take(n + 1).drop_last() =~= pages.take(n));
        pages_text_fails_for_good(pages, n + 1);
    } else {
        assert(pages.take(n) =~= pages);
    }
}

/// The numbers of the threads of one page, in the order of the page.
pub open spec fn page_ids(threads: Seq<CatalogThread>) -> Seq<u32> {
    Seq::new(threads.len(), |k: int| threads[k].no)
}

/// The numbers of the threads of all pages, page after page.
pub open spec fn all_ids(pages: Seq<Page>) -> Seq<u32>
    decreases pages.len(),
{
    if pages.len() == 0 {
        Seq::empty()
    } else {
        all_ids(pages.drop_last()) + page_ids(pages.last().threads@)
    }
}

} // verus!
