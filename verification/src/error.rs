//! The errors a construction or a refresh can end in.

use vstd::prelude::*;
use vstd::string::*;

use crate::text::{calendar_text, calendar_time, decimal, push_decimal, HTTP_DATE};

verus! {

/// Why a fetch, a construction or a refresh failed.
#[derive(Debug, Clone, PartialEq, Eq)]
pub enum Error {
    /// The request never produced a response: connection, timeout or TLS.
    Http(String),
    /// The body of a 200 response did not decode into the payload.
    Parse(String),
    /// The server answered with a status other than 200 or 304.
    UnexpectedStatus(u16),
    /// A 200 response lacked the named header.
    MissingHeader(&'static str),
    /// The rate limiter was shut down while a caller waited for a token.
    RateLimit,
    /// The server answered 304: there is nothing to update.
    NotModified,
    /// The thread is archived and takes no more refreshes.
    Archived { thread: u32, time: Option<u64> },
    /// The wait that the cooldown asks for does not fit the clock.
    Overflow,
}

/// What the message says of the time of an archival: the calendar form
/// where the time has one, and that it is unknown otherwise.
pub open spec fn archival_text(time: Option<u64>) -> Seq<char> {
    match time {
        Some(secs) if secs <= i64::MAX && calendar_text(secs as i64, HTTP_DATE@) is Some
            => calendar_text(secs as i64, HTTP_DATE@)->0,
        _ => "an unknown time"@,
    }
}

impl Error {
    /// The message of the error.
    pub open spec fn message_spec(self) -> Seq<char> {
        match self {
            Error::Http(cause) => "request failed: "@ + cause@,
            Error::Parse(cause) => "failed to parse response: "@ + cause@,
            Error::UnexpectedStatus(code) => "unexpected status: "@ + decimal(code as nat),
            Error::MissingHeader(header) => "missing header: "@ + header@,
            Error::RateLimit => "rate limit error: semaphore closed"@,
            Error::NotModified => "not modified"@,
            Error::Archived { thread, time } => "thread "@ + decimal(thread as nat)
                + " is archived, archived at "@ + archival_text(time),
            Error::Overflow => "overflow in the cooldown wait"@,
        }
    }

    /// Writes the message of the error.
    pub fn message(&self) -> (text: String)
        ensures
            text@ == self.message_spec(),
    {
        let mut text = String::new();
        match self {
            Error::Http(cause) => {
                text.append("request failed: ");
                text.append(cause.as_str());
            },
            Error::Parse(cause) => {
                text.append("failed to parse response: ");
                text.append(cause.as_str());
            },
            Error::UnexpectedStatus(code) => {
                text.append("unexpected status: ");
                push_decimal(&mut text, *code as u64);
            },
            Error::MissingHeader(header) => {
                text.append("missing header: ");
                text.append(header);
            },
            Error::RateLimit => {
                text.append("rate limit error: semaphore closed");
            },
            Error::NotModified => {
                text.append("not modified");
            },
            Error::Archived { thread, time } => {
                text.append("thread ");
                push_decimal(&mut text, *thread as u64);
                text.append(" is archived, archived at ");
                let written = match time {
                    Some(secs) => if *secs <= i64::MAX as u64 {
                        calendar_time(*secs as i64, HTTP_DATE)
                    } else {
                        None
                    },
                    None => None,
                };
                match written {
                    Some(calendar) => text.append(calendar.as_str()),
                    None => text.append("an unknown time"),
                }
            },
            Error::Overflow => {
                text.append("overflow in the cooldown wait");
            },
        }
        text
    }
}

} // verus!
