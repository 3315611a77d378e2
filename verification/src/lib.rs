//! A client model for a read-only, paginated JSON imageboard API.
//!
//! The crate holds the decisions of a rate-limited, conditionally cached
//! fetch layer: how requests are paced, which conditional header a request
//! carries, how a response is classified, and how a resource takes up what
//! came back. Every function works on plain values. A driver does the
//! waiting and the network traffic: it performs the step it is handed,
//! reports the event that followed, and hands the reply of a finished fetch
//! to the resource.
//!
//! - [`limiter`] is the store of rate tokens and the rule of its refill.
//! - [`client`] is one conditional GET as a sequence of steps.
//! - [`models`] holds the resources of the API: the board list, the
//!   catalog, the thread list and the archive of a board, and a thread.
//!   They share one lifecycle, [`models::Resource`].
//! - [`post`], [`thread`], [`cat_thread`], [`catalog`] and [`board`] hold
//!   the flat form of a post, a thread with its opening post set apart, the
//!   short thread list, and a cache of the threads of a whole board.
//!
//! Times are local wall-clock milliseconds since the UNIX epoch, and waits
//! are milliseconds.

pub mod text;
pub mod error;
pub mod limiter;
pub mod client;
pub mod models;
pub mod post;
pub mod cat_thread;
pub mod catalog;
pub mod thread;
pub mod threadlist;
pub mod board;

pub use client::Client;
pub use error::Error;
