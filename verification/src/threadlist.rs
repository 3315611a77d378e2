//! The thread list of a board in its short form, under the name of the
//! file the API serves it from.

pub use crate::cat_thread::{CatalogThread, Page};
pub use crate::catalog::Catalog;
