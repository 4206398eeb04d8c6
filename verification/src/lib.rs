//! Core of a relay that fetches an RSS feed on a caller's behalf, drops the
//! truncated "premium" posts from it and hands the rebuilt feed back.
//!
//! The crate performs no I/O of its own: the host issues the outbound request
//! and feeds what it observed to the functions here, which decide every
//! response.

pub mod auth;
pub mod errors;
pub mod feed;
pub mod fetch;
pub mod response;
pub mod routes;
pub mod seqs;
pub mod text;

pub use auth::auth;
pub use errors::AppError;
pub use feed::filter_items;
pub use fetch::fetch_feed;
pub use routes::{filter_feed, root};
