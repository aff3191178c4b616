//! Client-side logic for a booking system that exposes no machine-readable
//! API: search results are scraped out of paginated, HTML-rendered pages.
//!
//! The crate turns one page of markup into a list of booking records plus an
//! optional paging summary, and drives a pagination cursor that turns a
//! sequence of such pages into one continuous, in-order record list.

pub mod data;
pub mod dates;
pub mod parser;
pub mod query;
pub mod scan;
pub mod session;
pub mod text;
