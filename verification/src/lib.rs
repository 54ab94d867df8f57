//! Decision core of a channel and video metadata crawler.
//!
//! The crate holds the rules that decide when a stored video is stale, which
//! discovered channels are worth crawling, and how one ingestion pass and the
//! discovery loop proceed from one outside event to the next. Network and
//! storage work is left to the caller: each engine is a machine that takes
//! the outcome of the last outside action and names the next one.

pub mod clock;
pub mod crawler;
pub mod scraper;
pub mod sequences;
