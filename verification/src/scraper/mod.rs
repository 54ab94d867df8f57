//! Video ingestion: the freshness policy, the stored form of a video and
//! the pass that refreshes the videos of one channel.

pub mod counters;
pub mod feed;
pub mod freshness;
pub mod pass_laws;
pub mod updated_lookup;
pub mod video;
pub mod video_scraper;
