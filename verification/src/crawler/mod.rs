//! Channel discovery: the conditions a candidate must meet and the loop that
//! walks the subscriptions of recently active channels.

pub mod channel_discovery_crawler;
pub mod discovery_gate;
