//! One ingestion pass over the video feed of a channel, as a machine.
//!
//! A pass fetches the feed, reads once when each stored video was last
//! refreshed, walks the feed in order, fetches the details of each video that
//! is due, stores it or, where it is no longer public, deletes it, and ends by
//! updating the channel's video count and time of last upload. The network
//! and storage work is done by the caller: the machine names the next action
//! and is told how it ended.

use crate::clock::{current_timestamp, published_timestamp, rfc3339_timestamp};
use crate::scraper::feed::{
    feed_response_accepted, feed_url, normalize_feed_xml, normalized_feed, video_feed_url,
    FEED_STATUS_OK,
};
use crate::scraper::freshness::{should_update_video_at, video_is_due};
use crate::scraper::updated_lookup::UpdatedLookup;
use crate::scraper::video::{
    build_video_document_at, is_public, video_document, FeedEntry, FeedEntryView, VideoDetails,
    VideoDetailsView, VideoDocument, VideoDocumentView,
};
use crate::sequences::{
    into_queue, lemma_views_drop_first, lemma_views_empty, option_view, views,
};
use std::collections::VecDeque;
use vstd::prelude::*;

verus! {

/// Why an ingestion pass was given up.
#[derive(Clone, Copy, Debug, PartialEq, Eq, Structural)]
pub enum ScrapeError {
    /// The feed could not be fetched.
    FeedUnavailable,
    /// The feed was answered with a status other than 200.
    FeedStatus { status: u16 },
    /// The body of the feed could not be read as a feed.
    FeedUnparsable,
    /// The times of the last refresh could not be read.
    LookupUnavailable,
    /// The publication time of a feed entry is no RFC 3339 timestamp.
    InvalidPublishedDate,
    /// The details of a video could not be fetched.
    DetailsUnavailable,
    /// A stored video could not be deleted.
    DeleteFailed,
    /// A video could not be stored.
    UpsertFailed,
    /// The event does not answer the action that the machine asked for.
    UnexpectedEvent,
}

/// Where an ingestion pass stands.
#[derive(Clone, Copy, Debug, PartialEq, Eq, Structural)]
pub enum ScrapePhase {
    /// No pass is under way.
    Idle,
    /// Waiting for the response of the feed.
    FetchingFeed,
    /// Waiting for the entries that the feed holds.
    ParsingFeed,
    /// Waiting for the times of the last refresh.
    LoadingLookup,
    /// Waiting for the details of a video.
    FetchingDetails,
    /// Waiting for a delete to end.
    Deleting,
    /// Waiting for a video to be stored.
    Upserting,
    /// Waiting for the number of stored videos.
    Counting,
    /// Waiting for the channel's figures to be stored.
    StoringRollup,
}

/// What the caller reports to an ingestion pass.
pub enum ScrapeEvent {
    /// A pass over the given channel is asked for.
    Begin { channel_id: String },
    /// The feed was answered.
    FeedResponse { status: u16, body: String },
    /// The feed could not be fetched.
    FeedUnavailable,
    /// The entries of the feed, in feed order.
    FeedParsed { entries: Vec<FeedEntry> },
    /// The XML could not be read as a feed.
    FeedUnparsable,
    /// When each stored video of the channel was last refreshed.
    LookupLoaded { lookup: UpdatedLookup },
    /// The times of the last refresh could not be read.
    LookupUnavailable,
    /// The details of the video that was asked for.
    DetailsFetched { details: VideoDetails },
    /// The details could not be fetched.
    DetailsUnavailable,
    /// The delete has been carried out.
    VideoDeleted,
    /// The delete failed.
    DeleteFailed,
    /// The video has been stored.
    VideoUpserted,
    /// The video could not be stored.
    UpsertFailed,
    /// The number of videos now stored for the channel.
    VideosCounted { count: u64 },
    /// The stored videos could not be counted.
    CountUnavailable,
    /// The write of the channel's figures has ended, whether or not it took.
    RollupStored,
}

/// The mathematical value of a [`ScrapeEvent`].
pub enum ScrapeEventView {
    Begin { channel_id: Seq<char> },
    FeedResponse { status: u16, body: Seq<char> },
    FeedUnavailable,
    FeedParsed { entries: Seq<FeedEntryView> },
    FeedUnparsable,
    LookupLoaded { lookup: Map<Seq<char>, i64> },
    LookupUnavailable,
    DetailsFetched { details: VideoDetailsView },
    DetailsUnavailable,
    VideoDeleted,
    DeleteFailed,
    VideoUpserted,
    UpsertFailed,
    VideosCounted { count: u64 },
    CountUnavailable,
    RollupStored,
}

impl View for ScrapeEvent {
    type V = ScrapeEventView;

    open spec fn view(&self) -> ScrapeEventView {
        match self {
            ScrapeEvent::Begin { channel_id } => ScrapeEventView::Begin { channel_id: channel_id@ },
            ScrapeEvent::FeedResponse { status, body } => ScrapeEventView::FeedResponse {
                status: *status,
                body: body@,
            },
            ScrapeEvent::FeedUnavailable => ScrapeEventView::FeedUnavailable,
            ScrapeEvent::FeedParsed { entries } => ScrapeEventView::FeedParsed {
                entries: views(entries@),
            },
            ScrapeEvent::FeedUnparsable => ScrapeEventView::FeedUnparsable,
            ScrapeEvent::LookupLoaded { lookup } => ScrapeEventView::LookupLoaded {
                lookup: lookup@,
            },
            ScrapeEvent::LookupUnavailable => ScrapeEventView::LookupUnavailable,
            ScrapeEvent::DetailsFetched { details } => ScrapeEventView::DetailsFetched {
                details: details@,
            },
            ScrapeEvent::DetailsUnavailable => ScrapeEventView::DetailsUnavailable,
            ScrapeEvent::VideoDeleted => ScrapeEventView::VideoDeleted,
            ScrapeEvent::DeleteFailed => ScrapeEventView::DeleteFailed,
            ScrapeEvent::VideoUpserted => ScrapeEventView::VideoUpserted,
            ScrapeEvent::UpsertFailed => ScrapeEventView::UpsertFailed,
            ScrapeEvent::VideosCounted { count } => ScrapeEventView::VideosCounted {
                count: *count,
            },
            ScrapeEvent::CountUnavailable => ScrapeEventView::CountUnavailable,
            ScrapeEvent::RollupStored => ScrapeEventView::RollupStored,
        }
    }
}

/// What an ingestion pass asks the caller to do next.
#[derive(Debug, PartialEq, Eq)]
pub enum ScrapeAction {
    /// Fetch the feed from the given address.
    FetchFeed { url: String },
    /// Read the entries out of the prepared XML.
    ParseFeed { xml: String },
    /// Read when each stored video of the channel was last refreshed.
    LoadUpdatedLookup { channel_id: String },
    /// Fetch the details of a video from the platform.
    FetchDetails { video_id: String },
    /// Delete the stored record whose key is `key`. The key is the id of the
    /// channel of this pass, not of the video; `video_id` names the video
    /// that was found not to be public.
    DeleteVideo { key: String, video_id: String },
    /// Store the document under the id of the video, replacing what is there.
    UpsertVideo { video_id: String, document: VideoDocument },
    /// Count the videos that are stored for the channel.
    CountVideos { channel_id: String },
    /// Store the channel's video count and time of last upload.
    StoreRollup { channel_id: String, video_count: u64, last_upload_timestamp: i64 },
    /// The pass has ended well.
    Finish,
    /// The pass is given up.
    Fail { error: ScrapeError },
}

/// The mathematical value of a [`ScrapeAction`].
pub enum ScrapeActionView {
    FetchFeed { url: Seq<char> },
    ParseFeed { xml: Seq<char> },
    LoadUpdatedLookup { channel_id: Seq<char> },
    FetchDetails { video_id: Seq<char> },
    DeleteVideo { key: Seq<char>, video_id: Seq<char> },
    UpsertVideo { video_id: Seq<char>, document: VideoDocumentView },
    CountVideos { channel_id: Seq<char> },
    StoreRollup { channel_id: Seq<char>, video_count: u64, last_upload_timestamp: i64 },
    Finish,
    Fail { error: ScrapeError },
}

impl View for ScrapeAction {
    type V = ScrapeActionView;

    open spec fn view(&self) -> ScrapeActionView {
        match self {
            ScrapeAction::FetchFeed { url } => ScrapeActionView::FetchFeed { url: url@ },
            ScrapeAction::ParseFeed { xml } => ScrapeActionView::ParseFeed { xml: xml@ },
            ScrapeAction::LoadUpdatedLookup { channel_id } => ScrapeActionView::LoadUpdatedLookup {
                channel_id: channel_id@,
            },
            ScrapeAction::FetchDetails { video_id } => ScrapeActionView::FetchDetails {
                video_id: video_id@,
            },
            ScrapeAction::DeleteVideo { key, video_id } => ScrapeActionView::DeleteVideo {
                key: key@,
                video_id: video_id@,
            },
            ScrapeAction::UpsertVideo { video_id, document } => ScrapeActionView::UpsertVideo {
                video_id: video_id@,
                document: document@,
            },
            ScrapeAction::CountVideos { channel_id } => ScrapeActionView::CountVideos {
                channel_id: channel_id@,
            },
            ScrapeAction::StoreRollup {
                channel_id,
                video_count,
                last_upload_timestamp,
            } => ScrapeActionView::StoreRollup {
                channel_id: channel_id@,
                video_count: *video_count,
                last_upload_timestamp: *last_upload_timestamp,
            },
            ScrapeAction::Finish => ScrapeActionView::Finish,
            ScrapeAction::Fail { error } => ScrapeActionView::Fail { error: *error },
        }
    }
}

/// A feed entry that was found due, with its publication time.
pub struct PendingVideo {
    pub entry: FeedEntry,
    pub published: i64,
}

/// The mathematical value of a [`PendingVideo`].
pub struct PendingVideoView {
    pub entry: FeedEntryView,
    pub published: i64,
}

impl View for PendingVideo {
    type V = PendingVideoView;

    open spec fn view(&self) -> PendingVideoView {
        PendingVideoView { entry: self.entry@, published: self.published }
    }
}

/// The ingestion pipeline of one channel at a time.
pub struct VideoScraper {
    phase: ScrapePhase,
    channel_id: String,
    /// Entries of the feed that are still to be examined, in feed order.
    entries: VecDeque<FeedEntry>,
    /// When each stored video was last refreshed, as read at the start.
    lookup: UpdatedLookup,
    /// The video whose details are awaited or which is being written.
    pending: Option<PendingVideo>,
    /// The latest publication time among the videos stored in this pass.
    newest_upload: Option<i64>,
}

/// The mathematical value of a [`VideoScraper`].
pub struct ScraperView {
    pub phase: ScrapePhase,
    pub channel_id: Seq<char>,
    pub entries: Seq<FeedEntryView>,
    pub lookup: Map<Seq<char>, i64>,
    pub pending: Option<PendingVideoView>,
    pub newest_upload: Option<i64>,
}

impl View for VideoScraper {
    type V = ScraperView;

    closed spec fn view(&self) -> ScraperView {
        ScraperView {
            phase: self.phase,
            channel_id: self.channel_id@,
            entries: views(self.entries@),
            lookup: self.lookup@,
            pending: option_view(self.pending),
            newest_upload: self.newest_upload,
        }
    }
}

/// A scraper with no pass under way.
pub open spec fn idle_scraper() -> ScraperView {
    ScraperView {
        phase: ScrapePhase::Idle,
        channel_id: Seq::empty(),
        entries: Seq::empty(),
        lookup: Map::empty(),
        pending: None,
        newest_upload: None,
    }
}

/// The pass is given up: nothing of it is kept.
pub open spec fn give_up(error: ScrapeError) -> (ScraperView, ScrapeActionView) {
    (idle_scraper(), ScrapeActionView::Fail { error })
}

/// The pass has ended well.
pub open spec fn complete() -> (ScraperView, ScrapeActionView) {
    (idle_scraper(), ScrapeActionView::Finish)
}

/// The later of the latest publication time so far and one more.
pub open spec fn newer_upload(newest: Option<i64>, published: i64) -> Option<i64> {
    match newest {
        Some(latest) => if published > latest {
            Some(published)
        } else {
            Some(latest)
        },
        None => Some(published),
    }
}

/// The time of last upload that a pass reports: the latest publication time
/// among the videos it stored, or zero where it stored none.
pub open spec fn last_upload(newest: Option<i64>) -> i64 {
    match newest {
        Some(latest) => latest,
        None => 0,
    }
}

/// Whether the walk over the feed stops at an entry: its publication time
/// cannot be read, or its video is due.
pub open spec fn stops_walk(lookup: Map<Seq<char>, i64>, entry: FeedEntryView, now: i64) -> bool {
    match rfc3339_timestamp(entry.published) {
        Some(published) => video_is_due(lookup, entry.video_id, published, now),
        None => true,
    }
}

/// The walk over the entries that are left: entries that are not due are
/// passed over, in feed order, until one is due (its details are fetched),
/// one has a publication time that cannot be read (the pass is given up) or
/// none is left (the stored videos are counted).
pub open spec fn examine(s: ScraperView, now: i64) -> (ScraperView, ScrapeActionView)
    decreases s.entries.len(),
{
    if s.entries.len() == 0 {
        (
            ScraperView { phase: ScrapePhase::Counting, pending: None, ..s },
            ScrapeActionView::CountVideos { channel_id: s.channel_id },
        )
    } else {
        let entry = s.entries[0];
        let rest = ScraperView { entries: s.entries.drop_first(), pending: None, ..s };
        match rfc3339_timestamp(entry.published) {
            None => give_up(ScrapeError::InvalidPublishedDate),
            Some(published) => {
                if video_is_due(s.lookup, entry.video_id, published, now) {
                    (
                        ScraperView {
                            phase: ScrapePhase::FetchingDetails,
                            pending: Some(PendingVideoView { entry, published }),
                            ..rest
                        },
                        ScrapeActionView::FetchDetails { video_id: entry.video_id },
                    )
                } else {
                    examine(rest, now)
                }
            },
        }
    }
}

/// One transition of an ingestion pass: the state and the action that follow
/// from a state and an event that arrives at the instant `now`.
pub open spec fn scrape_step(s: ScraperView, event: ScrapeEventView, now: i64) -> (
    ScraperView,
    ScrapeActionView,
) {
    match (s.phase, event) {
        (ScrapePhase::Idle, ScrapeEventView::Begin { channel_id }) => (
            ScraperView { phase: ScrapePhase::FetchingFeed, channel_id, ..idle_scraper() },
            ScrapeActionView::FetchFeed { url: feed_url(channel_id) },
        ),
        (ScrapePhase::FetchingFeed, ScrapeEventView::FeedResponse { status, body }) => {
            if status == FEED_STATUS_OK {
                (
                    ScraperView { phase: ScrapePhase::ParsingFeed, ..s },
                    ScrapeActionView::ParseFeed { xml: normalized_feed(body) },
                )
            } else {
                give_up(ScrapeError::FeedStatus { status })
            }
        },
        (ScrapePhase::FetchingFeed, ScrapeEventView::FeedUnavailable) => give_up(
            ScrapeError::FeedUnavailable,
        ),
        (ScrapePhase::ParsingFeed, ScrapeEventView::FeedParsed { entries }) => (
            ScraperView { phase: ScrapePhase::LoadingLookup, entries, ..s },
            ScrapeActionView::LoadUpdatedLookup { channel_id: s.channel_id },
        ),
        (ScrapePhase::ParsingFeed, ScrapeEventView::FeedUnparsable) => give_up(
            ScrapeError::FeedUnparsable,
        ),
        (ScrapePhase::LoadingLookup, ScrapeEventView::LookupLoaded { lookup }) => examine(
            ScraperView { lookup, ..s },
            now,
        ),
        (ScrapePhase::LoadingLookup, ScrapeEventView::LookupUnavailable) => give_up(
            ScrapeError::LookupUnavailable,
        ),
        (ScrapePhase::FetchingDetails, ScrapeEventView::DetailsFetched { details }) => {
            match s.pending {
                Some(pending) => {
                    if is_public(details) {
                        (
                            ScraperView {
                                phase: ScrapePhase::Upserting,
                                newest_upload: newer_upload(s.newest_upload, pending.published),
                                ..s
                            },
                            ScrapeActionView::UpsertVideo {
                                video_id: pending.entry.video_id,
                                document: video_document(
                                    s.channel_id,
                                    pending.entry,
                                    pending.published,
                                    details,
                                    now,
                                ),
                            },
                        )
                    } else {
                        (
                            ScraperView { phase: ScrapePhase::Deleting, ..s },
                            ScrapeActionView::DeleteVideo {
                                key: s.channel_id,
                                video_id: pending.entry.video_id,
                            },
                        )
                    }
                },
                None => give_up(ScrapeError::UnexpectedEvent),
            }
        },
        (ScrapePhase::FetchingDetails, ScrapeEventView::DetailsUnavailable) => give_up(
            ScrapeError::DetailsUnavailable,
        ),
        (ScrapePhase::Deleting, ScrapeEventView::VideoDeleted) => examine(s, now),
        (ScrapePhase::Deleting, ScrapeEventView::DeleteFailed) => give_up(
            ScrapeError::DeleteFailed,
        ),
        (ScrapePhase::Upserting, ScrapeEventView::VideoUpserted) => examine(s, now),
        (ScrapePhase::Upserting, ScrapeEventView::UpsertFailed) => give_up(
            ScrapeError::UpsertFailed,
        ),
        (ScrapePhase::Counting, ScrapeEventView::VideosCounted { count }) => (
            ScraperView { phase: ScrapePhase::StoringRollup, ..s },
            ScrapeActionView::StoreRollup {
                channel_id: s.channel_id,
                video_count: count,
                last_upload_timestamp: last_upload(s.newest_upload),
            },
        ),
        (ScrapePhase::Counting, ScrapeEventView::CountUnavailable) => complete(),
        (ScrapePhase::StoringRollup, ScrapeEventView::RollupStored) => complete(),
        _ => give_up(ScrapeError::UnexpectedEvent),
    }
}

impl VideoScraper {
    /// A scraper with no pass under way.
    pub fn new() -> (scraper: VideoScraper)
        ensures
            scraper@ == idle_scraper(),
    {
        proof {
            lemma_views_empty::<FeedEntry>();
        }
        VideoScraper {
            phase: ScrapePhase::Idle,
            channel_id: String::new(),
            entries: VecDeque::new(),
            lookup: UpdatedLookup::new(),
            pending: None,
            newest_upload: None,
        }
    }

    /// Where the pass stands.
    pub fn phase(&self) -> (phase: ScrapePhase)
        ensures
            phase == self@.phase,
    {
        self.phase
    }

    /// Takes the outcome of the last action and names the next one, reading
    /// the clock once. The transition is [`scrape_step`] at the instant that
    /// the clock gave, whatever that instant is.
    pub fn scrape(&mut self, event: ScrapeEvent) -> (action: ScrapeAction)
        ensures
            exists|now: i64|
                (final(self)@, action@) == #[trigger] scrape_step(old(self)@, event@, now),
    {
        let now: i64 = current_timestamp();
        self.scrape_at(event, now)
    }

    /// Takes the outcome of the last action, which arrived at the instant
    /// `now`, and names the next action.
    pub fn scrape_at(&mut self, event: ScrapeEvent, now: i64) -> (action: ScrapeAction)
        ensures
            (final(self)@, action@) == scrape_step(old(self)@, event@, now),
    {
        match event {
            ScrapeEvent::Begin { channel_id } => {
                if self.phase == ScrapePhase::Idle {
                    let url: String = video_feed_url(channel_id.as_str());
                    self.reset();
                    self.channel_id = channel_id;
                    self.phase = ScrapePhase::FetchingFeed;
                    ScrapeAction::FetchFeed { url }
                } else {
                    self.give_up(ScrapeError::UnexpectedEvent)
                }
            },
            ScrapeEvent::FeedResponse { status, body } => {
                if self.phase == ScrapePhase::FetchingFeed {
                    if feed_response_accepted(status) {
                        self.phase = ScrapePhase::ParsingFeed;
                        ScrapeAction::ParseFeed { xml: normalize_feed_xml(body.as_str()) }
                    } else {
                        self.give_up(ScrapeError::FeedStatus { status })
                    }
                } else {
                    self.give_up(ScrapeError::UnexpectedEvent)
                }
            },
            ScrapeEvent::FeedUnavailable => {
                if self.phase == ScrapePhase::FetchingFeed {
                    self.give_up(ScrapeError::FeedUnavailable)
                } else {
                    self.give_up(ScrapeError::UnexpectedEvent)
                }
            },
            ScrapeEvent::FeedParsed { entries } => {
                if self.phase == ScrapePhase::ParsingFeed {
                    self.entries = into_queue(entries);
                    self.phase = ScrapePhase::LoadingLookup;
                    ScrapeAction::LoadUpdatedLookup { channel_id: self.channel_id.clone() }
                } else {
                    self.give_up(ScrapeError::UnexpectedEvent)
                }
            },
            ScrapeEvent::FeedUnparsable => {
                if self.phase == ScrapePhase::ParsingFeed {
                    self.give_up(ScrapeError::FeedUnparsable)
                } else {
                    self.give_up(ScrapeError::UnexpectedEvent)
                }
            },
            ScrapeEvent::LookupLoaded { lookup } => {
                if self.phase == ScrapePhase::LoadingLookup {
                    self.lookup = lookup;
                    self.examine(now)
                } else {
                    self.give_up(ScrapeError::UnexpectedEvent)
                }
            },
            ScrapeEvent::LookupUnavailable => {
                if self.phase == ScrapePhase::LoadingLookup {
                    self.give_up(ScrapeError::LookupUnavailable)
                } else {
                    self.give_up(ScrapeError::UnexpectedEvent)
                }
            },
            ScrapeEvent::DetailsFetched { details } => {
                if self.phase == ScrapePhase::FetchingDetails {
                    match self.pending.take() {
                        Some(pending) => {
                            let action = if details.is_public() {
                                self.newest_upload = Some(
                                    later_upload(self.newest_upload, pending.published),
                                );
                                self.phase = ScrapePhase::Upserting;
                                ScrapeAction::UpsertVideo {
                                    video_id: pending.entry.video_id.clone(),
                                    document: build_video_document_at(
                                        self.channel_id.as_str(),
                                        &pending.entry,
                                        pending.published,
                                        &details,
                                        now,
                                    ),
                                }
                            } else {
                                self.phase = ScrapePhase::Deleting;
                                ScrapeAction::DeleteVideo {
                                    key: self.channel_id.clone(),
                                    video_id: pending.entry.video_id.clone(),
                                }
                            };
                            self.pending = Some(pending);
                            action
                        },
                        None => self.give_up(ScrapeError::UnexpectedEvent),
                    }
                } else {
                    self.give_up(ScrapeError::UnexpectedEvent)
                }
            },
            ScrapeEvent::DetailsUnavailable => {
                if self.phase == ScrapePhase::FetchingDetails {
                    self.give_up(ScrapeError::DetailsUnavailable)
                } else {
                    self.give_up(ScrapeError::UnexpectedEvent)
                }
            },
            ScrapeEvent::VideoDeleted => {
                if self.phase == ScrapePhase::Deleting {
                    self.examine(now)
                } else {
                    self.give_up(ScrapeError::UnexpectedEvent)
                }
            },
            ScrapeEvent::DeleteFailed => {
                if self.phase == ScrapePhase::Deleting {
                    self.give_up(ScrapeError::DeleteFailed)
                } else {
                    self.give_up(ScrapeError::UnexpectedEvent)
                }
            },
            ScrapeEvent::VideoUpserted => {
                if self.phase == ScrapePhase::Upserting {
                    self.examine(now)
                } else {
                    self.give_up(ScrapeError::UnexpectedEvent)
                }
            },
            ScrapeEvent::UpsertFailed => {
                if self.phase == ScrapePhase::Upserting {
                    self.give_up(ScrapeError::UpsertFailed)
                } else {
                    self.give_up(ScrapeError::UnexpectedEvent)
                }
            },
            ScrapeEvent::VideosCounted { count } => {
                if self.phase == ScrapePhase::Counting {
                    let last_upload_timestamp: i64 = match self.newest_upload {
                        Some(latest) => latest,
                        None => 0,
                    };
                    self.phase = ScrapePhase::StoringRollup;
                    ScrapeAction::StoreRollup {
                        channel_id: self.channel_id.clone(),
                        video_count: count,
                        last_upload_timestamp,
                    }
                } else {
                    self.give_up(ScrapeError::UnexpectedEvent)
                }
            },
            ScrapeEvent::CountUnavailable => {
                if self.phase == ScrapePhase::Counting {
                    self.reset();
                    ScrapeAction::Finish
                } else {
                    self.give_up(ScrapeError::UnexpectedEvent)
                }
            },
            ScrapeEvent::RollupStored => {
                if self.phase == ScrapePhase::StoringRollup {
                    self.reset();
                    ScrapeAction::Finish
                } else {
                    self.give_up(ScrapeError::UnexpectedEvent)
                }
            },
        }
    }

    fn reset(&mut self)
        ensures
            final(self)@ == idle_scraper(),
    {
        proof {
            lemma_views_empty::<FeedEntry>();
        }
        self.phase = ScrapePhase::Idle;
        self.channel_id = String::new();
        self.entries = VecDeque::new();
        self.lookup = UpdatedLookup::new();
        self.pending = None;
        self.newest_upload = None;
    }

    fn give_up(&mut self, error: ScrapeError) -> (action: ScrapeAction)
        ensures
            (final(self)@, action@) == give_up(error),
    {
        self.reset();
        ScrapeAction::Fail { error }
    }

    fn examine(&mut self, now: i64) -> (action: ScrapeAction)
        ensures
            (final(self)@, action@) == examine(old(self)@, now),
    {
        self.pending = None;
        loop
            invariant
                self@.pending is None,
                examine(self@, now) == examine(old(self)@, now),
            decreases self.entries@.len(),
        {
            proof {
                if self.entries@.len() > 0 {
                    lemma_views_drop_first(self.entries@);
                }
            }
            match self.entries.pop_front() {
                None => {
                    self.phase = ScrapePhase::Counting;
                    return ScrapeAction::CountVideos { channel_id: self.channel_id.clone() };
                },
                Some(entry) => {
                    match published_timestamp(entry.published.as_str()) {
                        None => {
                            return self.give_up(ScrapeError::InvalidPublishedDate);
                        },
                        Some(published) => {
                            let updated_at: Option<i64> = self.lookup.get(entry.video_id.as_str());
                            if should_update_video_at(updated_at, published, now) {
                                let video_id: String = entry.video_id.clone();
                                self.pending = Some(PendingVideo { entry, published });
                                self.phase = ScrapePhase::FetchingDetails;
                                return ScrapeAction::FetchDetails { video_id };
                            }
                        },
                    }
                },
            }
        }
    }
}

/// The later of the latest publication time so far and one more.
fn later_upload(newest: Option<i64>, published: i64) -> (latest: i64)
    ensures
        Some(latest) == newer_upload(newest, published),
{
    match newest {
        Some(latest) => if published > latest {
            published
        } else {
            latest
        },
        None => published,
    }
}

} // verus!
