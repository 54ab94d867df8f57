//! The discovery loop as a machine.
//!
//! Once a day the loop lists the channels that uploaded recently, fetches the
//! subscriptions of each, puts every subscription through the discovery conditions
//! and dispatches a crawl command for each candidate that passes. All of the
//! outside work (storage, the video platform, the classifier, the command
//! channel, the sleep) is done by the caller: the machine names the next
//! action and is told how it ended.

use crate::clock::current_timestamp;
use crate::crawler::discovery_gate::{qualifies, CandidateChecks};
use crate::sequences::{
    into_queue, lemma_views_drop_first, lemma_views_empty, option_view, views,
};
use std::collections::VecDeque;
use vstd::prelude::*;

verus! {

/// The most channels whose subscriptions one pass walks.
pub const CHANNEL_BATCH_LIMIT: u64 = 8000;

/// Seconds between two gate checks, and the least age of the last pass at
/// which a new pass starts.
pub const ONE_DAYS_IN_SECONDS: u64 = 86400;

/// A channel found among the subscriptions of a followed channel.
#[derive(Debug, PartialEq, Eq)]
pub struct SubscriptionCandidate {
    pub channel_id: String,
    pub title: String,
    pub description: String,
}

/// The mathematical value of a [`SubscriptionCandidate`].
pub struct SubscriptionCandidateView {
    pub channel_id: Seq<char>,
    pub title: Seq<char>,
    pub description: Seq<char>,
}

impl View for SubscriptionCandidate {
    type V = SubscriptionCandidateView;

    open spec fn view(&self) -> SubscriptionCandidateView {
        SubscriptionCandidateView {
            channel_id: self.channel_id@,
            title: self.title@,
            description: self.description@,
        }
    }
}

impl Clone for SubscriptionCandidate {
    fn clone(&self) -> (copy: SubscriptionCandidate)
        ensures
            copy@ == self@,
    {
        SubscriptionCandidate {
            channel_id: self.channel_id.clone(),
            title: self.title.clone(),
            description: self.description.clone(),
        }
    }
}

/// A request to crawl one channel in depth.
#[derive(Debug, PartialEq, Eq)]
pub struct CrawlChannelCommand {
    pub channel_id: String,
    /// Whether the worker skips its own classification of the channel.
    pub ignore_guitar_terms: bool,
}

/// The mathematical value of a [`CrawlChannelCommand`].
pub struct CrawlChannelCommandView {
    pub channel_id: Seq<char>,
    pub ignore_guitar_terms: bool,
}

impl View for CrawlChannelCommand {
    type V = CrawlChannelCommandView;

    open spec fn view(&self) -> CrawlChannelCommandView {
        CrawlChannelCommandView {
            channel_id: self.channel_id@,
            ignore_guitar_terms: self.ignore_guitar_terms,
        }
    }
}

impl Clone for CrawlChannelCommand {
    fn clone(&self) -> (copy: CrawlChannelCommand)
        ensures
            copy@ == self@,
    {
        CrawlChannelCommand {
            channel_id: self.channel_id.clone(),
            ignore_guitar_terms: self.ignore_guitar_terms,
        }
    }
}

/// The stored progress of discovery.
#[derive(Clone, Copy, Debug, PartialEq, Eq, Structural)]
pub struct CrawlProgress {
    /// When the last discovery pass was completed, in Unix seconds.
    pub last_discovery_crawl_timestamp: i64,
}

/// Why the discovery loop stopped.
#[derive(Clone, Copy, Debug, PartialEq, Eq, Structural)]
pub enum CrawlError {
    /// A crawl command could not be handed to the workers.
    DispatchFailed,
    /// The event does not answer the action that the machine asked for.
    UnexpectedEvent,
}

/// Where the discovery loop stands.
#[derive(Clone, Copy, Debug, PartialEq, Eq, Structural)]
pub enum CrawlPhase {
    /// Waiting to be woken for the next gate check.
    Idle,
    /// Waiting for the stored progress.
    Gating,
    /// Waiting for the list of recently active channels.
    ListingChannels,
    /// Waiting for the subscriptions of a channel.
    ListingSubscriptions,
    /// Waiting for the checks on a candidate.
    CheckingCandidate,
    /// Waiting for a crawl command to be accepted.
    Dispatching,
    /// Waiting for the new progress to be stored.
    Recording,
    /// Stopped for good.
    Stopped,
}

/// What the caller reports to the discovery loop.
#[derive(Debug, PartialEq, Eq)]
pub enum CrawlEvent {
    /// The loop is started, or a sleep has ended.
    Wake,
    /// The stored progress was read.
    ProgressLoaded { progress: CrawlProgress },
    /// The stored progress could not be read.
    ProgressUnavailable,
    /// The recently active channels, at most as many as were asked for.
    ChannelsLoaded { channel_ids: Vec<String> },
    /// The recently active channels could not be listed.
    ChannelsUnavailable,
    /// The subscriptions of the channel that was asked for.
    SubscriptionsLoaded { candidates: Vec<SubscriptionCandidate> },
    /// The subscriptions could not be fetched.
    SubscriptionsUnavailable,
    /// The checks on the candidate that was asked for.
    CandidateChecked { checks: CandidateChecks },
    /// The crawl command was accepted.
    Dispatched,
    /// The crawl command could not be delivered.
    DispatchFailed,
    /// The write of the new progress has ended, whether or not it took.
    ProgressStored,
}

/// The mathematical value of a [`CrawlEvent`].
pub enum CrawlEventView {
    Wake,
    ProgressLoaded { progress: CrawlProgress },
    ProgressUnavailable,
    ChannelsLoaded { channel_ids: Seq<Seq<char>> },
    ChannelsUnavailable,
    SubscriptionsLoaded { candidates: Seq<SubscriptionCandidateView> },
    SubscriptionsUnavailable,
    CandidateChecked { checks: CandidateChecks },
    Dispatched,
    DispatchFailed,
    ProgressStored,
}

impl View for CrawlEvent {
    type V = CrawlEventView;

    open spec fn view(&self) -> CrawlEventView {
        match self {
            CrawlEvent::Wake => CrawlEventView::Wake,
            CrawlEvent::ProgressLoaded { progress } => CrawlEventView::ProgressLoaded {
                progress: *progress,
            },
            CrawlEvent::ProgressUnavailable => CrawlEventView::ProgressUnavailable,
            CrawlEvent::ChannelsLoaded { channel_ids } => CrawlEventView::ChannelsLoaded {
                channel_ids: views(channel_ids@),
            },
            CrawlEvent::ChannelsUnavailable => CrawlEventView::ChannelsUnavailable,
            CrawlEvent::SubscriptionsLoaded { candidates } => CrawlEventView::SubscriptionsLoaded {
                candidates: views(candidates@),
            },
            CrawlEvent::SubscriptionsUnavailable => CrawlEventView::SubscriptionsUnavailable,
            CrawlEvent::CandidateChecked { checks } => CrawlEventView::CandidateChecked {
                checks: *checks,
            },
            CrawlEvent::Dispatched => CrawlEventView::Dispatched,
            CrawlEvent::DispatchFailed => CrawlEventView::DispatchFailed,
            CrawlEvent::ProgressStored => CrawlEventView::ProgressStored,
        }
    }
}

/// What the discovery loop asks the caller to do next.
#[derive(Debug, PartialEq, Eq)]
pub enum CrawlAction {
    /// Read the stored progress.
    LoadProgress,
    /// List up to `limit` channels that uploaded within the last month.
    LoadChannels { limit: u64 },
    /// Fetch the subscriptions of a channel.
    LoadSubscriptions { channel_id: String },
    /// Ask both registries, the exclusion list and the classifier about a
    /// candidate. All four are asked, whatever the others answer.
    CheckCandidate { candidate: SubscriptionCandidate },
    /// Hand a crawl command to the workers.
    Dispatch { command: CrawlChannelCommand },
    /// Store the progress of discovery.
    StoreProgress { progress: CrawlProgress },
    /// Sleep, then wake the loop.
    Sleep { seconds: u64 },
    /// Give up: the loop has stopped.
    Abort { error: CrawlError },
}

/// The mathematical value of a [`CrawlAction`].
pub enum CrawlActionView {
    LoadProgress,
    LoadChannels { limit: u64 },
    LoadSubscriptions { channel_id: Seq<char> },
    CheckCandidate { candidate: SubscriptionCandidateView },
    Dispatch { command: CrawlChannelCommandView },
    StoreProgress { progress: CrawlProgress },
    Sleep { seconds: u64 },
    Abort { error: CrawlError },
}

impl View for CrawlAction {
    type V = CrawlActionView;

    open spec fn view(&self) -> CrawlActionView {
        match self {
            CrawlAction::LoadProgress => CrawlActionView::LoadProgress,
            CrawlAction::LoadChannels { limit } => CrawlActionView::LoadChannels { limit: *limit },
            CrawlAction::LoadSubscriptions { channel_id } => CrawlActionView::LoadSubscriptions {
                channel_id: channel_id@,
            },
            CrawlAction::CheckCandidate { candidate } => CrawlActionView::CheckCandidate {
                candidate: candidate@,
            },
            CrawlAction::Dispatch { command } => CrawlActionView::Dispatch { command: command@ },
            CrawlAction::StoreProgress { progress } => CrawlActionView::StoreProgress {
                progress: *progress,
            },
            CrawlAction::Sleep { seconds } => CrawlActionView::Sleep { seconds: *seconds },
            CrawlAction::Abort { error } => CrawlActionView::Abort { error: *error },
        }
    }
}

/// The state of the discovery loop.
pub struct ChannelDiscoveryCrawler {
    phase: CrawlPhase,
    /// Channels of this pass whose subscriptions are still to be fetched.
    channels: VecDeque<String>,
    /// Subscriptions of the current channel that are still to be examined.
    candidates: VecDeque<SubscriptionCandidate>,
    /// The candidate under examination or in dispatch.
    candidate: Option<SubscriptionCandidate>,
}

/// The mathematical value of a [`ChannelDiscoveryCrawler`].
pub struct CrawlerView {
    pub phase: CrawlPhase,
    pub channels: Seq<Seq<char>>,
    pub candidates: Seq<SubscriptionCandidateView>,
    pub candidate: Option<SubscriptionCandidateView>,
}

impl View for ChannelDiscoveryCrawler {
    type V = CrawlerView;

    closed spec fn view(&self) -> CrawlerView {
        CrawlerView {
            phase: self.phase,
            channels: views(self.channels@),
            candidates: views(self.candidates@),
            candidate: option_view(self.candidate),
        }
    }
}

/// A discovery pass is due when a day or more has gone by since the last.
pub open spec fn crawl_due(last_crawl_timestamp: int, now: int) -> bool {
    now - last_crawl_timestamp >= ONE_DAYS_IN_SECONDS
}

/// The loop before its first gate check.
pub open spec fn initial_crawler() -> CrawlerView {
    CrawlerView {
        phase: CrawlPhase::Idle,
        channels: Seq::empty(),
        candidates: Seq::empty(),
        candidate: None,
    }
}

/// The loop goes to sleep for a day.
pub open spec fn rest(s: CrawlerView) -> (CrawlerView, CrawlActionView) {
    (
        CrawlerView { phase: CrawlPhase::Idle, ..s },
        CrawlActionView::Sleep { seconds: ONE_DAYS_IN_SECONDS },
    )
}

/// The loop stops for good.
pub open spec fn halt(s: CrawlerView, error: CrawlError) -> (CrawlerView, CrawlActionView) {
    (CrawlerView { phase: CrawlPhase::Stopped, ..s }, CrawlActionView::Abort { error })
}

/// The pass turns to the next channel, or ends by recording its time.
pub open spec fn visit_channel(s: CrawlerView, now: i64) -> (CrawlerView, CrawlActionView) {
    if s.channels.len() > 0 {
        (
            CrawlerView {
                phase: CrawlPhase::ListingSubscriptions,
                channels: s.channels.drop_first(),
                candidates: Seq::empty(),
                candidate: None,
            },
            CrawlActionView::LoadSubscriptions { channel_id: s.channels[0] },
        )
    } else {
        (
            CrawlerView {
                phase: CrawlPhase::Recording,
                channels: Seq::empty(),
                candidates: Seq::empty(),
                candidate: None,
            },
            CrawlActionView::StoreProgress {
                progress: CrawlProgress { last_discovery_crawl_timestamp: now },
            },
        )
    }
}

/// The pass turns to the next subscription of the current channel, or to the
/// next channel when none is left.
pub open spec fn visit_candidate(s: CrawlerView, now: i64) -> (CrawlerView, CrawlActionView) {
    if s.candidates.len() > 0 {
        (
            CrawlerView {
                phase: CrawlPhase::CheckingCandidate,
                candidates: s.candidates.drop_first(),
                candidate: Some(s.candidates[0]),
                ..s
            },
            CrawlActionView::CheckCandidate { candidate: s.candidates[0] },
        )
    } else {
        visit_channel(s, now)
    }
}

/// The command that is dispatched for a candidate that qualified.
pub open spec fn command_for(candidate: SubscriptionCandidateView) -> CrawlChannelCommandView {
    CrawlChannelCommandView { channel_id: candidate.channel_id, ignore_guitar_terms: false }
}

/// One transition of the discovery loop: the state and the action that follow
/// from a state and an event that arrives at the instant `now`.
pub open spec fn crawl_step(s: CrawlerView, event: CrawlEventView, now: i64) -> (
    CrawlerView,
    CrawlActionView,
) {
    match (s.phase, event) {
        (CrawlPhase::Idle, CrawlEventView::Wake) => (
            CrawlerView { phase: CrawlPhase::Gating, ..s },
            CrawlActionView::LoadProgress,
        ),
        (CrawlPhase::Gating, CrawlEventView::ProgressLoaded { progress }) => {
            if crawl_due(progress.last_discovery_crawl_timestamp as int, now as int) {
                (
                    CrawlerView { phase: CrawlPhase::ListingChannels, ..s },
                    CrawlActionView::LoadChannels { limit: CHANNEL_BATCH_LIMIT },
                )
            } else {
                rest(s)
            }
        },
        (CrawlPhase::Gating, CrawlEventView::ProgressUnavailable) => rest(s),
        (CrawlPhase::ListingChannels, CrawlEventView::ChannelsLoaded { channel_ids }) => {
            visit_channel(CrawlerView { channels: channel_ids, ..s }, now)
        },
        (CrawlPhase::ListingChannels, CrawlEventView::ChannelsUnavailable) => {
            visit_channel(CrawlerView { channels: Seq::empty(), ..s }, now)
        },
        (CrawlPhase::ListingSubscriptions, CrawlEventView::SubscriptionsLoaded { candidates }) => {
            visit_candidate(CrawlerView { candidates, ..s }, now)
        },
        (CrawlPhase::ListingSubscriptions, CrawlEventView::SubscriptionsUnavailable) => {
            visit_candidate(CrawlerView { candidates: Seq::empty(), ..s }, now)
        },
        (CrawlPhase::CheckingCandidate, CrawlEventView::CandidateChecked { checks }) => {
            match s.candidate {
                Some(candidate) => {
                    if qualifies(checks) {
                        (
                            CrawlerView { phase: CrawlPhase::Dispatching, ..s },
                            CrawlActionView::Dispatch { command: command_for(candidate) },
                        )
                    } else {
                        visit_candidate(CrawlerView { candidate: None, ..s }, now)
                    }
                },
                None => halt(s, CrawlError::UnexpectedEvent),
            }
        },
        (CrawlPhase::Dispatching, CrawlEventView::Dispatched) => {
            visit_candidate(CrawlerView { candidate: None, ..s }, now)
        },
        (CrawlPhase::Dispatching, CrawlEventView::DispatchFailed) => {
            halt(s, CrawlError::DispatchFailed)
        },
        (CrawlPhase::Recording, CrawlEventView::ProgressStored) => rest(s),
        _ => halt(s, CrawlError::UnexpectedEvent),
    }
}

/// Decides whether a discovery pass is due: a day or more since the last one.
/// No pair of timestamps overflows.
pub fn should_crawl(last_crawl_timestamp: i64, now: i64) -> (due: bool)
    ensures
        due == crawl_due(last_crawl_timestamp as int, now as int),
{
    now as i128 - last_crawl_timestamp as i128 >= ONE_DAYS_IN_SECONDS as i128
}

impl ChannelDiscoveryCrawler {
    /// A discovery loop that waits for its first wake-up.
    pub fn new() -> (crawler: ChannelDiscoveryCrawler)
        ensures
            crawler@ == initial_crawler(),
    {
        proof {
            lemma_views_empty::<String>();
            lemma_views_empty::<SubscriptionCandidate>();
        }
        ChannelDiscoveryCrawler {
            phase: CrawlPhase::Idle,
            channels: VecDeque::new(),
            candidates: VecDeque::new(),
            candidate: None,
        }
    }

    /// Where the loop stands.
    pub fn phase(&self) -> (phase: CrawlPhase)
        ensures
            phase == self@.phase,
    {
        self.phase
    }

    /// Takes the outcome of the last action and names the next one, reading
    /// the clock once. The transition is [`crawl_step`] at the instant that
    /// the clock gave, whatever that instant is.
    pub fn crawl(&mut self, event: CrawlEvent) -> (action: CrawlAction)
        ensures
            exists|now: i64|
                (final(self)@, action@) == #[trigger] crawl_step(old(self)@, event@, now),
    {
        let now: i64 = current_timestamp();
        self.crawl_at(event, now)
    }

    /// Takes the outcome of the last action, which arrived at the instant
    /// `now`, and names the next action.
    pub fn crawl_at(&mut self, event: CrawlEvent, now: i64) -> (action: CrawlAction)
        ensures
            (final(self)@, action@) == crawl_step(old(self)@, event@, now),
    {
        match event {
            CrawlEvent::Wake => {
                if self.phase == CrawlPhase::Idle {
                    self.phase = CrawlPhase::Gating;
                    CrawlAction::LoadProgress
                } else {
                    self.halt(CrawlError::UnexpectedEvent)
                }
            },
            CrawlEvent::ProgressLoaded { progress } => {
                if self.phase == CrawlPhase::Gating {
                    if should_crawl(progress.last_discovery_crawl_timestamp, now) {
                        self.phase = CrawlPhase::ListingChannels;
                        CrawlAction::LoadChannels { limit: CHANNEL_BATCH_LIMIT }
                    } else {
                        self.rest()
                    }
                } else {
                    self.halt(CrawlError::UnexpectedEvent)
                }
            },
            CrawlEvent::ProgressUnavailable => {
                if self.phase == CrawlPhase::Gating {
                    self.rest()
                } else {
                    self.halt(CrawlError::UnexpectedEvent)
                }
            },
            CrawlEvent::ChannelsLoaded { channel_ids } => {
                if self.phase == CrawlPhase::ListingChannels {
                    self.channels = into_queue(channel_ids);
                    self.visit_channel(now)
                } else {
                    self.halt(CrawlError::UnexpectedEvent)
                }
            },
            CrawlEvent::ChannelsUnavailable => {
                if self.phase == CrawlPhase::ListingChannels {
                    proof {
                        lemma_views_empty::<String>();
                    }
                    self.channels = VecDeque::new();
                    self.visit_channel(now)
                } else {
                    self.halt(CrawlError::UnexpectedEvent)
                }
            },
            CrawlEvent::SubscriptionsLoaded { candidates } => {
                if self.phase == CrawlPhase::ListingSubscriptions {
                    self.candidates = into_queue(candidates);
                    self.visit_candidate(now)
                } else {
                    self.halt(CrawlError::UnexpectedEvent)
                }
            },
            CrawlEvent::SubscriptionsUnavailable => {
                if self.phase == CrawlPhase::ListingSubscriptions {
                    proof {
                        lemma_views_empty::<SubscriptionCandidate>();
                    }
                    self.candidates = VecDeque::new();
                    self.visit_candidate(now)
                } else {
                    self.halt(CrawlError::UnexpectedEvent)
                }
            },
            CrawlEvent::CandidateChecked { checks } => {
                if self.phase == CrawlPhase::CheckingCandidate {
                    match self.candidate.take() {
                        Some(candidate) => {
                            if checks.qualifies() {
                                let command = CrawlChannelCommand {
                                    channel_id: candidate.channel_id.clone(),
                                    ignore_guitar_terms: false,
                                };
                                self.candidate = Some(candidate);
                                self.phase = CrawlPhase::Dispatching;
                                CrawlAction::Dispatch { command }
                            } else {
                                self.visit_candidate(now)
                            }
                        },
                        None => self.halt(CrawlError::UnexpectedEvent),
                    }
                } else {
                    self.halt(CrawlError::UnexpectedEvent)
                }
            },
            CrawlEvent::Dispatched => {
                if self.phase == CrawlPhase::Dispatching {
                    self.candidate = None;
                    self.visit_candidate(now)
                } else {
                    self.halt(CrawlError::UnexpectedEvent)
                }
            },
            CrawlEvent::DispatchFailed => {
                if self.phase == CrawlPhase::Dispatching {
                    self.halt(CrawlError::DispatchFailed)
                } else {
                    self.halt(CrawlError::UnexpectedEvent)
                }
            },
            CrawlEvent::ProgressStored => {
                if self.phase == CrawlPhase::Recording {
                    self.rest()
                } else {
                    self.halt(CrawlError::UnexpectedEvent)
                }
            },
        }
    }

    fn rest(&mut self) -> (action: CrawlAction)
        ensures
            (final(self)@, action@) == rest(old(self)@),
    {
        self.phase = CrawlPhase::Idle;
        CrawlAction::Sleep { seconds: ONE_DAYS_IN_SECONDS }
    }

    fn halt(&mut self, error: CrawlError) -> (action: CrawlAction)
        ensures
            (final(self)@, action@) == halt(old(self)@, error),
    {
        self.phase = CrawlPhase::Stopped;
        CrawlAction::Abort { error }
    }

    fn visit_channel(&mut self, now: i64) -> (action: CrawlAction)
        ensures
            (final(self)@, action@) == visit_channel(old(self)@, now),
    {
        proof {
            lemma_views_empty::<String>();
            lemma_views_empty::<SubscriptionCandidate>();
            if self.channels@.len() > 0 {
                lemma_views_drop_first(self.channels@);
            }
        }
        self.candidates = VecDeque::new();
        self.candidate = None;
        match self.channels.pop_front() {
            Some(channel_id) => {
                self.phase = CrawlPhase::ListingSubscriptions;
                CrawlAction::LoadSubscriptions { channel_id }
            },
            None => {
                assert(views(self.channels@) =~= Seq::<Seq<char>>::empty());
                self.phase = CrawlPhase::Recording;
                CrawlAction::StoreProgress {
                    progress: CrawlProgress { last_discovery_crawl_timestamp: now },
                }
            },
        }
    }

    fn visit_candidate(&mut self, now: i64) -> (action: CrawlAction)
        ensures
            (final(self)@, action@) == visit_candidate(old(self)@, now),
    {
        proof {
            if self.candidates@.len() > 0 {
                lemma_views_drop_first(self.candidates@);
            }
        }
        match self.candidates.pop_front() {
            Some(candidate) => {
                let asked = candidate.clone();
                self.candidate = Some(candidate);
                self.phase = CrawlPhase::CheckingCandidate;
                CrawlAction::CheckCandidate { candidate: asked }
            },
            None => self.visit_channel(now),
        }
    }
}

/// A state in which the machine can take every event that answers its last
/// action: while a candidate is examined or dispatched, the machine holds it.
pub open spec fn well_formed(s: CrawlerView) -> bool {
    (s.phase is CheckingCandidate || s.phase is Dispatching) ==> s.candidate is Some
}

/// Whether an event answers the action that a state is waiting on.
pub open spec fn answers(phase: CrawlPhase, event: CrawlEventView) -> bool {
    match (phase, event) {
        (CrawlPhase::Idle, CrawlEventView::Wake) => true,
        (CrawlPhase::Gating, CrawlEventView::ProgressLoaded { .. }) => true,
        (CrawlPhase::Gating, CrawlEventView::ProgressUnavailable) => true,
        (CrawlPhase::ListingChannels, CrawlEventView::ChannelsLoaded { .. }) => true,
        (CrawlPhase::ListingChannels, CrawlEventView::ChannelsUnavailable) => true,
        (CrawlPhase::ListingSubscriptions, CrawlEventView::SubscriptionsLoaded { .. }) => true,
        (CrawlPhase::ListingSubscriptions, CrawlEventView::SubscriptionsUnavailable) => true,
        (CrawlPhase::CheckingCandidate, CrawlEventView::CandidateChecked { .. }) => true,
        (CrawlPhase::Dispatching, CrawlEventView::Dispatched) => true,
        (CrawlPhase::Dispatching, CrawlEventView::DispatchFailed) => true,
        (CrawlPhase::Recording, CrawlEventView::ProgressStored) => true,
        _ => false,
    }
}

/// The loop starts well-formed and every transition keeps it so.
pub proof fn lemma_crawl_step_keeps_well_formed(s: CrawlerView, event: CrawlEventView, now: i64)
    requires
        well_formed(s),
    ensures
        well_formed(initial_crawler()),
        well_formed(crawl_step(s, event, now).0),
{
}

/// The loop stops in one case only: a crawl command could not be delivered.
/// Every other event that answers the last action keeps the loop running; an
/// event that does not answer it is refused.
pub proof fn lemma_only_dispatch_failure_stops(s: CrawlerView, event: CrawlEventView, now: i64)
    requires
        well_formed(s),
    ensures
        crawl_step(s, event, now).0.phase is Stopped <==> crawl_step(s, event, now).1 is Abort,
        answers(s.phase, event) ==> (crawl_step(s, event, now).1 is Abort <==> event
            is DispatchFailed),
        event is DispatchFailed && s.phase is Dispatching ==> crawl_step(s, event, now).1
            == (CrawlActionView::Abort { error: CrawlError::DispatchFailed }),
        !answers(s.phase, event) ==> crawl_step(s, event, now).1 == (CrawlActionView::Abort {
            error: CrawlError::UnexpectedEvent,
        }),
{
}

/// A pass starts exactly when the stored progress is a day old or older;
/// otherwise, and when the progress cannot be read, the loop sleeps.
pub proof fn lemma_pass_starts_when_due(s: CrawlerView, event: CrawlEventView, now: i64)
    requires
        s.phase is Gating,
    ensures
        event matches CrawlEventView::ProgressLoaded { progress } ==> (crawl_step(
            s,
            event,
            now,
        ).1 == if now - progress.last_discovery_crawl_timestamp >= ONE_DAYS_IN_SECONDS {
            CrawlActionView::LoadChannels { limit: CHANNEL_BATCH_LIMIT }
        } else {
            CrawlActionView::Sleep { seconds: ONE_DAYS_IN_SECONDS }
        }),
        event is ProgressUnavailable ==> crawl_step(s, event, now).1 == (CrawlActionView::Sleep {
            seconds: ONE_DAYS_IN_SECONDS,
        }),
{
}

/// Channels are listed only at the start of a pass that is due, and never
/// more than the batch limit is asked for.
pub proof fn lemma_channels_listed_only_when_due(s: CrawlerView, event: CrawlEventView, now: i64)
    requires
        crawl_step(s, event, now).1 is LoadChannels,
    ensures
        s.phase is Gating,
        reports_due(event, now),
        crawl_step(s, event, now).1 == (CrawlActionView::LoadChannels { limit: 8000 }),
{
}

/// Every sleep lasts one day, whether or not a pass ran before it, and leaves
/// the loop waiting for its next wake-up.
pub proof fn lemma_sleep_is_one_day(s: CrawlerView, event: CrawlEventView, now: i64)
    requires
        crawl_step(s, event, now).1 is Sleep,
    ensures
        crawl_step(s, event, now).1 == (CrawlActionView::Sleep { seconds: 86400 }),
        crawl_step(s, event, now).0.phase is Idle,
{
}

/// Whether an event reports checks that qualify the candidate.
pub open spec fn reports_qualified(event: CrawlEventView) -> bool {
    match event {
        CrawlEventView::CandidateChecked { checks } => qualifies(checks),
        _ => false,
    }
}

/// Whether an event reports stored progress from which a pass is due at the
/// instant `now`.
pub open spec fn reports_due(event: CrawlEventView, now: i64) -> bool {
    match event {
        CrawlEventView::ProgressLoaded { progress } => crawl_due(
            progress.last_discovery_crawl_timestamp as int,
            now as int,
        ),
        _ => false,
    }
}

/// A crawl command is dispatched exactly for a candidate whose checks
/// qualify it, names that candidate's channel and never asks the worker to
/// skip its own classification.
pub proof fn lemma_dispatch_iff_qualified(s: CrawlerView, event: CrawlEventView, now: i64)
    ensures
        crawl_step(s, event, now).1 is Dispatch <==> (s.phase is CheckingCandidate
            && s.candidate is Some && reports_qualified(event)),
        crawl_step(s, event, now).1 matches CrawlActionView::Dispatch { command } ==> command
            == (CrawlChannelCommandView {
            channel_id: s.candidate->0.channel_id,
            ignore_guitar_terms: false,
        }),
{
}

/// A failed fetch of subscriptions counts as an empty list, and a failed
/// listing of channels as an empty list: neither stops the loop.
pub proof fn lemma_failed_fetch_is_empty_list(s: CrawlerView, now: i64)
    ensures
        crawl_step(s, CrawlEventView::SubscriptionsUnavailable, now) == crawl_step(
            s,
            CrawlEventView::SubscriptionsLoaded { candidates: Seq::empty() },
            now,
        ),
        crawl_step(s, CrawlEventView::ChannelsUnavailable, now) == crawl_step(
            s,
            CrawlEventView::ChannelsLoaded { channel_ids: Seq::empty() },
            now,
        ),
{
}

/// The progress that a pass records is the instant at which it ended, and it
/// is recorded only when no channel and no candidate is left.
pub proof fn lemma_progress_recorded_at_end(s: CrawlerView, event: CrawlEventView, now: i64)
    requires
        crawl_step(s, event, now).1 is StoreProgress,
    ensures
        crawl_step(s, event, now).1 == (CrawlActionView::StoreProgress {
            progress: CrawlProgress { last_discovery_crawl_timestamp: now },
        }),
        crawl_step(s, event, now).0.phase is Recording,
        crawl_step(s, event, now).0.channels.len() == 0,
        crawl_step(s, event, now).0.candidates.len() == 0,
{
}

/// The recorded progress only moves forward: a pass that was due when it
/// started, and that ended no earlier than it started, records a time a day
/// or more after the progress it started from.
pub proof fn lemma_progress_moves_forward(last_crawl_timestamp: i64, started: i64, ended: i64)
    requires
        crawl_due(last_crawl_timestamp as int, started as int),
        started <= ended,
    ensures
        ended >= last_crawl_timestamp + ONE_DAYS_IN_SECONDS,
        ended > last_crawl_timestamp,
{
}

/// Candidates are examined in the order of the subscription list, and the
/// channels of a pass are visited in the order in which they were listed.
pub proof fn lemma_visits_in_order(s: CrawlerView, now: i64)
    ensures
        s.candidates.len() > 0 ==> visit_candidate(s, now).1 == (CrawlActionView::CheckCandidate {
            candidate: s.candidates[0],
        }) && visit_candidate(s, now).0.candidates == s.candidates.drop_first()
            && visit_candidate(s, now).0.channels == s.channels,
        s.candidates.len() == 0 && s.channels.len() > 0 ==> visit_candidate(s, now).1 == (
        CrawlActionView::LoadSubscriptions { channel_id: s.channels[0] }) && visit_candidate(
            s,
            now,
        ).0.channels == s.channels.drop_first(),
{
}

} // verus!
