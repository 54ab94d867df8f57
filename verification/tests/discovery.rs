use channel_crawler::crawler::channel_discovery_crawler::{
    should_crawl, ChannelDiscoveryCrawler, CrawlAction, CrawlChannelCommand, CrawlError,
    CrawlEvent, CrawlPhase, CrawlProgress, SubscriptionCandidate, CHANNEL_BATCH_LIMIT,
    ONE_DAYS_IN_SECONDS,
};
use channel_crawler::crawler::discovery_gate::{
    is_channel_newly_discovered, passes_gate, CandidateChecks, Presence,
};

const NOW: i64 = 1_700_000_000;
const HOUR: i64 = 3600;

fn candidate(id: &str) -> SubscriptionCandidate {
    SubscriptionCandidate {
        channel_id: id.to_string(),
        title: format!("title of {}", id),
        description: format!("description of {}", id),
    }
}

fn good_checks() -> CandidateChecks {
    CandidateChecks {
        in_channels: Presence::Absent,
        in_additional_channels: Presence::Absent,
        excluded: false,
        matched: true,
    }
}

fn progress(last: i64) -> CrawlEvent {
    CrawlEvent::ProgressLoaded { progress: CrawlProgress { last_discovery_crawl_timestamp: last } }
}

/// A crawler that has started a pass and waits for the channel list.
fn listing_channels() -> ChannelDiscoveryCrawler {
    let mut crawler = ChannelDiscoveryCrawler::new();
    assert_eq!(crawler.crawl_at(CrawlEvent::Wake, NOW), CrawlAction::LoadProgress);
    assert_eq!(
        crawler.crawl_at(progress(NOW - 25 * HOUR), NOW),
        CrawlAction::LoadChannels { limit: 8000 }
    );
    crawler
}

#[test]
fn gate_is_the_conjunction_of_its_checks() {
    for is_new in [false, true] {
        for excluded in [false, true] {
            for matched in [false, true] {
                assert_eq!(passes_gate(is_new, excluded, matched), is_new && !excluded && matched);
            }
        }
    }
}

#[test]
fn gate_single_flip_changes_result_only_when_others_pass() {
    // all pass: each flip turns the result
    assert!(passes_gate(true, false, true));
    assert!(!passes_gate(false, false, true));
    assert!(!passes_gate(true, true, true));
    assert!(!passes_gate(true, false, false));
    // excluded channel: making it new changes nothing
    assert_eq!(passes_gate(false, true, true), passes_gate(true, true, true));
}

#[test]
fn newly_discovered_needs_both_registries_absent() {
    let all = [Presence::Absent, Presence::Present, Presence::Unknown];
    for a in all {
        for b in all {
            let expected = a == Presence::Absent && b == Presence::Absent;
            assert_eq!(is_channel_newly_discovered(a, b), expected);
        }
    }
}

#[test]
fn candidate_checks_qualify() {
    assert!(good_checks().qualifies());
    assert!(!CandidateChecks { in_channels: Presence::Present, ..good_checks() }.qualifies());
    assert!(!CandidateChecks { in_additional_channels: Presence::Present, ..good_checks() }
        .qualifies());
    assert!(!CandidateChecks { in_channels: Presence::Unknown, ..good_checks() }.qualifies());
    assert!(!CandidateChecks { excluded: true, ..good_checks() }.qualifies());
    assert!(!CandidateChecks { matched: false, ..good_checks() }.qualifies());
}

#[test]
fn should_crawl_after_one_day() {
    assert_eq!(CHANNEL_BATCH_LIMIT, 8000);
    assert_eq!(ONE_DAYS_IN_SECONDS, 86400);
    assert!(!should_crawl(NOW - 23 * HOUR, NOW));
    assert!(should_crawl(NOW - 25 * HOUR, NOW));
    assert!(!should_crawl(NOW - 86399, NOW));
    assert!(should_crawl(NOW - 86400, NOW));
    assert!(!should_crawl(NOW + 100, NOW));
    assert!(should_crawl(i64::MIN, i64::MAX));
    assert!(!should_crawl(i64::MAX, i64::MIN));
}

#[test]
fn no_pass_when_last_crawl_was_23_hours_ago() {
    let mut crawler = ChannelDiscoveryCrawler::new();
    assert_eq!(crawler.phase(), CrawlPhase::Idle);
    assert_eq!(crawler.crawl_at(CrawlEvent::Wake, NOW), CrawlAction::LoadProgress);
    assert_eq!(crawler.phase(), CrawlPhase::Gating);
    assert_eq!(
        crawler.crawl_at(progress(NOW - 23 * HOUR), NOW),
        CrawlAction::Sleep { seconds: 86400 }
    );
    assert_eq!(crawler.phase(), CrawlPhase::Idle);
    // the loop goes on after the sleep
    assert_eq!(crawler.crawl_at(CrawlEvent::Wake, NOW + 86400), CrawlAction::LoadProgress);
}

#[test]
fn pass_runs_when_last_crawl_was_25_hours_ago_and_progress_advances() {
    let mut crawler = listing_channels();
    assert_eq!(crawler.phase(), CrawlPhase::ListingChannels);
    let done = NOW + 77;
    assert_eq!(
        crawler.crawl_at(CrawlEvent::ChannelsLoaded { channel_ids: vec!["A".to_string()] }, NOW + 1),
        CrawlAction::LoadSubscriptions { channel_id: "A".to_string() }
    );
    assert_eq!(
        crawler.crawl_at(CrawlEvent::SubscriptionsLoaded { candidates: vec![] }, done),
        CrawlAction::StoreProgress {
            progress: CrawlProgress { last_discovery_crawl_timestamp: done }
        }
    );
    assert_eq!(crawler.phase(), CrawlPhase::Recording);
    assert_eq!(
        crawler.crawl_at(CrawlEvent::ProgressStored, done + 1),
        CrawlAction::Sleep { seconds: 86400 }
    );
    assert_eq!(crawler.phase(), CrawlPhase::Idle);
}

#[test]
fn unreadable_progress_skips_the_pass() {
    let mut crawler = ChannelDiscoveryCrawler::new();
    crawler.crawl_at(CrawlEvent::Wake, NOW);
    assert_eq!(
        crawler.crawl_at(CrawlEvent::ProgressUnavailable, NOW),
        CrawlAction::Sleep { seconds: 86400 }
    );
}

#[test]
fn qualifying_candidate_is_dispatched() {
    let mut crawler = listing_channels();
    crawler.crawl_at(CrawlEvent::ChannelsLoaded { channel_ids: vec!["A".to_string()] }, NOW);
    assert_eq!(
        crawler.crawl_at(
            CrawlEvent::SubscriptionsLoaded { candidates: vec![candidate("C1")] },
            NOW
        ),
        CrawlAction::CheckCandidate { candidate: candidate("C1") }
    );
    assert_eq!(crawler.phase(), CrawlPhase::CheckingCandidate);
    assert_eq!(
        crawler.crawl_at(CrawlEvent::CandidateChecked { checks: good_checks() }, NOW),
        CrawlAction::Dispatch {
            command: CrawlChannelCommand {
                channel_id: "C1".to_string(),
                ignore_guitar_terms: false
            }
        }
    );
    assert_eq!(crawler.phase(), CrawlPhase::Dispatching);
    assert_eq!(
        crawler.crawl_at(CrawlEvent::Dispatched, NOW + 5),
        CrawlAction::StoreProgress {
            progress: CrawlProgress { last_discovery_crawl_timestamp: NOW + 5 }
        }
    );
}

#[test]
fn failing_candidates_are_passed_over_in_order() {
    let mut crawler = listing_channels();
    crawler.crawl_at(
        CrawlEvent::ChannelsLoaded { channel_ids: vec!["A".to_string(), "B".to_string()] },
        NOW,
    );
    let subs = vec![candidate("C1"), candidate("C2"), candidate("C3")];
    assert_eq!(
        crawler.crawl_at(CrawlEvent::SubscriptionsLoaded { candidates: subs }, NOW),
        CrawlAction::CheckCandidate { candidate: candidate("C1") }
    );
    let known = CandidateChecks { in_channels: Presence::Present, ..good_checks() };
    assert_eq!(
        crawler.crawl_at(CrawlEvent::CandidateChecked { checks: known }, NOW),
        CrawlAction::CheckCandidate { candidate: candidate("C2") }
    );
    let excluded = CandidateChecks { excluded: true, ..good_checks() };
    assert_eq!(
        crawler.crawl_at(CrawlEvent::CandidateChecked { checks: excluded }, NOW),
        CrawlAction::CheckCandidate { candidate: candidate("C3") }
    );
    let unmatched = CandidateChecks { matched: false, ..good_checks() };
    assert_eq!(
        crawler.crawl_at(CrawlEvent::CandidateChecked { checks: unmatched }, NOW),
        CrawlAction::LoadSubscriptions { channel_id: "B".to_string() }
    );
}

#[test]
fn registry_failure_keeps_candidate_out_and_loop_running() {
    let mut crawler = listing_channels();
    crawler.crawl_at(CrawlEvent::ChannelsLoaded { channel_ids: vec!["A".to_string()] }, NOW);
    crawler.crawl_at(
        CrawlEvent::SubscriptionsLoaded { candidates: vec![candidate("C1"), candidate("C2")] },
        NOW,
    );
    let unknown = CandidateChecks { in_additional_channels: Presence::Unknown, ..good_checks() };
    assert_eq!(
        crawler.crawl_at(CrawlEvent::CandidateChecked { checks: unknown }, NOW),
        CrawlAction::CheckCandidate { candidate: candidate("C2") }
    );
}

#[test]
fn failed_subscription_fetch_counts_as_empty() {
    let mut crawler = listing_channels();
    crawler.crawl_at(
        CrawlEvent::ChannelsLoaded { channel_ids: vec!["A".to_string(), "B".to_string()] },
        NOW,
    );
    assert_eq!(
        crawler.crawl_at(CrawlEvent::SubscriptionsUnavailable, NOW),
        CrawlAction::LoadSubscriptions { channel_id: "B".to_string() }
    );
    assert_eq!(
        crawler.crawl_at(CrawlEvent::SubscriptionsUnavailable, NOW + 9),
        CrawlAction::StoreProgress {
            progress: CrawlProgress { last_discovery_crawl_timestamp: NOW + 9 }
        }
    );
}

#[test]
fn failed_channel_listing_counts_as_empty() {
    let mut crawler = listing_channels();
    assert_eq!(
        crawler.crawl_at(CrawlEvent::ChannelsUnavailable, NOW + 3),
        CrawlAction::StoreProgress {
            progress: CrawlProgress { last_discovery_crawl_timestamp: NOW + 3 }
        }
    );
}

#[test]
fn empty_channel_list_ends_the_pass() {
    let mut crawler = listing_channels();
    assert_eq!(
        crawler.crawl_at(CrawlEvent::ChannelsLoaded { channel_ids: vec![] }, NOW + 2),
        CrawlAction::StoreProgress {
            progress: CrawlProgress { last_discovery_crawl_timestamp: NOW + 2 }
        }
    );
}

#[test]
fn dispatch_failure_stops_the_loop() {
    let mut crawler = listing_channels();
    crawler.crawl_at(CrawlEvent::ChannelsLoaded { channel_ids: vec!["A".to_string()] }, NOW);
    crawler.crawl_at(CrawlEvent::SubscriptionsLoaded { candidates: vec![candidate("C1")] }, NOW);
    crawler.crawl_at(CrawlEvent::CandidateChecked { checks: good_checks() }, NOW);
    assert_eq!(
        crawler.crawl_at(CrawlEvent::DispatchFailed, NOW),
        CrawlAction::Abort { error: CrawlError::DispatchFailed }
    );
    assert_eq!(crawler.phase(), CrawlPhase::Stopped);
    assert_eq!(
        crawler.crawl_at(CrawlEvent::Wake, NOW),
        CrawlAction::Abort { error: CrawlError::UnexpectedEvent }
    );
}

#[test]
fn event_that_answers_nothing_is_refused() {
    let mut crawler = ChannelDiscoveryCrawler::new();
    assert_eq!(
        crawler.crawl_at(CrawlEvent::Dispatched, NOW),
        CrawlAction::Abort { error: CrawlError::UnexpectedEvent }
    );
    assert_eq!(crawler.phase(), CrawlPhase::Stopped);
    let mut other = listing_channels();
    assert_eq!(
        other.crawl_at(CrawlEvent::ProgressStored, NOW),
        CrawlAction::Abort { error: CrawlError::UnexpectedEvent }
    );
}

#[test]
fn clock_reading_crawl_starts_and_gates() {
    let mut crawler = ChannelDiscoveryCrawler::new();
    assert_eq!(crawler.crawl(CrawlEvent::Wake), CrawlAction::LoadProgress);
    // a last pass at the epoch is more than a day ago on any sane clock
    assert_eq!(crawler.crawl(progress(0)), CrawlAction::LoadChannels { limit: 8000 });
    let before = chrono::Utc::now().timestamp();
    let action = crawler.crawl(CrawlEvent::ChannelsUnavailable);
    let after = chrono::Utc::now().timestamp();
    match action {
        CrawlAction::StoreProgress { progress } => {
            assert!(before <= progress.last_discovery_crawl_timestamp);
            assert!(progress.last_discovery_crawl_timestamp <= after);
        }
        other => panic!("unexpected action {:?}", other),
    }
    // a last pass far in the future is never a day ago
    let mut second = ChannelDiscoveryCrawler::new();
    second.crawl(CrawlEvent::Wake);
    assert_eq!(second.crawl(progress(i64::MAX)), CrawlAction::Sleep { seconds: 86400 });
}
