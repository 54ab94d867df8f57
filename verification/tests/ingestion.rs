use channel_crawler::scraper::updated_lookup::UpdatedLookup;
use channel_crawler::scraper::video::{
    build_video_document, build_video_document_at, FeedEntry, VideoDetails, VideoDocument,
};
use channel_crawler::scraper::video_scraper::{
    ScrapeAction, ScrapeError, ScrapeEvent, ScrapePhase, VideoScraper,
};

// 2024-01-01T10:00:00Z
const NOW: i64 = 1_704_103_200;
const HOUR: i64 = 3600;
const DAY: i64 = 86400;

fn entry(video_id: &str, published: &str) -> FeedEntry {
    FeedEntry {
        video_id: video_id.to_string(),
        title: format!("title of {}", video_id),
        description: format!("description of {}", video_id),
        published: published.to_string(),
    }
}

fn details(privacy: &str, views: &str) -> VideoDetails {
    VideoDetails {
        privacy_status: privacy.to_string(),
        view_count: views.to_string(),
        like_count: None,
        comment_count: None,
        tags: None,
        default_language: None,
    }
}

/// A scraper that has taken the feed of channel `CH` and waits for the lookup.
fn loading_lookup(entries: Vec<FeedEntry>) -> VideoScraper {
    let mut scraper = VideoScraper::new();
    assert_eq!(
        scraper.scrape_at(ScrapeEvent::Begin { channel_id: "CH".to_string() }, NOW),
        ScrapeAction::FetchFeed {
            url: "https://www.youtube.com/feeds/videos.xml?channel_id=CH".to_string()
        }
    );
    assert_eq!(
        scraper.scrape_at(
            ScrapeEvent::FeedResponse { status: 200, body: "<yt:a/><media:b/>".to_string() },
            NOW
        ),
        ScrapeAction::ParseFeed { xml: "<yta/><mediab/>".to_string() }
    );
    assert_eq!(
        scraper.scrape_at(ScrapeEvent::FeedParsed { entries }, NOW),
        ScrapeAction::LoadUpdatedLookup { channel_id: "CH".to_string() }
    );
    assert_eq!(scraper.phase(), ScrapePhase::LoadingLookup);
    scraper
}

fn fetch(video_id: &str) -> ScrapeAction {
    ScrapeAction::FetchDetails { video_id: video_id.to_string() }
}

#[test]
fn document_takes_fields_from_feed_and_details() {
    let e = entry("V1", "2024-01-01T08:00:00Z");
    let d = VideoDetails {
        privacy_status: "public".to_string(),
        view_count: "100".to_string(),
        like_count: Some("7".to_string()),
        comment_count: Some("x".to_string()),
        tags: Some(vec!["guitar".to_string(), "blues".to_string()]),
        default_language: Some("en".to_string()),
    };
    let document = build_video_document_at("CH", &e, NOW - 2 * HOUR, &d, NOW);
    assert_eq!(
        document,
        VideoDocument {
            id: "V1".to_string(),
            title: "title of V1".to_string(),
            description: "description of V1".to_string(),
            published_at: NOW - 2 * HOUR,
            updated_at: NOW,
            views: 100,
            likes: 7,
            comments: 0,
            channel: "CH".to_string(),
            tags: vec!["guitar".to_string(), "blues".to_string()],
            default_language: Some("en".to_string()),
        }
    );
}

#[test]
fn document_defaults_absent_fields() {
    let e = entry("V1", "2024-01-01T08:00:00Z");
    let document = build_video_document_at("CH", &e, 5, &details("public", "not a number"), 9);
    assert_eq!(document.views, 0);
    assert_eq!(document.likes, 0);
    assert_eq!(document.comments, 0);
    assert_eq!(document.tags, Vec::<String>::new());
    assert_eq!(document.default_language, None);
    assert_eq!(document.published_at, 5);
    assert_eq!(document.updated_at, 9);
}

#[test]
fn document_built_now_is_stamped_with_the_clock() {
    let e = entry("V1", "2024-01-01T08:00:00Z");
    let before = chrono::Utc::now().timestamp();
    let document = build_video_document("CH", &e, 5, &details("public", "3"));
    let after = chrono::Utc::now().timestamp();
    assert!(before <= document.updated_at && document.updated_at <= after);
    assert_eq!(document.views, 3);
    assert_eq!(document.id, "V1");
    assert_eq!(document.channel, "CH");
}

#[test]
fn privacy_status_must_be_public_exactly() {
    assert!(details("public", "1").is_public());
    for status in ["private", "unlisted", "Public", "public ", "", "publi"] {
        assert!(!details(status, "1").is_public());
    }
}

#[test]
fn scenario_new_video_is_fetched_and_stored() {
    // published two hours before NOW, never stored
    let mut scraper = loading_lookup(vec![entry("V1", "2024-01-01T08:00:00Z")]);
    assert_eq!(
        scraper.scrape_at(ScrapeEvent::LookupLoaded { lookup: UpdatedLookup::new() }, NOW),
        fetch("V1")
    );
    assert_eq!(scraper.phase(), ScrapePhase::FetchingDetails);
    let action = scraper.scrape_at(
        ScrapeEvent::DetailsFetched { details: details("public", "100") },
        NOW + 1,
    );
    match action {
        ScrapeAction::UpsertVideo { video_id, document } => {
            assert_eq!(video_id, "V1");
            assert_eq!(document.id, "V1");
            assert_eq!(document.views, 100);
            assert_eq!(document.likes, 0);
            assert_eq!(document.comments, 0);
            assert_eq!(document.published_at, NOW - 2 * HOUR);
            assert_eq!(document.updated_at, NOW + 1);
            assert_eq!(document.channel, "CH");
        }
        other => panic!("unexpected action {:?}", other),
    }
    assert_eq!(scraper.phase(), ScrapePhase::Upserting);
    assert_eq!(
        scraper.scrape_at(ScrapeEvent::VideoUpserted, NOW + 2),
        ScrapeAction::CountVideos { channel_id: "CH".to_string() }
    );
    assert_eq!(
        scraper.scrape_at(ScrapeEvent::VideosCounted { count: 12 }, NOW + 3),
        ScrapeAction::StoreRollup {
            channel_id: "CH".to_string(),
            video_count: 12,
            last_upload_timestamp: NOW - 2 * HOUR
        }
    );
    assert_eq!(scraper.scrape_at(ScrapeEvent::RollupStored, NOW + 4), ScrapeAction::Finish);
    assert_eq!(scraper.phase(), ScrapePhase::Idle);
}

#[test]
fn scenario_fresh_video_is_skipped() {
    // published ten days before NOW, refreshed two hours before NOW
    let mut lookup = UpdatedLookup::new();
    lookup.insert("V2".to_string(), NOW - 2 * HOUR);
    let mut scraper = loading_lookup(vec![entry("V2", "2023-12-22T10:00:00Z")]);
    assert_eq!(
        scraper.scrape_at(ScrapeEvent::LookupLoaded { lookup }, NOW),
        ScrapeAction::CountVideos { channel_id: "CH".to_string() }
    );
    // nothing was stored in this pass: the time of last upload is zero
    assert_eq!(
        scraper.scrape_at(ScrapeEvent::VideosCounted { count: 1 }, NOW),
        ScrapeAction::StoreRollup {
            channel_id: "CH".to_string(),
            video_count: 1,
            last_upload_timestamp: 0
        }
    );
}

#[test]
fn scenario_private_video_is_deleted_and_not_stored() {
    let mut scraper = loading_lookup(vec![
        entry("V3", "2024-01-01T08:00:00Z"),
        entry("V4", "2024-01-01T09:00:00Z"),
    ]);
    scraper.scrape_at(ScrapeEvent::LookupLoaded { lookup: UpdatedLookup::new() }, NOW);
    assert_eq!(
        scraper.scrape_at(ScrapeEvent::DetailsFetched { details: details("private", "5") }, NOW),
        ScrapeAction::DeleteVideo { key: "CH".to_string(), video_id: "V3".to_string() }
    );
    assert_eq!(scraper.phase(), ScrapePhase::Deleting);
    // the pass goes on with the next entry
    assert_eq!(scraper.scrape_at(ScrapeEvent::VideoDeleted, NOW), fetch("V4"));
    assert_eq!(
        scraper.scrape_at(ScrapeEvent::DetailsFetched { details: details("unlisted", "5") }, NOW),
        ScrapeAction::DeleteVideo { key: "CH".to_string(), video_id: "V4".to_string() }
    );
    assert_eq!(
        scraper.scrape_at(ScrapeEvent::VideoDeleted, NOW),
        ScrapeAction::CountVideos { channel_id: "CH".to_string() }
    );
    // deleted videos do not count towards the time of last upload
    assert_eq!(
        scraper.scrape_at(ScrapeEvent::VideosCounted { count: 0 }, NOW),
        ScrapeAction::StoreRollup {
            channel_id: "CH".to_string(),
            video_count: 0,
            last_upload_timestamp: 0
        }
    );
}

#[test]
fn entries_are_walked_in_feed_order_and_newest_upload_is_kept() {
    let mut lookup = UpdatedLookup::new();
    lookup.insert("B".to_string(), NOW - HOUR);
    let mut scraper = loading_lookup(vec![
        entry("A", "2024-01-01T09:00:00Z"),
        entry("B", "2024-01-01T09:30:00Z"),
        entry("C", "2024-01-01T07:00:00Z"),
    ]);
    assert_eq!(scraper.scrape_at(ScrapeEvent::LookupLoaded { lookup }, NOW), fetch("A"));
    scraper.scrape_at(ScrapeEvent::DetailsFetched { details: details("public", "1") }, NOW);
    // B was refreshed an hour ago and is passed over
    assert_eq!(scraper.scrape_at(ScrapeEvent::VideoUpserted, NOW), fetch("C"));
    scraper.scrape_at(ScrapeEvent::DetailsFetched { details: details("public", "1") }, NOW);
    assert_eq!(
        scraper.scrape_at(ScrapeEvent::VideoUpserted, NOW),
        ScrapeAction::CountVideos { channel_id: "CH".to_string() }
    );
    assert_eq!(
        scraper.scrape_at(ScrapeEvent::VideosCounted { count: 3 }, NOW),
        ScrapeAction::StoreRollup {
            channel_id: "CH".to_string(),
            video_count: 3,
            last_upload_timestamp: NOW - HOUR
        }
    );
}

#[test]
fn second_pass_over_same_feed_fetches_nothing() {
    let feed = || {
        vec![
            entry("A", "2024-01-01T09:00:00Z"),
            entry("B", "2023-12-01T09:30:00Z"),
            entry("A", "2024-01-01T09:00:00Z"),
        ]
    };
    let mut stored = UpdatedLookup::new();
    stored.insert("B".to_string(), NOW - DAY + 1);
    let mut scraper = loading_lookup(feed());
    // first pass: both entries of A are fetched, B is fresh
    assert_eq!(scraper.scrape_at(ScrapeEvent::LookupLoaded { lookup: stored }, NOW), fetch("A"));
    scraper.scrape_at(ScrapeEvent::DetailsFetched { details: details("public", "1") }, NOW);
    assert_eq!(scraper.scrape_at(ScrapeEvent::VideoUpserted, NOW), fetch("A"));
    scraper.scrape_at(ScrapeEvent::DetailsFetched { details: details("public", "1") }, NOW);
    assert_eq!(
        scraper.scrape_at(ScrapeEvent::VideoUpserted, NOW),
        ScrapeAction::CountVideos { channel_id: "CH".to_string() }
    );
    scraper.scrape_at(ScrapeEvent::CountUnavailable, NOW);
    // second pass with the store as the first pass left it
    let mut after = UpdatedLookup::new();
    after.insert("B".to_string(), NOW - DAY + 1);
    after.insert("A".to_string(), NOW);
    let mut again = loading_lookup(feed());
    assert_eq!(
        again.scrape_at(ScrapeEvent::LookupLoaded { lookup: after }, NOW),
        ScrapeAction::CountVideos { channel_id: "CH".to_string() }
    );
}

#[test]
fn feed_failures_give_the_pass_up() {
    let mut scraper = VideoScraper::new();
    scraper.scrape_at(ScrapeEvent::Begin { channel_id: "CH".to_string() }, NOW);
    assert_eq!(
        scraper.scrape_at(ScrapeEvent::FeedUnavailable, NOW),
        ScrapeAction::Fail { error: ScrapeError::FeedUnavailable }
    );
    assert_eq!(scraper.phase(), ScrapePhase::Idle);

    scraper.scrape_at(ScrapeEvent::Begin { channel_id: "CH".to_string() }, NOW);
    assert_eq!(
        scraper.scrape_at(ScrapeEvent::FeedResponse { status: 404, body: String::new() }, NOW),
        ScrapeAction::Fail { error: ScrapeError::FeedStatus { status: 404 } }
    );

    scraper.scrape_at(ScrapeEvent::Begin { channel_id: "CH".to_string() }, NOW);
    scraper.scrape_at(ScrapeEvent::FeedResponse { status: 200, body: "x".to_string() }, NOW);
    assert_eq!(
        scraper.scrape_at(ScrapeEvent::FeedUnparsable, NOW),
        ScrapeAction::Fail { error: ScrapeError::FeedUnparsable }
    );
    assert_eq!(scraper.phase(), ScrapePhase::Idle);
}

#[test]
fn lookup_failure_gives_the_pass_up() {
    let mut scraper = loading_lookup(vec![entry("A", "2024-01-01T09:00:00Z")]);
    assert_eq!(
        scraper.scrape_at(ScrapeEvent::LookupUnavailable, NOW),
        ScrapeAction::Fail { error: ScrapeError::LookupUnavailable }
    );
}

#[test]
fn unreadable_date_gives_the_pass_up_when_reached() {
    let mut scraper = loading_lookup(vec![
        entry("A", "2024-01-01T09:00:00Z"),
        entry("B", "last tuesday"),
        entry("C", "2024-01-01T09:00:00Z"),
    ]);
    // A is processed before the bad entry is reached
    assert_eq!(
        scraper.scrape_at(ScrapeEvent::LookupLoaded { lookup: UpdatedLookup::new() }, NOW),
        fetch("A")
    );
    scraper.scrape_at(ScrapeEvent::DetailsFetched { details: details("public", "1") }, NOW);
    assert_eq!(
        scraper.scrape_at(ScrapeEvent::VideoUpserted, NOW),
        ScrapeAction::Fail { error: ScrapeError::InvalidPublishedDate }
    );
    assert_eq!(scraper.phase(), ScrapePhase::Idle);
}

#[test]
fn details_failure_halts_later_entries() {
    let mut scraper = loading_lookup(vec![
        entry("A", "2024-01-01T09:00:00Z"),
        entry("B", "2024-01-01T09:00:00Z"),
    ]);
    scraper.scrape_at(ScrapeEvent::LookupLoaded { lookup: UpdatedLookup::new() }, NOW);
    assert_eq!(
        scraper.scrape_at(ScrapeEvent::DetailsUnavailable, NOW),
        ScrapeAction::Fail { error: ScrapeError::DetailsUnavailable }
    );
    assert_eq!(scraper.phase(), ScrapePhase::Idle);
    assert_eq!(
        scraper.scrape_at(ScrapeEvent::VideoUpserted, NOW),
        ScrapeAction::Fail { error: ScrapeError::UnexpectedEvent }
    );
}

#[test]
fn write_failures_give_the_pass_up() {
    let mut scraper = loading_lookup(vec![entry("A", "2024-01-01T09:00:00Z")]);
    scraper.scrape_at(ScrapeEvent::LookupLoaded { lookup: UpdatedLookup::new() }, NOW);
    scraper.scrape_at(ScrapeEvent::DetailsFetched { details: details("public", "1") }, NOW);
    assert_eq!(
        scraper.scrape_at(ScrapeEvent::UpsertFailed, NOW),
        ScrapeAction::Fail { error: ScrapeError::UpsertFailed }
    );

    let mut other = loading_lookup(vec![entry("A", "2024-01-01T09:00:00Z")]);
    other.scrape_at(ScrapeEvent::LookupLoaded { lookup: UpdatedLookup::new() }, NOW);
    other.scrape_at(ScrapeEvent::DetailsFetched { details: details("private", "1") }, NOW);
    assert_eq!(
        other.scrape_at(ScrapeEvent::DeleteFailed, NOW),
        ScrapeAction::Fail { error: ScrapeError::DeleteFailed }
    );
}

#[test]
fn rollup_failure_is_tolerated() {
    let mut scraper = loading_lookup(vec![]);
    assert_eq!(
        scraper.scrape_at(ScrapeEvent::LookupLoaded { lookup: UpdatedLookup::new() }, NOW),
        ScrapeAction::CountVideos { channel_id: "CH".to_string() }
    );
    assert_eq!(scraper.phase(), ScrapePhase::Counting);
    assert_eq!(scraper.scrape_at(ScrapeEvent::CountUnavailable, NOW), ScrapeAction::Finish);
    assert_eq!(scraper.phase(), ScrapePhase::Idle);
}

#[test]
fn event_that_answers_nothing_gives_the_pass_up() {
    let mut scraper = VideoScraper::new();
    assert_eq!(scraper.phase(), ScrapePhase::Idle);
    assert_eq!(
        scraper.scrape_at(ScrapeEvent::RollupStored, NOW),
        ScrapeAction::Fail { error: ScrapeError::UnexpectedEvent }
    );
    let mut busy = loading_lookup(vec![]);
    assert_eq!(
        busy.scrape_at(ScrapeEvent::Begin { channel_id: "X".to_string() }, NOW),
        ScrapeAction::Fail { error: ScrapeError::UnexpectedEvent }
    );
    assert_eq!(busy.phase(), ScrapePhase::Idle);
}

#[test]
fn clock_reading_scrape_runs_a_pass() {
    let mut scraper = VideoScraper::new();
    assert_eq!(
        scraper.scrape(ScrapeEvent::Begin { channel_id: "CH".to_string() }),
        ScrapeAction::FetchFeed {
            url: "https://www.youtube.com/feeds/videos.xml?channel_id=CH".to_string()
        }
    );
    scraper.scrape(ScrapeEvent::FeedResponse { status: 200, body: String::new() });
    scraper.scrape(ScrapeEvent::FeedParsed {
        entries: vec![entry("OLD", "2020-01-01T00:00:00Z"), entry("NEW", "2020-01-02T00:00:00Z")],
    });
    let now = chrono::Utc::now().timestamp();
    let mut lookup = UpdatedLookup::new();
    lookup.insert("OLD".to_string(), now);
    // OLD was refreshed this very second, NEW was never stored
    assert_eq!(scraper.scrape(ScrapeEvent::LookupLoaded { lookup }), fetch("NEW"));
    match scraper.scrape(ScrapeEvent::DetailsFetched { details: details("public", "8") }) {
        ScrapeAction::UpsertVideo { video_id, document } => {
            assert_eq!(video_id, "NEW");
            assert_eq!(document.published_at, 1_577_923_200);
            assert!(now <= document.updated_at && document.updated_at <= now + 60);
        }
        other => panic!("unexpected action {:?}", other),
    }
}
