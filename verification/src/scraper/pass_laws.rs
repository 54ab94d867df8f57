//! What holds of every ingestion pass.

use crate::clock::{rfc3339_timestamp, seconds_between, ONE_HOUR_IN_SECONDS};
use crate::scraper::freshness::video_is_due;
use crate::scraper::video::{is_public, video_document, FeedEntryView, VideoDetailsView};
use crate::scraper::video_scraper::{
    complete, examine, give_up, idle_scraper, last_upload, newer_upload, scrape_step, stops_walk,
    PendingVideoView, ScrapeActionView, ScrapeError, ScrapeEventView, ScrapePhase, ScraperView,
};
use vstd::prelude::*;

verus! {

/// The number of entries that the walk passes over before it stops: the
/// index of the first entry that is due or whose publication time cannot be
/// read, or the number of entries where there is none.
pub open spec fn passed_over(lookup: Map<Seq<char>, i64>, entries: Seq<FeedEntryView>, now: i64) -> nat
    decreases entries.len(),
{
    if entries.len() == 0 || stops_walk(lookup, entries[0], now) {
        0
    } else {
        1 + passed_over(lookup, entries.drop_first(), now)
    }
}

/// The walk passes over exactly the entries before the first that stops it.
pub proof fn lemma_passed_over_is_first_stop(
    lookup: Map<Seq<char>, i64>,
    entries: Seq<FeedEntryView>,
    now: i64,
)
    ensures
        passed_over(lookup, entries, now) <= entries.len(),
        forall|i: int|
            0 <= i < passed_over(lookup, entries, now) ==> !stops_walk(
                lookup,
                #[trigger] entries[i],
                now,
            ),
        passed_over(lookup, entries, now) < entries.len() ==> stops_walk(
            lookup,
            entries[passed_over(lookup, entries, now) as int],
            now,
        ),
    decreases entries.len(),
{
    if entries.len() == 0 || stops_walk(lookup, entries[0], now) {
    } else {
        let rest = entries.drop_first();
        lemma_passed_over_is_first_stop(lookup, rest, now);
        let k = passed_over(lookup, rest, now);
        assert forall|i: int| 0 <= i < k + 1 implies !stops_walk(
            lookup,
            #[trigger] entries[i],
            now,
        ) by {
            if i > 0 {
                assert(entries[i] == rest[i - 1]);
            }
        }
        if k < rest.len() {
            assert(entries[k as int + 1] == rest[k as int]);
        }
    }
}

/// The walk examines the entries in feed order and stops at the first that
/// is due or unreadable. Where none is, it asks for the count of stored
/// videos; where the first such entry has no readable publication time, it
/// gives the pass up; else it asks for that video's details and keeps the
/// entries after it for later.
pub proof fn lemma_walk_stops_at_first_due(s: ScraperView, now: i64)
    ensures
        ({
            let k = passed_over(s.lookup, s.entries, now) as int;
            let (after, action) = examine(s, now);
            if k == s.entries.len() {
                &&& action == (ScrapeActionView::CountVideos { channel_id: s.channel_id })
                &&& after == (ScraperView {
                    phase: ScrapePhase::Counting,
                    entries: Seq::empty(),
                    pending: None,
                    ..s
                })
            } else {
                match rfc3339_timestamp(s.entries[k].published) {
                    None => (after, action) == give_up(ScrapeError::InvalidPublishedDate),
                    Some(published) => {
                        &&& action == (ScrapeActionView::FetchDetails {
                            video_id: s.entries[k].video_id,
                        })
                        &&& after == (ScraperView {
                            phase: ScrapePhase::FetchingDetails,
                            entries: s.entries.skip(k + 1),
                            pending: Some(PendingVideoView { entry: s.entries[k], published }),
                            ..s
                        })
                    },
                }
            }
        }),
    decreases s.entries.len(),
{
    let k = passed_over(s.lookup, s.entries, now) as int;
    if s.entries.len() == 0 {
        assert(s.entries =~= Seq::empty());
        assert(k == 0);
    } else if stops_walk(s.lookup, s.entries[0], now) {
        assert(k == 0);
        assert(s.entries.drop_first() =~= s.entries.skip(1));
    } else {
        let rest = ScraperView { entries: s.entries.drop_first(), pending: None, ..s };
        lemma_walk_stops_at_first_due(rest, now);
        let j = passed_over(rest.lookup, rest.entries, now) as int;
        lemma_passed_over_is_first_stop(rest.lookup, rest.entries, now);
        assert(k == j + 1);
        assert(examine(s, now) == examine(rest, now));
        if j < rest.entries.len() {
            assert(rest.entries[j] == s.entries[k]);
            assert(rest.entries.skip(j + 1) =~= s.entries.skip(k + 1));
        }
    }
}

/// A feed in which no entry stops the walk leads to no fetch of details:
/// the walk goes straight to counting the stored videos.
pub proof fn lemma_fresh_feed_fetches_nothing(s: ScraperView, now: i64)
    requires
        forall|i: int| 0 <= i < s.entries.len() ==> !stops_walk(s.lookup, #[trigger] s.entries[i], now),
    ensures
        examine(s, now) == (
            ScraperView {
                phase: ScrapePhase::Counting,
                entries: Seq::empty(),
                pending: None,
                ..s
            },
            ScrapeActionView::CountVideos { channel_id: s.channel_id },
        ),
{
    lemma_passed_over_is_first_stop(s.lookup, s.entries, now);
    lemma_walk_stops_at_first_due(s, now);
}

/// A video that was stored less than three hours ago is not due, whatever
/// its age: the walk passes over its entry.
pub proof fn lemma_stored_video_is_fresh(
    lookup: Map<Seq<char>, i64>,
    entry: FeedEntryView,
    now: i64,
)
    requires
        rfc3339_timestamp(entry.published) is Some,
        lookup.contains_key(entry.video_id),
        seconds_between(now as int, lookup[entry.video_id] as int) < 3 * ONE_HOUR_IN_SECONDS,
    ensures
        !stops_walk(lookup, entry, now),
{
}

/// Whether an entry has a readable publication time and its video is due.
pub open spec fn entry_is_due(lookup: Map<Seq<char>, i64>, entry: FeedEntryView, now: i64) -> bool {
    match rfc3339_timestamp(entry.published) {
        Some(published) => video_is_due(lookup, entry.video_id, published, now),
        None => false,
    }
}

/// Whether a pass at the instant `now`, with the given lookup, fetches the
/// details of a video: one of the entries names it, has a readable
/// publication time and is due.
pub open spec fn fetched_in_pass(
    lookup: Map<Seq<char>, i64>,
    entries: Seq<FeedEntryView>,
    now: i64,
    video_id: Seq<char>,
) -> bool {
    exists|i: int|
        0 <= i < entries.len() && (#[trigger] entries[i]).video_id == video_id && entry_is_due(
            lookup,
            entries[i],
            now,
        )
}

/// The lookup as a store holds it after a pass at the instant `now` that
/// ran to its end and stored every video whose details it fetched: those
/// videos are recorded as refreshed at `now`, the others are as before.
pub open spec fn lookup_after_pass(
    lookup: Map<Seq<char>, i64>,
    entries: Seq<FeedEntryView>,
    now: i64,
) -> Map<Seq<char>, i64> {
    Map::new(
        |video_id: Seq<char>|
            lookup.contains_key(video_id) || fetched_in_pass(lookup, entries, now, video_id),
        |video_id: Seq<char>|
            if fetched_in_pass(lookup, entries, now, video_id) {
                now
            } else {
                lookup[video_id]
            },
    )
}

/// Ingesting the same feed a second time fetches nothing: after a pass that
/// stored every video it fetched, a pass over the same entries at the same
/// instant finds no entry due and goes straight to counting. The entries
/// must have readable publication times, or the first pass would have been
/// given up.
pub proof fn lemma_second_pass_fetches_nothing(s: ScraperView, lookup: Map<Seq<char>, i64>, now: i64)
    requires
        forall|i: int|
            0 <= i < s.entries.len() ==> rfc3339_timestamp((#[trigger] s.entries[i]).published)
                is Some,
        s.lookup == lookup_after_pass(lookup, s.entries, now),
    ensures
        examine(s, now).1 == (ScrapeActionView::CountVideos { channel_id: s.channel_id }),
        passed_over(s.lookup, s.entries, now) == s.entries.len(),
{
    assert forall|i: int| 0 <= i < s.entries.len() implies !stops_walk(
        s.lookup,
        #[trigger] s.entries[i],
        now,
    ) by {
        let entry = s.entries[i];
        if fetched_in_pass(lookup, s.entries, now, entry.video_id) {
            assert(s.lookup[entry.video_id] == now);
        } else {
            assert(!entry_is_due(lookup, entry, now));
            assert(lookup.contains_key(entry.video_id));
            assert(s.lookup[entry.video_id] == lookup[entry.video_id]);
        }
    }
    lemma_fresh_feed_fetches_nothing(s, now);
    lemma_passed_over_is_first_stop(s.lookup, s.entries, now);
    lemma_walk_stops_at_first_due(s, now);
}

/// A later pass does not fetch again what an earlier pass stored less than
/// three hours before: every entry whose video the earlier pass fetched is
/// passed over.
pub proof fn lemma_later_pass_skips_stored(
    lookup: Map<Seq<char>, i64>,
    entries: Seq<FeedEntryView>,
    now: i64,
    later: i64,
    i: int,
)
    requires
        0 <= i < entries.len(),
        rfc3339_timestamp(entries[i].published) is Some,
        fetched_in_pass(lookup, entries, now, entries[i].video_id),
        seconds_between(later as int, now as int) < 3 * ONE_HOUR_IN_SECONDS,
    ensures
        !stops_walk(lookup_after_pass(lookup, entries, now), entries[i], later),
{
    let after = lookup_after_pass(lookup, entries, now);
    assert(after.contains_key(entries[i].video_id));
    assert(after[entries[i].video_id] == now);
}

/// A state in which the machine can take every event that answers its last
/// action: while the details of a video are awaited or the video is being
/// written, the machine holds its entry.
pub open spec fn well_formed(s: ScraperView) -> bool {
    (s.phase is FetchingDetails || s.phase is Deleting || s.phase is Upserting) ==> s.pending
        is Some
}

/// The scraper starts well-formed and every transition keeps it so.
pub proof fn lemma_scrape_step_keeps_well_formed(s: ScraperView, event: ScrapeEventView, now: i64)
    requires
        well_formed(s),
    ensures
        well_formed(idle_scraper()),
        well_formed(scrape_step(s, event, now).0),
{
    match (s.phase, event) {
        (ScrapePhase::LoadingLookup, ScrapeEventView::LookupLoaded { lookup }) => {
            lemma_walk_stops_at_first_due(ScraperView { lookup, ..s }, now);
        },
        (ScrapePhase::Deleting, ScrapeEventView::VideoDeleted) => {
            lemma_walk_stops_at_first_due(s, now);
        },
        (ScrapePhase::Upserting, ScrapeEventView::VideoUpserted) => {
            lemma_walk_stops_at_first_due(s, now);
        },
        _ => {},
    }
}

/// What the details of a video decide: a public video is stored and never
/// deleted; any other is deleted, under the key of the channel, and never
/// stored, and does not count towards the time of last upload.
pub proof fn lemma_details_decide_the_write(s: ScraperView, details: VideoDetailsView, now: i64)
    requires
        s.phase is FetchingDetails,
        s.pending is Some,
    ensures
        ({
            let pending = s.pending->0;
            let (after, action) = scrape_step(
                s,
                ScrapeEventView::DetailsFetched { details },
                now,
            );
            if is_public(details) {
                &&& action == (ScrapeActionView::UpsertVideo {
                    video_id: pending.entry.video_id,
                    document: video_document(
                        s.channel_id,
                        pending.entry,
                        pending.published,
                        details,
                        now,
                    ),
                })
                &&& after.phase is Upserting
                &&& after.newest_upload == newer_upload(s.newest_upload, pending.published)
            } else {
                &&& action == (ScrapeActionView::DeleteVideo {
                    key: s.channel_id,
                    video_id: pending.entry.video_id,
                })
                &&& after.phase is Deleting
                &&& after.newest_upload == s.newest_upload
            }
        }),
{
}

/// A video is stored or deleted only in answer to its details.
pub proof fn lemma_writes_follow_details(s: ScraperView, event: ScrapeEventView, now: i64)
    requires
        scrape_step(s, event, now).1 is UpsertVideo || scrape_step(s, event, now).1
            is DeleteVideo,
    ensures
        s.phase is FetchingDetails,
        event is DetailsFetched,
        s.pending is Some,
{
    match (s.phase, event) {
        (ScrapePhase::LoadingLookup, ScrapeEventView::LookupLoaded { lookup }) => {
            lemma_walk_stops_at_first_due(ScraperView { lookup, ..s }, now);
        },
        (ScrapePhase::Deleting, ScrapeEventView::VideoDeleted) => {
            lemma_walk_stops_at_first_due(s, now);
        },
        (ScrapePhase::Upserting, ScrapeEventView::VideoUpserted) => {
            lemma_walk_stops_at_first_due(s, now);
        },
        _ => {},
    }
}

/// A failed fetch or write gives the pass up at once: the entries that are
/// left are not processed and the channel's figures are not updated.
pub proof fn lemma_hard_failures_end_the_pass(s: ScraperView, now: i64)
    ensures
        s.phase is FetchingFeed ==> scrape_step(s, ScrapeEventView::FeedUnavailable, now)
            == give_up(ScrapeError::FeedUnavailable),
        s.phase is ParsingFeed ==> scrape_step(s, ScrapeEventView::FeedUnparsable, now)
            == give_up(ScrapeError::FeedUnparsable),
        s.phase is LoadingLookup ==> scrape_step(s, ScrapeEventView::LookupUnavailable, now)
            == give_up(ScrapeError::LookupUnavailable),
        s.phase is FetchingDetails ==> scrape_step(s, ScrapeEventView::DetailsUnavailable, now)
            == give_up(ScrapeError::DetailsUnavailable),
        s.phase is Deleting ==> scrape_step(s, ScrapeEventView::DeleteFailed, now) == give_up(
            ScrapeError::DeleteFailed,
        ),
        s.phase is Upserting ==> scrape_step(s, ScrapeEventView::UpsertFailed, now) == give_up(
            ScrapeError::UpsertFailed,
        ),
        give_up(ScrapeError::FeedUnavailable).0 == idle_scraper(),
{
}

/// A feed is taken only with status 200; any other status gives the pass up
/// and is reported.
pub proof fn lemma_feed_status_decides(s: ScraperView, status: u16, body: Seq<char>, now: i64)
    requires
        s.phase is FetchingFeed,
    ensures
        status == 200 ==> scrape_step(s, ScrapeEventView::FeedResponse { status, body }, now).1
            is ParseFeed,
        status != 200 ==> scrape_step(s, ScrapeEventView::FeedResponse { status, body }, now)
            == give_up(ScrapeError::FeedStatus { status }),
{
}

/// The update of the channel's figures is best effort: a failed count ends
/// the pass well, and so does the end of the write, whether or not it took.
pub proof fn lemma_rollup_failure_is_tolerated(s: ScraperView, now: i64)
    ensures
        s.phase is Counting ==> scrape_step(s, ScrapeEventView::CountUnavailable, now)
            == complete(),
        s.phase is StoringRollup ==> scrape_step(s, ScrapeEventView::RollupStored, now)
            == complete(),
        complete().1 is Finish,
{
}

/// The channel's figures are the count that the store reported and the
/// latest publication time among the videos stored in this pass, zero where
/// none was stored.
pub proof fn lemma_rollup_figures(s: ScraperView, count: u64, now: i64)
    requires
        s.phase is Counting,
    ensures
        scrape_step(s, ScrapeEventView::VideosCounted { count }, now).1 == (
        ScrapeActionView::StoreRollup {
            channel_id: s.channel_id,
            video_count: count,
            last_upload_timestamp: last_upload(s.newest_upload),
        }),
        last_upload(None) == 0,
{
}

/// The latest publication time is a maximum: taking in one more time gives
/// a time that is no earlier than it and no earlier than the latest before,
/// and that is one of the two.
pub proof fn lemma_newer_upload_is_maximum(newest: Option<i64>, published: i64)
    ensures
        newer_upload(newest, published) is Some,
        newer_upload(newest, published)->0 >= published,
        newest matches Some(latest) ==> newer_upload(newest, published)->0 >= latest,
        newer_upload(newest, published) == Some(published) || newer_upload(newest, published)
            == newest,
{
}

/// Every pass that ends, well or not, leaves the scraper idle and ready for
/// the next pass.
pub proof fn lemma_end_leaves_scraper_idle(s: ScraperView, event: ScrapeEventView, now: i64)
    requires
        scrape_step(s, event, now).1 is Finish || scrape_step(s, event, now).1 is Fail,
    ensures
        scrape_step(s, event, now).0 == idle_scraper(),
{
    match (s.phase, event) {
        (ScrapePhase::LoadingLookup, ScrapeEventView::LookupLoaded { lookup }) => {
            lemma_walk_stops_at_first_due(ScraperView { lookup, ..s }, now);
        },
        (ScrapePhase::Deleting, ScrapeEventView::VideoDeleted) => {
            lemma_walk_stops_at_first_due(s, now);
        },
        (ScrapePhase::Upserting, ScrapeEventView::VideoUpserted) => {
            lemma_walk_stops_at_first_due(s, now);
        },
        _ => {},
    }
}

} // verus!
