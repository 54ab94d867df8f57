//! The freshness policy: how long a stored video may go without a refresh.
//!
//! The older a video, the longer the interval between two refreshes:
//!
//! | age of the video | least time between refreshes |
//! |------------------|------------------------------|
//! | any              | 3 hours                      |
//! | 1 week or more   | 1 day                        |
//! | 4 weeks or more  | 1 week                       |
//! | 24 weeks or more | 4 weeks                      |
//!
//! The last row that applies decides.

use crate::clock::{
    current_timestamp, elapsed_between, seconds_between, ONE_DAY_IN_SECONDS, ONE_HOUR_IN_SECONDS,
    ONE_WEEK_IN_SECONDS,
};
use crate::scraper::updated_lookup::{last_refresh, UpdatedLookup};
use crate::scraper::video::FeedEntry;
use vstd::prelude::*;

verus! {

/// The least number of seconds between two refreshes of a video of the given
/// age: a staircase with inclusive lower bounds.
pub open spec fn refresh_interval(age: int) -> int {
    if age >= 24 * ONE_WEEK_IN_SECONDS {
        4 * ONE_WEEK_IN_SECONDS
    } else if age >= 4 * ONE_WEEK_IN_SECONDS {
        ONE_WEEK_IN_SECONDS as int
    } else if age >= ONE_WEEK_IN_SECONDS {
        ONE_DAY_IN_SECONDS as int
    } else {
        3 * ONE_HOUR_IN_SECONDS
    }
}

/// The rows of the policy, youngest first: a least age and the interval that
/// holds from that age on.
pub open spec fn freshness_tiers() -> Seq<(int, int)> {
    seq![
        (0int, 3 * ONE_HOUR_IN_SECONDS),
        (ONE_WEEK_IN_SECONDS as int, ONE_DAY_IN_SECONDS as int),
        (4 * ONE_WEEK_IN_SECONDS, ONE_WEEK_IN_SECONDS as int),
        (24 * ONE_WEEK_IN_SECONDS, 4 * ONE_WEEK_IN_SECONDS),
    ]
}

/// The interval of the last row whose least age the given age has reached, or
/// `fallback` where no row applies.
pub open spec fn last_matching_tier(tiers: Seq<(int, int)>, age: int, fallback: int) -> int
    decreases tiers.len(),
{
    if tiers.len() == 0 {
        fallback
    } else if age >= tiers.last().0 {
        tiers.last().1
    } else {
        last_matching_tier(tiers.drop_last(), age, fallback)
    }
}

/// Whether a video is due for a refresh at the instant `now`: always when it
/// was never stored, else when the time since its last refresh has reached
/// the interval for its age. Both distances are absolute, so a video dated in
/// the future counts as young.
pub open spec fn needs_refresh(updated_at: Option<i64>, published_at: int, now: int) -> bool {
    match updated_at {
        None => true,
        Some(updated) => seconds_between(now, updated as int) >= refresh_interval(
            seconds_between(now, published_at),
        ),
    }
}

/// Whether the video of a feed entry, published at `published_at`, is due for
/// a refresh at the instant `now`, given what the lookup holds for it.
pub open spec fn video_is_due(
    lookup: Map<Seq<char>, i64>,
    video_id: Seq<char>,
    published_at: i64,
    now: i64,
) -> bool {
    needs_refresh(last_refresh(lookup, video_id), published_at as int, now as int)
}

/// Computes the least number of seconds between two refreshes of a video of
/// the given age.
pub fn refresh_interval_for(age: u64) -> (interval: u64)
    ensures
        interval == refresh_interval(age as int),
{
    let week: u64 = ONE_WEEK_IN_SECONDS as u64;
    let mut interval: u64 = 3 * (ONE_HOUR_IN_SECONDS as u64);
    if age >= week {
        interval = ONE_DAY_IN_SECONDS as u64;
    }
    if age >= 4 * week {
        interval = week;
    }
    if age >= 6 * 4 * week {
        interval = 4 * week;
    }
    interval
}

/// Decides whether a video is refreshed at the instant `now`, from the time
/// of its last refresh, if it has one, and the time of its publication.
pub fn should_update_video_at(updated_at: Option<i64>, published_at: i64, now: i64) -> (refresh:
    bool)
    ensures
        refresh == needs_refresh(updated_at, published_at as int, now as int),
{
    match updated_at {
        None => true,
        Some(updated) => {
            let age: u64 = elapsed_between(now, published_at);
            let since_refresh: u64 = elapsed_between(now, updated);
            since_refresh >= refresh_interval_for(age)
        },
    }
}

/// Decides whether a video is refreshed now, reading the clock once. The
/// answer is the policy's at the instant that the clock gave, whatever that
/// instant is; a video that the lookup does not hold is always refreshed.
pub fn should_update_video(updated_lookup: &UpdatedLookup, entry: &FeedEntry, published_at: i64) -> (refresh:
    bool)
    ensures
        exists|now: i64|
            refresh == #[trigger] video_is_due(
                updated_lookup@,
                entry@.video_id,
                published_at,
                now,
            ),
        !updated_lookup@.contains_key(entry@.video_id) ==> refresh,
{
    let now: i64 = current_timestamp();
    let refresh: bool = should_update_video_at(
        updated_lookup.get(entry.video_id.as_str()),
        published_at,
        now,
    );
    assert(refresh == video_is_due(updated_lookup@, entry@.video_id, published_at, now));
    refresh
}

/// The staircase is the table read from the bottom: the last row that
/// applies decides.
pub proof fn lemma_interval_is_last_matching_tier(age: int)
    requires
        age >= 0,
    ensures
        refresh_interval(age) == last_matching_tier(freshness_tiers(), age, 3 * ONE_HOUR_IN_SECONDS),
{
    let t3 = freshness_tiers();
    let t2 = t3.drop_last();
    let t1 = t2.drop_last();
    let t0 = t1.drop_last();
    reveal_with_fuel(last_matching_tier, 5);
    assert(t3.last() == (24 * ONE_WEEK_IN_SECONDS, 4 * ONE_WEEK_IN_SECONDS));
    assert(t2.last() == (4 * ONE_WEEK_IN_SECONDS, ONE_WEEK_IN_SECONDS as int));
    assert(t1.last() == (ONE_WEEK_IN_SECONDS as int, ONE_DAY_IN_SECONDS as int));
    assert(t0.last() == (0int, 3 * ONE_HOUR_IN_SECONDS));
}

/// Each step of the staircase starts at its bound, the bound included, and
/// ends before the next.
pub proof fn lemma_interval_tiers(age: int)
    ensures
        age < ONE_WEEK_IN_SECONDS ==> refresh_interval(age) == 3 * ONE_HOUR_IN_SECONDS,
        ONE_WEEK_IN_SECONDS <= age < 4 * ONE_WEEK_IN_SECONDS ==> refresh_interval(age)
            == ONE_DAY_IN_SECONDS,
        4 * ONE_WEEK_IN_SECONDS <= age < 24 * ONE_WEEK_IN_SECONDS ==> refresh_interval(age)
            == ONE_WEEK_IN_SECONDS,
        24 * ONE_WEEK_IN_SECONDS <= age ==> refresh_interval(age) == 4 * ONE_WEEK_IN_SECONDS,
{
}

/// Older videos are never refreshed more often than younger ones.
pub proof fn lemma_interval_monotonic(age: int, older: int)
    requires
        age <= older,
    ensures
        refresh_interval(age) <= refresh_interval(older),
{
}

/// No video, whatever its age, has an interval under three hours or over
/// four weeks.
pub proof fn lemma_interval_bounds(age: int)
    ensures
        3 * ONE_HOUR_IN_SECONDS <= refresh_interval(age) <= 4 * ONE_WEEK_IN_SECONDS,
{
}

/// A stored video is refreshed exactly when the time since its last refresh
/// has reached the interval for its age.
pub proof fn lemma_refresh_iff_interval_reached(updated: i64, published_at: int, now: int)
    ensures
        needs_refresh(Some(updated), published_at, now) <==> seconds_between(now, updated as int)
            >= refresh_interval(seconds_between(now, published_at)),
{
}

/// A video refreshed less than three hours ago is never refreshed again,
/// whatever its age.
pub proof fn lemma_no_refresh_within_three_hours(updated: i64, published_at: int, now: int)
    requires
        seconds_between(now, updated as int) < 3 * ONE_HOUR_IN_SECONDS,
    ensures
        !needs_refresh(Some(updated), published_at, now),
{
}

/// A video that was never stored is always refreshed.
pub proof fn lemma_first_sighting_refreshes(published_at: int, now: int)
    ensures
        needs_refresh(None, published_at, now),
{
}

/// A video that has gone four weeks or more without a refresh is always
/// refreshed, whatever its age.
pub proof fn lemma_refresh_after_four_weeks(updated: i64, published_at: int, now: int)
    requires
        seconds_between(now, updated as int) >= 4 * ONE_WEEK_IN_SECONDS,
    ensures
        needs_refresh(Some(updated), published_at, now),
{
}

/// A video dated less than a week into the future is handled as one
/// published less than a week ago: it has the shortest interval.
pub proof fn lemma_future_video_is_young(published_at: int, now: int)
    requires
        now <= published_at < now + ONE_WEEK_IN_SECONDS,
    ensures
        refresh_interval(seconds_between(now, published_at)) == 3 * ONE_HOUR_IN_SECONDS,
{
}

} // verus!
