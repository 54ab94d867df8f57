//! When each stored video of a channel was last refreshed.

use vstd::hash_map::StringHashMap;
use vstd::prelude::*;

verus! {

/// The time of the last refresh of each stored video of one channel, by video
/// id, in Unix seconds. It is read once at the start of a pass.
pub struct UpdatedLookup {
    updated_at: StringHashMap<i64>,
}

impl View for UpdatedLookup {
    type V = Map<Seq<char>, i64>;

    closed spec fn view(&self) -> Map<Seq<char>, i64> {
        self.updated_at@
    }
}

/// The time of the last refresh that a lookup holds for a video, if any.
pub open spec fn last_refresh(lookup: Map<Seq<char>, i64>, video_id: Seq<char>) -> Option<i64> {
    if lookup.contains_key(video_id) {
        Some(lookup[video_id])
    } else {
        None
    }
}

impl UpdatedLookup {
    /// A lookup that knows no video.
    pub fn new() -> (lookup: UpdatedLookup)
        ensures
            lookup@ == Map::<Seq<char>, i64>::empty(),
    {
        UpdatedLookup { updated_at: StringHashMap::new() }
    }

    /// Records when a video was last refreshed; an earlier record of the same
    /// video is replaced.
    pub fn insert(&mut self, video_id: String, updated_at: i64)
        ensures
            final(self)@ == old(self)@.insert(video_id@, updated_at),
    {
        self.updated_at.insert(video_id, updated_at);
    }

    /// Whether the video is stored.
    pub fn contains_key(&self, video_id: &str) -> (found: bool)
        ensures
            found == self@.contains_key(video_id@),
    {
        self.updated_at.contains_key(video_id)
    }

    /// When the video was last refreshed, if it is stored.
    pub fn get(&self, video_id: &str) -> (updated_at: Option<i64>)
        ensures
            updated_at == last_refresh(self@, video_id@),
    {
        match self.updated_at.get(video_id) {
            Some(seconds) => Some(*seconds),
            None => None,
        }
    }

    /// How many videos are stored.
    pub fn len(&self) -> (count: usize)
        ensures
            count == self@.len(),
    {
        self.updated_at.len()
    }
}

} // verus!
