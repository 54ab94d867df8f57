//! A video as the feed lists it, as the platform details it, and as it is
//! stored.

use crate::clock::current_timestamp;
use crate::scraper::counters::{count_or_zero, parse_count, parse_optional_count};
use crate::sequences::{clone_strings, lemma_views_empty, option_view, views};
use vstd::prelude::*;

verus! {

/// One entry of the video feed of a channel.
#[derive(Debug, PartialEq, Eq)]
pub struct FeedEntry {
    pub video_id: String,
    pub title: String,
    pub description: String,
    /// When the video was published, in RFC 3339 form.
    pub published: String,
}

/// The mathematical value of a [`FeedEntry`].
pub struct FeedEntryView {
    pub video_id: Seq<char>,
    pub title: Seq<char>,
    pub description: Seq<char>,
    pub published: Seq<char>,
}

impl View for FeedEntry {
    type V = FeedEntryView;

    open spec fn view(&self) -> FeedEntryView {
        FeedEntryView {
            video_id: self.video_id@,
            title: self.title@,
            description: self.description@,
            published: self.published@,
        }
    }
}

impl Clone for FeedEntry {
    fn clone(&self) -> (copy: FeedEntry)
        ensures
            copy@ == self@,
    {
        FeedEntry {
            video_id: self.video_id.clone(),
            title: self.title.clone(),
            description: self.description.clone(),
            published: self.published.clone(),
        }
    }
}

/// What the platform reports of one video. Counters arrive as decimal text.
#[derive(Debug, PartialEq, Eq)]
pub struct VideoDetails {
    pub privacy_status: String,
    pub view_count: String,
    pub like_count: Option<String>,
    pub comment_count: Option<String>,
    pub tags: Option<Vec<String>>,
    pub default_language: Option<String>,
}

/// The mathematical value of a [`VideoDetails`].
pub struct VideoDetailsView {
    pub privacy_status: Seq<char>,
    pub view_count: Seq<char>,
    pub like_count: Option<Seq<char>>,
    pub comment_count: Option<Seq<char>>,
    pub tags: Option<Seq<Seq<char>>>,
    pub default_language: Option<Seq<char>>,
}

impl View for VideoDetails {
    type V = VideoDetailsView;

    open spec fn view(&self) -> VideoDetailsView {
        VideoDetailsView {
            privacy_status: self.privacy_status@,
            view_count: self.view_count@,
            like_count: option_view(self.like_count),
            comment_count: option_view(self.comment_count),
            tags: match self.tags {
                Some(tags) => Some(views(tags@)),
                None => None,
            },
            default_language: option_view(self.default_language),
        }
    }
}

/// A video as it is stored.
#[derive(Debug, PartialEq, Eq)]
pub struct VideoDocument {
    pub id: String,
    pub title: String,
    pub description: String,
    /// When the video was published, in Unix seconds.
    pub published_at: i64,
    /// When this record was last refreshed, in Unix seconds.
    pub updated_at: i64,
    pub views: i64,
    pub likes: i64,
    pub comments: i64,
    /// The id of the channel that published the video.
    pub channel: String,
    pub tags: Vec<String>,
    pub default_language: Option<String>,
}

/// The mathematical value of a [`VideoDocument`].
pub struct VideoDocumentView {
    pub id: Seq<char>,
    pub title: Seq<char>,
    pub description: Seq<char>,
    pub published_at: i64,
    pub updated_at: i64,
    pub views: i64,
    pub likes: i64,
    pub comments: i64,
    pub channel: Seq<char>,
    pub tags: Seq<Seq<char>>,
    pub default_language: Option<Seq<char>>,
}

impl View for VideoDocument {
    type V = VideoDocumentView;

    open spec fn view(&self) -> VideoDocumentView {
        VideoDocumentView {
            id: self.id@,
            title: self.title@,
            description: self.description@,
            published_at: self.published_at,
            updated_at: self.updated_at,
            views: self.views,
            likes: self.likes,
            comments: self.comments,
            channel: self.channel@,
            tags: views(self.tags@),
            default_language: option_view(self.default_language),
        }
    }
}

/// Whether the platform reports a video as public. Any other status, such
/// as `private` or `unlisted`, means that the video is not kept.
pub open spec fn is_public(details: VideoDetailsView) -> bool {
    details.privacy_status == "public"@
}

/// The tags of a video, none where the platform reports none.
pub open spec fn tags_or_none(tags: Option<Seq<Seq<char>>>) -> Seq<Seq<char>> {
    match tags {
        Some(tags) => tags,
        None => Seq::empty(),
    }
}

/// The stored form of a video that is refreshed at the instant `now`: the
/// feed gives its id, title and description, the platform its counters, tags
/// and language. A counter that is absent or no decimal number is zero.
pub open spec fn video_document(
    channel_id: Seq<char>,
    entry: FeedEntryView,
    published: i64,
    details: VideoDetailsView,
    now: i64,
) -> VideoDocumentView {
    VideoDocumentView {
        id: entry.video_id,
        title: entry.title,
        description: entry.description,
        published_at: published,
        updated_at: now,
        views: count_or_zero(Some(details.view_count)),
        likes: count_or_zero(details.like_count),
        comments: count_or_zero(details.comment_count),
        channel: channel_id,
        tags: tags_or_none(details.tags),
        default_language: details.default_language,
    }
}

impl VideoDetails {
    /// Whether the platform reports the video as public.
    pub fn is_public(&self) -> (public: bool)
        ensures
            public == is_public(self@),
    {
        let public: String = String::from_str("public");
        self.privacy_status == public
    }
}

/// Builds the stored form of a video that is refreshed at the instant `now`.
pub fn build_video_document_at(
    channel_id: &str,
    entry: &FeedEntry,
    published: i64,
    video_details: &VideoDetails,
    now: i64,
) -> (document: VideoDocument)
    ensures
        document@ == video_document(channel_id@, entry@, published, video_details@, now),
{
    let views: i64 = parse_count(video_details.view_count.as_str());
    let likes: i64 = parse_optional_count(&video_details.like_count);
    let comments: i64 = parse_optional_count(&video_details.comment_count);
    let tags: Vec<String> = match &video_details.tags {
        Some(tags) => clone_strings(tags),
        None => Vec::new(),
    };
    let default_language: Option<String> = match &video_details.default_language {
        Some(language) => Some(language.clone()),
        None => None,
    };
    proof {
        lemma_views_empty::<String>();
    }
    VideoDocument {
        id: entry.video_id.clone(),
        title: entry.title.clone(),
        description: entry.description.clone(),
        published_at: published,
        updated_at: now,
        views,
        likes,
        comments,
        channel: String::from_str(channel_id),
        tags,
        default_language,
    }
}

/// Builds the stored form of a video that is refreshed now, reading the clock
/// once: the document is the one for the instant that the clock gave,
/// whatever that instant is.
pub fn build_video_document(
    channel_id: &str,
    entry: &FeedEntry,
    published: i64,
    video_details: &VideoDetails,
) -> (document: VideoDocument)
    ensures
        exists|now: i64|
            document@ == #[trigger] video_document(
                channel_id@,
                entry@,
                published,
                video_details@,
                now,
            ),
{
    let now: i64 = current_timestamp();
    build_video_document_at(channel_id, entry, published, video_details, now)
}

} // verus!
