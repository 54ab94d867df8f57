//! The video feed of a channel: where it is fetched from, which responses
//! are taken, and how its XML is prepared for reading.

use crate::sequences::to_chars;
use vstd::prelude::*;

verus! {

/// Where the video feeds are served.
pub const YOUTUBE_VIDEO_FEED_BASE_URL: &'static str = "https://www.youtube.com/feeds/videos.xml";

/// The only HTTP status with which a feed is taken.
pub const FEED_STATUS_OK: u16 = 200;

/// `String::push` of the standard library appends one character to the end
/// of a string and changes nothing else.
pub assume_specification[ String::push ](text: &mut String, c: char)
    ensures
        final(text)@ == old(text)@.push(c),
;

/// The address of the video feed of a channel.
pub open spec fn feed_url(channel_id: Seq<char>) -> Seq<char> {
    YOUTUBE_VIDEO_FEED_BASE_URL@ + "?channel_id="@ + channel_id
}

/// A text in which each occurrence of a pattern, found from left to right
/// and not overlapping an earlier one, is replaced. An empty pattern occurs
/// nowhere.
pub open spec fn replaced(text: Seq<char>, pattern: Seq<char>, replacement: Seq<char>) -> Seq<char>
    decreases text.len(),
{
    if text.len() == 0 {
        text
    } else if pattern.len() > 0 && pattern.is_prefix_of(text) {
        replacement + replaced(text.skip(pattern.len() as int), pattern, replacement)
    } else {
        seq![text[0]] + replaced(text.skip(1), pattern, replacement)
    }
}

/// The feed with the colon taken out of the namespace prefixes `yt:` and
/// `media:`, first the one, then the other, so that element names are plain
/// words.
pub open spec fn normalized_feed(xml: Seq<char>) -> Seq<char> {
    replaced(replaced(xml, "yt:"@, "yt"@), "media:"@, "media"@)
}

/// Builds the address of the video feed of a channel.
pub fn video_feed_url(channel_id: &str) -> (url: String)
    ensures
        url@ == feed_url(channel_id@),
{
    let mut url: String = String::from_str(YOUTUBE_VIDEO_FEED_BASE_URL);
    url.append("?channel_id=");
    url.append(channel_id);
    url
}

/// Decides whether a feed response is taken: only with status 200.
pub fn feed_response_accepted(status: u16) -> (accepted: bool)
    ensures
        accepted == (status == FEED_STATUS_OK),
{
    status == FEED_STATUS_OK
}

/// Whether the pattern stands in the text at the given position.
fn occurs_at(text: &Vec<char>, at: usize, pattern: &Vec<char>) -> (found: bool)
    requires
        at <= text.len(),
    ensures
        found == pattern@.is_prefix_of(text@.skip(at as int)),
{
    let rest: usize = text.len() - at;
    if pattern.len() > rest {
        return false;
    }
    let mut k: usize = 0;
    while k < pattern.len()
        invariant
            at <= text.len(),
            pattern.len() <= text.len() - at,
            k <= pattern.len(),
            forall|j: int| 0 <= j < k ==> pattern@[j] == text@[at + j],
        decreases pattern.len() - k,
    {
        if pattern[k] != text[at + k] {
            assert(text@.skip(at as int).subrange(0, pattern@.len() as int)[k as int]
                != pattern@[k as int]);
            return false;
        }
        k = k + 1;
    }
    assert(pattern@ =~= text@.skip(at as int).subrange(0, pattern@.len() as int));
    true
}

/// Replaces each occurrence of a pattern in a text.
pub fn replace_all(text: &str, pattern: &str, replacement: &str) -> (result: String)
    ensures
        result@ == replaced(text@, pattern@, replacement@),
{
    let chars: Vec<char> = to_chars(text);
    let wanted: Vec<char> = to_chars(pattern);
    let mut result: String = String::new();
    let mut i: usize = 0;
    proof {
        assert(text@.skip(0) =~= text@);
        assert(result@ + replaced(text@, pattern@, replacement@) =~= replaced(
            text@,
            pattern@,
            replacement@,
        ));
    }
    while i < chars.len()
        invariant
            i <= chars.len(),
            chars@ == text@,
            wanted@ == pattern@,
            result@ + replaced(text@.skip(i as int), pattern@, replacement@) == replaced(
                text@,
                pattern@,
                replacement@,
            ),
        decreases chars.len() - i,
    {
        let ghost rest = text@.skip(i as int);
        if wanted.len() > 0 && occurs_at(&chars, i, &wanted) {
            proof {
                assert(rest.skip(wanted.len() as int) =~= text@.skip(i + wanted.len()));
                assert(result@ + replacement@ + replaced(
                    text@.skip(i + wanted.len()),
                    pattern@,
                    replacement@,
                ) =~= result@ + replaced(rest, pattern@, replacement@));
            }
            result.append(replacement);
            i = i + wanted.len();
        } else {
            proof {
                assert(rest.skip(1) =~= text@.skip(i + 1));
                assert(rest[0] == chars@[i as int]);
                assert(result@.push(chars@[i as int]) + replaced(
                    text@.skip(i + 1),
                    pattern@,
                    replacement@,
                ) =~= result@ + replaced(rest, pattern@, replacement@));
            }
            result.push(chars[i]);
            i = i + 1;
        }
    }
    assert(text@.skip(i as int).len() == 0);
    assert(result@ + Seq::<char>::empty() =~= result@);
    result
}

/// Prepares the XML of a feed for reading: takes the colon out of the
/// namespace prefixes `yt:` and `media:`.
pub fn normalize_feed_xml(xml: &str) -> (plain: String)
    ensures
        plain@ == normalized_feed(xml@),
{
    let without_yt: String = replace_all(xml, "yt:", "yt");
    replace_all(without_yt.as_str(), "media:", "media")
}

} // verus!
