//! The network collector: which requests and responses it counts as media.

use vstd::prelude::*;
use crate::hosts::{hooked_media, hooked_media_of};
use crate::text::{
    chars_of, contains_seq, contains_str, starts_with, starts_with_seq, to_lowercase,
    unicode_lowercase,
};

verus! {

/// A URL that the network collector counts as media (case-insensitive):
/// the hooked forms, or `.ogg`.
pub open spec fn network_media(u: Seq<char>) -> bool {
    let l = unicode_lowercase(u);
    hooked_media(l) || contains_seq(l, ".ogg"@)
}

/// Whether the network collector counts a URL as media.
pub fn is_media_url(url: &str) -> (r: bool)
    ensures
        r == network_media(url@),
{
    let l = chars_of(to_lowercase(url).as_str());
    hooked_media_of(&l) || contains_str(&l, ".ogg")
}

/// A response that the network collector counts as media: its URL looks
/// like media, or its lower-cased MIME type is video, an HLS or DASH
/// manifest, or MP4.
pub open spec fn media_response(url: Seq<char>, mime: Seq<char>) -> bool {
    let m = unicode_lowercase(mime);
    ||| network_media(url)
    ||| starts_with_seq(m, "video/"@)
    ||| contains_seq(m, "mpegurl"@)
    ||| contains_seq(m, "dash+xml"@)
    ||| contains_seq(m, "mp4"@)
}

/// Whether the network collector counts a response as media.
pub fn is_media_response(url: &str, mime_type: &str) -> (r: bool)
    ensures
        r == media_response(url@, mime_type@),
{
    let m = chars_of(to_lowercase(mime_type).as_str());
    is_media_url(url) || starts_with(&m, &chars_of("video/")) || contains_str(&m, "mpegurl")
        || contains_str(&m, "dash+xml") || contains_str(&m, "mp4")
}

/// A response counts as media as soon as either its URL or its MIME type
/// says so: a URL the network collector counts as media makes a media
/// response whatever the MIME type, and a `video/` MIME type (in any case)
/// makes one whatever the URL, as does an HLS (`mpegurl`), DASH
/// (`dash+xml`) or MP4 MIME type. A response whose URL is not media-like is
/// judged by its MIME type alone.
pub proof fn url_or_mime_makes_media(url: Seq<char>, other_url: Seq<char>, mime: Seq<char>)
    ensures
        network_media(url) ==> media_response(url, mime),
        starts_with_seq(unicode_lowercase(mime), "video/"@) ==> media_response(url, mime),
        contains_seq(unicode_lowercase(mime), "mpegurl"@) ==> media_response(url, mime),
        contains_seq(unicode_lowercase(mime), "dash+xml"@) ==> media_response(url, mime),
        contains_seq(unicode_lowercase(mime), "mp4"@) ==> media_response(url, mime),
        !network_media(url) && !network_media(other_url) ==> media_response(url, mime) == media_response(
            other_url,
            mime,
        ),
{
}

} // verus!
