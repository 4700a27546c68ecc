//! The media collector: the codecs that a MIME type declares.

use vstd::prelude::*;
use crate::hosts::{pieces, split_all, views};
use crate::text::{
    chars_of, first_occ, lemma_first_occ, slice_of, starts_with, starts_with_seq, string_of,
    strip, strip_chars, to_lowercase, trim, trim_seq, unicode_lowercase,
};

verus! {

/// A codec name that denotes video.
pub open spec fn video_codec(p: Seq<char>) -> bool {
    ||| starts_with_seq(p, "av"@)
    ||| starts_with_seq(p, "h264"@)
    ||| starts_with_seq(p, "h265"@)
    ||| starts_with_seq(p, "vp9"@)
    ||| starts_with_seq(p, "vp8"@)
    ||| starts_with_seq(p, "hevc"@)
}

/// A codec name that denotes audio.
pub open spec fn audio_codec(p: Seq<char>) -> bool {
    ||| starts_with_seq(p, "mp4a"@)
    ||| starts_with_seq(p, "aac"@)
    ||| starts_with_seq(p, "opus"@)
    ||| starts_with_seq(p, "vorbis"@)
}

/// The last trimmed piece naming a video codec, or the empty text.
pub open spec fn last_video(ps: Seq<Seq<char>>) -> Seq<char>
    decreases ps.len(),
{
    if ps.len() == 0 {
        Seq::empty()
    } else if video_codec(trim_seq(ps.last())) {
        trim_seq(ps.last())
    } else {
        last_video(ps.drop_last())
    }
}

/// The last trimmed piece naming an audio (and not a video) codec, or the
/// empty text.
pub open spec fn last_audio(ps: Seq<Seq<char>>) -> Seq<char>
    decreases ps.len(),
{
    if ps.len() == 0 {
        Seq::empty()
    } else if !video_codec(trim_seq(ps.last())) && audio_codec(trim_seq(ps.last())) {
        trim_seq(ps.last())
    } else {
        last_audio(ps.drop_last())
    }
}

/// The codec list of a MIME type: the lower-cased text after `codecs=`
/// with surrounding double quotes removed, if `codecs=` occurs.
pub open spec fn codec_list(mime: Seq<char>) -> Option<Seq<char>> {
    let lower = unicode_lowercase(mime);
    match first_occ(lower, "codecs="@, 0) {
        Some(start) => Some(strip(lower.skip(start + 7), seq!['"'], false)),
        None => None,
    }
}

/// The video and audio codecs that a MIME type declares, each the empty
/// text when it declares none.
pub open spec fn codecs_of(mime: Seq<char>) -> (Seq<char>, Seq<char>) {
    match codec_list(mime) {
        Some(list) => (last_video(pieces(list, ',')), last_audio(pieces(list, ','))),
        None => (Seq::empty(), Seq::empty()),
    }
}

/// Reads the video and audio codecs out of a MIME type such as
/// `video/mp4; codecs="avc1.64001F, mp4a.40.2"`.
pub fn parse_codecs(mime: &str) -> (r: (String, String))
    ensures
        (r.0@, r.1@) == codecs_of(mime@),
{
    let lower = chars_of(to_lowercase(mime).as_str());
    let key = chars_of("codecs=");
    proof {
        reveal_strlit("codecs=");
        lemma_first_occ(lower@, key@, 0);
    }
    let start = match crate::text::find(&lower, &key) {
        Some(s) => s,
        None => return (String::new(), String::new()),
    };
    assert(start + 7 <= lower.len());
    let rest = slice_of(&lower, start + 7, lower.len());
    assert(rest@ =~= lower@.skip(start + 7));
    let quote: Vec<char> = vec!['"'];
    assert(quote@ =~= seq!['"']);
    let list = strip_chars(&rest, &quote, false);
    let parts = split_all(&list, ',');
    let ghost ps = views(parts@);
    let av = chars_of("av");
    let h264 = chars_of("h264");
    let h265 = chars_of("h265");
    let vp9 = chars_of("vp9");
    let vp8 = chars_of("vp8");
    let hevc = chars_of("hevc");
    let mp4a = chars_of("mp4a");
    let aac = chars_of("aac");
    let opus = chars_of("opus");
    let vorbis = chars_of("vorbis");
    let mut vc: Vec<char> = Vec::new();
    let mut ac: Vec<char> = Vec::new();
    let mut k: usize = 0;
    while k < parts.len()
        invariant
            k <= parts.len(),
            ps == views(parts@),
            vc@ == last_video(ps.take(k as int)),
            ac@ == last_audio(ps.take(k as int)),
            av@ == "av"@,
            h264@ == "h264"@,
            h265@ == "h265"@,
            vp9@ == "vp9"@,
            vp8@ == "vp8"@,
            hevc@ == "hevc"@,
            mp4a@ == "mp4a"@,
            aac@ == "aac"@,
            opus@ == "opus"@,
            vorbis@ == "vorbis"@,
        decreases parts.len() - k,
    {
        let p = trim(&parts[k]);
        assert(ps.take(k + 1).drop_last() =~= ps.take(k as int));
        assert(ps.take(k + 1).last() == parts@[k as int]@);
        let is_video = starts_with(&p, &av) || starts_with(&p, &h264) || starts_with(&p, &h265)
            || starts_with(&p, &vp9) || starts_with(&p, &vp8) || starts_with(&p, &hevc);
        if is_video {
            vc = p;
        } else if starts_with(&p, &mp4a) || starts_with(&p, &aac) || starts_with(&p, &opus)
            || starts_with(&p, &vorbis) {
            ac = p;
        }
        k = k + 1;
    }
    assert(ps.take(parts.len() as int) =~= ps);
    (string_of(&vc), string_of(&ac))
}

} // verus!
