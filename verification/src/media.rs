//! Classification of negotiated media types.

use vstd::prelude::*;
use vstd::string::*;

verus! {

/// The two kinds of raw stream that a converter exists for.
#[derive(Clone, Copy, Debug, PartialEq, Eq, Hash, Structural)]
pub enum MediaKind {
    Audio,
    Video,
}

/// The media-type prefix of raw audio.
pub open spec fn audio_prefix() -> Seq<char> {
    "audio/x-raw"@
}

/// The media-type prefix of raw video.
pub open spec fn video_prefix() -> Seq<char> {
    "video/x-raw"@
}

/// The kind of a media type: audio where it begins with the raw audio
/// prefix, video where it begins with the raw video prefix, none otherwise.
pub open spec fn kind_of(media_type: Seq<char>) -> Option<MediaKind> {
    if audio_prefix().is_prefix_of(media_type) {
        Some(MediaKind::Audio)
    } else if video_prefix().is_prefix_of(media_type) {
        Some(MediaKind::Video)
    } else {
        None
    }
}

/// Whether `text` begins with `prefix`, character by character.
pub fn starts_with(text: &str, prefix: &str) -> (found: bool)
    ensures
        found == prefix@.is_prefix_of(text@),
{
    let n: usize = prefix.unicode_len();
    let m: usize = text.unicode_len();
    if n > m {
        return false;
    }
    let mut i: usize = 0;
    while i < n
        invariant
            i <= n,
            n == prefix@.len(),
            m == text@.len(),
            n <= m,
            forall|j: int| 0 <= j < i ==> prefix@[j] == text@[j],
        decreases n - i,
    {
        if prefix.get_char(i) != text.get_char(i) {
            assert(text@.subrange(0, n as int)[i as int] != prefix@[i as int]);
            return false;
        }
        i += 1;
    }
    assert(prefix@ =~= text@.subrange(0, n as int));
    true
}

/// Classifies a negotiated media type.
pub fn classify(media_type: &str) -> (kind: Option<MediaKind>)
    ensures
        kind == kind_of(media_type@),
{
    if starts_with(media_type, "audio/x-raw") {
        Some(MediaKind::Audio)
    } else if starts_with(media_type, "video/x-raw") {
        Some(MediaKind::Video)
    } else {
        None
    }
}

/// No media type is both audio and video: the two prefixes differ in their
/// first character, so the order in which they are tried does not matter.
pub proof fn lemma_kinds_exclusive(media_type: Seq<char>)
    ensures
        !(audio_prefix().is_prefix_of(media_type) && video_prefix().is_prefix_of(media_type)),
        kind_of(media_type) == Some(MediaKind::Video) <==> video_prefix().is_prefix_of(media_type),
{
    reveal_strlit("audio/x-raw");
    reveal_strlit("video/x-raw");
    if audio_prefix().is_prefix_of(media_type) && video_prefix().is_prefix_of(media_type) {
        assert(media_type.subrange(0, 11)[0] == 'a');
        assert(media_type.subrange(0, 11)[0] == 'v');
    }
}

} // verus!
