use media_pipeline::media::{classify, starts_with, MediaKind};

#[test]
fn raw_audio_is_audio() {
    assert_eq!(classify("audio/x-raw"), Some(MediaKind::Audio));
    assert_eq!(classify("audio/x-raw, format=S16LE, rate=44100"), Some(MediaKind::Audio));
    assert_eq!(classify("audio/x-raw-float"), Some(MediaKind::Audio));
}

#[test]
fn raw_video_is_video() {
    assert_eq!(classify("video/x-raw"), Some(MediaKind::Video));
    assert_eq!(classify("video/x-raw, width=854, height=480"), Some(MediaKind::Video));
}

#[test]
fn other_media_types_have_no_kind() {
    assert_eq!(classify(""), None);
    assert_eq!(classify("audio/x-ra"), None);
    assert_eq!(classify("audio/mpeg"), None);
    assert_eq!(classify("video/x-h264"), None);
    assert_eq!(classify("text/x-raw"), None);
    assert_eq!(classify(" audio/x-raw"), None);
    assert_eq!(classify("Audio/x-raw"), None);
    assert_eq!(classify("application/x-subtitle"), None);
}

#[test]
fn prefix_is_compared_character_by_character() {
    assert!(starts_with("abc", ""));
    assert!(starts_with("", ""));
    assert!(starts_with("abc", "abc"));
    assert!(starts_with("abcd", "abc"));
    assert!(!starts_with("ab", "abc"));
    assert!(!starts_with("abd", "abc"));
    assert!(!starts_with("", "a"));
    assert!(starts_with("h\u{e9}llo", "h\u{e9}"));
    assert!(!starts_with("h\u{e9}llo", "he"));
    assert!(!starts_with("xabc", "abc"));
}
