use music_bot::metadata::{track_preload_duration, track_preload_millis, TrackMetadata, TrackPlatform};
use music_bot::text::{decimal_string, ends_with, join_strings, starts_with, str_equal, truncate_select_label};
use music_bot::words::{join_words, trim_whitespace};

fn strings(v: &[&str]) -> Vec<String> {
    v.iter().map(|s| s.to_string()).collect()
}

#[test]
fn decimal_strings_match_to_string() {
    assert_eq!(decimal_string(0), "0");
    assert_eq!(decimal_string(7), "7");
    assert_eq!(decimal_string(10), "10");
    assert_eq!(decimal_string(1234567890), "1234567890");
    assert_eq!(decimal_string(u64::MAX), u64::MAX.to_string());
}

#[test]
fn join_puts_separator_between_parts_only() {
    assert_eq!(join_strings(&strings(&[]), ", "), "");
    assert_eq!(join_strings(&strings(&["a"]), ", "), "a");
    assert_eq!(join_strings(&strings(&["a", "b", "c"]), ", "), "a, b, c");
}

#[test]
fn affixes_and_equality() {
    assert!(ends_with("123first", "first"));
    assert!(!ends_with("first", "123first"));
    assert!(starts_with("123next", "123"));
    assert!(!starts_with("12next", "123"));
    assert!(str_equal("ạb", "ạb"));
    assert!(!str_equal("ab", "abc"));
}

#[test]
fn label_of_exactly_limit_is_unchanged() {
    let label = "x".repeat(100);
    assert_eq!(truncate_select_label(&label), label);
    let longer = "y".repeat(250);
    let cut = truncate_select_label(&longer);
    assert_eq!(cut, format!("{}...", "y".repeat(97)));
}

#[test]
fn trim_and_words_follow_unicode_whitespace() {
    assert_eq!(trim_whitespace("  hello world \t\n"), "hello world");
    assert_eq!(trim_whitespace("\u{3000}x\u{3000}"), "x");
    assert_eq!(trim_whitespace("   "), "");
    assert_eq!(join_words("  never  gonna\tgive ", "+"), "never+gonna+give");
    assert_eq!(join_words("\t \n", "+"), "");
}

#[test]
fn spotify_and_soundcloud_metadata_keep_fields() {
    let m = TrackMetadata::spotify(
        "Song".to_string(),
        "https://open.spotify.com/track/x".to_string(),
        Some("art".to_string()),
        1000,
        strings(&["A", "B"]),
    );
    assert_eq!(m.platform, TrackPlatform::Spotify);
    assert_eq!(m.title, "Song");
    assert_eq!(m.duration, 1000);
    assert_eq!(m.artists, strings(&["A", "B"]));
    let s = TrackMetadata::soundcloud("T".to_string(), "u".to_string(), None, 5, strings(&["C"]));
    assert_eq!(s.platform, TrackPlatform::SoundCloud);
    assert_eq!(s.artwork, None);
}

#[test]
fn live_stream_without_title_is_named_after_streamers() {
    let m = TrackMetadata::tiktok_live(String::new(), "u".to_string(), None, strings(&["An", "Bình"]));
    assert_eq!(m.title, "Live stream của An, Bình");
    assert_eq!(m.duration, 0);
    assert_eq!(m.platform, TrackPlatform::TikTokLive);
    let named = TrackMetadata::tiktok_live("Hello".to_string(), "u".to_string(), None, strings(&["An"]));
    assert_eq!(named.title, "Hello");
}

#[test]
fn preload_only_for_known_lengths() {
    let known = TrackMetadata::spotify("a".into(), "b".into(), None, 2500, vec![]);
    let live = TrackMetadata::tiktok_live("a".into(), "b".into(), None, vec![]);
    assert_eq!(track_preload_millis(&known), Some(2500));
    assert_eq!(track_preload_millis(&live), None);
    assert_eq!(track_preload_duration(&known), Some(std::time::Duration::from_millis(2500)));
    assert_eq!(track_preload_duration(&live), None);
}

#[test]
fn preload_reads_the_length_as_milliseconds() {
    let meta = TrackMetadata::spotify(
        "T".to_string(),
        "https://open.spotify.com/track/x".to_string(),
        None,
        215000,
        vec![],
    );
    assert_eq!(track_preload_duration(&meta), Some(std::time::Duration::from_secs(215)));
}
