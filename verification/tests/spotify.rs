use music_bot::spotify::audio::{best_format, header_offset, stream_data_rate, AudioFormat, SeekError, SeekTarget, StreamWindow};
use music_bot::spotify::credentials::CredentialsOauth;
use music_bot::spotify::search::{search_menu_options, search_track_items, selected_track_url, spotify_search_uri, SelectionError, SpotifySearchResult};
use music_bot::spotify::track::{cover_image_url, item_link, item_metadata, SpotifyEntity, SpotifyTrack, SpotifyUrlError};
use music_bot::spotify::uri::{SpotifyItem, SpotifyKind};

const TRACK_ID: &str = "4uLU6hMCjMI75M1A2tKUQC";

#[test]
fn spotify_urls_are_recognised_by_host() {
    assert!(SpotifyTrack::check_url("https://open.spotify.com/track/abc"));
    assert!(SpotifyTrack::check_url("https://spotify.com/"));
    assert!(!SpotifyTrack::check_url("https://notspotify.com/track/abc"));
    assert!(!SpotifyTrack::check_url("https://soundcloud.com/a/b"));
    assert!(!SpotifyTrack::check_url("never gonna give you up"));
}

#[test]
fn parse_track_link() {
    let url = format!("https://open.spotify.com/track/{}?si=xyz", TRACK_ID);
    match SpotifyTrack::parse_spotify_url(&url) {
        Ok(SpotifyEntity::Track(item)) => {
            assert_eq!(item.kind, SpotifyKind::Track);
            assert_eq!(item.id, TRACK_ID);
        }
        _ => panic!("expected a track"),
    }
}

#[test]
fn parse_album_link_skips_empty_segments() {
    let url = format!("https://open.spotify.com//album/{}/", TRACK_ID);
    match SpotifyTrack::parse_spotify_url(&url) {
        Ok(SpotifyEntity::Album(item)) => {
            assert_eq!(item.kind, SpotifyKind::Album);
            assert_eq!(item_link(&item, SpotifyKind::Album), format!("https://open.spotify.com/album/{}", TRACK_ID));
            assert_eq!(item_link(&item, SpotifyKind::Track), "");
        }
        _ => panic!("expected an album"),
    }
}

#[test]
fn parse_errors_in_order() {
    assert_eq!(SpotifyTrack::parse_spotify_url("not a url").err(), Some(SpotifyUrlError::Malformed));
    assert_eq!(SpotifyTrack::parse_spotify_url("https://example.com/track/x").err(), Some(SpotifyUrlError::NotSpotify));
    assert_eq!(SpotifyTrack::parse_spotify_url("https://open.spotify.com/track").err(), Some(SpotifyUrlError::WrongShape));
    assert_eq!(
        SpotifyTrack::parse_spotify_url("https://open.spotify.com/track/tooshort").err(),
        Some(SpotifyUrlError::InvalidUri)
    );
    let artist = format!("https://open.spotify.com/artist/{}", TRACK_ID);
    assert_eq!(SpotifyTrack::parse_spotify_url(&artist).err(), Some(SpotifyUrlError::UnsupportedType));
    assert_eq!(
        SpotifyTrack::parse_spotify_url("https://open.spotify.com/foo/bar").err(),
        Some(SpotifyUrlError::UnsupportedType)
    );
}

#[test]
fn selected_result_must_be_a_track() {
    let uri = format!("spotify:track:{}", TRACK_ID);
    assert_eq!(selected_track_url(&uri), Ok(format!("https://open.spotify.com/track/{}", TRACK_ID)));
    let album = format!("spotify:album:{}", TRACK_ID);
    assert_eq!(selected_track_url(&album), Err(SelectionError::NotATrack));
    assert_eq!(selected_track_url("spotify:track:bad"), Err(SelectionError::InvalidUri));
    assert_eq!(selected_track_url("https://x"), Err(SelectionError::InvalidUri));
}

#[test]
fn search_uri_joins_words_with_plus() {
    assert_eq!(spotify_search_uri("  never   gonna give "), Some("spotify:search:never+gonna+give".to_string()));
    assert_eq!(spotify_search_uri(" \t "), None);
    assert_eq!(spotify_search_uri(""), None);
}

#[test]
fn search_options_are_labelled_and_capped() {
    let mut results = Vec::new();
    for i in 0..30 {
        results.push(SpotifySearchResult {
            name: format!("Song {}", i),
            artists: if i == 0 { vec![] } else { vec!["A".to_string(), "B".to_string()] },
            uri: format!("spotify:track:{}", i),
        });
    }
    let options = search_menu_options(&results);
    assert_eq!(options.len(), 25);
    assert_eq!(options[0].label, "Song 0");
    assert_eq!(options[1].label, "Song 1 - A, B");
    assert_eq!(options[1].value, "spotify:track:1");
    assert_eq!(results[3].option_label(), "Song 3 - A, B");
}

#[test]
fn search_items_keep_tracks_only() {
    let track = format!("spotify:track:{}", TRACK_ID);
    let album = format!("spotify:album:{}", TRACK_ID);
    let cands = vec![None, Some(album), Some("garbage".to_string()), Some(track.clone()), Some(track)];
    let items = search_track_items(&cands);
    assert_eq!(items.len(), 2);
    assert!(items.iter().all(|i| i.kind == SpotifyKind::Track && i.id == TRACK_ID));
}

#[test]
fn item_metadata_builds_links_and_cover() {
    let item = SpotifyItem::from_uri_text(&format!("spotify:episode:{}", TRACK_ID)).unwrap();
    let m = item_metadata("Ep".to_string(), &item, SpotifyKind::Episode, Some("ab12"), -1, vec!["Show".to_string()]);
    assert_eq!(m.url, format!("https://open.spotify.com/episode/{}", TRACK_ID));
    assert_eq!(m.artwork, Some("https://i.scdn.co/image/ab12".to_string()));
    assert_eq!(m.duration, u32::MAX);
    assert_eq!(cover_image_url("ff"), "https://i.scdn.co/image/ff");
}

#[test]
fn track_url_and_aux_fields() {
    let item = SpotifyItem::from_uri_text(&format!("spotify:track:{}", TRACK_ID)).unwrap();
    let meta = item_metadata("T".to_string(), &item, SpotifyKind::Track, None, 3000, vec!["X".to_string(), "Y".to_string()]);
    let t = SpotifyTrack { uri: item, metadata: Some(meta) };
    assert_eq!(t.url(), format!("https://open.spotify.com/track/{}", TRACK_ID));
    let aux = t.aux_fields();
    assert_eq!(aux.artist, Some("X, Y".to_string()));
    assert_eq!(aux.duration_ms, Some(3000));
    let bare = SpotifyTrack { uri: SpotifyItem::from_uri_text(&format!("spotify:show:{}", TRACK_ID)).unwrap(), metadata: None };
    assert_eq!(bare.url(), "");
    assert_eq!(bare.aux_fields().track, None);
}

#[test]
fn audio_rates_and_header() {
    assert_eq!(stream_data_rate(AudioFormat::OggVorbis96), 12 * 1024);
    assert_eq!(stream_data_rate(AudioFormat::OggVorbis160), 20 * 1024);
    assert_eq!(stream_data_rate(AudioFormat::OggVorbis320), 40 * 1024);
    assert_eq!(stream_data_rate(AudioFormat::Other), 40 * 1024);
    assert_eq!(header_offset(AudioFormat::OggVorbis160), 0xa7);
    assert_eq!(header_offset(AudioFormat::Other), 0);
}

#[test]
fn best_format_is_last_of_highest_rate() {
    assert_eq!(best_format(&vec![]), None);
    assert_eq!(best_format(&vec![AudioFormat::OggVorbis96, AudioFormat::OggVorbis160]), Some(1));
    assert_eq!(best_format(&vec![AudioFormat::OggVorbis320, AudioFormat::OggVorbis96, AudioFormat::Other]), Some(2));
    let formats = vec![AudioFormat::OggVorbis320, AudioFormat::Other, AudioFormat::OggVorbis96];
    let max_by_key = formats.iter().enumerate().max_by_key(|(_, f)| stream_data_rate(**f)).map(|(i, _)| i);
    assert_eq!(best_format(&formats), max_by_key);
}

#[test]
fn seeking_skips_the_header() {
    let w = StreamWindow { length: Some(1000), offset: 0xa7 };
    assert_eq!(w.translate_seek(SeekTarget::Start(10)), Ok(SeekTarget::Start(10 + 0xa7)));
    assert_eq!(w.window_position(10 + 0xa7), 10);
    assert_eq!(w.translate_seek(SeekTarget::End(100)), Ok(SeekTarget::End(100)));
    assert_eq!(w.translate_seek(SeekTarget::End(900)), Err(SeekError::BeforeStart));
    assert_eq!(w.translate_seek(SeekTarget::Current(-5)), Ok(SeekTarget::Current(-5)));
    assert!(w.is_seekable());
    assert_eq!(w.byte_len(), Some(1000));
    let unknown = StreamWindow { length: None, offset: 0 };
    assert!(!unknown.is_seekable());
    assert_eq!(unknown.byte_len(), None);
}

fn creds(expires_at: std::time::Instant) -> CredentialsOauth {
    CredentialsOauth {
        access_token: "a".into(),
        refresh_token: "r".into(),
        expires_at,
        token_type: "Bearer".into(),
        scopes: vec!["streaming".into()],
    }
}

#[test]
fn expiry_by_the_monotonic_clock() {
    let now = std::time::Instant::now();
    let hour = std::time::Duration::from_secs(3600);
    assert!(creds(now).is_expired());
    assert!(creds(now - std::time::Duration::from_secs(1)).is_expired());
    assert!(!creds(now + hour).is_expired());
    let copy = creds(now + hour).clone();
    assert!(!copy.is_expired());
}

#[test]
fn expiry_at_a_given_reading() {
    let at = std::time::Instant::now();
    let second = std::time::Duration::from_secs(1);
    let c = creds(at);
    assert!(c.is_expired_at(&at));
    assert!(c.is_expired_at(&(at + second)));
    assert!(!c.is_expired_at(&(at - second)));
}

#[test]
fn track_link_names_its_uri() {
    let url = format!("https://open.spotify.com/track/{}/?si=abc123", TRACK_ID);
    match SpotifyTrack::parse_spotify_url(&url) {
        Ok(SpotifyEntity::Track(item)) => {
            assert_eq!(item.uri_text(), format!("spotify:track:{}", TRACK_ID));
        }
        _ => panic!("expected a track"),
    }
    let url = format!("https://open.spotify.com/playlist/{}", TRACK_ID);
    match SpotifyTrack::parse_spotify_url(&url) {
        Ok(SpotifyEntity::Playlist(item)) => {
            assert_eq!(item.uri_text(), format!("spotify:playlist:{}", TRACK_ID));
        }
        _ => panic!("expected a playlist"),
    }
}

#[test]
fn search_items_name_the_track_uris_in_order() {
    let first = "0000000000000000000001";
    let second = "6rqhFgbbKwnb9MLmUQDhG6";
    let cands = vec![
        Some(format!("spotify:track:{}", first)),
        Some(format!("spotify:episode:{}", TRACK_ID)),
        Some(format!("spotify:track:{}", second)),
    ];
    let uris: Vec<String> = search_track_items(&cands).iter().map(|i| i.uri_text()).collect();
    assert_eq!(uris, vec![format!("spotify:track:{}", first), format!("spotify:track:{}", second)]);
}

#[test]
fn uri_text_keeps_kind_and_id() {
    let named = SpotifyItem::from_uri_text(&format!("spotify:user:someone:playlist:{}", TRACK_ID)).unwrap();
    assert_eq!(named.kind, SpotifyKind::Playlist);
    assert_eq!(named.uri_text(), format!("spotify:playlist:{}", TRACK_ID));
    let other = SpotifyItem::from_uri_text("spotify:concert:xyz").unwrap();
    assert_eq!(other.kind, SpotifyKind::Unknown);
    assert_eq!(other.uri_text(), "spotify:unknown:xyz");
    assert!(SpotifyItem::from_uri_text("youtube:track:abc").is_none());
}
