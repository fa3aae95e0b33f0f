use music_bot::soundcloud::{playlist_track_ids, SoundCloudError, SoundCloudTrack};
use music_bot::tiktok::live::{live_page_url, TikTokError, TikTokLive, TikTokRoute};
use music_bot::tiktok::page::{cookie_header, page_state_json};
use music_bot::tiktok::schema::{
    LiveRoom, LiveRoomDetails, LiveRoomUserInfo, LiveStreamData, ParsedStreamData, PullData, PullOptions, Quality,
    SigiState, StreamQuality, StreamUrls, StreamVariants, User, UserStats,
};

fn user(nickname: &str, unique_id: &str, avatar: &str) -> User {
    User {
        avatar_larger: String::new(),
        avatar_medium: avatar.to_string(),
        avatar_thumb: String::new(),
        id: "1".to_string(),
        nickname: nickname.to_string(),
        sec_uid: String::new(),
        secret: false,
        unique_id: unique_id.to_string(),
        verified: false,
        room_id: "9".to_string(),
        signature: String::new(),
        status: 0,
        follow_status: 0,
    }
}

fn urls(flv: &str) -> StreamUrls {
    StreamUrls {
        flv: flv.to_string(),
        hls: String::new(),
        cmaf: String::new(),
        dash: String::new(),
        lls: String::new(),
        tsl: String::new(),
        tile: String::new(),
        rtc: String::new(),
        sdk_params: String::new(),
    }
}

fn quality() -> Quality {
    Quality {
        icon_type: 0,
        level: 0,
        name: "origin".to_string(),
        resolution: String::new(),
        sdk_key: String::new(),
        v_codec: String::new(),
    }
}

fn state(title: &str, cover: &str, avatar: &str, stream: Option<Option<&str>>) -> SigiState {
    let stream_data = stream.map(|inner| LiveStreamData {
        pull_data: PullData {
            options: PullOptions {
                default_quality: quality(),
                qualities: vec![quality()],
                show_quality_button: false,
                support_low_latency: true,
            },
            stream_data: inner.map(|flv| ParsedStreamData {
                data: StreamVariants { ao: StreamQuality { main: urls(flv) }, hd: StreamQuality { main: urls("hd") } },
            }),
        },
    });
    SigiState {
        live_room: Some(LiveRoom {
            need_login: false,
            show_live_gate: false,
            is_age_gate_room: false,
            live_room_status: 2,
            live_room_user_info: LiveRoomUserInfo {
                user: user("Nick", "nick_id", avatar),
                stats: UserStats { following_count: 1, follower_count: 2 },
                live_room: LiveRoomDetails {
                    cover_url: cover.to_string(),
                    square_cover_img: String::new(),
                    title: title.to_string(),
                    start_time: 0,
                    status: 2,
                    stream_data,
                },
            },
        }),
    }
}

#[test]
fn tiktok_urls_and_routes() {
    assert!(TikTokLive::check_url("https://www.tiktok.com/@someone/live"));
    assert!(TikTokLive::check_url("https://vt.tiktok.com/ZSabc/"));
    assert!(!TikTokLive::check_url("https://tiktok.com.evil.org/@a"));
    assert_eq!(TikTokLive::route_url("https://www.tiktok.com/@a/live"), Ok(TikTokRoute::Direct));
    assert_eq!(TikTokLive::route_url("https://tiktok.com/@a"), Ok(TikTokRoute::Direct));
    assert_eq!(TikTokLive::route_url("https://vt.tiktok.com/ZSabc/"), Ok(TikTokRoute::Redirect));
    assert_eq!(TikTokLive::route_url("https://example.com/@a"), Err(TikTokError::InvalidUrl));
    assert_eq!(TikTokLive::route_url("::::"), Err(TikTokError::Malformed));
}

#[test]
fn tiktok_username_from_first_segment() {
    assert_eq!(TikTokLive::username_from_url("https://www.tiktok.com/@dj.son/live"), Ok("dj.son".to_string()));
    assert_eq!(TikTokLive::username_from_url("https://www.tiktok.com/@/live"), Err(TikTokError::InvalidUrl));
    assert_eq!(TikTokLive::username_from_url("https://www.tiktok.com/live/@x"), Err(TikTokError::InvalidUrl));
    assert_eq!(TikTokLive::username_from_url("https://vt.tiktok.com/@x"), Err(TikTokError::InvalidUrl));
}

#[test]
fn tiktok_live_from_state_picks_cover() {
    let live = TikTokLive::from_state("nick_id".to_string(), &state("", "", "avatar", None)).unwrap();
    assert_eq!(live.metadata.title, "Live stream của Nick");
    assert_eq!(live.metadata.artwork, Some("avatar".to_string()));
    assert_eq!(live.metadata.url, "https://www.tiktok.com/@nick_id/live");
    assert_eq!(live.url(), live_page_url("nick_id"));
    let with_cover = TikTokLive::from_state("n".to_string(), &state("Show", "cover", "avatar", None)).unwrap();
    assert_eq!(with_cover.metadata.artwork, Some("cover".to_string()));
    assert_eq!(with_cover.metadata.title, "Show");
    let none = TikTokLive::from_state("n".to_string(), &state("Show", "", "", None)).unwrap();
    assert_eq!(none.metadata.artwork, None);
    let aux = with_cover.aux_fields();
    assert_eq!(aux.artist, Some("Nick".to_string()));
    assert_eq!(aux.title, Some("Show".to_string()));
    assert_eq!(TikTokLive::from_state("n".to_string(), &SigiState { live_room: None }).err(), Some(TikTokError::NoLiveRoom));
}

#[test]
fn tiktok_stream_url_from_state() {
    assert_eq!(TikTokLive::stream_url_from_state(&state("", "", "", Some(Some("flv-url")))), Ok("flv-url".to_string()));
    assert_eq!(TikTokLive::stream_url_from_state(&state("", "", "", Some(None))), Err(TikTokError::NoStreamData));
    assert_eq!(TikTokLive::stream_url_from_state(&state("", "", "", None)), Err(TikTokError::NoStreamData));
    assert_eq!(TikTokLive::stream_url_from_state(&SigiState { live_room: None }), Err(TikTokError::NoLiveRoom));
}

#[test]
fn cookie_header_joins_pairs() {
    assert_eq!(cookie_header(&vec![]), "");
    let pairs = vec![("a".to_string(), "1".to_string()), ("b".to_string(), "2".to_string())];
    assert_eq!(cookie_header(&pairs), "a=1; b=2");
}

#[test]
fn page_state_is_read_from_its_element() {
    let page = r#"<html><body><script id="SIGI_STATE" type="application/json">{"LiveRoom":null}</script></body></html>"#;
    assert_eq!(page_state_json(page), Ok(r#"{"LiveRoom":null}"#.to_string()));
    assert_eq!(page_state_json("<html><body>captcha</body></html>"), Err(TikTokError::MissingState));
}

fn sc_track(id: Option<u64>, duration: Option<u64>) -> SoundCloudTrack {
    SoundCloudTrack {
        id,
        title: Some("Title".to_string()),
        permalink_url: Some("https://soundcloud.com/a/b".to_string()),
        artwork_url: None,
        duration,
        username: None,
    }
}

#[test]
fn soundcloud_urls() {
    assert!(SoundCloudTrack::check_url("https://soundcloud.com/a/b"));
    assert!(SoundCloudTrack::check_url("https://m.soundcloud.com/a/b"));
    assert!(SoundCloudTrack::check_url("https://www.soundcloud.com/a"));
    assert!(!SoundCloudTrack::check_url("https://on.soundcloud.com/xyz"));
    assert!(!SoundCloudTrack::check_url("soundcloud.com/a"));
}

#[test]
fn soundcloud_metadata_defaults() {
    let t = sc_track(Some(5), Some(4_294_967_297));
    let m = t.metadata();
    assert_eq!(m.title, "Title");
    assert_eq!(m.duration, 1);
    assert_eq!(m.artists, vec![String::new()]);
    assert_eq!(sc_track(None, None).metadata().duration, 0);
    assert_eq!(t.url(), Some("https://soundcloud.com/a/b"));
    assert_eq!(t.stream_id(), Ok(5));
    assert_eq!(sc_track(None, None).stream_id(), Err(SoundCloudError::MissingId));
    let aux = t.aux_fields();
    assert_eq!(aux.artist, Some(String::new()));
    assert_eq!(aux.title, Some("Title".to_string()));
}

#[test]
fn playlist_entries_without_id_are_skipped() {
    assert_eq!(playlist_track_ids(&vec![Some(3), None, Some(1), None]), vec![3, 1]);
    assert_eq!(playlist_track_ids(&vec![]), Vec::<u64>::new());
}
