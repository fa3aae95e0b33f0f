use music_bot::commands::messages::{
    connected_message, loop_enabled, loop_reply, now_playing_description, playlist_added_message,
    search_expired_message, search_menu_id, search_prompt, skip_reply, spotify_login_message,
    spotify_login_result,
};
use music_bot::commands::queue::{
    apply_queue_action, is_queue_interaction, parse_queue_action, queue_button_ids,
    queue_page_description, queue_page_footer, total_pages, QueueAction, QUEUE_PAGE_SIZE,
};
use music_bot::commands::voice::{
    check_voice_channels, count_listeners, count_members, leave_after_command, leave_when_alone,
    needs_join, VoiceCheckError, VoiceMember,
};
use music_bot::ffmpeg::{ffmpeg_pipe_args, ffmpeg_url_args};
use music_bot::metadata::TrackMetadata;

fn track(n: usize) -> TrackMetadata {
    TrackMetadata::spotify(
        format!("T{}", n),
        format!("u{}", n),
        None,
        1,
        vec!["A".to_string(), "B".to_string()],
    )
}

#[test]
fn voice_checks() {
    assert_eq!(check_voice_channels(None, Some(1)), Err(VoiceCheckError::NotInVoice));
    assert_eq!(check_voice_channels(Some(1), Some(2)), Err(VoiceCheckError::BotElsewhere));
    assert_eq!(check_voice_channels(Some(1), Some(1)), Ok(1));
    assert_eq!(check_voice_channels(Some(1), None), Ok(1));
    assert!(needs_join(None, 1));
    assert!(needs_join(Some(2), 1));
    assert!(!needs_join(Some(1), 1));
}

#[test]
fn listeners_exclude_bots_but_count_unknown_users() {
    let states = vec![
        VoiceMember { channel: Some(5), is_bot: Some(true) },
        VoiceMember { channel: Some(5), is_bot: None },
        VoiceMember { channel: Some(5), is_bot: Some(false) },
        VoiceMember { channel: Some(6), is_bot: Some(false) },
        VoiceMember { channel: None, is_bot: Some(false) },
    ];
    assert_eq!(count_listeners(&states, 5), 2);
    assert_eq!(count_listeners(&states, 7), 0);
    assert!(!leave_when_alone(Some(5), &states));
    assert!(leave_when_alone(Some(7), &states));
    assert!(!leave_when_alone(None, &states));
}

#[test]
fn leave_after_command_when_empty_or_alone() {
    let states = vec![(Some(5), 100), (Some(5), 1), (Some(6), 2)];
    assert_eq!(count_members(&states, 5, 100), 1);
    assert!(!leave_after_command(false, Some(5), &states, 100));
    assert!(leave_after_command(true, Some(5), &states, 100));
    assert!(leave_after_command(false, Some(7), &states, 100));
    assert!(leave_after_command(false, None, &states, 100));
}

#[test]
fn queue_pages() {
    assert_eq!(total_pages(0, 10), 1);
    assert_eq!(total_pages(10, 10), 1);
    assert_eq!(total_pages(11, 10), 2);
    let tracks: Vec<TrackMetadata> = (0..12).map(track).collect();
    let first = queue_page_description(&tracks, 0, QUEUE_PAGE_SIZE);
    assert!(first.starts_with("Các bài hát trong danh sách phát hiện tại:\n1: [T0 - A, B](u0)"));
    assert_eq!(first.matches('\n').count(), 10);
    let second = queue_page_description(&tracks, 1, QUEUE_PAGE_SIZE);
    assert_eq!(
        second,
        "Các bài hát trong danh sách phát hiện tại:\n11: [T10 - A, B](u10)\n12: [T11 - A, B](u11)"
    );
    assert_eq!(queue_page_description(&tracks, 5, QUEUE_PAGE_SIZE), "Các bài hát trong danh sách phát hiện tại:");
    assert_eq!(queue_page_footer(12, 1, 10), "Hiển thị 11 đến 12 trong tổng số 12 bài hát (Trang 2/2)");
    assert_eq!(queue_page_footer(0, 0, 10), "Hiển thị 0 đến 0 trong tổng số 0 bài hát (Trang 1/1)");
}

#[test]
fn queue_buttons_and_navigation() {
    let ids = queue_button_ids(42);
    assert_eq!(ids, vec!["42first", "42prev", "42next", "42last"]);
    assert_eq!(parse_queue_action(&ids[0]), Some(QueueAction::First));
    assert_eq!(parse_queue_action(&ids[1]), Some(QueueAction::Prev));
    assert_eq!(parse_queue_action(&ids[2]), Some(QueueAction::Next));
    assert_eq!(parse_queue_action(&ids[3]), Some(QueueAction::Last));
    assert_eq!(parse_queue_action("42other"), None);
    assert!(is_queue_interaction("42next", 42));
    assert!(!is_queue_interaction("43next", 42));
    assert_eq!(apply_queue_action(2, 5, QueueAction::First), 0);
    assert_eq!(apply_queue_action(0, 5, QueueAction::Prev), 0);
    assert_eq!(apply_queue_action(3, 5, QueueAction::Prev), 2);
    assert_eq!(apply_queue_action(3, 5, QueueAction::Next), 4);
    assert_eq!(apply_queue_action(4, 5, QueueAction::Next), 4);
    assert_eq!(apply_queue_action(1, 5, QueueAction::Last), 4);
}

#[test]
fn messages() {
    let t = track(3);
    assert_eq!(now_playing_description(&t, 65), "**[T3](u3)** - A, B\n(Phát được: 65s)");
    assert_eq!(spotify_login_message("ABCD", "https://x"), "Login Spotify: [ABCD](https://x)");
    assert_eq!(spotify_login_result(None), "Đăng nhập Spotify thành công!");
    assert_eq!(spotify_login_result(Some("boom")), "Đăng nhập Spotify thất bại: boom");
    assert_eq!(connected_message(Some("Bot"), "bot"), "Connected as \"Bot\"");
    assert_eq!(connected_message(None, "bot"), "Connected as \"bot\"");
    assert_eq!(search_prompt("abc"), "Kết quả tìm kiếm cho `abc`:");
    assert_eq!(search_expired_message("abc"), "Kết quả tìm kiếm cho `abc` đã hết hạn.");
    assert_eq!(search_menu_id(77), "spotify_search_77");
    assert_eq!(playlist_added_message(12), "Đã thêm playlist 12 bài hát vào danh sách phát");
    assert!(loop_enabled(None));
    assert!(!loop_enabled(Some(false)));
    assert_eq!(loop_reply(false, true), "Không có bài hát nào đang phát.");
    assert_eq!(loop_reply(true, true), "Đã bật lặp vòng bài hát hiện tại.");
    assert_eq!(loop_reply(true, false), "Đã tắt lặp vòng.");
    assert_eq!(skip_reply(true), "Danh sách phát hiện đã trống.");
    assert_eq!(skip_reply(false), "Đã bỏ qua bài hát hiện tại.");
}

#[test]
fn ffmpeg_arguments() {
    let args = ffmpeg_url_args("https://stream");
    assert_eq!(args.len(), 31);
    assert_eq!(args[0], "-nostdin");
    assert_eq!(args[19], "-i");
    assert_eq!(args[20], "https://stream");
    assert_eq!(args[30], "pipe:1");
    let pipe = ffmpeg_pipe_args();
    assert_eq!(
        pipe,
        vec![
            "-nostdin", "-threads", "1", "-loglevel", "warning", "-i", "pipe:0", "-map", "0:a:0",
            "-vn", "-f", "f32le", "-ac", "2", "-ar", "48000", "pipe:1"
        ]
    );
}
