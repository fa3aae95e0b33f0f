use vstd::prelude::*;
use vstd::string::*;

use crate::metadata::TrackMetadata;
use crate::text::{decimal, join_strings, push_decimal, seq_join, views};

verus! {

/// The description of the now-playing view: the linked title, the artists
/// and how many seconds have been played.
pub open spec fn now_playing_text(t: TrackMetadata, position_secs: u64) -> Seq<char> {
    "**["@ + t.title@ + "]("@ + t.url@ + ")** - "@ + seq_join(views(t.artists@), ", "@)
        + "\n(Phát được: "@ + decimal(position_secs as nat) + "s)"@
}

/// The description of the now-playing view for a track played for
/// `position_secs` seconds.
pub fn now_playing_description(t: &TrackMetadata, position_secs: u64) -> (res: String)
    ensures
        res@ == now_playing_text(*t, position_secs),
{
    let mut s = String::from_str("**[");
    s.append(t.title.as_str());
    s.append("](");
    s.append(t.url.as_str());
    s.append(")** - ");
    let artists = join_strings(&t.artists, ", ");
    s.append(artists.as_str());
    s.append("\n(Phát được: ");
    push_decimal(&mut s, position_secs);
    s.append("s)");
    assert(s@ =~= now_playing_text(*t, position_secs));
    s
}

/// The message that shows the Spotify device code and where to enter it.
pub fn spotify_login_message(user_code: &str, url: &str) -> (res: String)
    ensures
        res@ == "Login Spotify: ["@ + user_code@ + "]("@ + url@ + ")"@,
{
    let mut s = String::from_str("Login Spotify: [");
    s.append(user_code);
    s.append("](");
    s.append(url);
    s.append(")");
    s
}

/// The message that ends a Spotify login: success, or the reason it failed.
pub fn spotify_login_result(error: Option<&str>) -> (res: String)
    ensures
        res@ == match error {
            None => "Đăng nhập Spotify thành công!"@,
            Some(e) => "Đăng nhập Spotify thất bại: "@ + e@,
        },
{
    match error {
        None => String::from_str("Đăng nhập Spotify thành công!"),
        Some(e) => {
            let mut s = String::from_str("Đăng nhập Spotify thất bại: ");
            s.append(e);
            s
        },
    }
}

/// The line printed once connected: the bot's display name, else its user
/// name, in quotes.
pub fn connected_message(global_name: Option<&str>, name: &str) -> (res: String)
    ensures
        res@ == "Connected as \""@ + match global_name {
            Some(g) => g@,
            None => name@,
        } + "\""@,
{
    let shown = match global_name {
        Some(g) => g,
        None => name,
    };
    let mut s = String::from_str("Connected as \"");
    s.append(shown);
    s.append("\"");
    s
}

/// The prompt above the search results for `query`.
pub fn search_prompt(query: &str) -> (res: String)
    ensures
        res@ == "Kết quả tìm kiếm cho `"@ + query@ + "`:"@,
{
    let mut s = String::from_str("Kết quả tìm kiếm cho `");
    s.append(query);
    s.append("`:");
    s
}

/// The text that replaces the search prompt once the choice has timed out.
pub fn search_expired_message(query: &str) -> (res: String)
    ensures
        res@ == "Kết quả tìm kiếm cho `"@ + query@ + "` đã hết hạn."@,
{
    let mut s = String::from_str("Kết quả tìm kiếm cho `");
    s.append(query);
    s.append("` đã hết hạn.");
    s
}

/// The id of the search menu of command `ctx_id`.
pub fn search_menu_id(ctx_id: u64) -> (res: String)
    ensures
        res@ == "spotify_search_"@ + decimal(ctx_id as nat),
{
    let mut s = String::from_str("spotify_search_");
    push_decimal(&mut s, ctx_id);
    s
}

/// The description shown once a playlist of `count` tracks is queued.
pub fn playlist_added_message(count: usize) -> (res: String)
    ensures
        res@ == "Đã thêm playlist "@ + decimal(count as nat) + " bài hát vào danh sách phát"@,
{
    let mut s = String::from_str("Đã thêm playlist ");
    push_decimal(&mut s, count as u64);
    s.append(" bài hát vào danh sách phát");
    s
}

/// Whether the loop command turns looping on: yes unless told otherwise.
pub fn loop_enabled(mode: Option<bool>) -> (res: bool)
    ensures
        res == match mode {
            Some(m) => m,
            None => true,
        },
{
    match mode {
        Some(m) => m,
        None => true,
    }
}

/// The reply of the loop command.
pub fn loop_reply(has_track: bool, enable: bool) -> (res: &'static str)
    ensures
        res@ == if !has_track {
            "Không có bài hát nào đang phát."@
        } else if enable {
            "Đã bật lặp vòng bài hát hiện tại."@
        } else {
            "Đã tắt lặp vòng."@
        },
{
    if !has_track {
        "Không có bài hát nào đang phát."
    } else if enable {
        "Đã bật lặp vòng bài hát hiện tại."
    } else {
        "Đã tắt lặp vòng."
    }
}

/// The reply of the skip command, by whether the queue is now empty.
pub fn skip_reply(queue_empty: bool) -> (res: &'static str)
    ensures
        res@ == if queue_empty {
            "Danh sách phát hiện đã trống."@
        } else {
            "Đã bỏ qua bài hát hiện tại."@
        },
{
    if queue_empty {
        "Danh sách phát hiện đã trống."
    } else {
        "Đã bỏ qua bài hát hiện tại."
    }
}

} // verus!
