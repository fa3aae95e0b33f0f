use vstd::prelude::*;

verus! {

/// The page state that a TikTok live page embeds as JSON.
#[derive(Debug, Clone, PartialEq)]
pub struct SigiState {
    pub live_room: Option<LiveRoom>,
}

/// The live room part of the page state.
#[derive(Debug, Clone, PartialEq)]
pub struct LiveRoom {
    pub need_login: bool,
    pub show_live_gate: bool,
    pub is_age_gate_room: bool,
    pub live_room_status: i64,
    pub live_room_user_info: LiveRoomUserInfo,
}

/// The streamer and the room they stream in.
#[derive(Debug, Clone, PartialEq)]
pub struct LiveRoomUserInfo {
    pub user: User,
    pub stats: UserStats,
    pub live_room: LiveRoomDetails,
}

/// A TikTok account.
#[derive(Debug, Clone, PartialEq)]
pub struct User {
    pub avatar_larger: String,
    pub avatar_medium: String,
    pub avatar_thumb: String,
    pub id: String,
    pub nickname: String,
    pub sec_uid: String,
    pub secret: bool,
    pub unique_id: String,
    pub verified: bool,
    pub room_id: String,
    pub signature: String,
    pub status: i64,
    pub follow_status: i64,
}

/// Follower counts of an account.
#[derive(Debug, Clone, PartialEq)]
pub struct UserStats {
    pub following_count: u64,
    pub follower_count: u64,
}

/// A live room's title, cover and stream.
#[derive(Debug, Clone, PartialEq)]
pub struct LiveRoomDetails {
    pub cover_url: String,
    pub square_cover_img: String,
    pub title: String,
    pub start_time: u64,
    pub status: i64,
    pub stream_data: Option<LiveStreamData>,
}

/// Where the stream of a live room is pulled from.
#[derive(Debug, Clone, PartialEq)]
pub struct LiveStreamData {
    pub pull_data: PullData,
}

/// The pull options and the stream addresses.
#[derive(Debug, Clone, PartialEq)]
pub struct PullData {
    pub options: PullOptions,
    /// Decoded from a JSON string embedded in the page state; an empty
    /// string there stands for no data.
    pub stream_data: Option<ParsedStreamData>,
}

/// The qualities a stream offers.
#[derive(Debug, Clone, PartialEq)]
pub struct PullOptions {
    pub default_quality: Quality,
    pub qualities: Vec<Quality>,
    pub show_quality_button: bool,
    pub support_low_latency: bool,
}

/// One stream quality.
#[derive(Debug, Clone, PartialEq)]
pub struct Quality {
    pub icon_type: i64,
    pub level: i64,
    pub name: String,
    pub resolution: String,
    pub sdk_key: String,
    pub v_codec: String,
}

/// The decoded stream addresses.
#[derive(Debug, Clone, PartialEq)]
pub struct ParsedStreamData {
    pub data: StreamVariants,
}

/// The audio-only and the high-definition variant of a stream.
#[derive(Debug, Clone, PartialEq)]
pub struct StreamVariants {
    pub ao: StreamQuality,
    pub hd: StreamQuality,
}

/// The main addresses of one variant.
#[derive(Debug, Clone, PartialEq)]
pub struct StreamQuality {
    pub main: StreamUrls,
}

/// The addresses of one variant, one per protocol.
#[derive(Debug, Clone, PartialEq)]
pub struct StreamUrls {
    pub flv: String,
    pub hls: String,
    pub cmaf: String,
    pub dash: String,
    pub lls: String,
    pub tsl: String,
    pub tile: String,
    pub rtc: String,
    pub sdk_params: String,
}

} // verus!
