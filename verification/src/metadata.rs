use vstd::prelude::*;
use vstd::string::*;

use crate::text::{join_strings, seq_join, views};

verus! {

/// The service a queued track comes from.
#[derive(Debug, Clone, Copy, PartialEq, Eq, Structural, Hash, PartialOrd, Ord)]
pub enum TrackPlatform {
    Spotify,
    SoundCloud,
    TikTokLive,
}

/// What the bot shows about a queued track.
#[derive(Debug, Clone)]
pub struct TrackMetadata {
    pub title: String,
    pub url: String,
    pub artwork: Option<String>,
    pub platform: TrackPlatform,
    /// Length in milliseconds; 0 when unknown (live streams).
    pub duration: u32,
    pub artists: Vec<String>,
}

/// The view of an optional string.
pub open spec fn opt_view(o: Option<String>) -> Option<Seq<char>> {
    match o {
        Some(s) => Some(s@),
        None => None,
    }
}

/// The title a live stream gets when the stream has none of its own.
pub open spec fn live_title(title: Seq<char>, artists: Seq<Seq<char>>) -> Seq<char> {
    if title.len() == 0 {
        "Live stream của "@ + seq_join(artists, ", "@)
    } else {
        title
    }
}

impl TrackMetadata {
    /// Metadata of a Spotify track or episode.
    pub fn spotify(
        title: String,
        url: String,
        artwork: Option<String>,
        duration: u32,
        artists: Vec<String>,
    ) -> (res: Self)
        ensures
            res.title@ == title@,
            res.url@ == url@,
            opt_view(res.artwork) == opt_view(artwork),
            res.platform == TrackPlatform::Spotify,
            res.duration == duration,
            res.artists@ == artists@,
    {
        TrackMetadata { title, url, artwork, platform: TrackPlatform::Spotify, duration, artists }
    }

    /// Metadata of a SoundCloud track.
    pub fn soundcloud(
        title: String,
        url: String,
        artwork: Option<String>,
        duration: u32,
        artists: Vec<String>,
    ) -> (res: Self)
        ensures
            res.title@ == title@,
            res.url@ == url@,
            opt_view(res.artwork) == opt_view(artwork),
            res.platform == TrackPlatform::SoundCloud,
            res.duration == duration,
            res.artists@ == artists@,
    {
        TrackMetadata {
            title,
            url,
            artwork,
            platform: TrackPlatform::SoundCloud,
            duration,
            artists,
        }
    }

    /// Metadata of a TikTok live stream: it has no length, and an empty title
    /// is replaced by one that names the streamers.
    pub fn tiktok_live(
        title: String,
        url: String,
        artwork: Option<String>,
        artists: Vec<String>,
    ) -> (res: Self)
        ensures
            res.title@ == live_title(title@, views(artists@)),
            res.url@ == url@,
            opt_view(res.artwork) == opt_view(artwork),
            res.platform == TrackPlatform::TikTokLive,
            res.duration == 0,
            res.artists@ == artists@,
    {
        let title_real = if title.as_str().is_empty() {
            let mut t = String::from_str("Live stream của ");
            let names = join_strings(&artists, ", ");
            t.append(names.as_str());
            t
        } else {
            title
        };
        TrackMetadata {
            title: title_real,
            url,
            artwork,
            platform: TrackPlatform::TikTokLive,
            duration: 0,
            artists,
        }
    }
}

/// How long ahead of its turn a track is loaded, in milliseconds: its own
/// length when that is known, none otherwise.
pub open spec fn preload_millis(duration: u32) -> Option<u64> {
    if duration > 0 {
        Some(duration as u64)
    } else {
        None
    }
}

/// The preload hint of a track, in milliseconds.
pub fn track_preload_millis(metadata: &TrackMetadata) -> (res: Option<u64>)
    ensures
        res == preload_millis(metadata.duration),
{
    if metadata.duration > 0 {
        Some(metadata.duration as u64)
    } else {
        None
    }
}

/// The duration `std::time::Duration::from_millis` makes of a count of
/// milliseconds.
pub uninterp spec fn duration_of_millis(ms: u64) -> std::time::Duration;

/// Calls `std::time::Duration::from_millis`. Claimed: the result is
/// `duration_of_millis` of the count (the call cannot panic: every `u64`
/// count of milliseconds fits a `Duration`).
#[verifier::external_body]
fn duration_from_millis(ms: u64) -> (res: std::time::Duration)
    ensures
        res == duration_of_millis(ms),
{
    std::time::Duration::from_millis(ms)
}

/// The preload hint of a track: its length read as milliseconds, when that
/// length is known.
pub fn track_preload_duration(metadata: &TrackMetadata) -> (res: Option<std::time::Duration>)
    ensures
        res == match preload_millis(metadata.duration) {
            Some(ms) => Some(duration_of_millis(ms)),
            None => None,
        },
{
    match track_preload_millis(metadata) {
        Some(ms) => Some(duration_from_millis(ms)),
        None => None,
    }
}

/// The fields of a player's auxiliary metadata that the bot fills in.
#[derive(Debug, Clone)]
pub struct AuxFields {
    pub title: Option<String>,
    pub track: Option<String>,
    pub artist: Option<String>,
    pub duration_ms: Option<u64>,
    pub source_url: Option<String>,
    pub thumbnail: Option<String>,
}

impl AuxFields {
    /// Auxiliary metadata with nothing filled in.
    pub fn empty() -> (res: Self)
        ensures
            res.title is None,
            res.track is None,
            res.artist is None,
            res.duration_ms is None,
            res.source_url is None,
            res.thumbnail is None,
    {
        AuxFields {
            title: None,
            track: None,
            artist: None,
            duration_ms: None,
            source_url: None,
            thumbnail: None,
        }
    }
}

} // verus!
