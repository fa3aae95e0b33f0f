use vstd::prelude::*;
use vstd::string::*;

use crate::metadata::{live_title, opt_view, AuxFields, TrackMetadata, TrackPlatform};
use crate::text::{ends_with, has_suffix, join_strings, seq_join, str_equal, views};
use crate::tiktok::schema::SigiState;
use crate::weburl::{parse_url, url_host, url_parse, UrlView};

verus! {

/// Whether `host` is TikTok's domain or one of its subdomains.
pub open spec fn tiktok_host(host: Seq<char>) -> bool {
    host == "tiktok.com"@ || has_suffix(host, ".tiktok.com"@)
}

/// Whether a domain is one of the two that serve live pages directly.
pub open spec fn tiktok_page_domain(d: Seq<char>) -> bool {
    d == "tiktok.com"@ || d == "www.tiktok.com"@
}

/// The live page of a TikTok user.
pub open spec fn live_page(username: Seq<char>) -> Seq<char> {
    "https://www.tiktok.com/@"@ + username + "/live"@
}

/// Why a TikTok link or page state gives no playable stream.
#[derive(Debug, Clone, Copy, PartialEq, Eq, Structural)]
pub enum TikTokError {
    /// The text is not a URL.
    Malformed,
    /// The URL is not on a TikTok domain, or names no user.
    InvalidUrl,
    /// The page was too large to parse.
    PageTooLarge,
    /// The page holds no embedded state.
    MissingState,
    /// The page state holds no live room.
    NoLiveRoom,
    /// The live room holds no stream data.
    NoStreamData,
}

/// How a TikTok link is followed.
#[derive(Debug, Clone, Copy, PartialEq, Eq, Structural)]
pub enum TikTokRoute {
    /// The link is on a page domain and is read as it is.
    Direct,
    /// The link is on another TikTok subdomain (a short link) and must be
    /// followed to where it redirects.
    Redirect,
}

/// How the link `url` is followed, or why it is refused.
pub open spec fn tiktok_route(url: Seq<char>) -> Result<TikTokRoute, TikTokError> {
    match url_parse(url) {
        None => Err(TikTokError::Malformed),
        Some(v) => match v.domain {
            Some(d) => if tiktok_page_domain(d) {
                Ok(TikTokRoute::Direct)
            } else if has_suffix(d, ".tiktok.com"@) {
                Ok(TikTokRoute::Redirect)
            } else {
                Err(TikTokError::InvalidUrl)
            },
            None => Err(TikTokError::InvalidUrl),
        },
    }
}

/// A TikTok link on a subdomain other than `www` (a share short link such
/// as `vm.tiktok.com` or `vt.tiktok.com`) is followed through its redirect.
pub proof fn lemma_short_links_redirect(url: Seq<char>, v: UrlView, sub: Seq<char>)
    requires
        url_parse(url) == Some(v),
        v.domain == Some(sub + ".tiktok.com"@),
        sub != "www"@,
    ensures
        tiktok_route(url) == Ok::<TikTokRoute, TikTokError>(TikTokRoute::Redirect),
{
    reveal_strlit("tiktok.com");
    reveal_strlit("www.tiktok.com");
    reveal_strlit(".tiktok.com");
    reveal_strlit("www");
    let d = sub + ".tiktok.com"@;
    assert(d.subrange(d.len() - 11, d.len() as int) =~= ".tiktok.com"@);
    assert(d != "tiktok.com"@);
    if d == "www.tiktok.com"@ {
        assert(sub =~= d.subrange(0, 3));
        assert(d.subrange(0, 3) =~= "www"@);
    }
}

/// A link on `tiktok.com` or `www.tiktok.com` is read as it is.
pub proof fn lemma_page_links_are_direct(url: Seq<char>, v: UrlView)
    requires
        url_parse(url) == Some(v),
        v.domain == Some("tiktok.com"@) || v.domain == Some("www.tiktok.com"@),
    ensures
        tiktok_route(url) == Ok::<TikTokRoute, TikTokError>(TikTokRoute::Direct),
{
}

/// A link whose domain is not TikTok's is refused.
pub proof fn lemma_other_domains_refused(url: Seq<char>, v: UrlView, d: Seq<char>)
    requires
        url_parse(url) == Some(v),
        v.domain == Some(d),
        d != "tiktok.com"@,
        !(d.len() >= 11 && d.subrange(d.len() - 11, d.len() as int) == ".tiktok.com"@),
    ensures
        tiktok_route(url) == Err::<TikTokRoute, TikTokError>(TikTokError::InvalidUrl),
{
    reveal_strlit("www.tiktok.com");
    reveal_strlit(".tiktok.com");
    if d == "www.tiktok.com"@ {
        assert(d.subrange(3, 14) =~= ".tiktok.com"@);
    }
}

/// The user whose live page `url` is: the first path segment without its
/// leading `@`, on a page domain.
pub open spec fn live_username(url: Seq<char>) -> Result<Seq<char>, TikTokError> {
    match url_parse(url) {
        None => Err(TikTokError::Malformed),
        Some(v) => match v.domain {
            Some(d) => if !tiktok_page_domain(d) {
                Err(TikTokError::InvalidUrl)
            } else {
                match v.segments {
                    Some(segs) => if segs.len() > 0 && segs[0].len() > 1 && segs[0][0] == '@' {
                        Ok(segs[0].drop_first())
                    } else {
                        Err(TikTokError::InvalidUrl)
                    },
                    None => Err(TikTokError::InvalidUrl),
                }
            },
            None => Err(TikTokError::InvalidUrl),
        },
    }
}

/// The cover of a live stream: the room's cover, else the streamer's
/// medium avatar, else none.
pub open spec fn live_cover(cover: Seq<char>, avatar: Seq<char>) -> Option<Seq<char>> {
    if cover.len() > 0 {
        Some(cover)
    } else if avatar.len() > 0 {
        Some(avatar)
    } else {
        None
    }
}

/// The address of the audio-only FLV stream in a page state, or why there
/// is none.
pub open spec fn stream_flv(s: SigiState) -> Result<Seq<char>, TikTokError> {
    match s.live_room {
        None => Err(TikTokError::NoLiveRoom),
        Some(room) => match room.live_room_user_info.live_room.stream_data {
            None => Err(TikTokError::NoStreamData),
            Some(d) => match d.pull_data.stream_data {
                None => Err(TikTokError::NoStreamData),
                Some(p) => Ok(p.data.ao.main.flv@),
            },
        },
    }
}

/// A TikTok live stream ready to be queued.
#[derive(Debug, Clone)]
pub struct TikTokLive {
    pub metadata: TrackMetadata,
    pub username: String,
}

/// The live page of a user.
pub fn live_page_url(username: &str) -> (res: String)
    ensures
        res@ == live_page(username@),
{
    let mut s = String::from_str("https://www.tiktok.com/@");
    s.append(username);
    s.append("/live");
    s
}

fn is_page_domain(d: &str) -> (res: bool)
    ensures
        res == tiktok_page_domain(d@),
{
    str_equal(d, "tiktok.com") || str_equal(d, "www.tiktok.com")
}

impl TikTokLive {
    /// Whether the text is a URL on a TikTok host.
    pub fn check_url(url: &str) -> (res: bool)
        ensures
            res == match url_host(url@) {
                Some(h) => tiktok_host(h),
                None => false,
            },
    {
        match parse_url(url) {
            Some(parts) => match &parts.host {
                Some(h) => str_equal(h.as_str(), "tiktok.com") || ends_with(
                    h.as_str(),
                    ".tiktok.com",
                ),
                None => false,
            },
            None => false,
        }
    }

    /// Decides how a TikTok link is followed: read directly on a page
    /// domain, followed through its redirect on another TikTok subdomain,
    /// refused elsewhere.
    pub fn route_url(url: &str) -> (res: Result<TikTokRoute, TikTokError>)
        ensures
            res == tiktok_route(url@),
            res is Ok ==> (url_host(url@) matches Some(h) && tiktok_host(h)),
    {
        let parts = match parse_url(url) {
            Some(p) => p,
            None => return Err(TikTokError::Malformed),
        };
        match &parts.domain {
            Some(d) => {
                if is_page_domain(d.as_str()) {
                    proof {
                        reveal_strlit("www.tiktok.com");
                        reveal_strlit(".tiktok.com");
                        if d@ == "www.tiktok.com"@ {
                            assert(d@.subrange(3, 14) =~= ".tiktok.com"@);
                        }
                    }
                    Ok(TikTokRoute::Direct)
                } else if ends_with(d.as_str(), ".tiktok.com") {
                    Ok(TikTokRoute::Redirect)
                } else {
                    Err(TikTokError::InvalidUrl)
                }
            },
            None => Err(TikTokError::InvalidUrl),
        }
    }

    /// The user whose live page the (resolved) link is.
    pub fn username_from_url(url: &str) -> (res: Result<String, TikTokError>)
        ensures
            match res {
                Ok(u) => live_username(url@) == Ok::<Seq<char>, TikTokError>(u@),
                Err(e) => live_username(url@) == Err::<Seq<char>, TikTokError>(e),
            },
    {
        let parts = match parse_url(url) {
            Some(p) => p,
            None => return Err(TikTokError::Malformed),
        };
        let d = match &parts.domain {
            Some(d) => d,
            None => return Err(TikTokError::InvalidUrl),
        };
        if !is_page_domain(d.as_str()) {
            return Err(TikTokError::InvalidUrl);
        }
        let segs = match &parts.segments {
            Some(s) => s,
            None => return Err(TikTokError::InvalidUrl),
        };
        if segs.len() == 0 {
            return Err(TikTokError::InvalidUrl);
        }
        let first = segs[0].as_str();
        let n = first.unicode_len();
        proof {
            assert(views(segs@)[0] == first@);
        }
        if n > 1 && first.get_char(0) == '@' {
            let name = first.substring_char(1, n);
            proof {
                assert(name@ =~= first@.drop_first());
            }
            Ok(name.to_owned())
        } else {
            Err(TikTokError::InvalidUrl)
        }
    }

    /// The live stream described by a page state: its metadata names the
    /// streamer and the stream's title, page and cover.
    pub fn from_state(username: String, state: &SigiState) -> (res: Result<Self, TikTokError>)
        ensures
            match state.live_room {
                None => res == Err::<Self, TikTokError>(TikTokError::NoLiveRoom),
                Some(room) => res matches Ok(live) && {
                    let info = room.live_room_user_info;
                    &&& live.username@ == username@
                    &&& live.metadata.title@ == live_title(
                        info.live_room.title@,
                        seq![info.user.nickname@],
                    )
                    &&& live.metadata.url@ == live_page(info.user.unique_id@)
                    &&& opt_view(live.metadata.artwork) == live_cover(
                        info.live_room.cover_url@,
                        info.user.avatar_medium@,
                    )
                    &&& live.metadata.platform == TrackPlatform::TikTokLive
                    &&& live.metadata.duration == 0
                    &&& views(live.metadata.artists@) == seq![info.user.nickname@]
                },
            },
    {
        let room = match &state.live_room {
            Some(r) => r,
            None => return Err(TikTokError::NoLiveRoom),
        };
        let info = &room.live_room_user_info;
        let cover = if !info.live_room.cover_url.as_str().is_empty() {
            Some(info.live_room.cover_url.clone())
        } else if !info.user.avatar_medium.as_str().is_empty() {
            Some(info.user.avatar_medium.clone())
        } else {
            None
        };
        let url = live_page_url(info.user.unique_id.as_str());
        let mut artists: Vec<String> = Vec::new();
        artists.push(info.user.nickname.clone());
        proof {
            assert(views(artists@) =~= seq![info.user.nickname@]);
        }
        let metadata = TrackMetadata::tiktok_live(info.live_room.title.clone(), url, cover, artists);
        Ok(TikTokLive { metadata, username })
    }

    /// The audio-only FLV stream of a page state.
    pub fn stream_url_from_state(state: &SigiState) -> (res: Result<String, TikTokError>)
        ensures
            match res {
                Ok(u) => stream_flv(*state) == Ok::<Seq<char>, TikTokError>(u@),
                Err(e) => stream_flv(*state) == Err::<Seq<char>, TikTokError>(e),
            },
    {
        let room = match &state.live_room {
            Some(r) => r,
            None => return Err(TikTokError::NoLiveRoom),
        };
        let data = match &room.live_room_user_info.live_room.stream_data {
            Some(d) => d,
            None => return Err(TikTokError::NoStreamData),
        };
        match &data.pull_data.stream_data {
            Some(p) => Ok(p.data.ao.main.flv.clone()),
            None => Err(TikTokError::NoStreamData),
        }
    }

    /// The live page of the stream's user.
    pub fn url(&self) -> (res: String)
        ensures
            res@ == live_page(self.username@),
    {
        live_page_url(self.username.as_str())
    }

    /// What the player reports about the stream: its streamers, title and
    /// cover.
    pub fn aux_fields(&self) -> (res: AuxFields)
        ensures
            opt_view(res.artist) == Some(seq_join(views(self.metadata.artists@), ", "@)),
            opt_view(res.title) == Some(self.metadata.title@),
            opt_view(res.thumbnail) == opt_view(self.metadata.artwork),
            res.track is None,
            res.duration_ms is None,
            res.source_url is None,
    {
        AuxFields {
            title: Some(self.metadata.title.clone()),
            track: None,
            artist: Some(join_strings(&self.metadata.artists, ", ")),
            duration_ms: None,
            source_url: None,
            thumbnail: match &self.metadata.artwork {
                Some(a) => Some(a.clone()),
                None => None,
            },
        }
    }
}

} // verus!
