use vstd::prelude::*;
use vstd::string::*;

use crate::metadata::{opt_view, AuxFields, TrackMetadata, TrackPlatform};
use crate::spotify::uri::{
    item_uri_text, kind_word, parse_spotify_uri, spotify_uri_parse, uri_text, SpotifyItem, SpotifyKind,
};
use crate::text::{ends_with, has_suffix, join_strings, seq_join, str_equal, views};
use crate::weburl::{parse_url, url_host, url_parse};

verus! {

/// Whether `host` is the Spotify domain or one of its subdomains.
pub open spec fn spotify_host(host: Seq<char>) -> bool {
    host == "spotify.com"@ || has_suffix(host, ".spotify.com"@)
}

/// Whether the text parses as a URL whose host is a Spotify host.
pub open spec fn spotify_url(url: Seq<char>) -> bool {
    match url_host(url) {
        Some(h) => spotify_host(h),
        None => false,
    }
}

/// Whether a host string is the Spotify domain or one of its subdomains.
pub fn is_spotify_host(host: &str) -> (res: bool)
    ensures
        res == spotify_host(host@),
{
    str_equal(host, "spotify.com") || ends_with(host, ".spotify.com")
}

/// The kinds of Spotify page the bot can queue.
#[derive(Debug, Clone, Copy, PartialEq, Eq, Structural)]
pub enum SpotifyEntityKind {
    Track,
    Album,
    Playlist,
    Episode,
    Show,
}

/// A Spotify page the bot can queue, with the URI it names.
pub enum SpotifyEntity {
    Track(SpotifyItem),
    Album(SpotifyItem),
    Playlist(SpotifyItem),
    Episode(SpotifyItem),
    Show(SpotifyItem),
}

impl SpotifyEntity {
    /// The kind of page and the kind and id of the URI it names.
    pub open spec fn parts(self) -> (SpotifyEntityKind, SpotifyKind, Seq<char>) {
        match self {
            SpotifyEntity::Track(i) => (SpotifyEntityKind::Track, i.kind, i.id@),
            SpotifyEntity::Album(i) => (SpotifyEntityKind::Album, i.kind, i.id@),
            SpotifyEntity::Playlist(i) => (SpotifyEntityKind::Playlist, i.kind, i.id@),
            SpotifyEntity::Episode(i) => (SpotifyEntityKind::Episode, i.kind, i.id@),
            SpotifyEntity::Show(i) => (SpotifyEntityKind::Show, i.kind, i.id@),
        }
    }
}

/// Why a link was not taken for a Spotify page.
#[derive(Debug, Clone, Copy, PartialEq, Eq, Structural)]
pub enum SpotifyUrlError {
    /// The text is not a URL.
    Malformed,
    /// The URL has no host.
    MissingHost,
    /// The host is not Spotify's.
    NotSpotify,
    /// The URL has no path segments.
    NoPathSegments,
    /// The path does not hold exactly an entity type and an id.
    WrongShape,
    /// The entity type and id do not make a Spotify URI.
    InvalidUri,
    /// The entity type is not one the bot queues.
    UnsupportedType,
}

/// The entity kind named by a path segment.
pub open spec fn entity_kind_named(t: Seq<char>) -> Option<SpotifyEntityKind> {
    if t == "track"@ {
        Some(SpotifyEntityKind::Track)
    } else if t == "album"@ {
        Some(SpotifyEntityKind::Album)
    } else if t == "playlist"@ {
        Some(SpotifyEntityKind::Playlist)
    } else if t == "episode"@ {
        Some(SpotifyEntityKind::Episode)
    } else if t == "show"@ {
        Some(SpotifyEntityKind::Show)
    } else {
        None
    }
}

/// The path segments that are not empty, in order.
pub open spec fn nonempty_segments(segs: Seq<Seq<char>>) -> Seq<Seq<char>> {
    segs.filter(|s: Seq<char>| s.len() > 0)
}

/// The two non-empty path segments of a link, when it parses as a URL
/// with a path that has exactly two of them.
pub open spec fn link_path(url: Seq<char>) -> Option<(Seq<char>, Seq<char>)> {
    match url_parse(url) {
        Some(v) => match v.segments {
            Some(segs) => {
                let parts = nonempty_segments(segs);
                if parts.len() == 2 {
                    Some((parts[0], parts[1]))
                } else {
                    None
                }
            },
            None => None,
        },
        None => None,
    }
}

/// What a Spotify link names: the page kind and the kind and id of the URI
/// built from its two path segments, or why it is not taken.
pub open spec fn spotify_link_target(url: Seq<char>) -> Result<
    (SpotifyEntityKind, SpotifyKind, Seq<char>),
    SpotifyUrlError,
> {
    match url_parse(url) {
        None => Err(SpotifyUrlError::Malformed),
        Some(v) => match v.host {
            None => Err(SpotifyUrlError::MissingHost),
            Some(h) => if !spotify_host(h) {
                Err(SpotifyUrlError::NotSpotify)
            } else {
                match v.segments {
                    None => Err(SpotifyUrlError::NoPathSegments),
                    Some(segs) => {
                        let parts = nonempty_segments(segs);
                        if parts.len() != 2 {
                            Err(SpotifyUrlError::WrongShape)
                        } else {
                            match spotify_uri_parse(uri_text(parts[0], parts[1])) {
                                None => Err(SpotifyUrlError::InvalidUri),
                                Some((kind, id)) => match entity_kind_named(parts[0]) {
                                    None => Err(SpotifyUrlError::UnsupportedType),
                                    Some(e) => Ok((e, kind, id)),
                                },
                            }
                        }
                    },
                }
            },
        },
    }
}

/// The non-empty strings of `segs`, in order.
fn nonempty_strings(segs: &Vec<String>) -> (res: Vec<String>)
    ensures
        views(res@) == nonempty_segments(views(segs@)),
{
    let mut res: Vec<String> = Vec::new();
    let n = segs.len();
    let mut i: usize = 0;
    while i < n
        invariant
            n == segs@.len(),
            i <= n,
            views(res@) == nonempty_segments(views(segs@).take(i as int)),
        decreases n - i,
    {
        proof {
            reveal_with_fuel(Seq::filter, 1);
            assert(views(segs@).take(i + 1).drop_last() =~= views(segs@).take(i as int));
        }
        let s = &segs[i];
        let ghost before = res@;
        if !s.as_str().is_empty() {
            let c = s.clone();
            res.push(c);
            proof {
                assert(views(res@) =~= views(before).push(segs@[i as int]@));
            }
        }
        i = i + 1;
    }
    proof {
        assert(views(segs@).take(n as int) =~= views(segs@));
    }
    res
}


/// A Spotify track or episode ready to be queued.
pub struct SpotifyTrack {
    pub uri: SpotifyItem,
    pub metadata: Option<TrackMetadata>,
}

impl SpotifyTrack {
    /// Whether the text is a URL on a Spotify host.
    pub fn check_url(url: &str) -> (res: bool)
        ensures
            res == spotify_url(url@),
    {
        match parse_url(url) {
            Some(parts) => match &parts.host {
                Some(h) => is_spotify_host(h.as_str()),
                None => false,
            },
            None => false,
        }
    }

    /// Reads a Spotify link of the form `https://open.spotify.com/{type}/{id}`
    /// into the page it names; empty path segments are skipped.
    pub fn parse_spotify_url(url: &str) -> (res: Result<SpotifyEntity, SpotifyUrlError>)
        ensures
            match res {
                Ok(e) => spotify_link_target(url@) == Ok::<
                    (SpotifyEntityKind, SpotifyKind, Seq<char>),
                    SpotifyUrlError,
                >(e.parts()),
                Err(err) => spotify_link_target(url@) == Err::<
                    (SpotifyEntityKind, SpotifyKind, Seq<char>),
                    SpotifyUrlError,
                >(err),
            },
            match (res, link_path(url@)) {
                (Ok(e), Some((t, n))) => !n.contains(':') ==> {
                    &&& kind_word(e.parts().1) == t
                    &&& e.parts().2 == n
                    &&& item_uri_text(e.parts().1, e.parts().2) == uri_text(t, n)
                },
                _ => true,
            },
    {
        let parts = match parse_url(url) {
            Some(p) => p,
            None => return Err(SpotifyUrlError::Malformed),
        };
        let host = match &parts.host {
            Some(h) => h,
            None => return Err(SpotifyUrlError::MissingHost),
        };
        if !is_spotify_host(host.as_str()) {
            return Err(SpotifyUrlError::NotSpotify);
        }
        let segs = match &parts.segments {
            Some(s) => s,
            None => return Err(SpotifyUrlError::NoPathSegments),
        };
        let kept = nonempty_strings(segs);
        if kept.len() != 2 {
            return Err(SpotifyUrlError::WrongShape);
        }
        let t = kept[0].as_str();
        let id = kept[1].as_str();
        let mut text = String::from_str("spotify:");
        text.append(t);
        text.append(":");
        text.append(id);
        proof {
            assert(views(kept@)[0] == t@);
            assert(views(kept@)[1] == id@);
            assert(text@ == uri_text(t@, id@));
        }
        let item = match parse_spotify_uri(text.as_str()) {
            Some(i) => i,
            None => return Err(SpotifyUrlError::InvalidUri),
        };
        if str_equal(t, "track") {
            Ok(SpotifyEntity::Track(item))
        } else if str_equal(t, "album") {
            Ok(SpotifyEntity::Album(item))
        } else if str_equal(t, "playlist") {
            Ok(SpotifyEntity::Playlist(item))
        } else if str_equal(t, "episode") {
            Ok(SpotifyEntity::Episode(item))
        } else if str_equal(t, "show") {
            Ok(SpotifyEntity::Show(item))
        } else {
            Err(SpotifyUrlError::UnsupportedType)
        }
    }
}

/// A link that parses as a Spotify page is also recognised as a Spotify URL.
pub proof fn lemma_parsed_link_is_spotify_url(url: Seq<char>)
    requires
        spotify_link_target(url) is Ok,
    ensures
        spotify_url(url),
{
}

/// The page a link names is the one its path's type word names: a link
/// whose first non-empty segment is `episode` gives an episode page, one
/// whose first is `track` a track page, and so on; a link that parses always
/// has such a path.
pub proof fn lemma_page_kind_follows_path(url: Seq<char>)
    ensures
        match spotify_link_target(url) {
            Ok((page, _, _)) => match link_path(url) {
                Some((t, _)) => {
                    &&& (page == SpotifyEntityKind::Track <==> t == "track"@)
                    &&& (page == SpotifyEntityKind::Album <==> t == "album"@)
                    &&& (page == SpotifyEntityKind::Playlist <==> t == "playlist"@)
                    &&& (page == SpotifyEntityKind::Episode <==> t == "episode"@)
                    &&& (page == SpotifyEntityKind::Show <==> t == "show"@)
                },
                None => false,
            },
            Err(_) => true,
        },
{
    reveal_strlit("track");
    reveal_strlit("album");
    reveal_strlit("playlist");
    reveal_strlit("episode");
    reveal_strlit("show");
    if let Ok((page, _, _)) = spotify_link_target(url) {
        let v = url_parse(url)->0;
        let parts = nonempty_segments(v.segments->0);
        let t = parts[0];
        assert(link_path(url) == Some((parts[0], parts[1])));
        assert(entity_kind_named(t) == Some(page));
        // The five type words differ in their first or second character.
        assert(t == "track"@ ==> t[0] == 't' && t[1] == 'r');
        assert(t == "album"@ ==> t[0] == 'a');
        assert(t == "playlist"@ ==> t[0] == 'p');
        assert(t == "episode"@ ==> t[0] == 'e');
        assert(t == "show"@ ==> t[0] == 's');
    }
}

/// The path word of the Spotify web page for a kind of item, if it has one.
pub open spec fn page_word(kind: SpotifyKind) -> Option<Seq<char>> {
    match kind {
        SpotifyKind::Track => Some("track"@),
        SpotifyKind::Album => Some("album"@),
        SpotifyKind::Playlist => Some("playlist"@),
        SpotifyKind::Episode => Some("episode"@),
        SpotifyKind::Show => Some("show"@),
        _ => None,
    }
}

/// The web page of an item when it is of the expected kind, else the
/// empty string.
pub open spec fn page_link(kind: SpotifyKind, expected: SpotifyKind, id: Seq<char>) -> Seq<char> {
    if kind == expected && page_word(kind) is Some {
        "https://open.spotify.com/"@ + page_word(kind)->0 + "/"@ + id
    } else {
        Seq::empty()
    }
}

/// The address of a cover image from its file id in base16.
pub open spec fn cover_url(file_id: Seq<char>) -> Seq<char> {
    "https://i.scdn.co/image/"@ + file_id
}

fn page_word_str(kind: SpotifyKind) -> (res: Option<&'static str>)
    ensures
        match res {
            Some(w) => page_word(kind) == Some(w@),
            None => page_word(kind) is None,
        },
{
    match kind {
        SpotifyKind::Track => Some("track"),
        SpotifyKind::Album => Some("album"),
        SpotifyKind::Playlist => Some("playlist"),
        SpotifyKind::Episode => Some("episode"),
        SpotifyKind::Show => Some("show"),
        _ => None,
    }
}

/// The web page of `item` when it is of the `expected` kind, else the empty
/// string.
pub fn item_link(item: &SpotifyItem, expected: SpotifyKind) -> (res: String)
    ensures
        res@ == page_link(item.kind, expected, item.id@),
{
    if item.kind != expected {
        return String::new();
    }
    match page_word_str(item.kind) {
        Some(w) => {
            let mut s = String::from_str("https://open.spotify.com/");
            s.append(w);
            s.append("/");
            s.append(item.id.as_str());
            s
        },
        None => String::new(),
    }
}

/// The address of a cover image from its file id in base16.
pub fn cover_image_url(file_id: &str) -> (res: String)
    ensures
        res@ == cover_url(file_id@),
{
    let mut s = String::from_str("https://i.scdn.co/image/");
    s.append(file_id);
    s
}

/// The metadata of a Spotify track or episode: its page (when the URI is of
/// the `expected` kind), its first cover, its length read as unsigned, and
/// the names shown as its artists.
pub fn item_metadata(
    name: String,
    item: &SpotifyItem,
    expected: SpotifyKind,
    cover_file: Option<&str>,
    duration: i32,
    artists: Vec<String>,
) -> (res: TrackMetadata)
    ensures
        res.title@ == name@,
        res.url@ == page_link(item.kind, expected, item.id@),
        opt_view(res.artwork) == (match cover_file {
            Some(f) => Some(cover_url(f@)),
            None => None::<Seq<char>>,
        }),
        res.platform == TrackPlatform::Spotify,
        res.duration == duration as u32,
        res.artists@ == artists@,
{
    let url = item_link(item, expected);
    let artwork = match cover_file {
        Some(f) => Some(cover_image_url(f)),
        None => None,
    };
    TrackMetadata::spotify(name, url, artwork, duration as u32, artists)
}

impl SpotifyTrack {
    /// The web page of the track; empty when the URI is not a track's.
    pub fn url(&self) -> (res: String)
        ensures
            res@ == page_link(self.uri.kind, SpotifyKind::Track, self.uri.id@),
    {
        item_link(&self.uri, SpotifyKind::Track)
    }

    /// What the player reports about the track: its title, artists, length,
    /// page and cover when the metadata is known, nothing otherwise.
    pub fn aux_fields(&self) -> (res: AuxFields)
        ensures
            match self.metadata {
                Some(m) => {
                    &&& opt_view(res.track) == Some(m.title@)
                    &&& opt_view(res.artist) == Some(seq_join(views(m.artists@), ", "@))
                    &&& res.duration_ms == Some(m.duration as u64)
                    &&& opt_view(res.source_url) == Some(m.url@)
                    &&& opt_view(res.thumbnail) == opt_view(m.artwork)
                    &&& res.title is None
                },
                None => {
                    &&& res.track is None
                    &&& res.artist is None
                    &&& res.duration_ms is None
                    &&& res.source_url is None
                    &&& res.thumbnail is None
                    &&& res.title is None
                },
            },
    {
        match &self.metadata {
            Some(m) => AuxFields {
                title: None,
                track: Some(m.title.clone()),
                artist: Some(join_strings(&m.artists, ", ")),
                duration_ms: Some(m.duration as u64),
                source_url: Some(m.url.clone()),
                thumbnail: match &m.artwork {
                    Some(a) => Some(a.clone()),
                    None => None,
                },
            },
            None => AuxFields::empty(),
        }
    }
}
} // verus!
