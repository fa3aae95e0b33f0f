use vstd::prelude::*;

use crate::soundcloud::{soundcloud_host, SoundCloudTrack};
use crate::spotify::track::{spotify_url, SpotifyTrack};
use crate::tiktok::live::{tiktok_host, TikTokLive};
use crate::text::has_suffix;
use crate::weburl::url_host;

verus! {

/// Where the play command looks for what a query names.
#[derive(Debug, Clone, Copy, PartialEq, Eq, Structural)]
pub enum QuerySource {
    Spotify,
    SoundCloud,
    TikTok,
    Search,
}

/// The source of a query: the first service whose links it matches, tried
/// as Spotify, SoundCloud, TikTok; a query that is no such link is searched
/// for on Spotify.
pub open spec fn query_source(query: Seq<char>) -> QuerySource {
    if spotify_url(query) {
        QuerySource::Spotify
    } else if (match url_host(query) {
        Some(h) => soundcloud_host(h),
        None => false,
    }) {
        QuerySource::SoundCloud
    } else if (match url_host(query) {
        Some(h) => tiktok_host(h),
        None => false,
    }) {
        QuerySource::TikTok
    } else {
        QuerySource::Search
    }
}

/// Decides where the play command looks for a (trimmed) query.
pub fn classify_query(query: &str) -> (res: QuerySource)
    ensures
        res == query_source(query@),
{
    if SpotifyTrack::check_url(query) {
        QuerySource::Spotify
    } else if SoundCloudTrack::check_url(query) {
        QuerySource::SoundCloud
    } else if TikTokLive::check_url(query) {
        QuerySource::TikTok
    } else {
        QuerySource::Search
    }
}

/// A SoundCloud link is looked up on SoundCloud: a query whose host is
/// `soundcloud.com`, `www.soundcloud.com` or `m.soundcloud.com` is never
/// searched for as text, nor taken for another service.
pub proof fn lemma_soundcloud_links_go_to_soundcloud(query: Seq<char>, host: Seq<char>)
    requires
        url_host(query) == Some(host),
        host == "soundcloud.com"@ || host == "www.soundcloud.com"@ || host
            == "m.soundcloud.com"@,
    ensures
        query_source(query) == QuerySource::SoundCloud,
{
    reveal_strlit("soundcloud.com");
    reveal_strlit("www.soundcloud.com");
    reveal_strlit("m.soundcloud.com");
    reveal_strlit("spotify.com");
    reveal_strlit(".spotify.com");
    assert(host != "spotify.com"@) by {
        if host == "spotify.com"@ {
            assert(host[0] == 's' && host[1] == 'p');
        }
    }
    assert(!has_suffix(host, ".spotify.com"@)) by {
        if has_suffix(host, ".spotify.com"@) {
            let k = host.len() - 12;
            assert(host.subrange(k, host.len() as int)[1] == 's');
            assert(host[k + 1] == 's');
            assert(host.subrange(k, host.len() as int)[2] == 'p');
            assert(host[k + 2] == 'p');
        }
    }
}

/// A Spotify link is looked up on Spotify: a query whose host is
/// `spotify.com` or a subdomain of it.
pub proof fn lemma_spotify_links_go_to_spotify(query: Seq<char>, sub: Seq<char>)
    requires
        url_host(query) == Some(sub + ".spotify.com"@) || url_host(query) == Some(
            "spotify.com"@,
        ),
    ensures
        query_source(query) == QuerySource::Spotify,
{
    reveal_strlit(".spotify.com");
    let h = sub + ".spotify.com"@;
    assert(h.subrange(h.len() - 12, h.len() as int) =~= ".spotify.com"@);
}

/// A TikTok link is looked up on TikTok: a query whose host is `tiktok.com`
/// or a subdomain of it.
pub proof fn lemma_tiktok_links_go_to_tiktok(query: Seq<char>, sub: Seq<char>)
    requires
        url_host(query) == Some(sub + ".tiktok.com"@) || url_host(query) == Some("tiktok.com"@),
    ensures
        query_source(query) == QuerySource::TikTok,
{
    reveal_strlit("tiktok.com");
    reveal_strlit(".tiktok.com");
    reveal_strlit("spotify.com");
    reveal_strlit(".spotify.com");
    reveal_strlit("soundcloud.com");
    reveal_strlit("www.soundcloud.com");
    reveal_strlit("m.soundcloud.com");
    let h = url_host(query)->0;
    let t = sub + ".tiktok.com"@;
    assert(t.subrange(t.len() - 11, t.len() as int) =~= ".tiktok.com"@);
    // Either way the host ends in `k.com`.
    assert(h[h.len() - 1] == 'm');
    assert(h[h.len() - 4] == '.');
    assert(h[h.len() - 5] == 'k');
    assert(h != "spotify.com"@) by {
        if h == "spotify.com"@ {
            assert(h[h.len() - 5] == 'y');
        }
    }
    assert(!has_suffix(h, ".spotify.com"@)) by {
        if has_suffix(h, ".spotify.com"@) {
            let k = h.len() - 12;
            assert(h.subrange(k, h.len() as int)[7] == 'y');
            assert(h[k + 7] == 'y');
        }
    }
    assert(!soundcloud_host(h)) by {
        if h == "soundcloud.com"@ || h == "www.soundcloud.com"@ || h == "m.soundcloud.com"@ {
            assert(h[h.len() - 5] == 'd');
        }
    }
}

/// A query that is not a URL with a host is searched for on Spotify.
pub proof fn lemma_plain_text_is_searched(query: Seq<char>)
    requires
        url_host(query) is None,
    ensures
        query_source(query) == QuerySource::Search,
{
}

} // verus!
