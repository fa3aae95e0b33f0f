use vstd::prelude::*;
use vstd::string::*;

use crate::spotify::track::{item_link, page_link};
use crate::spotify::uri::{parse_spotify_uri, spotify_uri_parse, SpotifyItem, SpotifyKind};
use crate::text::{join_strings, seq_join, truncate_select_label, truncated_label, views};
use crate::words::{join_words, words};

verus! {

/// Most search results the bot offers.
pub const MAX_SEARCH_RESULTS: usize = 25;

/// One track found by a Spotify search.
#[derive(Clone, Debug, PartialEq, Eq)]
pub struct SpotifySearchResult {
    pub name: String,
    pub artists: Vec<String>,
    pub uri: String,
}

/// The Spotify search URI for a query: its words joined with `+`; none for
/// a blank query.
pub open spec fn search_uri(query: Seq<char>) -> Option<Seq<char>> {
    if words(query).len() == 0 {
        None
    } else {
        Some("spotify:search:"@ + seq_join(words(query), "+"@))
    }
}

/// The Spotify search URI for a query, or `None` when the query is blank
/// (then no search is made).
pub fn spotify_search_uri(query: &str) -> (res: Option<String>)
    ensures
        match res {
            Some(u) => search_uri(query@) == Some(u@),
            None => search_uri(query@) is None,
        },
{
    let joined = join_words(query, "+");
    if joined.as_str().unicode_len() == 0 {
        proof {
            if words(query@).len() > 0 {
                crate::words::lemma_words_are_words(query@);
                crate::words::lemma_words_nonempty_join(words(query@), "+"@);
            }
        }
        return None;
    }
    proof {
        if words(query@).len() == 0 {
            assert(seq_join(words(query@), "+"@).len() == 0);
        }
    }
    let mut u = String::from_str("spotify:search:");
    u.append(joined.as_str());
    Some(u)
}

/// The label a search result gets in the selection menu: its name, then its
/// artists after ` - ` when it has any, cut to the label limit.
pub open spec fn option_label(name: Seq<char>, artists: Seq<Seq<char>>) -> Seq<char> {
    let joined = seq_join(artists, ", "@);
    truncated_label(
        if joined.len() == 0 {
            name
        } else {
            name + " - "@ + joined
        },
    )
}

impl SpotifySearchResult {
    /// The label of this result in the selection menu.
    pub fn option_label(&self) -> (res: String)
        ensures
            res@ == option_label(self.name@, views(self.artists@)),
    {
        let artists = join_strings(&self.artists, ", ");
        if artists.as_str().unicode_len() == 0 {
            truncate_select_label(self.name.as_str())
        } else {
            let mut label = self.name.clone();
            label.append(" - ");
            label.append(artists.as_str());
            truncate_select_label(label.as_str())
        }
    }
}

/// One entry of a selection menu.
#[derive(Clone, Debug)]
pub struct MenuOption {
    pub label: String,
    pub value: String,
}

/// The menu entries for search results: at most the first
/// `MAX_SEARCH_RESULTS`, each labelled by `option_label` and valued by its URI.
pub fn search_menu_options(results: &Vec<SpotifySearchResult>) -> (res: Vec<MenuOption>)
    ensures
        res@.len() == if results@.len() < MAX_SEARCH_RESULTS {
            results@.len()
        } else {
            MAX_SEARCH_RESULTS as nat
        },
        forall|i: int|
            0 <= i < res@.len() ==> {
                &&& (#[trigger] res@[i]).label@ == option_label(
                    results@[i].name@,
                    views(results@[i].artists@),
                )
                &&& res@[i].value@ == results@[i].uri@
            },
{
    let mut res: Vec<MenuOption> = Vec::new();
    let n = results.len();
    let mut i: usize = 0;
    while i < n && i < MAX_SEARCH_RESULTS
        invariant
            n == results@.len(),
            i <= n,
            i <= MAX_SEARCH_RESULTS,
            res@.len() == i,
            forall|k: int|
                0 <= k < i ==> {
                    &&& (#[trigger] res@[k]).label@ == option_label(
                        results@[k].name@,
                        views(results@[k].artists@),
                    )
                    &&& res@[k].value@ == results@[k].uri@
                },
        decreases n - i,
    {
        let r = &results[i];
        let label = r.option_label();
        let value = r.uri.clone();
        res.push(MenuOption { label, value });
        i = i + 1;
    }
    res
}

/// The ids of the track URIs among the candidates, in order: candidates that
/// are missing, do not parse or are not tracks are skipped.
pub open spec fn track_candidates(cands: Seq<Option<Seq<char>>>) -> Seq<Seq<char>>
    decreases cands.len(),
{
    if cands.len() == 0 {
        Seq::empty()
    } else {
        let prev = track_candidates(cands.drop_last());
        match cands.last() {
            Some(t) => match spotify_uri_parse(t) {
                Some((SpotifyKind::Track, id)) => prev.push(id),
                _ => prev,
            },
            None => prev,
        }
    }
}

proof fn lemma_track_candidates_prefix(c: Seq<Option<Seq<char>>>, i: int)
    requires
        0 <= i <= c.len(),
    ensures
        track_candidates(c.take(i)).len() <= track_candidates(c).len(),
        track_candidates(c.take(i)) == track_candidates(c).take(
            track_candidates(c.take(i)).len() as int,
        ),
    decreases c.len() - i,
{
    if i == c.len() {
        assert(c.take(i) =~= c);
    } else {
        lemma_track_candidates_prefix(c, i + 1);
        let a = track_candidates(c.take(i));
        let b = track_candidates(c.take(i + 1));
        assert(c.take(i + 1).drop_last() =~= c.take(i));
        assert(b == a || b == a.push(b.last()));
        assert(a =~= b.take(a.len() as int));
    }
}

/// The views of a sequence of optional strings.
pub open spec fn opt_views(s: Seq<Option<String>>) -> Seq<Option<Seq<char>>> {
    s.map_values(|o: Option<String>| crate::metadata::opt_view(o))
}

/// The track URIs among the search candidates, at most `MAX_SEARCH_RESULTS`,
/// in their order.
pub fn search_track_items(cands: &Vec<Option<String>>) -> (res: Vec<SpotifyItem>)
    ensures
        res@.len() == if track_candidates(opt_views(cands@)).len() < MAX_SEARCH_RESULTS {
            track_candidates(opt_views(cands@)).len()
        } else {
            MAX_SEARCH_RESULTS as nat
        },
        forall|k: int|
            0 <= k < res@.len() ==> (#[trigger] res@[k]).kind == SpotifyKind::Track && res@[k].id@
                == track_candidates(opt_views(cands@))[k],
{
    let ghost all = opt_views(cands@);
    let mut res: Vec<SpotifyItem> = Vec::new();
    let n = cands.len();
    let mut i: usize = 0;
    while i < n && res.len() < MAX_SEARCH_RESULTS
        invariant
            n == cands@.len(),
            all == opt_views(cands@),
            i <= n,
            res@.len() <= MAX_SEARCH_RESULTS,
            res@.len() == track_candidates(all.take(i as int)).len(),
            forall|k: int|
                0 <= k < res@.len() ==> (#[trigger] res@[k]).kind == SpotifyKind::Track
                    && res@[k].id@ == track_candidates(all.take(i as int))[k],
        decreases n - i,
    {
        let ghost pre = all.take(i as int);
        proof {
            assert(all.take(i + 1).drop_last() =~= pre);
            assert(all.take(i + 1).last() == crate::metadata::opt_view(cands@[i as int]));
        }
        match &cands[i] {
            Some(text) => {
                match parse_spotify_uri(text.as_str()) {
                    Some(item) => {
                        if item.kind == SpotifyKind::Track {
                            res.push(item);
                        }
                    },
                    None => {},
                }
            },
            None => {},
        }
        i = i + 1;
    }
    proof {
        lemma_track_candidates_prefix(all, i as int);
        if res@.len() < MAX_SEARCH_RESULTS {
            assert(all.take(n as int) =~= all);
        }
    }
    res
}

/// Why a selected search result cannot be played.
#[derive(Debug, Clone, Copy, PartialEq, Eq, Structural)]
pub enum SelectionError {
    /// The selected value is not a Spotify URI.
    InvalidUri,
    /// The selected value names something other than a track.
    NotATrack,
}

/// The page of the track a selected search result names, or why there is
/// none.
pub open spec fn selected_track(uri: Seq<char>) -> Result<Seq<char>, SelectionError> {
    match spotify_uri_parse(uri) {
        None => Err(SelectionError::InvalidUri),
        Some((kind, id)) => if kind == SpotifyKind::Track {
            Ok(page_link(kind, SpotifyKind::Track, id))
        } else {
            Err(SelectionError::NotATrack)
        },
    }
}

/// The page of the track named by the URI a user selected from the search
/// menu.
pub fn selected_track_url(uri: &str) -> (res: Result<String, SelectionError>)
    ensures
        match res {
            Ok(u) => selected_track(uri@) == Ok::<Seq<char>, SelectionError>(u@),
            Err(e) => selected_track(uri@) == Err::<Seq<char>, SelectionError>(e),
        },
{
    match parse_spotify_uri(uri) {
        None => Err(SelectionError::InvalidUri),
        Some(item) => {
            if item.kind == SpotifyKind::Track {
                Ok(item_link(&item, SpotifyKind::Track))
            } else {
                Err(SelectionError::NotATrack)
            }
        },
    }
}

/// A query that is all whitespace makes no search, and every other query
/// makes one.
pub proof fn lemma_blank_query_makes_no_search(query: Seq<char>)
    ensures
        search_uri(query) is None <==> forall|i: int|
            0 <= i < query.len() ==> crate::words::is_ws(#[trigger] query[i]),
{
    crate::words::lemma_no_words_iff_blank(query);
}

/// The play command trims a query before searching; the search made is the
/// same as for the untrimmed query.
pub proof fn lemma_search_ignores_trimming(query: Seq<char>)
    ensures
        search_uri(crate::words::trimmed(query)) == search_uri(query),
{
    crate::words::lemma_words_of_trimmed(query);
}

/// Every label in the selection menu fits Discord's limit of
/// `MAX_LABEL_CHARS` characters.
pub proof fn lemma_option_labels_fit(name: Seq<char>, artists: Seq<Seq<char>>)
    ensures
        option_label(name, artists).len() <= crate::text::MAX_LABEL_CHARS,
{
    let joined = seq_join(artists, ", "@);
    crate::text::lemma_truncated_label(
        if joined.len() == 0 {
            name
        } else {
            name + " - "@ + joined
        },
    );
}

/// A result with artists is labelled with its name, ` - ` and the artists
/// joined by `, `, cut to the label limit; when that text fits the limit it
/// is the label itself.
pub proof fn lemma_label_names_the_artists(name: Seq<char>, artists: Seq<Seq<char>>)
    requires
        artists.len() > 0,
        seq_join(artists, ", "@).len() > 0,
    ensures
        option_label(name, artists) == truncated_label(name + " - "@ + seq_join(artists, ", "@)),
        (name + " - "@ + seq_join(artists, ", "@)).len() <= crate::text::MAX_LABEL_CHARS
            ==> option_label(name, artists) == name + " - "@ + seq_join(artists, ", "@),
{
    crate::text::lemma_truncated_label(name + " - "@ + seq_join(artists, ", "@));
}

/// A result with one named artist is labelled `{name} - {artist}` when that
/// fits the limit; a result with no artist is labelled with its name alone.
pub proof fn lemma_label_of_one_or_no_artist(name: Seq<char>, artist: Seq<char>)
    ensures
        artist.len() > 0 && name.len() + 3 + artist.len() <= crate::text::MAX_LABEL_CHARS
            ==> option_label(name, seq![artist]) == name + " - "@ + artist,
        name.len() <= crate::text::MAX_LABEL_CHARS ==> option_label(name, Seq::empty()) == name,
{
    reveal_strlit(" - ");
    assert(seq_join(seq![artist], ", "@) == artist);
    assert(seq_join(Seq::<Seq<char>>::empty(), ", "@).len() == 0);
    crate::text::lemma_truncated_label(name + " - "@ + artist);
    crate::text::lemma_truncated_label(name);
}

} // verus!
