use vstd::prelude::*;
use vstd::string::*;

verus! {

/// The kinds of item a Spotify URI names.
#[derive(Debug, Clone, Copy, PartialEq, Eq, Structural)]
pub enum SpotifyKind {
    Album,
    Artist,
    Episode,
    Playlist,
    Show,
    Track,
    Local,
    Unknown,
}

/// A parsed Spotify URI as plain values: its kind and its id (the part
/// after the kind: a base62 id for catalogue items).
#[derive(Debug, Clone, PartialEq, Eq)]
pub struct SpotifyItem {
    pub kind: SpotifyKind,
    pub id: String,
}

/// What `SpotifyUri::from_uri` makes of `text`, read as the kind of the
/// parsed URI and its `to_id()`; `None` where either of them fails.
pub uninterp spec fn spotify_uri_parse(text: Seq<char>) -> Option<(SpotifyKind, Seq<char>)>;

/// The URI text built from a type word and a name: `spotify:{type}:{name}`.
pub open spec fn uri_text(word: Seq<char>, name: Seq<char>) -> Seq<char> {
    "spotify:"@ + word + ":"@ + name
}

/// The type words whose URIs carry a base62 catalogue id.
pub open spec fn catalogue_word(word: Seq<char>) -> bool {
    ||| word == "album"@
    ||| word == "artist"@
    ||| word == "episode"@
    ||| word == "playlist"@
    ||| word == "show"@
    ||| word == "track"@
}

/// Calls `librespot::core::SpotifyUri::from_uri`, then `to_id` on the parsed
/// URI, and tells its variants apart. Claimed: the kind and id returned are
/// `spotify_uri_parse` of the text, and `None` comes exactly where that is
/// `None`. Claimed also: a text `spotify:{type}:{name}` whose type is a
/// catalogue word and whose name holds no `:` parses, where it parses, to
/// that type and to that very name (`from_uri` matches the type word to its
/// variant, and `from_base62` takes exactly 22 base62 digits, which
/// `to_base62` writes back unchanged).
#[verifier::external_body]
pub(crate) fn parse_spotify_uri(text: &str) -> (res: Option<SpotifyItem>)
    ensures
        match res {
            Some(item) => spotify_uri_parse(text@) == Some((item.kind, item.id@)),
            None => spotify_uri_parse(text@) is None,
        },
        forall|word: Seq<char>, name: Seq<char>|
            #![trigger uri_text(word, name)]
            res is Some && text@ == uri_text(word, name) && catalogue_word(word) && !name.contains(
                ':',
            ) ==> kind_word(res->0.kind) == word && res->0.id@ == name,
{
    let uri = librespot::core::SpotifyUri::from_uri(text).ok()?;
    let id = uri.to_id().ok()?;
    let kind = match uri {
        librespot::core::SpotifyUri::Album { .. } => SpotifyKind::Album,
        librespot::core::SpotifyUri::Artist { .. } => SpotifyKind::Artist,
        librespot::core::SpotifyUri::Episode { .. } => SpotifyKind::Episode,
        librespot::core::SpotifyUri::Playlist { .. } => SpotifyKind::Playlist,
        librespot::core::SpotifyUri::Show { .. } => SpotifyKind::Show,
        librespot::core::SpotifyUri::Track { .. } => SpotifyKind::Track,
        librespot::core::SpotifyUri::Local { .. } => SpotifyKind::Local,
        librespot::core::SpotifyUri::Unknown { .. } => SpotifyKind::Unknown,
    };
    Some(SpotifyItem { kind, id })
}

/// The type word a URI of each kind carries after `spotify:`.
pub open spec fn kind_word(kind: SpotifyKind) -> Seq<char> {
    match kind {
        SpotifyKind::Album => "album"@,
        SpotifyKind::Artist => "artist"@,
        SpotifyKind::Episode => "episode"@,
        SpotifyKind::Playlist => "playlist"@,
        SpotifyKind::Show => "show"@,
        SpotifyKind::Track => "track"@,
        SpotifyKind::Local => "local"@,
        SpotifyKind::Unknown => "unknown"@,
    }
}

/// The URI text that names an item: `spotify:{type}:{id}`.
pub open spec fn item_uri_text(kind: SpotifyKind, id: Seq<char>) -> Seq<char> {
    uri_text(kind_word(kind), id)
}

fn kind_word_str(kind: SpotifyKind) -> (res: &'static str)
    ensures
        res@ == kind_word(kind),
{
    match kind {
        SpotifyKind::Album => "album",
        SpotifyKind::Artist => "artist",
        SpotifyKind::Episode => "episode",
        SpotifyKind::Playlist => "playlist",
        SpotifyKind::Show => "show",
        SpotifyKind::Track => "track",
        SpotifyKind::Local => "local",
        SpotifyKind::Unknown => "unknown",
    }
}

impl SpotifyItem {
    /// Reads a Spotify URI text (`spotify:{type}:{id}` and its variants);
    /// `None` where librespot refuses it.
    pub fn from_uri_text(text: &str) -> (res: Option<Self>)
        ensures
            match res {
                Some(item) => spotify_uri_parse(text@) == Some((item.kind, item.id@)),
                None => spotify_uri_parse(text@) is None,
            },
    {
        parse_spotify_uri(text)
    }

    /// The URI text of the item, `spotify:{type}:{id}`, from which the
    /// bot rebuilds the URI it fetches with.
    pub fn uri_text(&self) -> (res: String)
        ensures
            res@ == item_uri_text(self.kind, self.id@),
    {
        let mut s = String::from_str("spotify:");
        s.append(kind_word_str(self.kind));
        s.append(":");
        s.append(self.id.as_str());
        s
    }
}

} // verus!
