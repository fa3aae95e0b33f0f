use vstd::prelude::*;
use vstd::string::*;

use crate::metadata::{opt_view, AuxFields, TrackMetadata, TrackPlatform};
use crate::text::{str_equal, views};
use crate::weburl::{parse_url, url_host};

verus! {

/// Whether `host` is one of the hosts SoundCloud serves tracks on.
pub open spec fn soundcloud_host(host: Seq<char>) -> bool {
    host == "soundcloud.com"@ || host == "www.soundcloud.com"@ || host == "m.soundcloud.com"@
}

/// A SoundCloud track as the bot reads it: the fields of the API's track
/// record that it uses.
#[derive(Debug, Clone)]
pub struct SoundCloudTrack {
    pub id: Option<u64>,
    pub title: Option<String>,
    pub permalink_url: Option<String>,
    pub artwork_url: Option<String>,
    /// Length in milliseconds.
    pub duration: Option<u64>,
    /// The uploader's user name.
    pub username: Option<String>,
}

/// Why a SoundCloud track cannot be streamed.
#[derive(Debug, Clone, Copy, PartialEq, Eq, Structural)]
pub enum SoundCloudError {
    /// The track record has no id to ask a stream for.
    MissingId,
}

/// The text of an optional string, empty when absent.
pub open spec fn text_or_empty(o: Option<String>) -> Seq<char> {
    match o {
        Some(s) => s@,
        None => Seq::empty(),
    }
}

fn clone_or_empty(o: &Option<String>) -> (res: String)
    ensures
        res@ == text_or_empty(*o),
{
    match o {
        Some(s) => s.clone(),
        None => String::new(),
    }
}

fn clone_opt(o: &Option<String>) -> (res: Option<String>)
    ensures
        opt_view(res) == opt_view(*o),
{
    match o {
        Some(s) => Some(s.clone()),
        None => None,
    }
}

impl SoundCloudTrack {
    /// Whether the text is a URL on one of SoundCloud's hosts.
    pub fn check_url(url: &str) -> (res: bool)
        ensures
            res == match url_host(url@) {
                Some(h) => soundcloud_host(h),
                None => false,
            },
    {
        match parse_url(url) {
            Some(parts) => match &parts.host {
                Some(h) => str_equal(h.as_str(), "soundcloud.com") || str_equal(
                    h.as_str(),
                    "www.soundcloud.com",
                ) || str_equal(h.as_str(), "m.soundcloud.com"),
                None => false,
            },
            None => false,
        }
    }

    /// The track's page, when it has one.
    pub fn url(&self) -> (res: Option<&str>)
        ensures
            match res {
                Some(u) => self.permalink_url matches Some(p) && u@ == p@,
                None => self.permalink_url is None,
            },
    {
        match &self.permalink_url {
            Some(p) => Some(p.as_str()),
            None => None,
        }
    }

    /// The id to ask a stream address for.
    pub fn stream_id(&self) -> (res: Result<u64, SoundCloudError>)
        ensures
            match self.id {
                Some(i) => res == Ok::<u64, SoundCloudError>(i),
                None => res == Err::<u64, SoundCloudError>(SoundCloudError::MissingId),
            },
    {
        match self.id {
            Some(i) => Ok(i),
            None => Err(SoundCloudError::MissingId),
        }
    }

    /// The metadata the track is queued with: missing title, page and user
    /// name become empty, a missing length becomes 0, and the length is cut
    /// to 32 bits as `as u32` does.
    pub fn metadata(&self) -> (res: TrackMetadata)
        ensures
            res.title@ == text_or_empty(self.title),
            res.url@ == text_or_empty(self.permalink_url),
            opt_view(res.artwork) == opt_view(self.artwork_url),
            res.platform == TrackPlatform::SoundCloud,
            res.duration == (match self.duration {
                Some(d) => d,
                None => 0,
            }) as u32,
            views(res.artists@) == seq![text_or_empty(self.username)],
    {
        let d: u64 = match self.duration {
            Some(d) => d,
            None => 0,
        };
        let mut artists: Vec<String> = Vec::new();
        artists.push(clone_or_empty(&self.username));
        proof {
            assert(views(artists@) =~= seq![text_or_empty(self.username)]);
        }
        TrackMetadata::soundcloud(
            clone_or_empty(&self.title),
            clone_or_empty(&self.permalink_url),
            clone_opt(&self.artwork_url),
            d as u32,
            artists,
        )
    }

    /// What the player reports about the track: uploader, title and cover.
    pub fn aux_fields(&self) -> (res: AuxFields)
        ensures
            opt_view(res.artist) == Some(text_or_empty(self.username)),
            opt_view(res.title) == Some(text_or_empty(self.title)),
            opt_view(res.thumbnail) == opt_view(self.artwork_url),
            res.track is None,
            res.duration_ms is None,
            res.source_url is None,
    {
        AuxFields {
            title: Some(clone_or_empty(&self.title)),
            track: None,
            artist: Some(clone_or_empty(&self.username)),
            duration_ms: None,
            source_url: None,
            thumbnail: clone_opt(&self.artwork_url),
        }
    }
}

/// The ids of the playlist entries that have one, in order.
pub open spec fn present_ids(ids: Seq<Option<u64>>) -> Seq<u64>
    decreases ids.len(),
{
    if ids.len() == 0 {
        Seq::empty()
    } else {
        let prev = present_ids(ids.drop_last());
        match ids.last() {
            Some(i) => prev.push(i),
            None => prev,
        }
    }
}

/// The tracks of a playlist to load: entries without an id are skipped.
pub fn playlist_track_ids(ids: &Vec<Option<u64>>) -> (res: Vec<u64>)
    ensures
        res@ == present_ids(ids@),
{
    let mut res: Vec<u64> = Vec::new();
    let n = ids.len();
    let mut i: usize = 0;
    while i < n
        invariant
            n == ids@.len(),
            i <= n,
            res@ == present_ids(ids@.take(i as int)),
        decreases n - i,
    {
        proof {
            assert(ids@.take(i + 1).drop_last() =~= ids@.take(i as int));
        }
        match ids[i] {
            Some(id) => res.push(id),
            None => {},
        }
        i = i + 1;
    }
    proof {
        assert(ids@.take(n as int) =~= ids@);
    }
    res
}

/// No more ids are kept than the playlist has entries, and when every entry
/// has an id, as many are kept as it has entries.
pub proof fn lemma_present_ids_len(ids: Seq<Option<u64>>)
    ensures
        present_ids(ids).len() <= ids.len(),
        (forall|i: int| 0 <= i < ids.len() ==> (#[trigger] ids[i]) is Some) ==> present_ids(
            ids,
        ).len() == ids.len(),
    decreases ids.len(),
{
    if ids.len() > 0 {
        lemma_present_ids_len(ids.drop_last());
        if forall|i: int| 0 <= i < ids.len() ==> (#[trigger] ids[i]) is Some {
            assert forall|i: int| 0 <= i < ids.drop_last().len() implies (
            #[trigger] ids.drop_last()[i]) is Some by {
                assert(ids.drop_last()[i] == ids[i]);
            }
            assert(ids[ids.len() - 1] is Some);
        }
    }
}

} // verus!
