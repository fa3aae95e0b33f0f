use vstd::prelude::*;

verus! {

/// The audio file formats a Spotify item can come in, as far as the bot
/// tells them apart.
#[derive(Debug, Clone, Copy, PartialEq, Eq, Structural)]
pub enum AudioFormat {
    OggVorbis96,
    OggVorbis160,
    OggVorbis320,
    Other,
}

/// Bytes per second streamed for a format.
pub open spec fn data_rate(format: AudioFormat) -> nat {
    match format {
        AudioFormat::OggVorbis96 => 12 * 1024,
        AudioFormat::OggVorbis160 => 20 * 1024,
        AudioFormat::OggVorbis320 => 40 * 1024,
        AudioFormat::Other => 40 * 1024,
    }
}

/// The streaming rate of a format, in bytes per second.
pub fn stream_data_rate(format: AudioFormat) -> (res: usize)
    ensures
        res == data_rate(format),
{
    let kb_per_sec: usize = match format {
        AudioFormat::OggVorbis96 => 12,
        AudioFormat::OggVorbis160 => 20,
        AudioFormat::OggVorbis320 => 40,
        AudioFormat::Other => 40,
    };
    kb_per_sec * 1024
}

/// Whether a format is one of the Ogg Vorbis formats.
pub open spec fn ogg_vorbis(format: AudioFormat) -> bool {
    format != AudioFormat::Other
}

/// Bytes of Spotify's own header before the Ogg data starts.
pub const SPOTIFY_OGG_HEADER_END: u64 = 0xa7;

/// How many bytes of a decrypted file to skip before the audio data: the
/// Spotify header of Ogg Vorbis files, nothing otherwise.
pub fn header_offset(format: AudioFormat) -> (res: u64)
    ensures
        res == if ogg_vorbis(format) {
            SPOTIFY_OGG_HEADER_END
        } else {
            0
        },
{
    match format {
        AudioFormat::Other => 0,
        _ => SPOTIFY_OGG_HEADER_END,
    }
}

/// `i` is the position that `Iterator::max_by_key` picks by rate: a maximal
/// rate, and the last one among equal maxima.
pub open spec fn is_best_format(formats: Seq<AudioFormat>, i: int) -> bool {
    &&& 0 <= i < formats.len()
    &&& forall|j: int| 0 <= j < formats.len() ==> data_rate(#[trigger] formats[j]) <= data_rate(formats[i])
    &&& forall|j: int| i < j < formats.len() ==> data_rate(#[trigger] formats[j]) < data_rate(formats[i])
}

/// The position of the file to stream among the available formats: the one
/// with the highest rate, the last of several with that rate; `None` when
/// there is none.
pub fn best_format(formats: &Vec<AudioFormat>) -> (res: Option<usize>)
    ensures
        match res {
            Some(i) => is_best_format(formats@, i as int),
            None => formats@.len() == 0,
        },
{
    let n = formats.len();
    if n == 0 {
        return None;
    }
    let mut best: usize = 0;
    let mut best_rate = stream_data_rate(formats[0]);
    let mut i: usize = 1;
    while i < n
        invariant
            n == formats@.len(),
            1 <= i <= n,
            best < i,
            best_rate == data_rate(formats@[best as int]),
            forall|j: int| 0 <= j < i ==> data_rate(#[trigger] formats@[j]) <= best_rate,
            forall|j: int| best < j < i ==> data_rate(#[trigger] formats@[j]) < best_rate,
        decreases n - i,
    {
        let r = stream_data_rate(formats[i]);
        if r >= best_rate {
            best = i;
            best_rate = r;
        }
        i = i + 1;
    }
    Some(best)
}

/// Where a seek goes, as `std::io::SeekFrom` says it.
#[derive(Debug, Clone, Copy, PartialEq, Eq, Structural)]
pub enum SeekTarget {
    Start(u64),
    End(i64),
    Current(i64),
}

/// Why a seek is refused.
#[derive(Debug, Clone, Copy, PartialEq, Eq, Structural)]
pub enum SeekError {
    /// The new position would fall inside the skipped header.
    BeforeStart,
}

/// The part of a decrypted audio file that the decoder sees: everything
/// after `offset` bytes of header, in a file of `length` bytes when known.
#[derive(Debug, Clone, Copy)]
pub struct StreamWindow {
    pub length: Option<usize>,
    pub offset: usize,
}

impl StreamWindow {
    /// A seek can be translated without overflow.
    pub open spec fn seek_in_range(self, pos: SeekTarget) -> bool {
        match pos {
            SeekTarget::Start(o) => o + self.offset <= u64::MAX,
            SeekTarget::End(o) => {
                let len: int = match self.length {
                    Some(l) => l as i64 as int,
                    None => 0,
                };
                i64::MIN <= len - o <= i64::MAX
            },
            SeekTarget::Current(_) => true,
        }
    }

    /// The seek on the whole file that a seek on the window stands for.
    pub open spec fn translated(self, pos: SeekTarget) -> Result<SeekTarget, SeekError> {
        match pos {
            SeekTarget::Start(o) => Ok(SeekTarget::Start((o + self.offset) as u64)),
            SeekTarget::End(o) => {
                let len: int = match self.length {
                    Some(l) => l as i64 as int,
                    None => 0,
                };
                if len - o < self.offset as i64 as int {
                    Err(SeekError::BeforeStart)
                } else {
                    Ok(pos)
                }
            },
            SeekTarget::Current(_) => Ok(pos),
        }
    }

    /// Translates a seek on the window into a seek on the whole file:
    /// positions from the start are moved past the header, positions from
    /// the end are refused when they would land inside the header.
    pub fn translate_seek(&self, pos: SeekTarget) -> (res: Result<SeekTarget, SeekError>)
        requires
            self.seek_in_range(pos),
        ensures
            res == self.translated(pos),
    {
        match pos {
            SeekTarget::Start(o) => Ok(SeekTarget::Start(o + self.offset as u64)),
            SeekTarget::End(o) => {
                let len: i64 = match self.length {
                    Some(l) => l as i64,
                    None => 0,
                };
                if len - o < self.offset as i64 {
                    Err(SeekError::BeforeStart)
                } else {
                    Ok(pos)
                }
            },
            SeekTarget::Current(_) => Ok(pos),
        }
    }

    /// The position on the window for a position on the whole file.
    pub fn window_position(&self, file_pos: u64) -> (res: u64)
        requires
            file_pos >= self.offset,
        ensures
            res == file_pos - self.offset,
    {
        file_pos - self.offset as u64
    }

    /// The window can be sought in when the file's length is known.
    pub fn is_seekable(&self) -> (res: bool)
        ensures
            res == self.length is Some,
    {
        self.length.is_some()
    }

    /// The length of the file in bytes, when known.
    pub fn byte_len(&self) -> (res: Option<u64>)
        ensures
            res == match self.length {
                Some(l) => Some(l as u64),
                None => None::<u64>,
            },
    {
        match self.length {
            Some(l) => Some(l as u64),
            None => None,
        }
    }
}

/// Seeking to a position from the start of the window and reading back the
/// position reached gives that same position.
pub proof fn lemma_seek_start_round_trip(w: StreamWindow, o: u64)
    requires
        w.seek_in_range(SeekTarget::Start(o)),
    ensures
        w.translated(SeekTarget::Start(o)) matches Ok(SeekTarget::Start(f)) && f >= w.offset && f
            - w.offset == o,
{
}

} // verus!
