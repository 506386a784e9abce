//! Value types shared by the whole library: the disc/track model, the
//! user-chosen configuration, and the encoder/quality enumerations with
//! their fixed numeric mappings.

use vstd::prelude::*;

verus! {

/// One audio track of a disc. `number` is 1-based; `rip` marks the track
/// for inclusion in a batch extraction.
#[derive(Debug)]
pub struct Track {
    pub number: u32,
    pub title: String,
    pub artist: String,
    pub duration: u64,
    pub composer: Option<String>,
    pub rip: bool,
}

/// A scanned disc: album metadata plus its ordered tracks.
#[derive(Debug)]
pub struct Disc {
    pub title: String,
    pub artist: String,
    pub year: Option<u16>,
    pub genre: Option<String>,
    pub tracks: Vec<Track>,
}

/// The disc currently shown to the user, if any.
#[derive(Debug)]
pub struct Data {
    pub disc: Option<Disc>,
}

/// The encoding backends a user can choose from.
#[derive(Clone, Copy, Debug, PartialEq, Eq, Structural)]
pub enum Encoder {
    MP3,
    OGG,
    FLAC,
    OPUS,
    WAV,
    AAC,
}

/// The quality setting, mapped per encoder to a fixed numeric value.
#[derive(Clone, Copy, Debug, PartialEq, Eq, Structural)]
pub enum Quality {
    Low,
    Medium,
    High,
}

/// How output paths are laid out under the encode root.
#[derive(Clone, Copy, Debug, PartialEq, Eq, Structural)]
pub enum FilePattern {
    ArtistAlbum,
    ArtistDashAlbum,
    AlbumOnly,
    Custom,
}

/// The configuration for a ripping run; loaded once and immutable while
/// the run lasts.
#[derive(Debug)]
pub struct Config {
    pub encode_path: String,
    pub encoder: Encoder,
    pub quality: Quality,
    pub fake_cdrom: bool,
    pub eject_when_done: bool,
    pub create_playlist: bool,
    pub file_pattern: FilePattern,
    pub custom_pattern: String,
    pub open_folder_when_done: bool,
    pub use_paranoia: bool,
}

impl Track {
    /// A placeholder track: everything "Unknown", not selected for ripping.
    pub fn unknown(number: u32) -> (t: Track)
        ensures
            t.number == number,
            t.title@ == "Unknown"@,
            t.artist@ == "Unknown"@,
            t.duration == 0,
            t.composer is None,
            t.rip == false,
    {
        Track {
            number,
            title: String::from_str("Unknown"),
            artist: String::from_str("Unknown"),
            duration: 0,
            composer: None,
            rip: false,
        }
    }
}

impl Disc {
    /// A placeholder disc of `num` tracks, numbered 1 to `num`, with
    /// "Unknown" metadata everywhere and no track selected for ripping.
    pub fn with_tracks(num: u32) -> (d: Disc)
        ensures
            d.title@ == "Unknown"@,
            d.artist@ == "Unknown"@,
            d.year is None,
            d.genre is None,
            d.tracks@.len() == num,
            forall|i: int| 0 <= i < num ==> {
                &&& (#[trigger] d.tracks@[i]).number == i + 1
                &&& d.tracks@[i].title@ == "Unknown"@
                &&& d.tracks@[i].artist@ == "Unknown"@
                &&& d.tracks@[i].duration == 0
                &&& d.tracks@[i].composer is None
                &&& d.tracks@[i].rip == false
            },
    {
        let mut tracks: Vec<Track> = Vec::new();
        let mut i: u32 = 0;
        while i < num
            invariant
                i <= num,
                tracks@.len() == i,
                forall|j: int| 0 <= j < i ==> {
                    &&& (#[trigger] tracks@[j]).number == j + 1
                    &&& tracks@[j].title@ == "Unknown"@
                    &&& tracks@[j].artist@ == "Unknown"@
                    &&& tracks@[j].duration == 0
                    &&& tracks@[j].composer is None
                    &&& tracks@[j].rip == false
                },
            decreases num - i,
        {
            tracks.push(Track::unknown(i + 1));
            i = i + 1;
        }
        Disc {
            title: String::from_str("Unknown"),
            artist: String::from_str("Unknown"),
            year: None,
            genre: None,
            tracks,
        }
    }
}

impl Default for Data {
    fn default() -> (d: Data)
        ensures
            d.disc is None,
    {
        Data { disc: None }
    }
}

impl Default for Config {
    /// The out-of-the-box configuration: MP3 at medium quality into a
    /// "Music" directory, artist/album layout, nothing bypassed.
    fn default() -> (c: Config)
        ensures
            c.encode_path@ == "Music"@,
            c.encoder == Encoder::MP3,
            c.quality == Quality::Medium,
            c.fake_cdrom == false,
            c.eject_when_done == false,
            c.create_playlist == false,
            c.file_pattern == FilePattern::ArtistAlbum,
            c.custom_pattern@ == Seq::<char>::empty(),
            c.open_folder_when_done == false,
            c.use_paranoia == false,
    {
        Config {
            encode_path: String::from_str("Music"),
            encoder: Encoder::MP3,
            quality: Quality::Medium,
            fake_cdrom: false,
            eject_when_done: false,
            create_playlist: false,
            file_pattern: FilePattern::ArtistAlbum,
            custom_pattern: String::new(),
            open_folder_when_done: false,
            use_paranoia: false,
        }
    }
}

impl Encoder {
    /// The position of this encoder in the fixed selection order.
    pub fn to_index(self) -> (i: u32)
        ensures
            i == self.index_spec(),
            i < 6,
    {
        match self {
            Encoder::MP3 => 0,
            Encoder::OGG => 1,
            Encoder::FLAC => 2,
            Encoder::OPUS => 3,
            Encoder::WAV => 4,
            Encoder::AAC => 5,
        }
    }

    /// The encoder at a selection index; anything out of range falls back
    /// to MP3, the default.
    pub fn from_index(i: u32) -> (e: Encoder)
        ensures
            i == 0 ==> e == Encoder::MP3,
            i == 1 ==> e == Encoder::OGG,
            i == 2 ==> e == Encoder::FLAC,
            i == 3 ==> e == Encoder::OPUS,
            i == 4 ==> e == Encoder::WAV,
            i == 5 ==> e == Encoder::AAC,
            i >= 6 ==> e == Encoder::MP3,
            e == Encoder::from_index_spec(i),
    {
        match i {
            0 => Encoder::MP3,
            1 => Encoder::OGG,
            2 => Encoder::FLAC,
            3 => Encoder::OPUS,
            4 => Encoder::WAV,
            5 => Encoder::AAC,
            _ => Encoder::MP3,
        }
    }

    pub open spec fn index_spec(self) -> u32 {
        match self {
            Encoder::MP3 => 0u32,
            Encoder::OGG => 1u32,
            Encoder::FLAC => 2u32,
            Encoder::OPUS => 3u32,
            Encoder::WAV => 4u32,
            Encoder::AAC => 5u32,
        }
    }

    /// The file extension the encoder's container uses, dot included.
    /// Both OGG/Vorbis and Opus live in an Ogg container.
    pub open spec fn extension_spec(self) -> Seq<char> {
        match self {
            Encoder::MP3 => ".mp3"@,
            Encoder::OGG => ".ogg"@,
            Encoder::FLAC => ".flac"@,
            Encoder::OPUS => ".ogg"@,
            Encoder::WAV => ".wav"@,
            Encoder::AAC => ".m4a"@,
        }
    }

    pub fn extension(self) -> (r: &'static str)
        ensures
            r@ == self.extension_spec(),
    {
        match self {
            Encoder::MP3 => ".mp3",
            Encoder::OGG => ".ogg",
            Encoder::FLAC => ".flac",
            Encoder::OPUS => ".ogg",
            Encoder::WAV => ".wav",
            Encoder::AAC => ".m4a",
        }
    }
}

/// Round trip: every encoder comes back out of the index it maps to.
pub proof fn lemma_encoder_index_round_trip(e: Encoder)
    ensures
        Encoder::from_index_spec(e.index_spec()) == e,
{
}

impl Encoder {
    pub open spec fn from_index_spec(i: u32) -> Encoder {
        if i == 0 {
            Encoder::MP3
        } else if i == 1 {
            Encoder::OGG
        } else if i == 2 {
            Encoder::FLAC
        } else if i == 3 {
            Encoder::OPUS
        } else if i == 4 {
            Encoder::WAV
        } else if i == 5 {
            Encoder::AAC
        } else {
            Encoder::MP3
        }
    }
}

impl Quality {
    pub open spec fn mp3_quality_spec(self) -> u8 {
        match self {
            Quality::Low => 9u8,
            Quality::Medium => 5u8,
            Quality::High => 0u8,
        }
    }

    pub open spec fn vorbis_quality_tenths_spec(self) -> u8 {
        match self {
            Quality::Low => 2u8,
            Quality::Medium => 5u8,
            Quality::High => 9u8,
        }
    }

    pub open spec fn flac_compression_level_spec(self) -> u8 {
        match self {
            Quality::Low => 2u8,
            Quality::Medium => 5u8,
            Quality::High => 8u8,
        }
    }

    pub open spec fn opus_bitrate_spec(self) -> u32 {
        match self {
            Quality::Low => 64000u32,
            Quality::Medium => 128000u32,
            Quality::High => 256000u32,
        }
    }

    pub open spec fn aac_bitrate_spec(self) -> u32 {
        match self {
            Quality::Low => 128000u32,
            Quality::Medium => 192000u32,
            Quality::High => 256000u32,
        }
    }

    /// MP3 encoder quality knob: 0 is best, 9 is worst.
    pub fn mp3_quality(self) -> (q: u8)
        ensures
            q == self.mp3_quality_spec(),
            q <= 9,
            self == Quality::Low ==> q == 9,
            self == Quality::Medium ==> q == 5,
            self == Quality::High ==> q == 0,
    {
        match self {
            Quality::Low => 9,
            Quality::Medium => 5,
            Quality::High => 0,
        }
    }

    /// Vorbis encoder quality in tenths: the encoder takes a value between
    /// 0.0 and 1.0, carried here as an integer number of tenths.
    pub fn vorbis_quality_tenths(self) -> (q: u8)
        ensures
            q == self.vorbis_quality_tenths_spec(),
            q <= 10,
            self == Quality::Low ==> q == 2,
            self == Quality::Medium ==> q == 5,
            self == Quality::High ==> q == 9,
    {
        match self {
            Quality::Low => 2,
            Quality::Medium => 5,
            Quality::High => 9,
        }
    }

    /// FLAC compression level, handed to the encoder as a level string.
    pub fn flac_compression_level(self) -> (q: u8)
        ensures
            q == self.flac_compression_level_spec(),
            q <= 8,
            self == Quality::Low ==> q == 2,
            self == Quality::Medium ==> q == 5,
            self == Quality::High ==> q == 8,
    {
        match self {
            Quality::Low => 2,
            Quality::Medium => 5,
            Quality::High => 8,
        }
    }

    /// Opus bitrate in bits per second.
    pub fn opus_bitrate(self) -> (b: u32)
        ensures
            b == self.opus_bitrate_spec(),
            32000 <= b <= 512000,
            self == Quality::Low ==> b == 64000,
            self == Quality::Medium ==> b == 128000,
            self == Quality::High ==> b == 256000,
    {
        match self {
            Quality::Low => 64000,
            Quality::Medium => 128000,
            Quality::High => 256000,
        }
    }

    /// AAC bitrate in bits per second.
    pub fn aac_bitrate(self) -> (b: u32)
        ensures
            b == self.aac_bitrate_spec(),
            64000 <= b <= 320000,
            self == Quality::Low ==> b == 128000,
            self == Quality::Medium ==> b == 192000,
            self == Quality::High ==> b == 256000,
    {
        match self {
            Quality::Low => 128000,
            Quality::Medium => 192000,
            Quality::High => 256000,
        }
    }
}

} // verus!
