//! Planning of the encoding pipeline: a pure, data-driven mapping from
//! encoder kind, quality and metadata to the ordered list of processing
//! stages the media backend must instantiate and link.

use vstd::prelude::*;

use crate::data::{Config, Disc, Encoder, Track};
use crate::pattern::{format_output_path, output_path_spec};
use crate::text::{decimal_seq, u64_to_string};

verus! {

/// The metadata attached to the tag-setting stage of a chain.
#[derive(Debug)]
pub struct Tags {
    pub title: String,
    pub artist: String,
    pub number: u32,
    pub album: String,
    pub duration: u64,
    pub year: Option<u16>,
    pub composer: Option<String>,
}

/// The mathematical shape of a `Tags` value.
pub struct TagsModel {
    pub title: Seq<char>,
    pub artist: Seq<char>,
    pub number: u32,
    pub album: Seq<char>,
    pub duration: u64,
    pub year: Option<u16>,
    pub composer: Option<Seq<char>>,
}

impl View for Tags {
    type V = TagsModel;

    open spec fn view(&self) -> TagsModel {
        TagsModel {
            title: self.title@,
            artist: self.artist@,
            number: self.number,
            album: self.album@,
            duration: self.duration,
            year: self.year,
            composer: match self.composer {
                Some(c) => Some(c@),
                None => None,
            },
        }
    }
}

impl DeepView for Tags {
    type V = TagsModel;

    open spec fn deep_view(&self) -> TagsModel {
        self.view()
    }
}

/// One processing stage of an encoding chain, in link order. The
/// application instantiates each as a media-backend element.
#[derive(Debug)]
pub enum Stage {
    /// OS-delegated CD source for one track; `read_speed` 0 asks for the
    /// drive's maximum speed.
    CddaSource { track_number: u32, read_speed: i32 },
    /// Application-fed source: the sector-level error-correcting reader
    /// pushes raw audio into the chain.
    AppSource,
    AudioConvert,
    AudioResample,
    Mp3Encode { quality: u8 },
    VorbisEncode { quality_tenths: u8, tags: Tags },
    FlacEncode { compression: u8, tags: Tags },
    OpusEncode { bitrate: u32, tags: Tags },
    AacEncode { bitrate: u32, tags: Tags },
    WavEncode,
    Id3Mux { tags: Tags },
    OggMux,
    Mp4Mux,
    FileSink { location: String },
}

/// The mathematical shape of a `Stage`.
pub enum StageModel {
    CddaSource { track_number: u32, read_speed: i32 },
    AppSource,
    AudioConvert,
    AudioResample,
    Mp3Encode { quality: u8 },
    VorbisEncode { quality_tenths: u8, tags: TagsModel },
    FlacEncode { compression: u8, tags: TagsModel },
    OpusEncode { bitrate: u32, tags: TagsModel },
    AacEncode { bitrate: u32, tags: TagsModel },
    WavEncode,
    Id3Mux { tags: TagsModel },
    OggMux,
    Mp4Mux,
    FileSink { location: Seq<char> },
}

impl View for Stage {
    type V = StageModel;

    open spec fn view(&self) -> StageModel {
        match self {
            Stage::CddaSource { track_number, read_speed } => (StageModel::CddaSource {
                track_number: *track_number,
                read_speed: *read_speed,
            }),
            Stage::AppSource => StageModel::AppSource,
            Stage::AudioConvert => StageModel::AudioConvert,
            Stage::AudioResample => StageModel::AudioResample,
            Stage::Mp3Encode { quality } => (StageModel::Mp3Encode { quality: *quality }),
            Stage::VorbisEncode { quality_tenths, tags } => (StageModel::VorbisEncode {
                quality_tenths: *quality_tenths,
                tags: tags@,
            }),
            Stage::FlacEncode { compression, tags } => (StageModel::FlacEncode {
                compression: *compression,
                tags: tags@,
            }),
            Stage::OpusEncode { bitrate, tags } => (StageModel::OpusEncode {
                bitrate: *bitrate,
                tags: tags@,
            }),
            Stage::AacEncode { bitrate, tags } => (StageModel::AacEncode {
                bitrate: *bitrate,
                tags: tags@,
            }),
            Stage::WavEncode => StageModel::WavEncode,
            Stage::Id3Mux { tags } => (StageModel::Id3Mux { tags: tags@ }),
            Stage::OggMux => StageModel::OggMux,
            Stage::Mp4Mux => StageModel::Mp4Mux,
            Stage::FileSink { location } => (StageModel::FileSink { location: location@ }),
        }
    }
}

impl DeepView for Stage {
    type V = StageModel;

    open spec fn deep_view(&self) -> StageModel {
        self.view()
    }
}

/// An encoding plan: the linked stage list and the destination path.
#[derive(Debug)]
pub struct PipelinePlan {
    pub stages: Vec<Stage>,
    pub location: String,
}

/// The tag payload a disc and track yield.
pub open spec fn tags_model_spec(d: &Disc, t: &Track) -> TagsModel {
    TagsModel {
        title: t.title@,
        artist: t.artist@,
        number: t.number,
        album: d.title@,
        duration: t.duration,
        year: d.year,
        composer: match t.composer {
            Some(c) => Some(c@),
            None => None,
        },
    }
}

/// The source stage a configuration selects: the error-correcting reader
/// feeds an application source; otherwise the OS reads the track itself,
/// at maximum speed.
pub open spec fn source_model_spec(c: &Config, t: &Track) -> StageModel {
    if c.use_paranoia {
        StageModel::AppSource
    } else {
        StageModel::CddaSource { track_number: t.number, read_speed: 0 }
    }
}

/// The full stage list per encoder kind, as the design table fixes it:
/// which stages appear, in which order, with which quality value, and
/// where the tags go.
pub open spec fn stage_list_model_spec(c: &Config, d: &Disc, t: &Track) -> Seq<StageModel> {
    let tags = tags_model_spec(d, t);
    let source = source_model_spec(c, t);
    let sink = StageModel::FileSink { location: output_path_spec(c, d, t) };
    match c.encoder {
        Encoder::MP3 => seq![
            source,
            StageModel::Mp3Encode { quality: c.quality.mp3_quality_spec() },
            StageModel::Id3Mux { tags },
            sink,
        ],
        Encoder::OGG => seq![
            source,
            StageModel::AudioConvert,
            StageModel::VorbisEncode {
                quality_tenths: c.quality.vorbis_quality_tenths_spec(),
                tags,
            },
            StageModel::OggMux,
            sink,
        ],
        Encoder::FLAC => seq![
            source,
            StageModel::FlacEncode { compression: c.quality.flac_compression_level_spec(), tags },
            sink,
        ],
        Encoder::OPUS => seq![
            source,
            StageModel::AudioConvert,
            StageModel::AudioResample,
            StageModel::OpusEncode { bitrate: c.quality.opus_bitrate_spec(), tags },
            StageModel::OggMux,
            sink,
        ],
        Encoder::WAV => seq![source, StageModel::WavEncode, sink],
        Encoder::AAC => seq![
            source,
            StageModel::AudioConvert,
            StageModel::AudioResample,
            StageModel::AacEncode { bitrate: c.quality.aac_bitrate_spec(), tags },
            StageModel::Mp4Mux,
            sink,
        ],
    }
}

/// The tag payload for one track of a disc.
pub fn make_tags(d: &Disc, t: &Track) -> (tags: Tags)
    ensures
        tags@ == tags_model_spec(d, t),
{
    Tags {
        title: t.title.clone(),
        artist: t.artist.clone(),
        number: t.number,
        album: d.title.clone(),
        duration: t.duration,
        year: d.year,
        composer: match &t.composer {
            Some(c) => Some(c.clone()),
            None => None,
        },
    }
}

/// The URI of the OS-delegated source for one track.
pub fn cdda_uri(track_number: u32) -> (r: String)
    ensures
        r@ == "cdda://"@ + decimal_seq(track_number as nat),
{
    let mut r = String::from_str("cdda://");
    let num = u64_to_string(track_number as u64);
    r.append(num.as_str());
    r
}

/// Plan the encoding of one track: the stage list the design table gives
/// for the configured encoder and quality, and the destination path.
pub fn create_pipeline(config: &Config, disc: &Disc, track: &Track) -> (r: PipelinePlan)
    ensures
        r.stages.deep_view() == stage_list_model_spec(config, disc, track),
        r.location@ == output_path_spec(config, disc, track),
{
    let location = format_output_path(config, disc, track);
    let tags = make_tags(disc, track);
    let source: Stage = if config.use_paranoia {
        Stage::AppSource
    } else {
        Stage::CddaSource { track_number: track.number, read_speed: 0 }
    };
    let sink = Stage::FileSink { location: location.clone() };
    let mut stages: Vec<Stage> = Vec::new();
    match config.encoder {
        Encoder::MP3 => {
            stages.push(source);
            stages.push(Stage::Mp3Encode { quality: config.quality.mp3_quality() });
            stages.push(Stage::Id3Mux { tags });
            stages.push(sink);
        },
        Encoder::OGG => {
            stages.push(source);
            stages.push(Stage::AudioConvert);
            stages.push(
                Stage::VorbisEncode {
                    quality_tenths: config.quality.vorbis_quality_tenths(),
                    tags,
                },
            );
            stages.push(Stage::OggMux);
            stages.push(sink);
        },
        Encoder::FLAC => {
            stages.push(source);
            stages.push(
                Stage::FlacEncode { compression: config.quality.flac_compression_level(), tags },
            );
            stages.push(sink);
        },
        Encoder::OPUS => {
            stages.push(source);
            stages.push(Stage::AudioConvert);
            stages.push(Stage::AudioResample);
            stages.push(Stage::OpusEncode { bitrate: config.quality.opus_bitrate(), tags });
            stages.push(Stage::OggMux);
            stages.push(sink);
        },
        Encoder::WAV => {
            stages.push(source);
            stages.push(Stage::WavEncode);
            stages.push(sink);
        },
        Encoder::AAC => {
            stages.push(source);
            stages.push(Stage::AudioConvert);
            stages.push(Stage::AudioResample);
            stages.push(Stage::AacEncode { bitrate: config.quality.aac_bitrate(), tags });
            stages.push(Stage::Mp4Mux);
            stages.push(sink);
        },
    }
    proof {
        assert(stages.deep_view() =~= stage_list_model_spec(config, disc, track));
    }
    PipelinePlan { stages, location }
}

} // verus!
