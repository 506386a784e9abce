use ripperx4::data::{Config, Disc, Encoder, FilePattern, Quality};

#[test]
fn with_tracks_builds_placeholder_disc() {
    let d = Disc::with_tracks(12);
    assert_eq!(d.title, "Unknown");
    assert_eq!(d.artist, "Unknown");
    assert!(d.year.is_none());
    assert!(d.genre.is_none());
    assert_eq!(d.tracks.len(), 12);
    for (i, t) in d.tracks.iter().enumerate() {
        assert_eq!(t.number, i as u32 + 1);
        assert_eq!(t.title, "Unknown");
        assert_eq!(t.artist, "Unknown");
        assert_eq!(t.duration, 0);
        assert!(t.composer.is_none());
        assert!(!t.rip);
    }
}

#[test]
fn with_tracks_zero() {
    let d = Disc::with_tracks(0);
    assert_eq!(d.tracks.len(), 0);
    assert_eq!(d.title, "Unknown");
}

#[test]
fn encoder_index_round_trip() {
    let all = [
        Encoder::MP3,
        Encoder::OGG,
        Encoder::FLAC,
        Encoder::OPUS,
        Encoder::WAV,
        Encoder::AAC,
    ];
    for e in all {
        assert_eq!(Encoder::from_index(e.to_index()), e);
    }
}

#[test]
fn encoder_from_index_out_of_range_defaults_to_mp3() {
    assert_eq!(Encoder::from_index(6), Encoder::MP3);
    assert_eq!(Encoder::from_index(99), Encoder::MP3);
    assert_eq!(Encoder::from_index(u32::MAX), Encoder::MP3);
}

#[test]
fn encoder_extensions() {
    assert_eq!(Encoder::MP3.extension(), ".mp3");
    assert_eq!(Encoder::OGG.extension(), ".ogg");
    assert_eq!(Encoder::FLAC.extension(), ".flac");
    assert_eq!(Encoder::OPUS.extension(), ".ogg");
    assert_eq!(Encoder::WAV.extension(), ".wav");
    assert_eq!(Encoder::AAC.extension(), ".m4a");
}

#[test]
fn quality_mappings_are_fixed() {
    assert_eq!(Quality::Low.mp3_quality(), 9);
    assert_eq!(Quality::Medium.mp3_quality(), 5);
    assert_eq!(Quality::High.mp3_quality(), 0);

    assert_eq!(Quality::Low.vorbis_quality_tenths(), 2);
    assert_eq!(Quality::Medium.vorbis_quality_tenths(), 5);
    assert_eq!(Quality::High.vorbis_quality_tenths(), 9);

    assert_eq!(Quality::Low.flac_compression_level(), 2);
    assert_eq!(Quality::Medium.flac_compression_level(), 5);
    assert_eq!(Quality::High.flac_compression_level(), 8);

    assert_eq!(Quality::Low.opus_bitrate(), 64000);
    assert_eq!(Quality::Medium.opus_bitrate(), 128000);
    assert_eq!(Quality::High.opus_bitrate(), 256000);

    assert_eq!(Quality::Low.aac_bitrate(), 128000);
    assert_eq!(Quality::Medium.aac_bitrate(), 192000);
    assert_eq!(Quality::High.aac_bitrate(), 256000);
}

#[test]
fn quality_ranges_hold_for_every_value() {
    for q in [Quality::Low, Quality::Medium, Quality::High] {
        assert!(q.mp3_quality() <= 9);
        assert!(q.vorbis_quality_tenths() <= 10);
        assert!((32000..=512000).contains(&q.opus_bitrate()));
        assert!((64000..=320000).contains(&q.aac_bitrate()));
    }
}

#[test]
fn config_default_values() {
    let c = Config::default();
    assert_eq!(c.encode_path, "Music");
    assert_eq!(c.encoder, Encoder::MP3);
    assert_eq!(c.quality, Quality::Medium);
    assert!(!c.fake_cdrom);
    assert!(!c.eject_when_done);
    assert!(!c.create_playlist);
    assert_eq!(c.file_pattern, FilePattern::ArtistAlbum);
    assert_eq!(c.custom_pattern, "");
    assert!(!c.open_folder_when_done);
    assert!(!c.use_paranoia);
}
