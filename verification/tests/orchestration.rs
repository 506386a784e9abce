use ripperx4::data::{Config, Disc, Encoder, FilePattern, Quality, Track};
use ripperx4::errors::RipError;
use ripperx4::pipeline::{create_pipeline, Stage};
use ripperx4::ripper::{batch_step, check_existing_files, overwrite_check, rip_plan, BatchDecision};

fn track(number: u32, title: &str, rip: bool) -> Track {
    Track {
        number,
        title: title.to_string(),
        artist: "Artist".to_string(),
        duration: 200,
        composer: None,
        rip,
    }
}

fn disc(n: u32) -> Disc {
    Disc {
        title: "Album".to_string(),
        artist: "Artist".to_string(),
        year: Some(1999),
        genre: None,
        tracks: (1..=n).map(|i| track(i, &format!("Track {i}"), true)).collect(),
    }
}

fn config(encoder: Encoder) -> Config {
    Config {
        encode_path: "/music".to_string(),
        encoder,
        quality: Quality::High,
        fake_cdrom: true,
        eject_when_done: false,
        create_playlist: false,
        file_pattern: FilePattern::AlbumOnly,
        custom_pattern: String::new(),
        open_folder_when_done: false,
        use_paranoia: false,
    }
}

#[test]
fn batch_stops_immediately_when_cancelled() {
    let d = disc(12);
    for i in 0..14 {
        assert_eq!(batch_step(&d, i, false), BatchDecision::Stop);
    }
}

#[test]
fn batch_walks_tracks_in_order() {
    let mut d = disc(3);
    d.tracks[1].rip = false;
    assert_eq!(batch_step(&d, 0, true), BatchDecision::Rip);
    assert_eq!(batch_step(&d, 1, true), BatchDecision::Skip);
    assert_eq!(batch_step(&d, 2, true), BatchDecision::Rip);
    assert_eq!(batch_step(&d, 3, true), BatchDecision::Stop);
}

#[test]
fn cancelled_run_writes_no_files() {
    // a 12-track disc, everything selected, but cancellation already
    // requested: the plan is empty, so the run succeeds with zero files
    let d = disc(12);
    let c = config(Encoder::MP3);
    let plan = rip_plan(&c, &d, false);
    assert!(plan.is_empty());
}

#[test]
fn rip_plan_lists_selected_tracks_only() {
    let mut d = disc(3);
    d.tracks[1].rip = false;
    let c = config(Encoder::MP3);
    let plan = rip_plan(&c, &d, true);
    assert_eq!(
        plan,
        vec![
            "/music/Album/01 - Track 1.mp3".to_string(),
            "/music/Album/03 - Track 3.mp3".to_string(),
        ]
    );
}

#[test]
fn check_existing_keeps_only_present_paths() {
    let paths = vec![
        "/music/a.mp3".to_string(),
        "/music/b.mp3".to_string(),
        "/music/c.mp3".to_string(),
    ];
    let on_disk = vec![true, false, true];
    let existing = check_existing_files(&paths, &on_disk);
    assert_eq!(existing, vec!["/music/a.mp3".to_string(), "/music/c.mp3".to_string()]);

    let none = check_existing_files(&paths, &vec![false, false, false]);
    assert!(none.is_empty());
}

#[test]
fn overwrite_rules() {
    let loc = "/music/x.mp3".to_string();
    assert!(overwrite_check(&loc, false, false).is_ok());
    assert!(overwrite_check(&loc, true, true).is_ok());
    match overwrite_check(&loc, true, false) {
        Err(RipError::FileExists(p)) => assert_eq!(p, "/music/x.mp3"),
        other => panic!("unexpected: {other:?}"),
    }
}

#[test]
fn mp3_pipeline_shape() {
    let d = disc(1);
    let c = config(Encoder::MP3);
    let plan = create_pipeline(&c, &d, &d.tracks[0]);
    assert_eq!(plan.location, "/music/Album/01 - Track 1.mp3");
    assert_eq!(plan.stages.len(), 4);
    match &plan.stages[0] {
        Stage::CddaSource { track_number, read_speed } => {
            assert_eq!(*track_number, 1);
            assert_eq!(*read_speed, 0);
        }
        other => panic!("unexpected source: {other:?}"),
    }
    match &plan.stages[1] {
        Stage::Mp3Encode { quality } => assert_eq!(*quality, 0),
        other => panic!("unexpected encoder: {other:?}"),
    }
    match &plan.stages[2] {
        Stage::Id3Mux { tags } => {
            assert_eq!(tags.title, "Track 1");
            assert_eq!(tags.artist, "Artist");
            assert_eq!(tags.album, "Album");
            assert_eq!(tags.number, 1);
            assert_eq!(tags.duration, 200);
            assert_eq!(tags.year, Some(1999));
            assert!(tags.composer.is_none());
        }
        other => panic!("unexpected muxer: {other:?}"),
    }
    match &plan.stages[3] {
        Stage::FileSink { location } => {
            assert_eq!(location, "/music/Album/01 - Track 1.mp3")
        }
        other => panic!("unexpected sink: {other:?}"),
    }
}

#[test]
fn ogg_pipeline_shape() {
    let d = disc(1);
    let c = config(Encoder::OGG);
    let plan = create_pipeline(&c, &d, &d.tracks[0]);
    assert_eq!(plan.stages.len(), 5);
    assert!(matches!(plan.stages[1], Stage::AudioConvert));
    match &plan.stages[2] {
        Stage::VorbisEncode { quality_tenths, .. } => assert_eq!(*quality_tenths, 9),
        other => panic!("unexpected encoder: {other:?}"),
    }
    assert!(matches!(plan.stages[3], Stage::OggMux));
    assert!(matches!(plan.stages[4], Stage::FileSink { .. }));
}

#[test]
fn flac_pipeline_shape() {
    let d = disc(1);
    let c = config(Encoder::FLAC);
    let plan = create_pipeline(&c, &d, &d.tracks[0]);
    assert_eq!(plan.stages.len(), 3);
    match &plan.stages[1] {
        Stage::FlacEncode { compression, tags } => {
            assert_eq!(*compression, 8);
            assert_eq!(tags.title, "Track 1");
        }
        other => panic!("unexpected encoder: {other:?}"),
    }
    assert!(matches!(plan.stages[2], Stage::FileSink { .. }));
}

#[test]
fn opus_pipeline_shape() {
    let d = disc(1);
    let c = config(Encoder::OPUS);
    let plan = create_pipeline(&c, &d, &d.tracks[0]);
    assert_eq!(plan.stages.len(), 6);
    assert!(matches!(plan.stages[1], Stage::AudioConvert));
    assert!(matches!(plan.stages[2], Stage::AudioResample));
    match &plan.stages[3] {
        Stage::OpusEncode { bitrate, .. } => assert_eq!(*bitrate, 256_000),
        other => panic!("unexpected encoder: {other:?}"),
    }
    assert!(matches!(plan.stages[4], Stage::OggMux));
    assert!(plan.location.ends_with(".ogg"));
}

#[test]
fn wav_pipeline_shape() {
    let d = disc(1);
    let c = config(Encoder::WAV);
    let plan = create_pipeline(&c, &d, &d.tracks[0]);
    assert_eq!(plan.stages.len(), 3);
    assert!(matches!(plan.stages[1], Stage::WavEncode));
    assert!(plan.location.ends_with(".wav"));
}

#[test]
fn aac_pipeline_shape() {
    let d = disc(1);
    let c = config(Encoder::AAC);
    let plan = create_pipeline(&c, &d, &d.tracks[0]);
    assert_eq!(plan.stages.len(), 6);
    match &plan.stages[3] {
        Stage::AacEncode { bitrate, .. } => assert_eq!(*bitrate, 256_000),
        other => panic!("unexpected encoder: {other:?}"),
    }
    assert!(matches!(plan.stages[4], Stage::Mp4Mux));
    assert!(plan.location.ends_with(".m4a"));
}

#[test]
fn paranoia_pipeline_uses_app_source() {
    let d = disc(1);
    let mut c = config(Encoder::MP3);
    c.use_paranoia = true;
    let plan = create_pipeline(&c, &d, &d.tracks[0]);
    assert!(matches!(plan.stages[0], Stage::AppSource));
}
