use ripperx4::errors::RipError;
use ripperx4::extractor::{progress_tick, ExtractorState, PipelineEvent, TickAction};
use ripperx4::paranoia::{
    extract_sector_pushes, extraction_progress_percent, frame_from_samples, frame_to_le_bytes,
    sector_duration_ns, sector_pts_ns, sector_step, silent_frame, track_info_from_bounds, Frame,
    CD_SECTOR_SIZE, NANOS_PER_SECTOR, SAMPLES_PER_SECTOR,
};

#[test]
fn track_info_valid_bounds() {
    let info = track_info_from_bounds(150, 18050).unwrap();
    assert_eq!(info.first_sector, 150);
    assert_eq!(info.last_sector, 18050);
    assert_eq!(info.total_sectors, 17901);
}

#[test]
fn track_info_single_sector() {
    let info = track_info_from_bounds(0, 0).unwrap();
    assert_eq!(info.total_sectors, 1);
}

#[test]
fn track_info_inverted_bounds_fail() {
    let r = track_info_from_bounds(100, 99);
    assert!(matches!(r, Err(RipError::InvalidTrack)));
}

#[test]
fn track_info_negative_bounds_fail() {
    assert!(matches!(track_info_from_bounds(-1, 10), Err(RipError::InvalidTrack)));
    assert!(matches!(track_info_from_bounds(5, -2), Err(RipError::InvalidTrack)));
}

#[test]
fn silent_frame_is_full_and_zero() {
    let f = silent_frame();
    assert_eq!(f.samples.len(), SAMPLES_PER_SECTOR);
    assert!(f.samples.iter().all(|s| *s == 0));
}

#[test]
fn frame_from_samples_checks_length() {
    assert!(frame_from_samples(vec![0i16; SAMPLES_PER_SECTOR]).is_some());
    assert!(frame_from_samples(vec![0i16; SAMPLES_PER_SECTOR - 1]).is_none());
    assert!(frame_from_samples(vec![]).is_none());
}

#[test]
fn frame_bytes_are_little_endian() {
    let mut samples = vec![0i16; SAMPLES_PER_SECTOR];
    samples[0] = 0x1234;
    samples[1] = -1;
    samples[2] = -32768;
    let f = Frame { samples };
    let bytes = frame_to_le_bytes(&f);
    assert_eq!(bytes.len(), CD_SECTOR_SIZE);
    assert_eq!(&bytes[0..2], &[0x34, 0x12]);
    assert_eq!(&bytes[2..4], &[0xff, 0xff]);
    assert_eq!(&bytes[4..6], &[0x00, 0x80]);
}

#[test]
fn sector_timing() {
    assert_eq!(sector_duration_ns(), NANOS_PER_SECTOR);
    assert_eq!(sector_pts_ns(0), 0);
    assert_eq!(sector_pts_ns(1), 13_333_333);
    // 44100 sectors play for exactly 588 seconds
    assert_eq!(sector_pts_ns(44100), 588_000_000_000);
    assert_eq!(sector_pts_ns(3), 40_000_000);
}

#[test]
fn failed_read_yields_full_silent_sector() {
    let push = sector_step(&None, 7);
    assert_eq!(push.bytes.len(), CD_SECTOR_SIZE);
    assert!(push.bytes.iter().all(|b| *b == 0));
    assert_eq!(push.pts_ns, sector_pts_ns(7));
    assert_eq!(push.duration_ns, NANOS_PER_SECTOR);
}

#[test]
fn one_bad_sector_keeps_track_length() {
    // A 12-sector track with one unreadable sector still pushes 12 full
    // sectors, so the track has its expected total duration.
    let mut reads: Vec<Option<Frame>> = Vec::new();
    for i in 0..12u32 {
        if i == 5 {
            reads.push(None);
        } else {
            reads.push(Some(Frame { samples: vec![i as i16; SAMPLES_PER_SECTOR] }));
        }
    }
    let pushes = extract_sector_pushes(&reads);
    assert_eq!(pushes.len(), 12);
    for (i, p) in pushes.iter().enumerate() {
        assert_eq!(p.bytes.len(), CD_SECTOR_SIZE);
        assert_eq!(p.pts_ns, sector_pts_ns(i as u32));
        assert_eq!(p.duration_ns, NANOS_PER_SECTOR);
    }
    // the substituted sector is silence, not garbage and not missing
    assert!(pushes[5].bytes.iter().all(|b| *b == 0));
    // total played time spans the full 12 sectors (truncation loses at
    // most one nanosecond per boundary)
    let end = pushes[11].pts_ns + pushes[11].duration_ns;
    assert_eq!(end, 159_999_999);
    assert_eq!(sector_pts_ns(12), 160_000_000);
}

#[test]
fn progress_percent_values() {
    assert_eq!(extraction_progress_percent(0, 0), 0);
    assert_eq!(extraction_progress_percent(0, 12), 0);
    assert_eq!(extraction_progress_percent(6, 12), 50);
    assert_eq!(extraction_progress_percent(12, 12), 100);
    assert_eq!(extraction_progress_percent(1, 3), 33);
}

#[test]
fn extractor_completes_on_end_of_stream() {
    let s = ExtractorState::Idle.start();
    assert!(matches!(s, ExtractorState::Running));
    let s = s.on_event(PipelineEvent::EndOfStream);
    assert!(matches!(s, ExtractorState::Completed));
    assert!(s.outcome().is_ok());
}

#[test]
fn extractor_captures_error_message() {
    let s = ExtractorState::Idle.start().on_event(PipelineEvent::Error("sink failed".to_string()));
    match &s {
        ExtractorState::Failed(m) => assert_eq!(m, "sink failed"),
        other => panic!("unexpected state: {other:?}"),
    }
    match s.outcome() {
        Err(RipError::Processing(m)) => assert_eq!(m, "sink failed"),
        other => panic!("unexpected outcome: {other:?}"),
    }
}

#[test]
fn extractor_abort_is_not_a_failure() {
    let s = ExtractorState::Idle.start().on_cancel();
    assert!(matches!(s, ExtractorState::Aborted));
    match s.outcome() {
        Err(RipError::AbortedByUser) => {}
        other => panic!("unexpected outcome: {other:?}"),
    }
}

#[test]
fn extractor_terminal_states_absorb() {
    let done = ExtractorState::Completed.on_event(PipelineEvent::Error("x".to_string()));
    assert!(matches!(done, ExtractorState::Completed));
    let aborted = ExtractorState::Aborted.on_cancel();
    assert!(matches!(aborted, ExtractorState::Aborted));
    let idle = ExtractorState::Idle.on_event(PipelineEvent::EndOfStream);
    assert!(matches!(idle, ExtractorState::Idle));
}

#[test]
fn tick_reports_progress_line() {
    match progress_tick(true, true, "So Far Away", 6, 12) {
        TickAction::Status(s) => assert_eq!(s, "Encoding So Far Away : 50 %"),
        TickAction::Shutdown => panic!("expected a status line"),
    }
}

#[test]
fn tick_shuts_down_on_cancel_or_done() {
    assert!(matches!(progress_tick(false, true, "t", 0, 10), TickAction::Shutdown));
    assert!(matches!(progress_tick(true, false, "t", 0, 10), TickAction::Shutdown));
}

#[test]
fn error_messages() {
    assert_eq!(RipError::InvalidTrack.message(), "invalid track sectors");
    assert_eq!(RipError::AbortedByUser.message(), "aborted");
    assert_eq!(RipError::Drive("no disc".to_string()).message(), "drive error: no disc");
    assert_eq!(
        RipError::PipelineBuild("no encoder".to_string()).message(),
        "failed to build pipeline: no encoder"
    );
    assert_eq!(RipError::Processing("io".to_string()).message(), "processing error: io");
    assert_eq!(RipError::FileExists("/tmp/x.mp3".to_string()).message(), "file exists: /tmp/x.mp3");
}
