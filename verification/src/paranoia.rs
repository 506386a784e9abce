//! Sector-level extraction logic for the error-correcting reader: TOC
//! bounds validation, the fixed CD audio frame format, silent-frame
//! substitution for unreadable sectors, and the per-sector timestamps.
//!
//! The device reads themselves happen outside; each read hands this module
//! either a frame of samples or nothing, and the logic here decides what
//! reaches the downstream sink.

use vstd::prelude::*;

use crate::errors::RipError;

verus! {

/// Bytes per CD audio sector: 588 stereo 16-bit samples.
pub const CD_SECTOR_SIZE: usize = 2352;

/// 16-bit samples per sector (both channels interleaved).
pub const SAMPLES_PER_SECTOR: usize = 1176;

/// Nanoseconds one sector plays for: 588 / 44100 seconds, truncated.
pub const NANOS_PER_SECTOR: u64 = 13333333;

/// Sector bounds of one track, from the disc TOC.
#[derive(Clone, Copy, Debug)]
pub struct TrackInfo {
    pub first_sector: i32,
    pub last_sector: i32,
    pub total_sectors: u32,
}

impl TrackInfo {
    pub open spec fn wf(self) -> bool {
        &&& 0 <= self.first_sector
        &&& self.first_sector <= self.last_sector
        &&& self.total_sectors == self.last_sector - self.first_sector + 1
    }
}

/// Validate the TOC bounds of a track: negative or inverted sectors are
/// rejected, anything else yields the inclusive sector count.
pub fn track_info_from_bounds(first_sector: i32, last_sector: i32) -> (r: Result<
    TrackInfo,
    RipError,
>)
    ensures
        r is Err <==> (first_sector < 0 || last_sector < 0 || last_sector < first_sector),
        r is Err ==> r->Err_0 is InvalidTrack,
        r is Ok ==> {
            &&& r->Ok_0.first_sector == first_sector
            &&& r->Ok_0.last_sector == last_sector
            &&& r->Ok_0.total_sectors == last_sector - first_sector + 1
            &&& r->Ok_0.wf()
        },
{
    if first_sector < 0 || last_sector < 0 || last_sector < first_sector {
        Err(RipError::InvalidTrack)
    } else {
        let total: u32 = (last_sector - first_sector) as u32 + 1;
        Ok(TrackInfo { first_sector, last_sector, total_sectors: total })
    }
}

/// One sector's worth of audio samples.
#[derive(Debug)]
pub struct Frame {
    pub samples: Vec<i16>,
}

impl Frame {
    pub open spec fn wf(self) -> bool {
        self.samples@.len() == SAMPLES_PER_SECTOR
    }
}

/// A full sector of silence, substituted for an unreadable sector so that
/// one bad read never fails or shortens a whole track.
pub fn silent_frame() -> (f: Frame)
    ensures
        f.wf(),
        forall|i: int| 0 <= i < f.samples@.len() ==> f.samples@[i] == 0i16,
{
    let mut samples: Vec<i16> = Vec::new();
    let mut i: usize = 0;
    while i < SAMPLES_PER_SECTOR
        invariant
            i <= SAMPLES_PER_SECTOR,
            samples@.len() == i,
            forall|j: int| 0 <= j < i ==> samples@[j] == 0i16,
        decreases SAMPLES_PER_SECTOR - i,
    {
        samples.push(0);
        i = i + 1;
    }
    Frame { samples }
}

/// Wrap raw samples as a frame; anything but exactly one sector of
/// samples is refused.
pub fn frame_from_samples(samples: Vec<i16>) -> (r: Option<Frame>)
    ensures
        r is Some <==> samples@.len() == SAMPLES_PER_SECTOR,
        r is Some ==> r->Some_0.samples@ == samples@ && r->Some_0.wf(),
{
    if samples.len() == SAMPLES_PER_SECTOR {
        Some(Frame { samples })
    } else {
        None
    }
}

/// The little-endian bytes of one sample: low byte first.
pub open spec fn sample_le_lo(s: i16) -> u8 {
    (s as u16 & 0xff) as u8
}

pub open spec fn sample_le_hi(s: i16) -> u8 {
    ((s as u16 >> 8) & 0xff) as u8
}

/// The interleaved little-endian byte stream of a sample sequence.
pub open spec fn frame_bytes_spec(samples: Seq<i16>) -> Seq<u8> {
    Seq::new(
        2 * samples.len(),
        |i: int|
            if i % 2 == 0 {
                sample_le_lo(samples[i / 2])
            } else {
                sample_le_hi(samples[i / 2])
            },
    )
}

/// Convert a frame to the little-endian interleaved bytes the downstream
/// sink expects.
pub fn frame_to_le_bytes(f: &Frame) -> (r: Vec<u8>)
    ensures
        r@ == frame_bytes_spec(f.samples@),
        f.wf() ==> r@.len() == CD_SECTOR_SIZE,
{
    let n: usize = f.samples.len();
    let mut r: Vec<u8> = Vec::new();
    let mut i: usize = 0;
    while i < n
        invariant
            i <= n,
            n == f.samples@.len(),
            r@ =~= frame_bytes_spec(f.samples@.take(i as int)),
        decreases n - i,
    {
        let s = f.samples[i];
        let u = s as u16;
        let lo = (u & 0xff) as u8;
        let hi = ((u >> 8) & 0xff) as u8;
        r.push(lo);
        r.push(hi);
        proof {
            assert(r@ =~= frame_bytes_spec(f.samples@.take(i + 1)));
        }
        i = i + 1;
    }
    proof {
        assert(f.samples@.take(n as int) =~= f.samples@);
    }
    r
}

/// The presentation timestamp of the sector at index `sectors_read`:
/// `sectors_read * 588 / 44100` seconds, in nanoseconds, truncated.
pub fn sector_pts_ns(sectors_read: u32) -> (r: u64)
    ensures
        r == (sectors_read as int) * 588_000_000_000 / 44100,
{
    let wide: u128 = (sectors_read as u128) * 588_000_000_000;
    let divided: u128 = wide / 44100;
    proof {
        assert(wide <= 0xffff_ffff * 588_000_000_000);
        vstd::arithmetic::div_mod::lemma_div_is_ordered(
            wide as int,
            0xffff_ffffint * 588_000_000_000,
            44100,
        );
    }
    divided as u64
}

/// How long one sector plays, in nanoseconds (truncated).
pub fn sector_duration_ns() -> (r: u64)
    ensures
        r == 588_000_000_000int / 44100,
        r == NANOS_PER_SECTOR,
{
    588_000_000_000 / 44100
}

/// What the worker pushes for one sector: the byte payload with its
/// timestamps.
#[derive(Debug)]
pub struct SectorPush {
    pub bytes: Vec<u8>,
    pub pts_ns: u64,
    pub duration_ns: u64,
}

/// The bytes a read yields once silent-sector substitution is applied: the
/// frame's own bytes for a good read, a full sector of zero bytes for a
/// failed one.
pub open spec fn sector_bytes_spec(read: Option<Frame>) -> Seq<u8> {
    match read {
        Some(f) => frame_bytes_spec(f.samples@),
        None => Seq::new(CD_SECTOR_SIZE as nat, |i: int| 0u8),
    }
}

/// Turn one sector read into the push for the downstream sink. A failed
/// read (`None`) is replaced by a full silent sector, never by a short or
/// missing one, so the track keeps its expected total duration.
pub fn sector_step(read: &Option<Frame>, sectors_read: u32) -> (r: SectorPush)
    requires
        (*read matches Some(f) ==> f.wf()),
    ensures
        r.bytes@ == sector_bytes_spec(*read),
        r.bytes@.len() == CD_SECTOR_SIZE,
        r.pts_ns == (sectors_read as int) * 588_000_000_000 / 44100,
        r.duration_ns == NANOS_PER_SECTOR,
{
    let bytes = match read {
        Some(f) => frame_to_le_bytes(f),
        None => {
            let sf = silent_frame();
            let b = frame_to_le_bytes(&sf);
            proof {
                assert((0i16 as u16 & 0xff) as u8 == 0u8) by (bit_vector);
                assert(((0i16 as u16 >> 8) & 0xff) as u8 == 0u8) by (bit_vector);
                assert(b@ =~= sector_bytes_spec(*read));
            }
            b
        },
    };
    let pts_ns = sector_pts_ns(sectors_read);
    let duration_ns = sector_duration_ns();
    SectorPush { bytes, pts_ns, duration_ns }
}

/// The whole extraction of a track, given every sector read in order:
/// exactly one push per sector, each a full sector of bytes, timestamped
/// by its index. This is the loop the worker thread runs, with the device
/// reads factored out.
pub fn extract_sector_pushes(reads: &Vec<Option<Frame>>) -> (r: Vec<SectorPush>)
    requires
        reads@.len() <= 0xffff_ffff,
        forall|i: int|
            0 <= i < reads@.len() ==> ((#[trigger] reads@[i]) matches Some(f) ==> f.wf()),
    ensures
        r@.len() == reads@.len(),
        forall|i: int|
            0 <= i < r@.len() ==> {
                &&& (#[trigger] r@[i]).bytes@ == sector_bytes_spec(reads@[i])
                &&& r@[i].bytes@.len() == CD_SECTOR_SIZE
                &&& r@[i].pts_ns == i * 588_000_000_000 / 44100
                &&& r@[i].duration_ns == NANOS_PER_SECTOR
            },
{
    let n: usize = reads.len();
    let mut r: Vec<SectorPush> = Vec::new();
    let mut i: usize = 0;
    while i < n
        invariant
            i <= n,
            n == reads@.len(),
            n <= 0xffff_ffff,
            forall|k: int|
                0 <= k < reads@.len() ==> ((#[trigger] reads@[k]) matches Some(f) ==> f.wf()),
            r@.len() == i,
            forall|k: int|
                0 <= k < i ==> {
                    &&& (#[trigger] r@[k]).bytes@ == sector_bytes_spec(reads@[k])
                    &&& r@[k].bytes@.len() == CD_SECTOR_SIZE
                    &&& r@[k].pts_ns == k * 588_000_000_000 / 44100
                    &&& r@[k].duration_ns == NANOS_PER_SECTOR
                },
        decreases n - i,
    {
        let push = sector_step(&reads[i], i as u32);
        r.push(push);
        i = i + 1;
    }
    r
}

/// Progress as a whole percentage: 100 times the work done over the
/// total, zero when the total is zero.
pub open spec fn progress_percent_spec(current: u32, total: u32) -> int {
    if total == 0 {
        0
    } else {
        100 * (current as int) / (total as int)
    }
}

/// Extraction progress as a whole percentage: 100 times the sectors read
/// so far over the track's total, zero for an empty track.
pub fn extraction_progress_percent(current: u32, total: u32) -> (p: u32)
    requires
        current <= total,
    ensures
        p == progress_percent_spec(current, total),
        total == 0 ==> p == 0,
        total > 0 ==> p == 100 * (current as int) / (total as int),
        p <= 100,
{
    if total == 0 {
        0
    } else {
        let wide: u64 = 100u64 * (current as u64) / (total as u64);
        proof {
            assert(100 * (current as int) / (total as int) <= 100) by (nonlinear_arith)
                requires
                    0 < total,
                    current <= total,
            ;
        }
        wide as u32
    }
}

} // verus!
