//! Batch orchestration over a disc: which tracks are extracted and in
//! which order, which destination paths a run will write, the pre-flight
//! scan for files that already exist, and the destination-collision rule.
//!
//! The loop that drives a live run — building each pipeline, waiting for
//! its terminal state, writing files — belongs to the application; every
//! decision it takes comes from here.

use vstd::prelude::*;

use crate::data::{Config, Disc, Track};
use crate::errors::RipError;
use crate::pattern::{format_output_path, output_path_spec};

verus! {

/// What the batch loop does at one track position.
#[derive(Clone, Copy, Debug, PartialEq, Eq, Structural)]
pub enum BatchDecision {
    /// Stop the whole batch: the user cancelled, or no tracks remain.
    Stop,
    /// Leave this track alone and move on.
    Skip,
    /// Extract this track.
    Rip,
}

/// The decision at track position `index`. Cancellation stops the batch
/// before anything else is looked at; remaining tracks are then simply
/// skipped, not marked failed.
pub fn batch_step(disc: &Disc, index: usize, ripping: bool) -> (d: BatchDecision)
    ensures
        d == batch_decision_spec(disc, index as int, ripping),
        !ripping ==> d is Stop,
        ripping && index >= disc.tracks@.len() ==> d is Stop,
        ripping && index < disc.tracks@.len() && !disc.tracks@[index as int].rip ==> d is Skip,
        ripping && index < disc.tracks@.len() && disc.tracks@[index as int].rip ==> d is Rip,
{
    if !ripping {
        BatchDecision::Stop
    } else if index >= disc.tracks.len() {
        BatchDecision::Stop
    } else if disc.tracks[index].rip {
        BatchDecision::Rip
    } else {
        BatchDecision::Skip
    }
}

/// With the cancellation flag already false, the batch stops at every
/// position: no track is touched and no file is written.
pub proof fn lemma_cancelled_batch_stops_everywhere(disc: &Disc)
    ensures
        forall|index: int| #[trigger] batch_decision_spec(disc, index, false) is Stop,
{
}

/// The decision `batch_step` returns, as a function of its inputs.
pub open spec fn batch_decision_spec(disc: &Disc, index: int, ripping: bool) -> BatchDecision {
    if !ripping {
        BatchDecision::Stop
    } else if index >= disc.tracks@.len() {
        BatchDecision::Stop
    } else if disc.tracks@[index].rip {
        BatchDecision::Rip
    } else {
        BatchDecision::Skip
    }
}

/// The destination paths of the tracks marked for ripping, in stored
/// order.
pub open spec fn rip_paths_spec(c: &Config, d: &Disc, tracks: Seq<Track>) -> Seq<Seq<char>>
    decreases tracks.len(),
{
    if tracks.len() == 0 {
        Seq::<Seq<char>>::empty()
    } else {
        rip_paths_spec(c, d, tracks.drop_last()) + (if tracks.last().rip {
            seq![output_path_spec(c, d, &tracks.last())]
        } else {
            Seq::<Seq<char>>::empty()
        })
    }
}

/// The files a run over `disc` will write: one destination path per track
/// marked for ripping, in order — and none at all once cancellation is
/// requested, in which case the run still counts as a success. Fake mode
/// writes exactly these paths as empty placeholder files.
pub fn rip_plan(config: &Config, disc: &Disc, ripping: bool) -> (r: Vec<String>)
    ensures
        !ripping ==> r@.len() == 0,
        ripping ==> r.deep_view() == rip_paths_spec(config, disc, disc.tracks@),
{
    let mut r: Vec<String> = Vec::new();
    if !ripping {
        return r;
    }
    let n: usize = disc.tracks.len();
    let mut i: usize = 0;
    proof {
        assert(disc.tracks@.take(0) =~= Seq::<Track>::empty());
        assert(r.deep_view() =~= rip_paths_spec(config, disc, disc.tracks@.take(0)));
    }
    while i < n
        invariant
            i <= n,
            n == disc.tracks@.len(),
            r.deep_view() =~= rip_paths_spec(config, disc, disc.tracks@.take(i as int)),
        decreases n - i,
    {
        let tr = &disc.tracks[i];
        if tr.rip {
            let path = format_output_path(config, disc, tr);
            r.push(path);
        }
        proof {
            assert(disc.tracks@.take(i + 1).drop_last() =~= disc.tracks@.take(i as int));
            assert(disc.tracks@.take(i + 1).last() == disc.tracks@[i as int]);
            assert(r.deep_view() =~= rip_paths_spec(config, disc, disc.tracks@.take(i + 1)));
        }
        i = i + 1;
    }
    proof {
        assert(disc.tracks@.take(n as int) =~= disc.tracks@);
    }
    r
}

/// The paths whose flag is set, in order: feeding in the planned paths
/// and, for each, whether it exists on disk, yields exactly the paths
/// that already exist.
pub open spec fn existing_paths_spec(paths: Seq<Seq<char>>, on_disk: Seq<bool>) -> Seq<Seq<char>>
    decreases paths.len(),
{
    if paths.len() == 0 {
        Seq::<Seq<char>>::empty()
    } else {
        existing_paths_spec(paths.drop_last(), on_disk.drop_last()) + (if on_disk.last() {
            seq![paths.last()]
        } else {
            Seq::<Seq<char>>::empty()
        })
    }
}

/// The pre-flight scan's pure half: keep each planned path whose
/// existence flag is set, in order, so the caller can prompt for
/// overwrite before the run starts. Nothing is touched.
pub fn check_existing_files(paths: &Vec<String>, on_disk: &Vec<bool>) -> (r: Vec<String>)
    requires
        paths@.len() == on_disk@.len(),
    ensures
        r.deep_view() == existing_paths_spec(paths.deep_view(), on_disk@),
{
    let n: usize = paths.len();
    let mut r: Vec<String> = Vec::new();
    let mut i: usize = 0;
    proof {
        assert(paths.deep_view().take(0) =~= Seq::<Seq<char>>::empty());
        assert(on_disk@.take(0) =~= Seq::<bool>::empty());
        assert(r.deep_view() =~= existing_paths_spec(
            paths.deep_view().take(0),
            on_disk@.take(0),
        ));
    }
    while i < n
        invariant
            i <= n,
            n == paths@.len(),
            n == on_disk@.len(),
            r.deep_view() =~= existing_paths_spec(
                paths.deep_view().take(i as int),
                on_disk@.take(i as int),
            ),
        decreases n - i,
    {
        if on_disk[i] {
            r.push(paths[i].clone());
        }
        proof {
            assert(paths.deep_view().take(i + 1).drop_last() =~= paths.deep_view().take(i as int));
            assert(on_disk@.take(i + 1).drop_last() =~= on_disk@.take(i as int));
            assert(paths.deep_view().take(i + 1).last() == paths.deep_view()[i as int]);
            assert(on_disk@.take(i + 1).last() == on_disk@[i as int]);
            assert(r.deep_view() =~= existing_paths_spec(
                paths.deep_view().take(i + 1),
                on_disk@.take(i + 1),
            ));
        }
        i = i + 1;
    }
    proof {
        assert(paths.deep_view().take(n as int) =~= paths.deep_view());
        assert(on_disk@.take(n as int) =~= on_disk@);
    }
    r
}

/// Every path the pre-flight scan returns is one of the planned paths,
/// and its existence flag was set.
pub proof fn lemma_existing_paths_only_existing(paths: Seq<Seq<char>>, on_disk: Seq<bool>)
    requires
        paths.len() == on_disk.len(),
    ensures
        forall|k: int|
            0 <= k < existing_paths_spec(paths, on_disk).len() ==> exists|j: int|
                0 <= j < paths.len() && on_disk[j] && paths[j] == #[trigger] existing_paths_spec(
                    paths,
                    on_disk,
                )[k],
    decreases paths.len(),
{
    if paths.len() > 0 {
        lemma_existing_paths_only_existing(paths.drop_last(), on_disk.drop_last());
        let prefix = existing_paths_spec(paths.drop_last(), on_disk.drop_last());
        assert forall|k: int|
            0 <= k < existing_paths_spec(paths, on_disk).len() implies exists|j: int|
            0 <= j < paths.len() && on_disk[j] && paths[j] == #[trigger] existing_paths_spec(
                paths,
                on_disk,
            )[k] by {
            if k < prefix.len() {
                assert(existing_paths_spec(paths.drop_last(), on_disk.drop_last())[k]
                    == prefix[k]);
                let j = choose|j: int|
                    0 <= j < paths.drop_last().len() && on_disk.drop_last()[j]
                        && paths.drop_last()[j] == prefix[k];
                assert(0 <= j < paths.len() && on_disk[j] && paths[j] == existing_paths_spec(
                    paths,
                    on_disk,
                )[k]);
            } else {
                let j = paths.len() - 1;
                assert(0 <= j < paths.len() && on_disk[j] && paths[j] == existing_paths_spec(
                    paths,
                    on_disk,
                )[k]);
            }
        }
    }
}

/// The destination-collision rule: an existing destination fails the
/// track with a `FileExists` error unless overwriting was allowed.
pub fn overwrite_check(location: &String, file_exists: bool, overwrite: bool) -> (r: Result<
    (),
    RipError,
>)
    ensures
        r is Err <==> (file_exists && !overwrite),
        r is Err ==> r->Err_0 is FileExists && r->Err_0->FileExists_0@ == location@,
{
    if file_exists && !overwrite {
        Err(RipError::FileExists(location.clone()))
    } else {
        Ok(())
    }
}

} // verus!
