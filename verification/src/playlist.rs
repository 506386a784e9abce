//! Playlist generation: an `.m3u` body listing every track selected for
//! ripping, with its duration, artist and title, and the file name the
//! pattern gives it.

use vstd::prelude::*;

use crate::data::{Disc, Track};
use crate::pattern::{after_last_slash_spec, apply_pattern, apply_pattern_spec, file_name_part};
use crate::text::{decimal_seq, u64_to_string};

verus! {

/// The `#EXTINF` line of one track: its duration in seconds, then
/// "artist - title".
pub open spec fn extinf_line_spec(t: &Track) -> Seq<char> {
    "#EXTINF:"@ + decimal_seq(t.duration as nat) + ","@ + t.artist@ + " - "@ + t.title@ + "\n"@
}

/// One playlist entry: the `#EXTINF` line, then the file name (the applied
/// pattern after its last path separator) with the encoder extension.
pub open spec fn playlist_entry_spec(d: &Disc, t: &Track, ext: Seq<char>, pattern: Seq<char>) -> Seq<
    char,
> {
    extinf_line_spec(t) + after_last_slash_spec(apply_pattern_spec(pattern, d, t)) + ext + "\n"@
}

/// The entries of every track selected for ripping, in stored order.
pub open spec fn playlist_entries_spec(
    d: &Disc,
    tracks: Seq<Track>,
    ext: Seq<char>,
    pattern: Seq<char>,
) -> Seq<char>
    decreases tracks.len(),
{
    if tracks.len() == 0 {
        Seq::<char>::empty()
    } else {
        playlist_entries_spec(d, tracks.drop_last(), ext, pattern) + (if tracks.last().rip {
            playlist_entry_spec(d, &tracks.last(), ext, pattern)
        } else {
            Seq::<char>::empty()
        })
    }
}

/// The whole playlist: the `#EXTM3U` header, then one entry per selected
/// track.
pub open spec fn playlist_content_spec(d: &Disc, ext: Seq<char>, pattern: Seq<char>) -> Seq<char> {
    "#EXTM3U\n"@ + playlist_entries_spec(d, d.tracks@, ext, pattern)
}

/// Generate the playlist body for `disc`: tracks not selected for ripping
/// are left out entirely.
pub fn generate_playlist_content(disc: &Disc, extension: &str, pattern: &str) -> (r: String)
    ensures
        r@ == playlist_content_spec(disc, extension@, pattern@),
{
    let mut out = String::from_str("#EXTM3U\n");
    let n: usize = disc.tracks.len();
    proof {
        assert(disc.tracks@.take(0) =~= Seq::<Track>::empty());
        assert(out@ + Seq::<char>::empty() =~= out@);
    }
    let mut i: usize = 0;
    while i < n
        invariant
            i <= n,
            n == disc.tracks@.len(),
            out@ =~= "#EXTM3U\n"@ + playlist_entries_spec(
                disc,
                disc.tracks@.take(i as int),
                extension@,
                pattern@,
            ),
        decreases n - i,
    {
        let ghost out0 = out@;
        let tr = &disc.tracks[i];
        if tr.rip {
            out.append("#EXTINF:");
            let dur = u64_to_string(tr.duration);
            out.append(dur.as_str());
            out.append(",");
            out.append(tr.artist.as_str());
            out.append(" - ");
            out.append(tr.title.as_str());
            out.append("\n");
            let applied = apply_pattern(pattern, disc, tr);
            let fname = file_name_part(applied.as_str());
            out.append(fname.as_str());
            out.append(extension);
            out.append("\n");
            proof {
                assert(out@ =~= out0 + playlist_entry_spec(
                    disc,
                    &disc.tracks@[i as int],
                    extension@,
                    pattern@,
                ));
            }
        }
        proof {
            assert(disc.tracks@.take(i + 1).drop_last() =~= disc.tracks@.take(i as int));
            assert(disc.tracks@.take(i + 1).last() == disc.tracks@[i as int]);
            assert(out@ =~= "#EXTM3U\n"@ + playlist_entries_spec(
                disc,
                disc.tracks@.take(i + 1),
                extension@,
                pattern@,
            ));
        }
        i = i + 1;
    }
    proof {
        assert(disc.tracks@.take(n as int) =~= disc.tracks@);
    }
    out
}

} // verus!
