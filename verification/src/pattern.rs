//! Pattern-driven output paths: `{artist}`-style placeholders are replaced
//! with sanitized metadata, and the result is rooted at the encode path and
//! given the encoder's extension.

use vstd::prelude::*;

use crate::data::{Config, Disc, FilePattern, Track};
use crate::sanitize::{sanitize_path_component, sanitize_spec};
use crate::text::{decimal_pad2_seq, decimal_seq, push_char, str_to_chars, u64_to_string,
    u64_to_string_pad2};

verus! {

/// The first position of `c` in `s`, or -1 when `c` does not occur.
pub open spec fn first_index_of(s: Seq<char>, c: char) -> int
    decreases s.len(),
{
    if s.len() == 0 {
        -1
    } else if s[0] == c {
        0
    } else {
        let r = first_index_of(s.drop_first(), c);
        if r == -1 {
            -1
        } else {
            r + 1
        }
    }
}

pub proof fn lemma_first_index_of(s: Seq<char>, c: char)
    ensures
        first_index_of(s, c) >= -1,
        first_index_of(s, c) == -1 ==> forall|m: int| 0 <= m < s.len() ==> s[m] != c,
        first_index_of(s, c) >= 0 ==> {
            let j = first_index_of(s, c);
            &&& j < s.len()
            &&& s[j] == c
            &&& forall|m: int| 0 <= m < j ==> s[m] != c
        },
    decreases s.len(),
{
    if s.len() > 0 && s[0] != c {
        let s2 = s.drop_first();
        lemma_first_index_of(s2, c);
        if first_index_of(s2, c) == -1 {
            assert forall|m: int| 0 <= m < s.len() implies s[m] != c by {
                if m >= 1 {
                    assert(s[m] == s2[m - 1]);
                }
            }
        } else {
            let r = first_index_of(s2, c);
            assert(first_index_of(s, c) == r + 1);
            assert(s[r + 1] == s2[r]);
            assert forall|m: int| 0 <= m < r + 1 implies s[m] != c by {
                if m >= 1 {
                    assert(s[m] == s2[m - 1]);
                }
            }
        }
    }
}

/// The placeholder names that `apply_pattern` understands.
pub open spec fn is_placeholder_name(name: Seq<char>) -> bool {
    ||| name == "artist"@
    ||| name == "album"@
    ||| name == "title"@
    ||| name == "number"@
    ||| name == "year"@
    ||| name == "genre"@
}

/// What a recognized placeholder stands for. Every substitution passes
/// through sanitizing; numbers are rendered in decimal first, the track
/// number zero-padded to two digits; a missing year or genre reads as the
/// empty string, which sanitizing turns into "Unknown".
pub open spec fn placeholder_value(name: Seq<char>, d: &Disc, t: &Track) -> Seq<char> {
    if name == "artist"@ {
        sanitize_spec(t.artist@)
    } else if name == "album"@ {
        sanitize_spec(d.title@)
    } else if name == "title"@ {
        sanitize_spec(t.title@)
    } else if name == "number"@ {
        sanitize_spec(decimal_pad2_seq(t.number as nat))
    } else if name == "year"@ {
        match d.year {
            Some(y) => sanitize_spec(decimal_seq(y as nat)),
            None => sanitize_spec(Seq::<char>::empty()),
        }
    } else {
        match d.genre {
            Some(g) => sanitize_spec(g@),
            None => sanitize_spec(Seq::<char>::empty()),
        }
    }
}

/// The template applied to a disc and track: each `{name}` whose name is
/// recognized becomes its sanitized value; everything else is copied.
pub open spec fn apply_pattern_spec(t: Seq<char>, d: &Disc, tr: &Track) -> Seq<char>
    decreases t.len(),
{
    if t.len() == 0 {
        Seq::<char>::empty()
    } else {
        let j = first_index_of(t, '}');
        if t[0] == '{' && 1 <= j && j < t.len() && is_placeholder_name(t.subrange(1, j)) {
            placeholder_value(t.subrange(1, j), d, tr) + apply_pattern_spec(
                t.subrange(j + 1, t.len() as int),
                d,
                tr,
            )
        } else {
            seq![t[0]] + apply_pattern_spec(t.drop_first(), d, tr)
        }
    }
}

/// Whether the characters `from..to` of `chars` spell exactly `lit`.
fn region_matches(chars: &Vec<char>, from: usize, to: usize, lit: &str) -> (b: bool)
    requires
        from <= to <= chars@.len(),
    ensures
        b == (chars@.subrange(from as int, to as int) == lit@),
{
    let llen: usize = lit.unicode_len();
    if to - from != llen {
        return false;
    }
    let mut k: usize = 0;
    while k < llen
        invariant
            k <= llen,
            llen == lit@.len(),
            from <= to <= chars@.len(),
            to - from == llen,
            forall|m: int| 0 <= m < k ==> chars@[from + m] == lit@[m],
        decreases llen - k,
    {
        if chars[from + k] != lit.get_char(k) {
            assert(chars@.subrange(from as int, to as int)[k as int] != lit@[k as int]);
            return false;
        }
        k = k + 1;
    }
    proof {
        assert(chars@.subrange(from as int, to as int) =~= lit@);
    }
    true
}

/// Substitute the recognized placeholders of `template` with the sanitized
/// metadata of `disc` and `track`.
pub fn apply_pattern(template: &str, disc: &Disc, track: &Track) -> (r: String)
    ensures
        r@ == apply_pattern_spec(template@, disc, track),
{
    let t: Vec<char> = str_to_chars(template);
    let n: usize = t.len();
    let mut out = String::new();
    proof {
        assert(t@.subrange(0, n as int) =~= t@);
        assert(Seq::<char>::empty() + apply_pattern_spec(t@, disc, track) =~= apply_pattern_spec(
            t@,
            disc,
            track,
        ));
    }
    let mut i: usize = 0;
    while i < n
        invariant
            i <= n,
            n == t@.len(),
            t@ == template@,
            apply_pattern_spec(template@, disc, track) == out@ + apply_pattern_spec(
                t@.subrange(i as int, n as int),
                disc,
                track,
            ),
        decreases n - i,
    {
        let ghost suffix = t@.subrange(i as int, n as int);
        let ghost out0 = out@;
        let c = t[i];
        if c == '{' {
            let mut k: usize = i + 1;
            while k < n && t[k] != '}'
                invariant
                    i + 1 <= k <= n,
                    n == t@.len(),
                    forall|m: int| i + 1 <= m < k ==> t@[m] != '}',
                decreases n - k,
            {
                k = k + 1;
            }
            if k < n {
                proof {
                    lemma_first_index_of(suffix, '}');
                    assert(suffix[k - i] == '}');
                    assert(forall|m: int| 0 <= m < k - i ==> suffix[m] != '}');
                    assert(first_index_of(suffix, '}') == k - i);
                    assert(suffix.subrange(1, k - i) =~= t@.subrange(i + 1, k as int));
                    assert(suffix.subrange(k - i + 1, suffix.len() as int) =~= t@.subrange(
                        k + 1 as int,
                        n as int,
                    ));
                }
                if region_matches(&t, i + 1, k, "artist") {
                    let v = sanitize_path_component(track.artist.as_str());
                    out.append(v.as_str());
                    proof {
                        assert(apply_pattern_spec(template@, disc, track) == (out0 + (v@
                            + apply_pattern_spec(t@.subrange(k + 1 as int, n as int), disc, track))));
                        assert(out0 + (v@ + apply_pattern_spec(
                            t@.subrange(k + 1 as int, n as int),
                            disc,
                            track,
                        )) =~= out@ + apply_pattern_spec(
                            t@.subrange(k + 1 as int, n as int),
                            disc,
                            track,
                        ));
                    }
                    i = k + 1;
                } else if region_matches(&t, i + 1, k, "album") {
                    let v = sanitize_path_component(disc.title.as_str());
                    out.append(v.as_str());
                    proof {
                        assert(out0 + (v@ + apply_pattern_spec(
                            t@.subrange(k + 1 as int, n as int),
                            disc,
                            track,
                        )) =~= out@ + apply_pattern_spec(
                            t@.subrange(k + 1 as int, n as int),
                            disc,
                            track,
                        ));
                    }
                    i = k + 1;
                } else if region_matches(&t, i + 1, k, "title") {
                    let v = sanitize_path_component(track.title.as_str());
                    out.append(v.as_str());
                    proof {
                        assert(out0 + (v@ + apply_pattern_spec(
                            t@.subrange(k + 1 as int, n as int),
                            disc,
                            track,
                        )) =~= out@ + apply_pattern_spec(
                            t@.subrange(k + 1 as int, n as int),
                            disc,
                            track,
                        ));
                    }
                    i = k + 1;
                } else if region_matches(&t, i + 1, k, "number") {
                    let num = u64_to_string_pad2(track.number as u64);
                    let v = sanitize_path_component(num.as_str());
                    out.append(v.as_str());
                    proof {
                        assert(out0 + (v@ + apply_pattern_spec(
                            t@.subrange(k + 1 as int, n as int),
                            disc,
                            track,
                        )) =~= out@ + apply_pattern_spec(
                            t@.subrange(k + 1 as int, n as int),
                            disc,
                            track,
                        ));
                    }
                    i = k + 1;
                } else if region_matches(&t, i + 1, k, "year") {
                    let v = match disc.year {
                        Some(y) => {
                            let ds = u64_to_string(y as u64);
                            sanitize_path_component(ds.as_str())
                        },
                        None => {
                            let v2 = sanitize_path_component("");
                            proof {
                                reveal_strlit("");
                                assert(""@ =~= Seq::<char>::empty());
                            }
                            v2
                        },
                    };
                    out.append(v.as_str());
                    proof {
                        assert(out0 + (v@ + apply_pattern_spec(
                            t@.subrange(k + 1 as int, n as int),
                            disc,
                            track,
                        )) =~= out@ + apply_pattern_spec(
                            t@.subrange(k + 1 as int, n as int),
                            disc,
                            track,
                        ));
                    }
                    i = k + 1;
                } else if region_matches(&t, i + 1, k, "genre") {
                    let v = match &disc.genre {
                        Some(g) => sanitize_path_component(g.as_str()),
                        None => {
                            let v2 = sanitize_path_component("");
                            proof {
                                reveal_strlit("");
                                assert(""@ =~= Seq::<char>::empty());
                            }
                            v2
                        },
                    };
                    out.append(v.as_str());
                    proof {
                        assert(out0 + (v@ + apply_pattern_spec(
                            t@.subrange(k + 1 as int, n as int),
                            disc,
                            track,
                        )) =~= out@ + apply_pattern_spec(
                            t@.subrange(k + 1 as int, n as int),
                            disc,
                            track,
                        ));
                    }
                    i = k + 1;
                } else {
                    push_char(&mut out, '{');
                    proof {
                        assert(suffix.drop_first() =~= t@.subrange(i + 1 as int, n as int));
                        assert(out0 + (seq!['{'] + apply_pattern_spec(
                            t@.subrange(i + 1 as int, n as int),
                            disc,
                            track,
                        )) =~= out@ + apply_pattern_spec(
                            t@.subrange(i + 1 as int, n as int),
                            disc,
                            track,
                        ));
                    }
                    i = i + 1;
                }
            } else {
                proof {
                    lemma_first_index_of(suffix, '}');
                    assert(forall|m: int| 0 <= m < suffix.len() ==> suffix[m] != '}');
                    assert(first_index_of(suffix, '}') == -1);
                    assert(suffix.drop_first() =~= t@.subrange(i + 1 as int, n as int));
                }
                push_char(&mut out, '{');
                proof {
                    assert(out0 + (seq!['{'] + apply_pattern_spec(
                        t@.subrange(i + 1 as int, n as int),
                        disc,
                        track,
                    )) =~= out@ + apply_pattern_spec(
                        t@.subrange(i + 1 as int, n as int),
                        disc,
                        track,
                    ));
                }
                i = i + 1;
            }
        } else {
            push_char(&mut out, c);
            proof {
                assert(suffix.drop_first() =~= t@.subrange(i + 1 as int, n as int));
                assert(out0 + (seq![c] + apply_pattern_spec(
                    t@.subrange(i + 1 as int, n as int),
                    disc,
                    track,
                )) =~= out@ + apply_pattern_spec(
                    t@.subrange(i + 1 as int, n as int),
                    disc,
                    track,
                ));
            }
            i = i + 1;
        }
    }
    proof {
        assert(t@.subrange(n as int, n as int) =~= Seq::<char>::empty());
        assert(out@ + Seq::<char>::empty() =~= out@);
    }
    out
}

/// The path template each layout choice stands for.
pub open spec fn pattern_template_spec(c: &Config) -> Seq<char> {
    match c.file_pattern {
        FilePattern::ArtistAlbum => "{artist}/{album}/{number} - {title}"@,
        FilePattern::ArtistDashAlbum => "{artist} - {album}/{number} - {title}"@,
        FilePattern::AlbumOnly => "{album}/{number} - {title}"@,
        FilePattern::Custom => c.custom_pattern@,
    }
}

pub fn pattern_template(c: &Config) -> (r: String)
    ensures
        r@ == pattern_template_spec(c),
{
    match c.file_pattern {
        FilePattern::ArtistAlbum => String::from_str("{artist}/{album}/{number} - {title}"),
        FilePattern::ArtistDashAlbum => String::from_str("{artist} - {album}/{number} - {title}"),
        FilePattern::AlbumOnly => String::from_str("{album}/{number} - {title}"),
        FilePattern::Custom => c.custom_pattern.clone(),
    }
}

/// The full destination path of a track: the encode root, the applied
/// pattern, and the encoder's extension.
pub open spec fn output_path_spec(c: &Config, d: &Disc, t: &Track) -> Seq<char> {
    c.encode_path@ + "/"@ + apply_pattern_spec(pattern_template_spec(c), d, t)
        + c.encoder.extension_spec()
}

pub fn format_output_path(config: &Config, disc: &Disc, track: &Track) -> (r: String)
    ensures
        r@ == output_path_spec(config, disc, track),
{
    let template = pattern_template(config);
    let applied = apply_pattern(template.as_str(), disc, track);
    let mut r = config.encode_path.clone();
    r.append("/");
    r.append(applied.as_str());
    r.append(config.encoder.extension());
    proof {
        assert(r@ =~= output_path_spec(config, disc, track));
    }
    r
}

/// What follows the last path separator: the file-name part of a relative
/// path, used for playlist entries.
pub open spec fn after_last_slash_spec(s: Seq<char>) -> Seq<char>
    decreases s.len(),
{
    let j = first_index_of(s, '/');
    if 0 <= j && j < s.len() {
        after_last_slash_spec(s.subrange(j + 1, s.len() as int))
    } else {
        s
    }
}

proof fn lemma_after_last_slash_none(s: Seq<char>)
    requires
        forall|m: int| 0 <= m < s.len() ==> s[m] != '/',
    ensures
        after_last_slash_spec(s) == s,
{
    lemma_first_index_of(s, '/');
    if first_index_of(s, '/') >= 0 {
        assert(s[first_index_of(s, '/')] == '/');
    }
}

proof fn lemma_after_last_slash_at(s: Seq<char>, j: int)
    requires
        0 <= j < s.len(),
        s[j] == '/',
        forall|m: int| j < m < s.len() ==> s[m] != '/',
    ensures
        after_last_slash_spec(s) == s.subrange(j + 1, s.len() as int),
    decreases s.len(),
{
    lemma_first_index_of(s, '/');
    let f = first_index_of(s, '/');
    assert(f >= 0);
    assert(f <= j);
    let s2 = s.subrange(f + 1, s.len() as int);
    if f == j {
        assert(forall|m: int| 0 <= m < s2.len() ==> s2[m] != '/');
        lemma_after_last_slash_none(s2);
    } else {
        assert(s2[j - f - 1] == '/');
        assert(forall|m: int| j - f - 1 < m < s2.len() ==> s2[m] != '/');
        lemma_after_last_slash_at(s2, j - f - 1);
        assert(s2.subrange(j - f, s2.len() as int) =~= s.subrange(j + 1, s.len() as int));
    }
}

/// The file-name part of `s`: everything after its last `/`, or all of it
/// when it has none.
pub fn file_name_part(s: &str) -> (r: String)
    ensures
        r@ == after_last_slash_spec(s@),
{
    let t: Vec<char> = str_to_chars(s);
    let n: usize = t.len();
    let mut m: usize = n;
    while m > 0 && t[m - 1] != '/'
        invariant
            m <= n,
            n == t@.len(),
            forall|idx: int| m <= idx < n ==> t@[idx] != '/',
        decreases m,
    {
        m = m - 1;
    }
    proof {
        if m == 0 {
            lemma_after_last_slash_none(t@);
        } else {
            lemma_after_last_slash_at(t@, m - 1);
        }
    }
    let mut r = String::new();
    let mut j: usize = m;
    while j < n
        invariant
            m <= j <= n,
            n == t@.len(),
            r@ =~= t@.subrange(m as int, j as int),
        decreases n - j,
    {
        push_char(&mut r, t[j]);
        proof {
            assert(r@ =~= t@.subrange(m as int, j + 1 as int));
        }
        j = j + 1;
    }
    proof {
        if m == 0 {
            assert(t@.subrange(0, n as int) =~= t@);
        }
    }
    r
}

} // verus!
