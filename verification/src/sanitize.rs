//! Sanitizing of path components: the single invariant that makes every
//! generated path segment non-empty and filesystem-safe.

use vstd::prelude::*;

use crate::text::push_char;

verus! {

/// Characters that survive sanitizing: ASCII alphanumerics, space, dot,
/// underscore and dash.
pub open spec fn is_keep_char(c: char) -> bool {
    let u = c as u32;
    (48 <= u && u <= 57) || (65 <= u && u <= 90) || (97 <= u && u <= 122) || u == 32 || u == 46
        || u == 95 || u == 45
}

/// Every character kept if allowed, replaced by an underscore otherwise.
pub open spec fn replaced_chars(s: Seq<char>) -> Seq<char> {
    s.map_values(
        |c: char|
            if is_keep_char(c) {
                c
            } else {
                '_'
            },
    )
}

pub open spec fn trim_start_spec(s: Seq<char>) -> Seq<char>
    decreases s.len(),
{
    if s.len() > 0 && s[0] == ' ' {
        trim_start_spec(s.drop_first())
    } else {
        s
    }
}

pub open spec fn trim_end_spec(s: Seq<char>) -> Seq<char>
    decreases s.len(),
{
    if s.len() > 0 && s[s.len() - 1] == ' ' {
        trim_end_spec(s.drop_last())
    } else {
        s
    }
}

pub open spec fn trim_spec(s: Seq<char>) -> Seq<char> {
    trim_end_spec(trim_start_spec(s))
}

/// What sanitizing returns: disallowed characters replaced, whitespace
/// trimmed at both ends, and the literal "Unknown" if nothing remains.
pub open spec fn sanitize_spec(s: Seq<char>) -> Seq<char> {
    let t = trim_spec(replaced_chars(s));
    if t.len() == 0 {
        "Unknown"@
    } else {
        t
    }
}

/// Dropping `k` leading spaces: the trimmed front is the rest of the
/// sequence.
proof fn lemma_trim_start_at(s: Seq<char>, k: int)
    requires
        0 <= k <= s.len(),
        forall|i: int| 0 <= i < k ==> s[i] == ' ',
        k < s.len() ==> s[k] != ' ',
    ensures
        trim_start_spec(s) == s.subrange(k, s.len() as int),
    decreases k,
{
    if k == 0 {
        assert(s =~= s.subrange(0, s.len() as int));
    } else {
        lemma_trim_start_at(s.drop_first(), k - 1);
        assert(s.drop_first().subrange(k - 1, s.drop_first().len() as int) =~= s.subrange(
            k,
            s.len() as int,
        ));
    }
}

/// Dropping the trailing spaces after position `k`: the trimmed tail is
/// the prefix up to `k`.
proof fn lemma_trim_end_at(s: Seq<char>, k: int)
    requires
        0 <= k <= s.len(),
        forall|i: int| k <= i < s.len() ==> s[i] == ' ',
        k > 0 ==> s[k - 1] != ' ',
    ensures
        trim_end_spec(s) == s.subrange(0, k),
    decreases s.len() - k,
{
    if k == s.len() {
        assert(s =~= s.subrange(0, k));
    } else {
        assert(s[s.len() - 1] == ' ');
        lemma_trim_end_at(s.drop_last(), k);
        assert(s.drop_last().subrange(0, k) =~= s.subrange(0, k));
    }
}

/// Replace every disallowed character with an underscore, trim whitespace
/// at both ends, and fall back to "Unknown" when nothing is left.
pub fn sanitize_path_component(s: &str) -> (r: String)
    ensures
        r@ == sanitize_spec(s@),
{
    let n: usize = s.unicode_len();
    let mut chars: Vec<char> = Vec::new();
    let mut i: usize = 0;
    while i < n
        invariant
            i <= n,
            n == s@.len(),
            chars@ =~= replaced_chars(s@.take(i as int)),
        decreases n - i,
    {
        let c = s.get_char(i);
        let u = c as u32;
        let keep = (48 <= u && u <= 57) || (65 <= u && u <= 90) || (97 <= u && u <= 122) || u == 32
            || u == 46 || u == 95 || u == 45;
        if keep {
            chars.push(c);
        } else {
            chars.push('_');
        }
        proof {
            assert(chars@ =~= replaced_chars(s@.take(i + 1 as int)));
        }
        i = i + 1;
    }
    proof {
        assert(s@.take(n as int) =~= s@);
    }
    let len: usize = chars.len();
    let mut start: usize = 0;
    while start < len && chars[start] == ' '
        invariant
            start <= len,
            len == chars@.len(),
            forall|j: int| 0 <= j < start ==> chars@[j] == ' ',
        decreases len - start,
    {
        start = start + 1;
    }
    let mut end: usize = len;
    while end > start && chars[end - 1] == ' '
        invariant
            start <= end <= len,
            len == chars@.len(),
            forall|j: int| end <= j < len ==> chars@[j] == ' ',
        decreases end,
    {
        end = end - 1;
    }
    proof {
        lemma_trim_start_at(chars@, start as int);
        let t = chars@.subrange(start as int, len as int);
        lemma_trim_end_at(t, end - start);
        assert(t.subrange(0, end - start) =~= chars@.subrange(start as int, end as int));
        assert(trim_spec(replaced_chars(s@)) == chars@.subrange(start as int, end as int));
    }
    if start == end {
        let r = String::from_str("Unknown");
        return r;
    }
    let mut r = String::new();
    let mut j: usize = start;
    while j < end
        invariant
            start <= j <= end <= len,
            len == chars@.len(),
            r@ =~= chars@.subrange(start as int, j as int),
        decreases end - j,
    {
        push_char(&mut r, chars[j]);
        proof {
            assert(r@ =~= chars@.subrange(start as int, j + 1 as int));
        }
        j = j + 1;
    }
    r
}

/// What sanitizing guarantees of its result: it is never empty, every
/// character is from the allowed set, and no space leads or trails.
pub proof fn lemma_sanitize_well_formed(s: Seq<char>)
    ensures
        sanitize_spec(s).len() > 0,
        forall|i: int|
            0 <= i < sanitize_spec(s).len() ==> is_keep_char(#[trigger] sanitize_spec(s)[i]),
        sanitize_spec(s)[0] != ' ',
        sanitize_spec(s)[sanitize_spec(s).len() - 1] != ' ',
{
    let rep = replaced_chars(s);
    assert(forall|i: int| 0 <= i < rep.len() ==> is_keep_char(#[trigger] rep[i])) by {
        assert(is_keep_char('_'));
    }
    lemma_trim_start_props(rep);
    let ts = trim_start_spec(rep);
    lemma_trim_end_props(ts);
    let t = trim_end_spec(ts);
    if t.len() == 0 {
        reveal_strlit("Unknown");
        assert(sanitize_spec(s) == "Unknown"@);
        assert("Unknown"@.len() == 7);
        assert(is_keep_char("Unknown"@[0]));
        assert(is_keep_char("Unknown"@[1]));
        assert(is_keep_char("Unknown"@[2]));
        assert(is_keep_char("Unknown"@[3]));
        assert(is_keep_char("Unknown"@[4]));
        assert(is_keep_char("Unknown"@[5]));
        assert(is_keep_char("Unknown"@[6]));
    }
}

/// Trimming the front: the result has no leading space, and keeps every
/// property of the characters it retains.
proof fn lemma_trim_start_props(s: Seq<char>)
    requires
        forall|i: int| 0 <= i < s.len() ==> is_keep_char(#[trigger] s[i]),
    ensures
        forall|i: int|
            0 <= i < trim_start_spec(s).len() ==> is_keep_char(#[trigger] trim_start_spec(s)[i]),
        trim_start_spec(s).len() > 0 ==> trim_start_spec(s)[0] != ' ',
    decreases s.len(),
{
    if s.len() > 0 && s[0] == ' ' {
        lemma_trim_start_props(s.drop_first());
    }
}

/// Trimming the tail: the result has no trailing space, keeps its first
/// character, and keeps every property of the characters it retains.
proof fn lemma_trim_end_props(s: Seq<char>)
    requires
        forall|i: int| 0 <= i < s.len() ==> is_keep_char(#[trigger] s[i]),
        s.len() > 0 ==> s[0] != ' ',
    ensures
        forall|i: int|
            0 <= i < trim_end_spec(s).len() ==> is_keep_char(#[trigger] trim_end_spec(s)[i]),
        trim_end_spec(s).len() > 0 ==> trim_end_spec(s)[0] != ' ',
        trim_end_spec(s).len() > 0 ==> trim_end_spec(s)[trim_end_spec(s).len() - 1] != ' ',
    decreases s.len(),
{
    if s.len() > 0 && s[s.len() - 1] == ' ' {
        lemma_trim_end_props(s.drop_last());
    }
}

/// Sanitizing is idempotent: a sanitized component passes through
/// sanitizing unchanged.
pub proof fn lemma_sanitize_idempotent(s: Seq<char>)
    ensures
        sanitize_spec(sanitize_spec(s)) == sanitize_spec(s),
{
    let t = sanitize_spec(s);
    lemma_sanitize_well_formed(s);
    assert(replaced_chars(t) =~= t);
    assert(trim_start_spec(t) == t);
    assert(trim_end_spec(t) == t);
}

} // verus!
