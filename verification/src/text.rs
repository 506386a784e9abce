//! Small text-building helpers: appending single characters to a `String`
//! and rendering unsigned numbers as decimal text.

use vstd::prelude::*;

verus! {

/// Relies on `String::push` from the standard library: it appends exactly
/// the given character to the end of the string.
pub assume_specification[ String::push ](s: &mut String, c: char)
    ensures
        final (s)@ == old(s)@.push(c),
;

/// The character for a single decimal digit.
pub open spec fn digit_char(d: int) -> char {
    ((48 + d) as u8) as char
}

/// The decimal rendering of `n`, most significant digit first, no sign,
/// no leading zeros (except for `n == 0`, which is "0").
pub open spec fn decimal_seq(n: nat) -> Seq<char>
    decreases n,
{
    if n < 10 {
        seq![digit_char(n as int)]
    } else {
        decimal_seq(n / 10).push(digit_char((n % 10) as int))
    }
}

/// `n` rendered in decimal, zero-padded on the left to at least two digits.
pub open spec fn decimal_pad2_seq(n: nat) -> Seq<char> {
    if n < 10 {
        seq!['0'] + decimal_seq(n)
    } else {
        decimal_seq(n)
    }
}

/// The reversed digit list `rev` (least significant digit first) read as
/// characters in display order.
spec fn rev_digit_chars(rev: Seq<u8>) -> Seq<char> {
    Seq::new(rev.len(), |i: int| digit_char(rev[rev.len() - 1 - i] as int))
}

/// Append `c` to `s`.
pub fn push_char(s: &mut String, c: char)
    ensures
        final (s)@ == old(s)@.push(c),
{
    s.push(c);
}

/// The characters of `s`, one vector element each.
pub fn str_to_chars(s: &str) -> (r: Vec<char>)
    ensures
        r@ == s@,
{
    let n: usize = s.unicode_len();
    let mut r: Vec<char> = Vec::new();
    let mut i: usize = 0;
    while i < n
        invariant
            i <= n,
            n == s@.len(),
            r@ =~= s@.take(i as int),
        decreases n - i,
    {
        r.push(s.get_char(i));
        proof {
            assert(r@ =~= s@.take(i + 1 as int));
        }
        i = i + 1;
    }
    proof {
        assert(s@.take(n as int) =~= s@);
    }
    r
}

/// Render `n` in decimal.
pub fn u64_to_string(n: u64) -> (r: String)
    ensures
        r@ == decimal_seq(n as nat),
{
    let mut rev: Vec<u8> = Vec::new();
    let mut m: u64 = n;
    if m == 0 {
        rev.push(0);
        assert(decimal_seq(n as nat) =~= rev_digit_chars(rev@));
    } else {
        proof {
            assert(decimal_seq(n as nat) =~= decimal_seq(m as nat) + rev_digit_chars(rev@));
        }
    }
    while m > 0
        invariant
            forall|i: int| 0 <= i < rev@.len() ==> rev@[i] < 10,
            m > 0 ==> decimal_seq(n as nat) =~= decimal_seq(m as nat) + rev_digit_chars(rev@),
            m == 0 ==> decimal_seq(n as nat) =~= rev_digit_chars(rev@),
        decreases m,
    {
        let ghost old_m = m as nat;
        let ghost old_rev = rev@;
        let d: u8 = (m % 10) as u8;
        rev.push(d);
        m = m / 10;
        proof {
            assert(rev_digit_chars(rev@) =~= seq![digit_char(d as int)] + rev_digit_chars(
                old_rev,
            ));
            if old_m < 10 {
                assert(decimal_seq(old_m) =~= seq![digit_char(d as int)]);
                assert(decimal_seq(n as nat) =~= rev_digit_chars(rev@));
            } else {
                assert(decimal_seq(old_m) =~= decimal_seq(old_m / 10).push(
                    digit_char((old_m % 10) as int),
                ));
                assert(decimal_seq(old_m) + rev_digit_chars(old_rev) =~= decimal_seq(m as nat)
                    + rev_digit_chars(rev@));
                assert(decimal_seq(n as nat) =~= decimal_seq(m as nat) + rev_digit_chars(rev@));
            }
        }
    }
    let mut r = String::new();
    let mut i: usize = rev.len();
    while i > 0
        invariant
            i <= rev@.len(),
            forall|k: int| 0 <= k < rev@.len() ==> rev@[k] < 10,
            decimal_seq(n as nat) =~= rev_digit_chars(rev@),
            r@ =~= rev_digit_chars(rev@).take(rev@.len() - i),
        decreases i,
    {
        i = i - 1;
        let d = rev[i];
        let c = (48 + d) as char;
        push_char(&mut r, c);
        proof {
            assert(rev_digit_chars(rev@)[rev@.len() - 1 - i] == digit_char(d as int));
            assert(r@ =~= rev_digit_chars(rev@).take(rev@.len() - i));
        }
    }
    proof {
        assert(r@ =~= rev_digit_chars(rev@));
    }
    r
}

/// Render `n` in decimal, zero-padded to at least two digits; used for
/// track numbers in file names.
pub fn u64_to_string_pad2(n: u64) -> (r: String)
    ensures
        r@ == decimal_pad2_seq(n as nat),
{
    let digits = u64_to_string(n);
    if n < 10 {
        let mut r = String::from_str("0");
        proof {
            reveal_strlit("0");
            assert(r@ =~= seq!['0']);
        }
        r.append(digits.as_str());
        assert(r@ =~= decimal_pad2_seq(n as nat));
        r
    } else {
        digits
    }
}

} // verus!
