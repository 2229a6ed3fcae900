//! Rewriting of capture timestamps into directory paths.
//!
//! A metadata timestamp is rendered as `YYYY-MM-DD HH:MM:SS`.  Every
//! occurrence of that shape inside a value is rewritten to
//! `YYYY/MM/DD/HH-MM-SS-`, so that the date components become nested
//! directories and the time becomes the head of the link's file name.
//! Occurrences are found left to right and do not overlap; text that is
//! not part of an occurrence is kept as it is.

use vstd::prelude::*;
use vstd::string::*;

verus! {

/// `c` is an ASCII decimal digit.
pub open spec fn is_digit(c: char) -> bool {
    '0' as u32 <= c as u32 && c as u32 <= '9' as u32
}

/// A full `YYYY-MM-DD HH:MM:SS` timestamp stands in `s` at position `i`.
pub open spec fn date_at(s: Seq<char>, i: int) -> bool {
    &&& 0 <= i
    &&& i + 19 <= s.len()
    &&& is_digit(s[i])
    &&& is_digit(s[i + 1])
    &&& is_digit(s[i + 2])
    &&& is_digit(s[i + 3])
    &&& s[i + 4] == '-'
    &&& is_digit(s[i + 5])
    &&& is_digit(s[i + 6])
    &&& s[i + 7] == '-'
    &&& is_digit(s[i + 8])
    &&& is_digit(s[i + 9])
    &&& s[i + 10] == ' '
    &&& is_digit(s[i + 11])
    &&& is_digit(s[i + 12])
    &&& s[i + 13] == ':'
    &&& is_digit(s[i + 14])
    &&& is_digit(s[i + 15])
    &&& s[i + 16] == ':'
    &&& is_digit(s[i + 17])
    &&& is_digit(s[i + 18])
}

/// What a 19-character timestamp window `w` is rewritten to:
/// `YYYY/MM/DD/HH-MM-SS-`.
pub open spec fn rewritten(w: Seq<char>) -> Seq<char> {
    w.subrange(0, 4) + seq!['/'] + w.subrange(5, 7) + seq!['/'] + w.subrange(8, 10) + seq!['/']
        + w.subrange(11, 13) + seq!['-'] + w.subrange(14, 16) + seq!['-'] + w.subrange(17, 19)
        + seq!['-']
}

/// `s` with every timestamp occurrence rewritten, scanning left to right
/// without overlap.
pub open spec fn date_rewrite(s: Seq<char>) -> Seq<char>
    decreases s.len(),
{
    if s.len() == 0 {
        Seq::empty()
    } else if date_at(s, 0) {
        rewritten(s.subrange(0, 19)) + date_rewrite(s.skip(19))
    } else {
        seq![s[0]] + date_rewrite(s.skip(1))
    }
}

/// Whether a full timestamp stands in `s` at position `i`.
fn date_match_at(s: &str, n: usize, i: usize) -> (r: bool)
    requires
        n == s@.len(),
        i < n,
    ensures
        r == date_at(s@, i as int),
{
    if n - i < 19 {
        return false;
    }
    digit_at(s, i) && digit_at(s, i + 1) && digit_at(s, i + 2) && digit_at(s, i + 3)
        && s.get_char(i + 4) == '-' && digit_at(s, i + 5) && digit_at(s, i + 6) && s.get_char(
        i + 7,
    ) == '-' && digit_at(s, i + 8) && digit_at(s, i + 9) && s.get_char(i + 10) == ' ' && digit_at(
        s,
        i + 11,
    ) && digit_at(s, i + 12) && s.get_char(i + 13) == ':' && digit_at(s, i + 14) && digit_at(
        s,
        i + 15,
    ) && s.get_char(i + 16) == ':' && digit_at(s, i + 17) && digit_at(s, i + 18)
}

/// Whether the character of `s` at position `i` is an ASCII decimal digit.
fn digit_at(s: &str, i: usize) -> (r: bool)
    requires
        i < s@.len(),
    ensures
        r == is_digit(s@[i as int]),
{
    let c = s.get_char(i);
    '0' as u32 <= c as u32 && c as u32 <= '9' as u32
}

/// Rewrites every `YYYY-MM-DD HH:MM:SS` timestamp in `s` to
/// `YYYY/MM/DD/HH-MM-SS-`, keeping all other text.
pub fn date_substitute(s: &str) -> (r: String)
    ensures
        r@ == date_rewrite(s@),
{
    let n = s.unicode_len();
    let mut out = String::new();
    let mut i: usize = 0;
    proof {
        assert(s@.skip(0) =~= s@);
        assert(out@ + date_rewrite(s@) =~= date_rewrite(s@));
    }
    while i < n
        invariant
            n == s@.len(),
            i <= n,
            out@ + date_rewrite(s@.skip(i as int)) == date_rewrite(s@),
        decreases n - i,
    {
        if date_match_at(s, n, i) {
            let ghost prev = out@;
            out.append(s.substring_char(i, i + 4));
            out.append("/");
            out.append(s.substring_char(i + 5, i + 7));
            out.append("/");
            out.append(s.substring_char(i + 8, i + 10));
            out.append("/");
            out.append(s.substring_char(i + 11, i + 13));
            out.append("-");
            out.append(s.substring_char(i + 14, i + 16));
            out.append("-");
            out.append(s.substring_char(i + 17, i + 19));
            out.append("-");
            proof {
                reveal_strlit("/");
                reveal_strlit("-");
                let t = s@.skip(i as int);
                assert(date_at(t, 0)) by {
                    assert forall|j: int| 0 <= j < 19 implies t[j] == s@[i + j] by {}
                }
                assert(t.subrange(0, 19) =~= s@.subrange(i as int, i + 19));
                assert(t.skip(19) =~= s@.skip(i + 19));
                assert(out@ =~= prev + rewritten(t.subrange(0, 19)));
                assert(out@ + date_rewrite(s@.skip(i + 19)) =~= prev + date_rewrite(t));
            }
            i += 19;
        } else {
            let ghost prev = out@;
            out.append(s.substring_char(i, i + 1));
            proof {
                let t = s@.skip(i as int);
                assert(!date_at(t, 0)) by {
                    assert forall|j: int| 0 <= j < t.len() implies t[j] == s@[i + j] by {}
                }
                assert(t.skip(1) =~= s@.skip(i + 1));
                assert(out@ =~= prev + seq![t[0]]);
                assert(out@ + date_rewrite(s@.skip(i + 1)) =~= prev + date_rewrite(t));
            }
            i += 1;
        }
    }
    proof {
        assert(s@.skip(n as int) =~= Seq::empty());
        assert(out@ =~= date_rewrite(s@));
    }
    out
}

} // verus!
