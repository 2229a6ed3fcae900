//! Verified text handling for slash-separated paths.
//!
//! Paths are treated as plain text: components are separated by `/`, a
//! component written `.` stands for the directory itself, and one written
//! `..` for its parent.  The functions here mirror how the platform's path
//! library picks a file name and a parent directory out of such text, so
//! that the rest of the crate can reason about them.

use vstd::prelude::*;
use vstd::string::*;

verus! {

/// The start of the component that ends just before position `end`:
/// the index right after the last `/` strictly before `end`, or `0`.
pub open spec fn comp_start(s: Seq<char>, end: int) -> int
    decreases end,
{
    if end <= 0 {
        0
    } else if s[end - 1] == '/' {
        end
    } else {
        comp_start(s, end - 1)
    }
}

/// `comp_start` stays within `[0, end]`, and moves strictly left of `end`
/// when the character before `end` is not a separator.
pub proof fn lemma_comp_start_bounds(s: Seq<char>, end: int)
    requires
        0 <= end,
    ensures
        0 <= comp_start(s, end) <= end,
        end > 0 && s[end - 1] != '/' ==> comp_start(s, end) < end,
    decreases end,
{
    if end > 0 && s[end - 1] != '/' {
        lemma_comp_start_bounds(s, end - 1);
    }
}

/// Position after the last non-`/` character at or before `end`.
pub open spec fn strip_slashes(s: Seq<char>, end: int) -> int
    decreases end,
{
    if end <= 0 {
        0
    } else if s[end - 1] == '/' {
        strip_slashes(s, end - 1)
    } else {
        end
    }
}

/// The file name of the path `s.take(end)`: its last component, after
/// trailing separators and `.` components are passed over.  There is none
/// when nothing is left or when the last component is `..`.
pub open spec fn file_name_at(s: Seq<char>, end: int) -> Option<Seq<char>>
    decreases end,
{
    if end <= 0 {
        None
    } else if s[end - 1] == '/' {
        file_name_at(s, end - 1)
    } else {
        proof {
            lemma_comp_start_bounds(s, end);
        }
        let k = comp_start(s, end);
        let comp = s.subrange(k, end);
        if comp == seq!['.'] {
            file_name_at(s, k)
        } else if comp == seq!['.', '.'] {
            None
        } else {
            Some(comp)
        }
    }
}

/// The file name of the whole path `s`.
pub open spec fn file_name_spec(s: Seq<char>) -> Option<Seq<char>> {
    file_name_at(s, s.len() as int)
}

/// The last component of `s`, as the platform's path library picks it:
/// trailing separators and `.` components are passed over; `None` when the
/// path is empty, is only separators, or ends in a `..` component.
pub fn file_name(s: &str) -> (r: Option<String>)
    ensures
        r is Some <==> file_name_spec(s@) is Some,
        r matches Some(v) ==> file_name_spec(s@) == Some(v@),
{
    let n = s.unicode_len();
    let mut end = n;
    loop
        invariant
            end <= n,
            n == s@.len(),
            file_name_at(s@, n as int) == file_name_at(s@, end as int),
        decreases end,
    {
        let ghost end0 = end;
        while end > 0 && s.get_char(end - 1) == '/'
            invariant
                end <= end0,
                end0 <= n,
                n == s@.len(),
                file_name_at(s@, n as int) == file_name_at(s@, end as int),
            decreases end,
        {
            end = end - 1;
        }
        if end == 0 {
            return None;
        }
        let mut k = end;
        while k > 0 && s.get_char(k - 1) != '/'
            invariant
                k <= end,
                end <= n,
                n == s@.len(),
                comp_start(s@, end as int) == comp_start(s@, k as int),
            decreases k,
        {
            k = k - 1;
        }
        proof {
            lemma_comp_start_bounds(s@, end as int);
            assert(comp_start(s@, k as int) == k as int);
            assert(s@.subrange(k as int, end as int).len() == end - k);
        }
        if end - k == 1 && s.get_char(k) == '.' {
            proof {
                assert(s@.subrange(k as int, end as int) =~= seq!['.']);
            }
            end = k;
        } else if end - k == 2 && s.get_char(k) == '.' && s.get_char(k + 1) == '.' {
            proof {
                assert(s@.subrange(k as int, end as int) =~= seq!['.', '.']);
            }
            return None;
        } else {
            proof {
                let comp = s@.subrange(k as int, end as int);
                assert(comp[0] == s@[k as int]);
                assert(comp != seq!['.'] && comp != seq!['.', '.']) by {
                    assert(seq!['.'].len() == 1 && seq!['.'][0] == '.');
                    assert(seq!['.', '.'].len() == 2 && seq!['.', '.'][0] == '.');
                }
            }
            return Some(String::from_str(s.substring_char(k, end)));
        }
    }
}

/// The parent of the path `s`: the text before its last component, with
/// separators before that component dropped.  The root keeps its `/`; a
/// single relative component has the empty parent; the root itself and the
/// empty path have none.
pub open spec fn parent_spec(s: Seq<char>) -> Option<Seq<char>> {
    let e = strip_slashes(s, s.len() as int);
    if e == 0 {
        None
    } else {
        let k = comp_start(s, e);
        let p = strip_slashes(s, k);
        if p == 0 {
            if k > 0 {
                Some(seq!['/'])
            } else {
                Some(Seq::empty())
            }
        } else {
            Some(s.subrange(0, p))
        }
    }
}

/// The parent directory of `s`, as `parent_spec` states it.
pub fn parent(s: &str) -> (r: Option<String>)
    ensures
        r is Some <==> parent_spec(s@) is Some,
        r matches Some(v) ==> parent_spec(s@) == Some(v@),
{
    let n = s.unicode_len();
    let mut end = n;
    while end > 0 && s.get_char(end - 1) == '/'
        invariant
            end <= n,
            n == s@.len(),
            strip_slashes(s@, n as int) == strip_slashes(s@, end as int),
        decreases end,
    {
        end = end - 1;
    }
    proof {
        assert(strip_slashes(s@, end as int) == end as int);
    }
    if end == 0 {
        return None;
    }
    let mut k = end;
    while k > 0 && s.get_char(k - 1) != '/'
        invariant
            k <= end,
            end <= n,
            n == s@.len(),
            comp_start(s@, end as int) == comp_start(s@, k as int),
        decreases k,
    {
        k = k - 1;
    }
    proof {
        assert(comp_start(s@, k as int) == k as int);
    }
    let mut p = k;
    while p > 0 && s.get_char(p - 1) == '/'
        invariant
            p <= k,
            k <= n,
            n == s@.len(),
            strip_slashes(s@, k as int) == strip_slashes(s@, p as int),
        decreases p,
    {
        p = p - 1;
    }
    proof {
        assert(strip_slashes(s@, p as int) == p as int);
    }
    if p == 0 {
        if k > 0 {
            let r = String::from_str("/");
            proof {
                reveal_strlit("/");
                assert(r@ =~= seq!['/']);
            }
            Some(r)
        } else {
            Some(String::new())
        }
    } else {
        Some(String::from_str(s.substring_char(0, p)))
    }
}

/// `s` with every space turned into a dash.
pub open spec fn dashed(s: Seq<char>) -> Seq<char> {
    Seq::new(s.len(), |i: int| if s[i] == ' ' { '-' } else { s[i] })
}

/// Replaces every space in `s` with a dash, so that the name of a link
/// holds no spaces.
pub fn dash_spaces(s: &str) -> (r: String)
    ensures
        r@ == dashed(s@),
{
    let n = s.unicode_len();
    let mut out = String::new();
    let mut i: usize = 0;
    while i < n
        invariant
            i <= n,
            n == s@.len(),
            out@ == dashed(s@).take(i as int),
        decreases n - i,
    {
        if s.get_char(i) == ' ' {
            out.append("-");
            proof {
                reveal_strlit("-");
            }
        } else {
            out.append(s.substring_char(i, i + 1));
        }
        proof {
            assert(out@ =~= dashed(s@).take(i + 1));
        }
        i = i + 1;
    }
    proof {
        assert(dashed(s@).take(n as int) =~= dashed(s@));
    }
    out
}

/// `c` counts as blank at the edge of a line: ASCII whitespace.
pub open spec fn is_blank(c: char) -> bool {
    c == ' ' || c == '\t' || c == '\n' || c == '\r' || c == '\u{b}' || c == '\u{c}'
}

/// The first position at or after `i` holding a non-blank character.
pub open spec fn blank_run_end(s: Seq<char>, i: int) -> int
    decreases s.len() - i,
{
    if i < 0 || i >= s.len() {
        s.len() as int
    } else if is_blank(s[i]) {
        blank_run_end(s, i + 1)
    } else {
        i
    }
}

/// The position after the last non-blank character at or before `end`.
pub open spec fn blank_run_start(s: Seq<char>, end: int) -> int
    decreases end,
{
    if end <= 0 {
        0
    } else if is_blank(s[end - 1]) {
        blank_run_start(s, end - 1)
    } else {
        end
    }
}

/// `s` without leading and trailing blanks; empty when `s` is all blanks.
pub open spec fn trimmed(s: Seq<char>) -> Seq<char> {
    let a = blank_run_end(s, 0);
    let b = blank_run_start(s, s.len() as int);
    if b <= a {
        Seq::empty()
    } else {
        s.subrange(a, b)
    }
}

/// Strips blanks from both ends of a line, as a file list entry is cleaned
/// before it is taken for a path.
pub fn trim_blanks(s: &str) -> (r: String)
    ensures
        r@ == trimmed(s@),
{
    let n = s.unicode_len();
    let mut a: usize = 0;
    while a < n && blank_char(s.get_char(a))
        invariant
            a <= n,
            n == s@.len(),
            blank_run_end(s@, 0) == blank_run_end(s@, a as int),
        decreases n - a,
    {
        a = a + 1;
    }
    proof {
        assert(blank_run_end(s@, a as int) == a as int);
    }
    let mut b = n;
    while b > 0 && blank_char(s.get_char(b - 1))
        invariant
            b <= n,
            n == s@.len(),
            blank_run_start(s@, n as int) == blank_run_start(s@, b as int),
        decreases b,
    {
        b = b - 1;
    }
    proof {
        assert(blank_run_start(s@, b as int) == b as int);
    }
    if b <= a {
        String::new()
    } else {
        String::from_str(s.substring_char(a, b))
    }
}

/// Whether `c` is ASCII whitespace.
fn blank_char(c: char) -> (r: bool)
    ensures
        r == is_blank(c),
{
    c == ' ' || c == '\t' || c == '\n' || c == '\r' || c == '\u{b}' || c == '\u{c}'
}

/// Where the link for `file` points: an absolute path is kept as it is, a
/// relative one is reached back out of the date hierarchy, one step deeper
/// when a base directory was set.
pub open spec fn source_path_spec(base_set: bool, file: Seq<char>) -> Seq<char> {
    if file.len() > 0 && file[0] == '/' {
        file
    } else if base_set {
        "../../../.."@ + seq!['/'] + file
    } else {
        "../../.."@ + seq!['/'] + file
    }
}

/// Builds the path the new link points at, as `source_path_spec` states it.
pub fn source_path(base_set: bool, file: &str) -> (r: String)
    ensures
        r@ == source_path_spec(base_set, file@),
{
    if s_nonempty_abs(file) {
        String::from_str(file)
    } else {
        let mut out = if base_set {
            String::from_str("../../../..")
        } else {
            String::from_str("../../..")
        };
        out.append("/");
        out.append(file);
        proof {
            reveal_strlit("/");
            assert(out@ =~= source_path_spec(base_set, file@));
        }
        out
    }
}

/// Whether `file` is nonempty and starts with a separator.
fn s_nonempty_abs(file: &str) -> (r: bool)
    ensures
        r == (file@.len() > 0 && file@[0] == '/'),
{
    file.unicode_len() > 0 && file.get_char(0) == '/'
}

} // verus!
