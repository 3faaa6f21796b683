//! Windows path syntax: prefixes, components, file names, extensions.
use vstd::prelude::*;

use crate::text::{ascii_lowercase, ascii_lowercase_chars, chars_eq_str};

verus! {

pub open spec fn is_separator(c: char) -> bool {
    c == '\\' || c == '/'
}

pub open spec fn is_ascii_letter(c: char) -> bool {
    ('a' <= c && c <= 'z') || ('A' <= c && c <= 'Z')
}

/// The end of the segment that starts at `i`: the next separator or the end of `s`.
pub open spec fn segment_end(s: Seq<char>, i: int) -> int
    decreases s.len() - i,
{
    if i >= s.len() || is_separator(s[i]) {
        i
    } else {
        segment_end(s, i + 1)
    }
}

/// The length of a Windows path prefix: a drive (`C:`), or the server and share
/// of a path that starts with two separators (UNC, verbatim and device paths).
pub open spec fn prefix_len(s: Seq<char>) -> int {
    if s.len() >= 2 && is_ascii_letter(s[0]) && s[1] == ':' {
        2
    } else if s.len() >= 2 && is_separator(s[0]) && is_separator(s[1]) {
        let server_end = segment_end(s, 2);
        if server_end >= s.len() {
            server_end
        } else {
            segment_end(s, server_end + 1)
        }
    } else {
        0
    }
}

/// The start of the segment that ends at `e`, not before `lo`.
pub open spec fn segment_start(s: Seq<char>, lo: int, e: int) -> int
    decreases e - lo,
{
    if e <= lo || e > s.len() || is_separator(s[e - 1]) {
        e
    } else {
        segment_start(s, lo, e - 1)
    }
}

/// The bounds of the last segment of `s[lo..e]` that is neither empty nor `.`.
pub open spec fn last_segment(s: Seq<char>, lo: int, e: int) -> Option<(int, int)>
    decreases e - lo,
{
    if e <= lo {
        None
    } else if is_separator(s[e - 1]) {
        last_segment(s, lo, e - 1)
    } else {
        let b = segment_start(s, lo, e - 1);
        proof {
            lemma_segment_start_at_most(s, lo, e - 1);
        }
        if s.subrange(b, e) == seq!['.'] {
            last_segment(s, lo, b)
        } else {
            Some((b, e))
        }
    }
}

/// The final component of a Windows path, when it names a file or folder: the
/// last segment after the prefix, skipping separators and `.`, unless it is `..`.
pub open spec fn spec_file_name(s: Seq<char>) -> Option<Seq<char>> {
    match last_segment(s, prefix_len(s), s.len() as int) {
        Some((b, e)) => if s.subrange(b, e) == seq!['.', '.'] {
            None
        } else {
            Some(s.subrange(b, e))
        },
        None => None,
    }
}

fn segment_end_exec(s: &[char], i: usize) -> (r: usize)
    requires
        i <= s.len(),
    ensures
        r == segment_end(s@, i as int),
        i <= r <= s.len(),
{
    let mut j = i;
    while j < s.len() && !(s[j] == '\\' || s[j] == '/')
        invariant
            i <= j <= s.len(),
            segment_end(s@, i as int) == segment_end(s@, j as int),
        decreases s.len() - j,
    {
        j = j + 1;
    }
    j
}

fn prefix_len_exec(s: &[char]) -> (r: usize)
    ensures
        r == prefix_len(s@),
        r <= s.len(),
{
    if s.len() >= 2 && (('a' <= s[0] && s[0] <= 'z') || ('A' <= s[0] && s[0] <= 'Z')) && s[1] == ':' {
        2
    } else if s.len() >= 2 && (s[0] == '\\' || s[0] == '/') && (s[1] == '\\' || s[1] == '/') {
        let server_end = segment_end_exec(s, 2);
        if server_end >= s.len() {
            server_end
        } else {
            segment_end_exec(s, server_end + 1)
        }
    } else {
        0
    }
}

pub proof fn lemma_segment_start_at_most(s: Seq<char>, lo: int, e: int)
    ensures
        segment_start(s, lo, e) <= e,
        lo <= e ==> lo <= segment_start(s, lo, e),
    decreases e - lo,
{
    if !(e <= lo || e > s.len() || is_separator(s[e - 1])) {
        lemma_segment_start_at_most(s, lo, e - 1);
    }
}

proof fn lemma_segment_start_bounds(s: Seq<char>, lo: int, e: int)
    requires
        lo <= e <= s.len(),
    ensures
        lo <= segment_start(s, lo, e) <= e,
    decreases e - lo,
{
    if !(e <= lo || e > s.len() || is_separator(s[e - 1])) {
        lemma_segment_start_bounds(s, lo, e - 1);
    }
}

fn segment_start_exec(s: &[char], lo: usize, e: usize) -> (r: usize)
    requires
        lo <= e <= s.len(),
    ensures
        r == segment_start(s@, lo as int, e as int),
        lo <= r <= e,
{
    let mut j = e;
    while j > lo && !(s[j - 1] == '\\' || s[j - 1] == '/')
        invariant
            lo <= j <= e <= s.len(),
            segment_start(s@, lo as int, e as int) == segment_start(s@, lo as int, j as int),
        decreases j - lo,
    {
        j = j - 1;
    }
    j
}

fn last_segment_exec(s: &[char], lo: usize) -> (r: Option<(usize, usize)>)
    requires
        lo <= s.len(),
    ensures
        match r {
            Some((b, e)) => last_segment(s@, lo as int, s.len() as int) == Some((b as int, e as int)) && lo
                <= b < e <= s.len(),
            None => last_segment(s@, lo as int, s.len() as int) is None,
        },
{
    let mut e = s.len();
    loop
        invariant
            lo <= e <= s.len(),
            last_segment(s@, lo as int, s.len() as int) == last_segment(s@, lo as int, e as int),
        decreases e - lo,
    {
        if e <= lo {
            return None;
        }
        if s[e - 1] == '\\' || s[e - 1] == '/' {
            e = e - 1;
        } else {
            let b = segment_start_exec(s, lo, e - 1);
            proof {
                lemma_segment_start_bounds(s@, lo as int, e - 1);
            }
            if e - b == 1 && s[b] == '.' {
                assert(s@.subrange(b as int, e as int) =~= seq!['.']);
                e = b;
            } else {
                assert(s@.subrange(b as int, e as int) != seq!['.']) by {
                    assert(s@.subrange(b as int, e as int).len() == e - b);
                    if e - b == 1 {
                        assert(s@.subrange(b as int, e as int)[0] == s@[b as int]);
                    }
                }
                return Some((b, e));
            }
        }
    }
}

/// The bounds of the final component of a Windows path, when it names a file or
/// folder (see `spec_file_name`).
pub fn file_name_bounds(s: &[char]) -> (r: Option<(usize, usize)>)
    ensures
        match r {
            Some((b, e)) => b < e <= s.len() && spec_file_name(s@) == Some(s@.subrange(b as int, e as int)),
            None => spec_file_name(s@) is None,
        },
{
    let p = prefix_len_exec(s);
    match last_segment_exec(s, p) {
        Some((b, e)) => {
            if e - b == 2 && s[b] == '.' && s[b + 1] == '.' {
                assert(s@.subrange(b as int, e as int) =~= seq!['.', '.']);
                None
            } else {
                assert(s@.subrange(b as int, e as int) != seq!['.', '.']) by {
                    assert(s@.subrange(b as int, e as int).len() == e - b);
                    if e - b == 2 {
                        assert(s@.subrange(b as int, e as int)[0] == s@[b as int]);
                        assert(s@.subrange(b as int, e as int)[1] == s@[b + 1]);
                    }
                }
                Some((b, e))
            }
        },
        None => None,
    }
}

/// Whether a Windows path is absolute: a drive followed by a separator, or a path
/// that starts with two separators (UNC, verbatim and device paths).
pub open spec fn is_absolute(s: Seq<char>) -> bool {
    (s.len() >= 3 && is_ascii_letter(s[0]) && s[1] == ':' && is_separator(s[2])) || (s.len() >= 2
        && is_separator(s[0]) && is_separator(s[1]))
}

/// Whether the Windows path `s` is absolute.
pub fn is_absolute_exec(s: &[char]) -> (r: bool)
    ensures
        r == is_absolute(s@),
{
    (s.len() >= 3 && (('a' <= s[0] && s[0] <= 'z') || ('A' <= s[0] && s[0] <= 'Z')) && s[1] == ':' && (
    s[2] == '\\' || s[2] == '/')) || (s.len() >= 2 && (s[0] == '\\' || s[0] == '/') && (s[1] == '\\'
        || s[1] == '/'))
}

/// The position of the last `.` in `name`, if any.
pub open spec fn last_dot(name: Seq<char>) -> Option<int>
    decreases name.len(),
{
    if name.len() == 0 {
        None
    } else if name.last() == '.' {
        Some(name.len() - 1)
    } else {
        last_dot(name.drop_last())
    }
}

/// The extension of a file name: what follows its last `.`, unless there is none
/// or the only `.` leads the name.
pub open spec fn name_extension(name: Seq<char>) -> Option<Seq<char>> {
    match last_dot(name) {
        Some(d) => if d == 0 {
            None
        } else {
            Some(name.subrange(d + 1, name.len() as int))
        },
        None => None,
    }
}

/// The extension of a Windows path.
pub open spec fn spec_extension(s: Seq<char>) -> Option<Seq<char>> {
    match spec_file_name(s) {
        Some(name) => name_extension(name),
        None => None,
    }
}

proof fn lemma_last_dot_bounds(name: Seq<char>)
    ensures
        last_dot(name) matches Some(d) ==> 0 <= d < name.len() && name[d] == '.',
    decreases name.len(),
{
    if name.len() > 0 && name.last() != '.' {
        lemma_last_dot_bounds(name.drop_last());
    }
}

/// Whether the extension of the Windows path `s` equals `ext`, ignoring ASCII case.
pub fn has_extension(s: &[char], ext: &str) -> (r: bool)
    ensures
        r == (spec_extension(s@) matches Some(x) && ascii_lowercase(x) == ext@),
{
    let (b, e) = match file_name_bounds(s) {
        Some(bounds) => bounds,
        None => {
            return false;
        },
    };
    let ghost name = s@.subrange(b as int, e as int);
    let mut j = e;
    while j > b && s[j - 1] != '.'
        invariant
            b <= j <= e <= s.len(),
            name == s@.subrange(b as int, e as int),
            last_dot(name) == last_dot(s@.subrange(b as int, j as int)),
        decreases j - b,
    {
        assert(s@.subrange(b as int, j as int).drop_last() =~= s@.subrange(b as int, j - 1));
        j = j - 1;
    }
    proof {
        lemma_last_dot_bounds(name);
    }
    if j == b {
        assert(last_dot(s@.subrange(b as int, j as int)) is None);
        return false;
    }
    assert(last_dot(name) == Some(j - 1 - b));
    if j - 1 == b {
        return false;
    }
    let mut x: Vec<char> = Vec::new();
    let mut k = j;
    while k < e
        invariant
            b < j <= k <= e <= s.len(),
            x@ == s@.subrange(j as int, k as int),
        decreases e - k,
    {
        x.push(s[k]);
        assert(s@.subrange(j as int, k + 1) == s@.subrange(j as int, k as int).push(s@[k as int]));
        k = k + 1;
    }
    assert(name.subrange(j - b, name.len() as int) =~= s@.subrange(j as int, e as int));
    let lower = ascii_lowercase_chars(x.as_slice());
    chars_eq_str(lower.as_slice(), ext)
}

} // verus!
