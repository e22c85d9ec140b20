//! Character-level text helpers: white-space trimming and the
//! case-insensitive service sentinel.

use vstd::prelude::*;
use vstd::string::*;

verus! {

/// The Unicode white-space characters; free-text submission fields are
/// trimmed by this set.
pub open spec fn is_space(c: char) -> bool {
    (0x9 <= c as u32 && c as u32 <= 0xD) || c as u32 == 0x20 || c as u32 == 0x85
        || c as u32 == 0xA0 || c as u32 == 0x1680 || (0x2000 <= c as u32 && c as u32 <= 0x200A)
        || c as u32 == 0x2028 || c as u32 == 0x2029 || c as u32 == 0x202F || c as u32 == 0x205F
        || c as u32 == 0x3000
}

/// `s` without its leading white space.
pub open spec fn trim_start(s: Seq<char>) -> Seq<char>
    decreases s.len(),
{
    if s.len() == 0 {
        s
    } else if is_space(s[0]) {
        trim_start(s.drop_first())
    } else {
        s
    }
}

/// `s` without its trailing white space.
pub open spec fn trim_end(s: Seq<char>) -> Seq<char>
    decreases s.len(),
{
    if s.len() == 0 {
        s
    } else if is_space(s.last()) {
        trim_end(s.drop_last())
    } else {
        s
    }
}

/// `s` without white space at either end.
pub open spec fn trim(s: Seq<char>) -> Seq<char> {
    trim_end(trim_start(s))
}

fn is_space_exec(c: char) -> (r: bool)
    ensures
        r == is_space(c),
{
    let u = c as u32;
    (0x9 <= u && u <= 0xD) || u == 0x20 || u == 0x85 || u == 0xA0 || u == 0x1680
        || (0x2000 <= u && u <= 0x200A) || u == 0x2028 || u == 0x2029 || u == 0x202F
        || u == 0x205F || u == 0x3000
}

/// Trims white space from both ends of `s`, the normalization applied to
/// the message and company fields.
pub fn trim_str(s: &str) -> (t: String)
    ensures
        t@ == trim(s@),
{
    let n = s.unicode_len();
    proof {
        assert(s@.subrange(0, n as int) =~= s@);
    }
    let mut start: usize = 0;
    while start < n && is_space_exec(s.get_char(start))
        invariant
            n == s@.len(),
            start <= n,
            trim_start(s@) == trim_start(s@.subrange(start as int, n as int)),
        decreases n - start,
    {
        proof {
            let pre = s@.subrange(start as int, n as int);
            assert(pre[0] == s@[start as int]);
            assert(pre.drop_first() =~= s@.subrange(start as int + 1, n as int));
        }
        start = start + 1;
    }
    proof {
        let rest = s@.subrange(start as int, n as int);
        if start < n {
            assert(rest[0] == s@[start as int]);
            assert(trim_start(rest) == rest);
        } else {
            assert(rest =~= Seq::<char>::empty());
        }
    }
    let mut end: usize = n;
    while end > start && is_space_exec(s.get_char(end - 1))
        invariant
            n == s@.len(),
            start <= end <= n,
            trim_start(s@) == s@.subrange(start as int, n as int),
            trim_end(s@.subrange(start as int, n as int)) == trim_end(
                s@.subrange(start as int, end as int),
            ),
        decreases end,
    {
        proof {
            let pre = s@.subrange(start as int, end as int);
            assert(pre.last() == s@[end - 1]);
            assert(pre.drop_last() =~= s@.subrange(start as int, end as int - 1));
        }
        end = end - 1;
    }
    proof {
        let rest = s@.subrange(start as int, end as int);
        if end > start {
            assert(rest.last() == s@[end - 1]);
            assert(trim_end(rest) == rest);
        } else {
            assert(rest =~= Seq::<char>::empty());
        }
    }
    let piece = s.substring_char(start, end);
    String::from_str(piece)
}

/// Case-insensitive equality with the service sentinel "other": five
/// characters, each the lower- or upper-case form of the word's letters.
pub open spec fn is_other_sentinel(s: Seq<char>) -> bool {
    s.len() == 5 && (s[0] == 'o' || s[0] == 'O') && (s[1] == 't' || s[1] == 'T') && (s[2] == 'h'
        || s[2] == 'H') && (s[3] == 'e' || s[3] == 'E') && (s[4] == 'r' || s[4] == 'R')
}

/// Decides whether `s` is, up to letter case, the service sentinel "other".
pub fn service_is_other(s: &str) -> (r: bool)
    ensures
        r == is_other_sentinel(s@),
{
    if s.unicode_len() != 5 {
        return false;
    }
    let c0 = s.get_char(0);
    let c1 = s.get_char(1);
    let c2 = s.get_char(2);
    let c3 = s.get_char(3);
    let c4 = s.get_char(4);
    (c0 == 'o' || c0 == 'O') && (c1 == 't' || c1 == 'T') && (c2 == 'h' || c2 == 'H') && (c3 == 'e'
        || c3 == 'E') && (c4 == 'r' || c4 == 'R')
}

} // verus!
