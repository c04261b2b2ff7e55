//! Cookie parsing for the authorization middleware.
//!
//! The HTTP layer pulls the access token out of the `Cookie` request header
//! before verifying it: the header is a `"; "`-separated list of
//! `name=value` pairs, and the token is the value of the pair whose trimmed
//! name matches the wanted key.

use vstd::prelude::*;
use vstd::string::StrSliceExecFns;
use vstd::string::StringExecFns;

verus! {

broadcast use vstd::string::group_string_axioms;

/// The characters `str::trim` removes: Unicode white space.
pub open spec fn spec_is_whitespace(c: char) -> bool {
    ||| c == '\u{0009}'
    ||| c == '\u{000a}'
    ||| c == '\u{000b}'
    ||| c == '\u{000c}'
    ||| c == '\u{000d}'
    ||| c == ' '
    ||| c == '\u{0085}'
    ||| c == '\u{00a0}'
    ||| c == '\u{1680}'
    ||| c == '\u{2000}'
    ||| c == '\u{2001}'
    ||| c == '\u{2002}'
    ||| c == '\u{2003}'
    ||| c == '\u{2004}'
    ||| c == '\u{2005}'
    ||| c == '\u{2006}'
    ||| c == '\u{2007}'
    ||| c == '\u{2008}'
    ||| c == '\u{2009}'
    ||| c == '\u{200a}'
    ||| c == '\u{2028}'
    ||| c == '\u{2029}'
    ||| c == '\u{202f}'
    ||| c == '\u{205f}'
    ||| c == '\u{3000}'
}

/// Position of the first `"; "` separator at or after `i`, or the length if
/// there is none.
pub open spec fn spec_sep_from(s: Seq<char>, i: int) -> int
    decreases s.len() - i,
{
    if i + 2 > s.len() {
        s.len() as int
    } else if s[i] == ';' && s[i + 1] == ' ' {
        i
    } else {
        spec_sep_from(s, i + 1)
    }
}

/// Position of the first `'='` at or after `i`, or the length if there is
/// none.
pub open spec fn spec_eq_from(s: Seq<char>, i: int) -> int
    decreases s.len() - i,
{
    if i >= s.len() {
        s.len() as int
    } else if s[i] == '=' {
        i
    } else {
        spec_eq_from(s, i + 1)
    }
}

/// Position of the first non-white-space character at or after `i`, or the
/// length if there is none.
pub open spec fn spec_ltrim(s: Seq<char>, i: int) -> int
    decreases s.len() - i,
{
    if i >= s.len() {
        s.len() as int
    } else if spec_is_whitespace(s[i]) {
        spec_ltrim(s, i + 1)
    } else {
        i
    }
}

/// One past the last non-white-space character strictly before `i`, or 0 if
/// there is none.
pub open spec fn spec_rtrim(s: Seq<char>, i: int) -> int
    decreases i,
{
    if i <= 0 {
        0
    } else if spec_is_whitespace(s[i - 1]) {
        spec_rtrim(s, i - 1)
    } else {
        i
    }
}

/// `s` without leading and trailing white space, as `str::trim` leaves it.
pub open spec fn spec_trim(s: Seq<char>) -> Seq<char> {
    let a = spec_ltrim(s, 0);
    let b = spec_rtrim(s, s.len() as int);
    if a < b {
        s.subrange(a, b)
    } else {
        Seq::empty()
    }
}

/// The value of one `name=value` pair, trimmed, if the trimmed name is `key`;
/// `None` where the pair has no `'='` or another name.
pub open spec fn spec_pair_value(part: Seq<char>, key: Seq<char>) -> Option<Seq<char>> {
    let e = spec_eq_from(part, 0);
    if e == part.len() {
        None
    } else {
        let name = spec_trim(part.take(e));
        let value = spec_trim(part.subrange(e + 1, part.len() as int));
        if name == key {
            Some(value)
        } else {
            None
        }
    }
}

/// The value of the first `"; "`-separated cookie of `header` whose trimmed
/// name is `key`, or `None` if no pair matches.
pub open spec fn spec_cookie_value(header: Seq<char>, key: Seq<char>) -> Option<Seq<char>>
    decreases header.len(),
{
    let k = spec_sep_from(header, 0);
    match spec_pair_value(header.take(k), key) {
        Some(v) => Some(v),
        None => if 0 <= k && k + 2 <= header.len() {
            spec_cookie_value(header.subrange(k + 2, header.len() as int), key)
        } else {
            None
        },
    }
}

/// The separator position stays within bounds, with room for both of its
/// characters whenever it is found.
proof fn lemma_sep_from_bounds(s: Seq<char>, i: int)
    requires
        0 <= i <= s.len(),
    ensures
        i <= spec_sep_from(s, i) <= s.len(),
        spec_sep_from(s, i) < s.len() ==> spec_sep_from(s, i) + 2 <= s.len(),
    decreases s.len() - i,
{
    if i + 2 <= s.len() && !(s[i] == ';' && s[i + 1] == ' ') {
        lemma_sep_from_bounds(s, i + 1);
    }
}

proof fn lemma_eq_from_bounds(s: Seq<char>, i: int)
    requires
        0 <= i <= s.len(),
    ensures
        i <= spec_eq_from(s, i) <= s.len(),
    decreases s.len() - i,
{
    if i < s.len() && s[i] != '=' {
        lemma_eq_from_bounds(s, i + 1);
    }
}

proof fn lemma_ltrim_bounds(s: Seq<char>, i: int)
    requires
        0 <= i <= s.len(),
    ensures
        i <= spec_ltrim(s, i) <= s.len(),
    decreases s.len() - i,
{
    if i < s.len() && spec_is_whitespace(s[i]) {
        lemma_ltrim_bounds(s, i + 1);
    }
}

proof fn lemma_rtrim_bounds(s: Seq<char>, i: int)
    requires
        0 <= i <= s.len(),
    ensures
        0 <= spec_rtrim(s, i) <= i,
    decreases i,
{
    if i > 0 && spec_is_whitespace(s[i - 1]) {
        lemma_rtrim_bounds(s, i - 1);
    }
}

fn is_whitespace_char(c: char) -> (r: bool)
    ensures
        r == spec_is_whitespace(c),
{
    c == '\u{0009}' || c == '\u{000a}' || c == '\u{000b}' || c == '\u{000c}' || c == '\u{000d}'
        || c == ' ' || c == '\u{0085}' || c == '\u{00a0}' || c == '\u{1680}' || c == '\u{2000}'
        || c == '\u{2001}' || c == '\u{2002}' || c == '\u{2003}' || c == '\u{2004}' || c
        == '\u{2005}' || c == '\u{2006}' || c == '\u{2007}' || c == '\u{2008}' || c == '\u{2009}'
        || c == '\u{200a}' || c == '\u{2028}' || c == '\u{2029}' || c == '\u{202f}' || c
        == '\u{205f}' || c == '\u{3000}'
}

fn find_sep(s: &str, from: usize) -> (r: usize)
    requires
        from <= s@.len(),
    ensures
        r == spec_sep_from(s@, from as int),
{
    let n = s.unicode_len();
    let mut i = from;
    while n > 0 && i < n - 1
        invariant
            n == s@.len(),
            from <= i <= n,
            spec_sep_from(s@, from as int) == spec_sep_from(s@, i as int),
        decreases n - i,
    {
        if s.get_char(i) == ';' && s.get_char(i + 1) == ' ' {
            return i;
        }
        i = i + 1;
    }
    n
}

fn find_eq(s: &str, from: usize) -> (r: usize)
    requires
        from <= s@.len(),
    ensures
        r == spec_eq_from(s@, from as int),
{
    let n = s.unicode_len();
    let mut i = from;
    while i < n
        invariant
            n == s@.len(),
            from <= i <= n,
            spec_eq_from(s@, from as int) == spec_eq_from(s@, i as int),
        decreases n - i,
    {
        if s.get_char(i) == '=' {
            return i;
        }
        i = i + 1;
    }
    n
}

fn trim_str<'a>(s: &'a str) -> (r: &'a str)
    ensures
        r@ == spec_trim(s@),
{
    let n = s.unicode_len();
    let mut a: usize = 0;
    while a < n && is_whitespace_char(s.get_char(a))
        invariant
            n == s@.len(),
            0 <= a <= n,
            spec_ltrim(s@, 0) == spec_ltrim(s@, a as int),
        decreases n - a,
    {
        a = a + 1;
    }
    let mut b: usize = n;
    while b > 0 && is_whitespace_char(s.get_char(b - 1))
        invariant
            n == s@.len(),
            0 <= b <= n,
            spec_rtrim(s@, n as int) == spec_rtrim(s@, b as int),
        decreases b,
    {
        b = b - 1;
    }
    if a < b {
        s.substring_char(a, b)
    } else {
        let empty = "";
        proof {
            reveal_strlit("");
            assert(empty@ =~= spec_trim(s@));
        }
        empty
    }
}

fn str_eq(a: &str, b: &str) -> (r: bool)
    ensures
        r == (a@ == b@),
{
    let x = a.to_owned();
    let y = b.to_owned();
    x == y
}

fn pair_value(part: &str, key: &str) -> (r: Option<String>)
    ensures
        match r {
            Some(v) => spec_pair_value(part@, key@) == Some(v@),
            None => spec_pair_value(part@, key@) is None,
        },
{
    let n = part.unicode_len();
    let e = find_eq(part, 0);
    proof {
        lemma_eq_from_bounds(part@, 0);
    }
    if e == n {
        None
    } else {
        let name_raw = part.substring_char(0, e);
        let value_raw = part.substring_char(e + 1, n);
        proof {
            assert(name_raw@ =~= part@.take(e as int));
        }
        let name = trim_str(name_raw);
        let value = trim_str(value_raw);
        if str_eq(name, key) {
            Some(String::from_str(value))
        } else {
            None
        }
    }
}

/// The value of the first cookie in `cookie_header` whose trimmed name is
/// `key`, trimmed — `None` if no pair matches.  This is how the
/// authorization middleware extracts the access token from the `Cookie`
/// header.
pub fn get_cookie_value(cookie_header: &str, key: &str) -> (r: Option<String>)
    ensures
        match r {
            Some(v) => spec_cookie_value(cookie_header@, key@) == Some(v@),
            None => spec_cookie_value(cookie_header@, key@) is None,
        },
    decreases cookie_header@.len(),
{
    let n = cookie_header.unicode_len();
    let k = find_sep(cookie_header, 0);
    proof {
        lemma_sep_from_bounds(cookie_header@, 0);
    }
    let part = cookie_header.substring_char(0, k);
    proof {
        assert(part@ =~= cookie_header@.take(k as int));
    }
    match pair_value(part, key) {
        Some(v) => Some(v),
        None => {
            if k == n {
                None
            } else {
                let rest = cookie_header.substring_char(k + 2, n);
                get_cookie_value(rest, key)
            }
        },
    }
}

} // verus!
