//! Reading the access token out of the command-line tool's hosts file.
use vstd::prelude::*;

verus! {

/// `pat` stands in `l` at position `i`.
pub open spec fn matches_at(l: Seq<char>, pat: Seq<char>, i: int) -> bool {
    0 <= i && i + pat.len() <= l.len() && l.subrange(i, i + pat.len()) == pat
}

/// The first position at or after `i` where `pat` stands in `l`.
pub open spec fn find_from(l: Seq<char>, pat: Seq<char>, i: nat) -> Option<nat>
    decreases l.len() + 1 - i,
{
    if i + pat.len() > l.len() {
        None
    } else if matches_at(l, pat, i as int) {
        Some(i)
    } else {
        find_from(l, pat, i + 1)
    }
}

/// The first position at or after `i` that holds a line feed, or the end.
pub open spec fn newline_from(s: Seq<char>, i: nat) -> nat
    decreases s.len() - i,
{
    if i >= s.len() {
        s.len()
    } else if s[i as int] == '\n' {
        i
    } else {
        newline_from(s, i + 1)
    }
}

/// The first line of `s`, which ends at `e`, without its line ending (a line
/// feed, or a carriage return and a line feed).
pub open spec fn first_line(s: Seq<char>, e: nat) -> Seq<char> {
    if 0 < e < s.len() && s[e - 1] == '\r' {
        s.subrange(0, e - 1)
    } else {
        s.subrange(0, e as int)
    }
}

/// The second field of a line whose fields are separated by `": "`.
pub open spec fn second_field(l: Seq<char>) -> Option<Seq<char>> {
    match find_from(l, ": "@, 0) {
        None => None,
        Some(a) => {
            let rest = l.subrange(a + 2int, l.len() as int);
            match find_from(rest, ": "@, 0) {
                None => Some(rest),
                Some(b) => Some(rest.subrange(0, b as int)),
            }
        },
    }
}

/// The token of a hosts file: the second field of the first line that
/// mentions `oauth_token`; none where no line does or that line has no
/// second field.
pub open spec fn config_token(s: Seq<char>) -> Option<Seq<char>>
    decreases s.len(),
{
    if s.len() == 0 {
        None
    } else {
        let e = newline_from(s, 0);
        let l = first_line(s, e);
        if find_from(l, "oauth_token"@, 0) is Some {
            second_field(l)
        } else if e < s.len() {
            config_token(s.subrange(e + 1int, s.len() as int))
        } else {
            None
        }
    }
}

fn matches_here(l: &str, pat: &str, i: usize) -> (r: bool)
    requires
        i + pat@.len() <= l@.len(),
    ensures
        r == matches_at(l@, pat@, i as int),
{
    let n = l.unicode_len();
    let m = pat.unicode_len();
    let mut j: usize = 0;
    while j < m
        invariant
            j <= m,
            m == pat@.len(),
            n == l@.len(),
            i + m <= l@.len(),
            forall|k: int| 0 <= k < j ==> l@[i + k] == pat@[k],
        decreases m - j,
    {
        if l.get_char(i + j) != pat.get_char(j) {
            assert(l@.subrange(i as int, i + m)[j as int] != pat@[j as int]);
            return false;
        }
        j = j + 1;
    }
    assert(l@.subrange(i as int, i + m) =~= pat@);
    true
}

/// The first position where `pat` stands in `l`.
pub fn find_text(l: &str, pat: &str) -> (r: Option<usize>)
    ensures
        r is None <==> find_from(l@, pat@, 0) is None,
        r matches Some(i) ==> find_from(l@, pat@, 0) == Some(i as nat) && matches_at(
            l@,
            pat@,
            i as int,
        ),
{
    let n = l.unicode_len();
    let m = pat.unicode_len();
    if m > n {
        return None;
    }
    let mut i: usize = 0;
    loop
        invariant
            n == l@.len(),
            m == pat@.len(),
            m <= n,
            i <= n - m,
            find_from(l@, pat@, 0) == find_from(l@, pat@, i as nat),
        decreases n - m - i,
    {
        if matches_here(l, pat, i) {
            return Some(i);
        }
        if i == n - m {
            assert(find_from(l@, pat@, (i + 1) as nat) is None);
            return None;
        }
        i = i + 1;
    }
}

/// The second field of a line whose fields are separated by `": "`.
pub fn line_field(l: &str) -> (r: Option<String>)
    ensures
        r is None <==> second_field(l@) is None,
        r matches Some(t) ==> second_field(l@) == Some(t@),
{
    let sep = ": ";
    proof {
        reveal_strlit(": ");
    }
    let len = l.unicode_len();
    match find_text(l, sep) {
        None => None,
        Some(a) => {
            let rest = l.substring_char(a + 2, len);
            match find_text(rest, sep) {
                None => Some(String::from_str(rest)),
                Some(b) => Some(String::from_str(rest.substring_char(0, b))),
            }
        },
    }
}

/// The access token that a hosts file holds, if any.
pub fn token_from_config(config: &str) -> (r: Option<String>)
    ensures
        r is None <==> config_token(config@) is None,
        r matches Some(t) ==> config_token(config@) == Some(t@),
{
    let mut rest: &str = config;
    let mut n = rest.unicode_len();
    while n > 0
        invariant
            n == rest@.len(),
            config_token(config@) == config_token(rest@),
        decreases n,
    {
        let mut e: usize = 0;
        while e < n && rest.get_char(e) != '\n'
            invariant
                e <= n,
                n == rest@.len(),
                n > 0,
                config_token(config@) == config_token(rest@),
                newline_from(rest@, 0) == newline_from(rest@, e as nat),
            decreases n - e,
        {
            e = e + 1;
        }
        let end = if 0 < e && e < n && rest.get_char(e - 1) == '\r' {
            e - 1
        } else {
            e
        };
        let line = rest.substring_char(0, end);
        assert(newline_from(rest@, e as nat) == e);
        assert(line@ == first_line(rest@, e as nat));
        if find_text(line, "oauth_token").is_some() {
            return line_field(line);
        }
        if e == n {
            return None;
        }
        rest = rest.substring_char(e + 1, n);
        n = rest.unicode_len();
    }
    None
}

} // verus!
