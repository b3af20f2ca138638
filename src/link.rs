//! Where "open link" leads for a notification.
use crate::model::{text_or_empty, NotificationItem};
use vstd::prelude::*;

verus! {

/// The position just past the last `/` of `s`, or 0 where `s` holds none.
pub open spec fn segment_start(s: Seq<char>) -> nat
    decreases s.len(),
{
    if s.len() == 0 {
        0
    } else if s.last() == '/' {
        s.len()
    } else {
        segment_start(s.drop_last())
    }
}

/// The trailing path segment of `s`: what follows its last `/`, or all of it.
pub open spec fn last_segment(s: Seq<char>) -> Seq<char> {
    s.subrange(segment_start(s) as int, s.len() as int)
}

/// The target of "open link" for a raw entry: a deep link to the latest
/// comment of a pull request, else the repository's page.
pub open spec fn link_target(item: NotificationItem) -> Seq<char> {
    match item.subject.latest_comment_url {
        Some(c) => if item.subject.type_@ == "PullRequest"@ {
            item.repository.html_url@ + "/pull/"@ + last_segment(text_or_empty(item.subject.url))
                + "#issuecomment-"@ + last_segment(c@)
        } else {
            item.repository.html_url@
        },
        None => item.repository.html_url@,
    }
}

/// The trailing path segment of `s`.
pub fn trailing_segment(s: &str) -> (r: String)
    ensures
        r@ == last_segment(s@),
{
    let n = s.unicode_len();
    let mut k: usize = n;
    assert(s@.subrange(0, n as int) =~= s@);
    while k > 0 && s.get_char(k - 1) != '/'
        invariant
            k <= n,
            n == s@.len(),
            segment_start(s@) == segment_start(s@.subrange(0, k as int)),
        decreases k,
    {
        assert(s@.subrange(0, k as int).drop_last() =~= s@.subrange(0, k - 1));
        k = k - 1;
    }
    assert(segment_start(s@.subrange(0, k as int)) == k) by {
        if k > 0 {
            assert(s@.subrange(0, k as int).last() == s@[k - 1]);
        }
    }
    String::from_str(s.substring_char(k, n))
}

/// The target of "open link" for one raw entry.
pub fn link_for(item: &NotificationItem) -> (r: String)
    ensures
        r@ == link_target(*item),
{
    let pull_request = String::from_str("PullRequest");
    proof {
        assert(pull_request@ == "PullRequest"@);
    }
    match &item.subject.latest_comment_url {
        Some(c) => {
            if item.subject.type_ == pull_request {
                let pr = match &item.subject.url {
                    Some(u) => trailing_segment(u.as_str()),
                    None => String::new(),
                };
                let comment = trailing_segment(c.as_str());
                let mut url = item.repository.html_url.clone();
                url.append("/pull/");
                url.append(pr.as_str());
                url.append("#issuecomment-");
                url.append(comment.as_str());
                url
            } else {
                item.repository.html_url.clone()
            }
        },
        None => item.repository.html_url.clone(),
    }
}

/// `c` is an ASCII decimal digit.
pub open spec fn is_digit(c: char) -> bool {
    '0' <= c && c <= '9'
}

/// The numeric value of an ASCII decimal digit.
pub open spec fn digit_value(c: char) -> nat {
    (c as u32 - '0' as u32) as nat
}

/// The value of a run of decimal digits, most significant first.
pub open spec fn digits_value(s: Seq<char>) -> nat
    decreases s.len(),
{
    if s.len() == 0 {
        0
    } else {
        10 * digits_value(s.drop_last()) + digit_value(s.last())
    }
}

/// The digits of a list position as written: an optional leading `+` dropped.
pub open spec fn index_digits(s: Seq<char>) -> Seq<char> {
    if s.len() > 0 && s[0] == '+' {
        s.drop_first()
    } else {
        s
    }
}

/// The list position that `s` spells, if any: one or more decimal digits,
/// after an optional `+`, whose value fits in `usize`.
pub open spec fn index_of_text(s: Seq<char>) -> Option<nat> {
    let d = index_digits(s);
    if d.len() > 0 && (forall|i: int| 0 <= i < d.len() ==> is_digit(#[trigger] d[i]))
        && digits_value(d) <= usize::MAX {
        Some(digits_value(d))
    } else {
        None
    }
}

proof fn lemma_prefix_value_bound(t: Seq<char>, k: int)
    requires
        0 <= k <= t.len(),
        forall|i: int| 0 <= i < t.len() ==> is_digit(#[trigger] t[i]),
    ensures
        digits_value(t.subrange(0, k)) <= digits_value(t),
    decreases t.len(),
{
    if k == t.len() {
        assert(t.subrange(0, k) =~= t);
    } else {
        let u = t.drop_last();
        assert(u.subrange(0, k) =~= t.subrange(0, k));
        assert forall|i: int| 0 <= i < u.len() implies is_digit(#[trigger] u[i]) by {
            assert(u[i] == t[i]);
        }
        lemma_prefix_value_bound(u, k);
    }
}

/// Reads a list position from text, as `usize`'s `from_str` does.
pub fn parse_index(s: &str) -> (r: Option<usize>)
    ensures
        r is Some ==> index_of_text(s@) == Some(r->0 as nat),
        r is None <==> index_of_text(s@) is None,
{
    let n = s.unicode_len();
    if n == 0 {
        return None;
    }
    let mut i: usize = 0;
    if s.get_char(0) == '+' {
        i = 1;
    }
    let start = i;
    let ghost d = index_digits(s@);
    assert(d =~= s@.subrange(start as int, n as int));
    if i == n {
        return None;
    }
    let mut v: usize = 0;
    while i < n
        invariant
            start <= i <= n,
            n == s@.len(),
            d == s@.subrange(start as int, n as int),
            d == index_digits(s@),
            forall|j: int| start <= j < i ==> is_digit(#[trigger] s@[j]),
            v as nat == digits_value(d.subrange(0, i - start)),
        decreases n - i,
    {
        let c = s.get_char(i);
        assert(d[i - start] == c);
        if c < '0' || c > '9' {
            assert(!is_digit(d[i - start]));
            return None;
        }
        let ghost next = d.subrange(0, i - start + 1);
        assert(next.drop_last() =~= d.subrange(0, i - start));
        assert(next.last() == c);
        let digit = (c as u32 - '0' as u32) as usize;
        assert(digits_value(next) == 10 * v + digit);
        let scaled = v.checked_mul(10);
        match scaled {
            None => {
                proof {
                    if forall|j: int| 0 <= j < d.len() ==> is_digit(#[trigger] d[j]) {
                        lemma_prefix_value_bound(d, i - start + 1);
                    }
                }
                return None;
            },
            Some(m) => {
                match m.checked_add(digit) {
                    None => {
                        proof {
                            if forall|j: int| 0 <= j < d.len() ==> is_digit(#[trigger] d[j]) {
                                lemma_prefix_value_bound(d, i - start + 1);
                            }
                        }
                        return None;
                    },
                    Some(w) => {
                        v = w;
                    },
                }
            },
        }
        i = i + 1;
    }
    assert(d.subrange(0, n - start) =~= d);
    assert forall|j: int| 0 <= j < d.len() implies is_digit(#[trigger] d[j]) by {
        assert(d[j] == s@[start + j]);
    }
    Some(v)
}

/// The target of "open link" for the entry at the position that `index`
/// spells; `None` where it spells none or no entry stands there.
pub fn open_link_target(items: &Vec<NotificationItem>, index: &str) -> (r: Option<String>)
    ensures
        r is Some <==> (index_of_text(index@) matches Some(k) && k < items@.len()),
        r matches Some(u) ==> u@ == link_target(items@[index_of_text(index@)->0 as int]),
{
    match parse_index(index) {
        Some(k) => {
            if k < items.len() {
                Some(link_for(&items[k]))
            } else {
                None
            }
        },
        None => None,
    }
}

/// A trailing segment holds no `/`, and the text ends with it, after
/// nothing or after a `/`.
pub proof fn lemma_last_segment(s: Seq<char>)
    ensures
        segment_start(s) <= s.len(),
        forall|i: int| 0 <= i < last_segment(s).len() ==> #[trigger] last_segment(s)[i] != '/',
        s =~= s.subrange(0, segment_start(s) as int) + last_segment(s),
        segment_start(s) == 0 || s[segment_start(s) - 1] == '/',
    decreases s.len(),
{
    if s.len() > 0 && s.last() != '/' {
        let u = s.drop_last();
        lemma_last_segment(u);
        assert(last_segment(s) =~= last_segment(u).push(s.last()));
    }
}

/// "Open link" on a pull request whose latest comment is known leads to
/// `{html_url}/pull/{N}#issuecomment-{M}`, where `N` and `M` are the trailing
/// segments of the subject's URL and of the comment's URL.
pub proof fn law_pull_request_deep_link(item: NotificationItem)
    requires
        item.subject.type_@ == "PullRequest"@,
        item.subject.latest_comment_url is Some,
    ensures
        link_target(item) == item.repository.html_url@ + "/pull/"@ + last_segment(
            text_or_empty(item.subject.url),
        ) + "#issuecomment-"@ + last_segment(item.subject.latest_comment_url->0@),
{
}

/// "Open link" on any other subject, or on a pull request whose latest
/// comment is not known, leads to the repository's page exactly.
pub proof fn law_fallback_to_repository(item: NotificationItem)
    requires
        item.subject.type_@ != "PullRequest"@ || item.subject.latest_comment_url is None,
    ensures
        link_target(item) == item.repository.html_url@,
{
}

} // verus!
