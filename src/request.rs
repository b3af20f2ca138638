//! The requests sent to the notifications API, described as plain values.
use vstd::prelude::*;

verus! {

/// An HTTP method used against the API.
#[derive(Clone, Copy, Debug, PartialEq, Eq, Structural)]
pub enum Method {
    Get,
    Patch,
    Delete,
}

/// One request: method, full URL, query pairs and headers, in order.
pub struct Request {
    pub method: Method,
    pub url: String,
    pub query: Vec<(String, String)>,
    pub headers: Vec<(String, String)>,
}

/// The characters of each name and value of a list of pairs.
pub open spec fn pairs_view(v: Seq<(String, String)>) -> Seq<(Seq<char>, Seq<char>)> {
    v.map_values(|p: (String, String)| (p.0@, p.1@))
}

/// The endpoint that lists notifications.
pub open spec fn notifications_url() -> Seq<char> {
    "https://api.github.com/notifications"@
}

/// The endpoint of one notification thread.
pub open spec fn thread_url(id: Seq<char>) -> Seq<char> {
    "https://api.github.com/notifications/threads/"@ + id
}

/// How a boolean is written in a query.
pub open spec fn bool_text(b: bool) -> Seq<char> {
    if b {
        "true"@
    } else {
        "false"@
    }
}

/// The query of a listing: `all` set to the include-all flag.
pub open spec fn listing_query(all: bool) -> Seq<(Seq<char>, Seq<char>)> {
    seq![("all"@, bool_text(all))]
}

/// The headers every request carries.
pub open spec fn api_headers(token: Seq<char>) -> Seq<(Seq<char>, Seq<char>)> {
    seq![
        ("Accept"@, "application/vnd.github+json"@),
        ("Authorization"@, "Bearer "@ + token),
        ("X-GitHub-Api-Version"@, "2022-11-28"@),
        ("User-Agent"@, "ghn"@),
    ]
}

/// `r` is the request with this method, URL and query, authorised by `token`.
pub open spec fn describes(
    r: Request,
    method: Method,
    url: Seq<char>,
    query: Seq<(Seq<char>, Seq<char>)>,
    token: Seq<char>,
) -> bool {
    &&& r.method == method
    &&& r.url@ == url
    &&& pairs_view(r.query@) == query
    &&& pairs_view(r.headers@) == api_headers(token)
}

/// A boolean as a query writes it.
pub fn bool_string(b: bool) -> (r: String)
    ensures
        r@ == bool_text(b),
{
    if b {
        String::from_str("true")
    } else {
        String::from_str("false")
    }
}

/// The headers of an API request authorised by `token`.
pub fn request_headers(token: &str) -> (r: Vec<(String, String)>)
    ensures
        pairs_view(r@) == api_headers(token@),
{
    let mut bearer = String::from_str("Bearer ");
    bearer.append(token);
    let mut r: Vec<(String, String)> = Vec::new();
    r.push((String::from_str("Accept"), String::from_str("application/vnd.github+json")));
    r.push((String::from_str("Authorization"), bearer));
    r.push((String::from_str("X-GitHub-Api-Version"), String::from_str("2022-11-28")));
    r.push((String::from_str("User-Agent"), String::from_str("ghn")));
    assert(pairs_view(r@) =~= api_headers(token@));
    r
}

/// The request that lists notifications: all of them, or the unread only.
pub fn fetch_request(token: &str, all: bool) -> (r: Request)
    ensures
        describes(r, Method::Get, notifications_url(), listing_query(all), token@),
{
    let mut query: Vec<(String, String)> = Vec::new();
    query.push((String::from_str("all"), bool_string(all)));
    assert(pairs_view(query@) =~= listing_query(all));
    Request {
        method: Method::Get,
        url: String::from_str("https://api.github.com/notifications"),
        query,
        headers: request_headers(token),
    }
}

/// A request without query on the thread `id`.
fn thread_request(method: Method, id: &str, token: &str) -> (r: Request)
    ensures
        describes(r, method, thread_url(id@), Seq::empty(), token@),
{
    let mut url = String::from_str("https://api.github.com/notifications/threads/");
    url.append(id);
    let query: Vec<(String, String)> = Vec::new();
    assert(pairs_view(query@) =~= Seq::empty());
    Request { method, url, query, headers: request_headers(token) }
}

/// The request that marks the thread `id` as read.
pub fn mark_read_request(id: &str, token: &str) -> (r: Request)
    ensures
        describes(r, Method::Patch, thread_url(id@), Seq::empty(), token@),
{
    thread_request(Method::Patch, id, token)
}

/// The request that marks the thread `id` as done.
pub fn mark_done_request(id: &str, token: &str) -> (r: Request)
    ensures
        describes(r, Method::Delete, thread_url(id@), Seq::empty(), token@),
{
    thread_request(Method::Delete, id, token)
}

/// A response status counts as success when it is in the 2xx range.
pub fn is_success_status(code: u16) -> (r: bool)
    ensures
        r == (200 <= code && code <= 299),
{
    200 <= code && code <= 299
}

/// Marking two different threads as read and as done addresses two
/// different endpoints, each by its own id, with PATCH and DELETE.
pub proof fn law_thread_actions(read_id: Seq<char>, done_id: Seq<char>, token: Seq<char>, read: Request, done: Request)
    requires
        read_id != done_id,
        describes(read, Method::Patch, thread_url(read_id), Seq::empty(), token),
        describes(done, Method::Delete, thread_url(done_id), Seq::empty(), token),
    ensures
        read.method != done.method,
        read.url@ != done.url@,
        read.url@.subrange(0, read.url@.len() - read_id.len()) == done.url@.subrange(0, done.url@.len() - done_id.len()),
        read.url@.subrange(read.url@.len() - read_id.len(), read.url@.len() as int) == read_id,
        done.url@.subrange(done.url@.len() - done_id.len(), done.url@.len() as int) == done_id,
{
    let p = "https://api.github.com/notifications/threads/"@;
    assert((p + read_id).subrange(0, p.len() as int) =~= p);
    assert((p + done_id).subrange(0, p.len() as int) =~= p);
    assert((p + read_id).subrange(p.len() as int, (p + read_id).len() as int) =~= read_id);
    assert((p + done_id).subrange(p.len() as int, (p + done_id).len() as int) =~= done_id);
}

} // verus!
