use ghn::credentials::token_from_config;
use ghn::link::{link_for, open_link_target, parse_index, trailing_segment};
use ghn::model::{map_notifications, NotificationItem, RepositoryItem, SubjectItem};
use ghn::request::{fetch_request, is_success_status, mark_done_request, mark_read_request, Method};
use ghn::state::{poll_step, FeedState, FetchError, PollAction, PollEvent, PollPhase};

fn item(id: &str, kind: &str, url: Option<&str>, comment: Option<&str>) -> NotificationItem {
    NotificationItem {
        id: id.to_string(),
        unread: true,
        reason: "review_requested".to_string(),
        subject: SubjectItem {
            title: "Fix bug".to_string(),
            url: url.map(|s| s.to_string()),
            latest_comment_url: comment.map(|s| s.to_string()),
            type_: kind.to_string(),
        },
        repository: RepositoryItem {
            name: "b".to_string(),
            full_name: "a/b".to_string(),
            url: "https://api.github.com/repos/a/b".to_string(),
            html_url: "https://github.com/a/b".to_string(),
        },
        url: "https://api.github.com/notifications/threads/1".to_string(),
    }
}

fn pr_item() -> NotificationItem {
    item(
        "1",
        "PullRequest",
        Some("https://api.github.com/repos/a/b/pulls/42"),
        Some("https://api.github.com/repos/a/b/issues/comments/99"),
    )
}

#[test]
fn pull_request_deep_link() {
    assert_eq!(link_for(&pr_item()), "https://github.com/a/b/pull/42#issuecomment-99");
}

#[test]
fn issue_falls_back_to_repository() {
    let i = item(
        "2",
        "Issue",
        Some("https://api.github.com/repos/a/b/issues/7"),
        Some("https://api.github.com/repos/a/b/issues/comments/5"),
    );
    assert_eq!(link_for(&i), "https://github.com/a/b");
}

#[test]
fn pull_request_without_comment_falls_back() {
    let i = item("3", "PullRequest", Some("https://api.github.com/repos/a/b/pulls/42"), None);
    assert_eq!(link_for(&i), "https://github.com/a/b");
}

#[test]
fn pull_request_without_subject_url() {
    let i = item("4", "PullRequest", None, Some("https://x/comments/8"));
    assert_eq!(link_for(&i), "https://github.com/a/b/pull/#issuecomment-8");
}

#[test]
fn trailing_segments() {
    assert_eq!(trailing_segment("a/b/c"), "c");
    assert_eq!(trailing_segment("abc"), "abc");
    assert_eq!(trailing_segment("a/b/"), "");
    assert_eq!(trailing_segment(""), "");
}

#[test]
fn parse_positions() {
    assert_eq!(parse_index("0"), Some(0));
    assert_eq!(parse_index("17"), Some(17));
    assert_eq!(parse_index("+3"), Some(3));
    assert_eq!(parse_index(""), None);
    assert_eq!(parse_index("+"), None);
    assert_eq!(parse_index("-1"), None);
    assert_eq!(parse_index("1x"), None);
    assert_eq!(parse_index("99999999999999999999999"), None);
    assert_eq!(parse_index(&usize::MAX.to_string()), Some(usize::MAX));
}

#[test]
fn open_link_by_position() {
    let items = vec![item("9", "Issue", None, None), pr_item()];
    assert_eq!(
        open_link_target(&items, "1"),
        Some("https://github.com/a/b/pull/42#issuecomment-99".to_string())
    );
    assert_eq!(open_link_target(&items, "0"), Some("https://github.com/a/b".to_string()));
    assert_eq!(open_link_target(&items, "2"), None);
    assert_eq!(open_link_target(&items, "x"), None);
}

#[test]
fn mapping_keeps_order_and_fields() {
    let items = vec![pr_item(), item("2", "Issue", None, None)];
    let shown = map_notifications(&items);
    assert_eq!(shown.len(), 2);
    assert_eq!(shown[0].id, "1");
    assert!(shown[0].unread);
    assert_eq!(shown[0].reason, "review_requested");
    assert_eq!(shown[0].subject.url, "https://api.github.com/repos/a/b/pulls/42");
    assert_eq!(shown[0].subject.type_, "PullRequest");
    assert_eq!(shown[0].repository.html_url, "https://github.com/a/b");
    assert_eq!(shown[1].id, "2");
    assert_eq!(shown[1].subject.url, "");
    assert_eq!(shown[1].subject.latest_comment_url, "");
}

#[test]
fn mapping_empty_page() {
    assert!(map_notifications(&Vec::new()).is_empty());
}

fn header_list(token: &str) -> Vec<(String, String)> {
    vec![
        ("Accept".to_string(), "application/vnd.github+json".to_string()),
        ("Authorization".to_string(), format!("Bearer {}", token)),
        ("X-GitHub-Api-Version".to_string(), "2022-11-28".to_string()),
        ("User-Agent".to_string(), "ghn".to_string()),
    ]
}

#[test]
fn listing_request() {
    let r = fetch_request("tok", false);
    assert_eq!(r.method, Method::Get);
    assert_eq!(r.url, "https://api.github.com/notifications");
    assert_eq!(r.query, vec![("all".to_string(), "false".to_string())]);
    assert_eq!(r.headers, header_list("tok"));
    assert_eq!(fetch_request("tok", true).query, vec![("all".to_string(), "true".to_string())]);
}

#[test]
fn read_and_done_requests() {
    let read = mark_read_request("11", "tok");
    let done = mark_done_request("12", "tok");
    assert_eq!(read.method, Method::Patch);
    assert_eq!(read.url, "https://api.github.com/notifications/threads/11");
    assert!(read.query.is_empty());
    assert_eq!(read.headers, header_list("tok"));
    assert_eq!(done.method, Method::Delete);
    assert_eq!(done.url, "https://api.github.com/notifications/threads/12");
    assert_eq!(done.headers, header_list("tok"));
}

#[test]
fn success_statuses() {
    assert!(is_success_status(200));
    assert!(is_success_status(204));
    assert!(is_success_status(299));
    assert!(!is_success_status(199));
    assert!(!is_success_status(300));
    assert!(!is_success_status(404));
}

#[test]
fn filter_toggle_negates_flag() {
    let mut s = FeedState::new();
    assert!(!s.include_all);
    let t = s.apply_filter(false).unwrap();
    assert!(t.all);
    assert_eq!(FeedState::request_for(t, "tok").query, vec![("all".to_string(), "true".to_string())]);
    let t = s.apply_filter(true).unwrap();
    assert!(!t.all);
    assert_eq!(FeedState::request_for(t, "tok").query, vec![("all".to_string(), "false".to_string())]);
}

#[test]
fn newer_page_replaces_and_older_is_dropped() {
    let mut s = FeedState::new();
    let first = s.begin_fetch().unwrap();
    let second = s.begin_fetch().unwrap();
    assert!(s.finish_fetch(second, Ok(vec![pr_item()])));
    assert_eq!(s.displayed.len(), 1);
    assert!(!s.finish_fetch(first, Ok(vec![])));
    assert_eq!(s.items.len(), 1);
    assert_eq!(s.link_at("0"), Some("https://github.com/a/b/pull/42#issuecomment-99".to_string()));
}

#[test]
fn failed_fetch_keeps_list() {
    let mut s = FeedState::new();
    let t = s.begin_fetch().unwrap();
    assert!(s.finish_fetch(t, Ok(vec![pr_item(), pr_item()])));
    let t = s.begin_fetch().unwrap();
    assert!(s.finish_fetch(t, Err(FetchError::Status(502))));
    assert_eq!(s.displayed.len(), 2);
    assert_eq!(s.last_error, Some(FetchError::Status(502)));
    let t = s.begin_fetch().unwrap();
    assert!(s.finish_fetch(t, Ok(vec![])));
    assert!(s.displayed.is_empty());
    assert_eq!(s.last_error, None);
}

#[test]
fn poll_steps() {
    assert_eq!(poll_step(PollPhase::Idle, PollEvent::Tick), (PollPhase::Fetching, PollAction::StartFetch));
    assert_eq!(poll_step(PollPhase::Fetching, PollEvent::Tick), (PollPhase::Fetching, PollAction::Wait));
    assert_eq!(poll_step(PollPhase::Fetching, PollEvent::FetchFinished), (PollPhase::Idle, PollAction::Wait));
}

#[test]
fn token_from_hosts_file() {
    let cfg = "github.com:\n    user: someone\n    oauth_token: gho_abc123\n    git_protocol: https\n";
    assert_eq!(token_from_config(cfg), Some("gho_abc123".to_string()));
    let crlf = "github.com:\r\n    oauth_token: xyz\r\n";
    assert_eq!(token_from_config(crlf), Some("xyz".to_string()));
}

#[test]
fn token_first_match_and_malformed() {
    assert_eq!(token_from_config("oauth_token: a\noauth_token: b\n"), Some("a".to_string()));
    assert_eq!(token_from_config("oauth_token: a: b"), Some("a".to_string()));
    assert_eq!(token_from_config("oauth_token=a\noauth_token: b\n"), None);
    assert_eq!(token_from_config("user: x\n"), None);
    assert_eq!(token_from_config(""), None);
}
