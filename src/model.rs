//! Raw feed records as they arrive and the display records built from them.
use vstd::prelude::*;

verus! {

/// The subject of a raw feed entry; `url` and `latest_comment_url` may be absent.
pub struct SubjectItem {
    pub title: String,
    pub url: Option<String>,
    pub latest_comment_url: Option<String>,
    pub type_: String,
}

/// The repository of a raw feed entry.
pub struct RepositoryItem {
    pub name: String,
    pub full_name: String,
    pub url: String,
    pub html_url: String,
}

/// One raw entry of the notification feed.
pub struct NotificationItem {
    pub id: String,
    pub unread: bool,
    pub reason: String,
    pub subject: SubjectItem,
    pub repository: RepositoryItem,
    pub url: String,
}

/// The subject of a displayed notification: every field is a plain string.
pub struct Subject {
    pub title: String,
    pub url: String,
    pub latest_comment_url: String,
    pub type_: String,
}

/// The repository of a displayed notification.
pub struct Repository {
    pub name: String,
    pub full_name: String,
    pub url: String,
    pub html_url: String,
}

/// A notification as the presentation layer shows it.
pub struct Notification {
    pub id: String,
    pub unread: bool,
    pub reason: String,
    pub url: String,
    pub subject: Subject,
    pub repository: Repository,
}

/// The characters of an optional string, with an absent one read as empty.
pub open spec fn text_or_empty(o: Option<String>) -> Seq<char> {
    match o {
        Some(s) => s@,
        None => Seq::empty(),
    }
}

/// `n` is the display form of `item`: every field carried over verbatim,
/// absent optional subject fields as empty strings.
pub open spec fn displays(item: NotificationItem, n: Notification) -> bool {
    &&& n.id@ == item.id@
    &&& n.unread == item.unread
    &&& n.reason@ == item.reason@
    &&& n.url@ == item.url@
    &&& n.subject.title@ == item.subject.title@
    &&& n.subject.url@ == text_or_empty(item.subject.url)
    &&& n.subject.latest_comment_url@ == text_or_empty(item.subject.latest_comment_url)
    &&& n.subject.type_@ == item.subject.type_@
    &&& n.repository.name@ == item.repository.name@
    &&& n.repository.full_name@ == item.repository.full_name@
    &&& n.repository.url@ == item.repository.url@
    &&& n.repository.html_url@ == item.repository.html_url@
}

/// A copy of an optional string, empty where it is absent.
pub fn string_or_empty(o: &Option<String>) -> (r: String)
    ensures
        r@ == text_or_empty(*o),
{
    match o {
        Some(s) => s.clone(),
        None => String::new(),
    }
}

/// The display form of one raw entry.
pub fn to_notification(item: &NotificationItem) -> (r: Notification)
    ensures
        displays(*item, r),
{
    Notification {
        id: item.id.clone(),
        unread: item.unread,
        reason: item.reason.clone(),
        url: item.url.clone(),
        subject: Subject {
            title: item.subject.title.clone(),
            url: string_or_empty(&item.subject.url),
            latest_comment_url: string_or_empty(&item.subject.latest_comment_url),
            type_: item.subject.type_.clone(),
        },
        repository: Repository {
            name: item.repository.name.clone(),
            full_name: item.repository.full_name.clone(),
            url: item.repository.url.clone(),
            html_url: item.repository.html_url.clone(),
        },
    }
}

/// The display list of a fetched page: one record per entry, in server order.
pub fn map_notifications(items: &Vec<NotificationItem>) -> (r: Vec<Notification>)
    ensures
        r@.len() == items@.len(),
        forall|i: int| 0 <= i < items@.len() ==> #[trigger] displays(items@[i], r@[i]),
        forall|i: int|
            0 <= i < items@.len() && (#[trigger] items@[i]).subject.url is None
                ==> r@[i].subject.url@ == Seq::<char>::empty(),
        forall|i: int|
            0 <= i < items@.len() && (#[trigger] items@[i]).subject.latest_comment_url is None
                ==> r@[i].subject.latest_comment_url@ == Seq::<char>::empty(),
{
    let mut r: Vec<Notification> = Vec::new();
    let mut i: usize = 0;
    while i < items.len()
        invariant
            i <= items@.len(),
            r@.len() == i,
            forall|j: int| 0 <= j < i ==> #[trigger] displays(items@[j], r@[j]),
        decreases items@.len() - i,
    {
        let n = to_notification(&items[i]);
        r.push(n);
        i = i + 1;
    }
    assert forall|i: int| #![trigger items@[i]] 0 <= i < items@.len() implies displays(items@[i], r@[i])
        && r@[i].subject.url@ == text_or_empty(items@[i].subject.url)
        && r@[i].subject.latest_comment_url@ == text_or_empty(
        items@[i].subject.latest_comment_url,
    ) by {
        assert(displays(items@[i], r@[i]));
    }
    r
}

} // verus!
