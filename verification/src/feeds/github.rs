//! Notifications of the code host.

use crate::feeds::{GithubDashboard, GithubNotification};
use crate::text::{chars_of, push_all, string_of};
use vstd::prelude::*;

verus! {

/// Where the code host answers.
pub const GITHUB_API_BASE: &'static str = "https://api.github.com";

/// A notification as the code host's interface gives it.
#[derive(Debug, Clone)]
pub struct GithubApiNotification {
    pub id: String,
    pub subject: Subject,
    pub repository: Repository,
    pub unread: bool,
    pub updated_at: String,
    pub reason: String,
}

/// What a notification is about.
#[derive(Debug, Clone)]
pub struct Subject {
    pub title: String,
    pub notification_type: String,
    pub url: Option<String>,
}

/// The repository that a notification belongs to.
#[derive(Debug, Clone)]
pub struct Repository {
    pub full_name: String,
}

/// Asks the code host for the notifications of an account.
pub struct GithubFetcher {
    /// The token that the account is known by.
    pub token: String,
    /// How many notifications to show at most.
    pub max_notifications: usize,
}

/// The notification that the dashboard shows for `n`. Where the subject has
/// no address, `N/A` stands for it.
pub open spec fn shown(n: GithubApiNotification, out: GithubNotification) -> bool {
    &&& out.id@ == n.id@
    &&& out.title@ == n.subject.title@
    &&& out.notification_type@ == n.subject.notification_type@
    &&& out.repository@ == n.repository.full_name@
    &&& out.url@ == match n.subject.url {
        Some(url) => url@,
        None => "N/A"@,
    }
    &&& out.unread == n.unread
    &&& out.updated_at@ == n.updated_at@
    &&& out.reason@ == n.reason@
}

impl GithubFetcher {
    /// A fetcher for the account of `token` that shows at most
    /// `max_notifications` notifications.
    pub fn new(token: String, max_notifications: usize) -> (r: Self)
        ensures
            r.token == token,
            r.max_notifications == max_notifications,
    {
        GithubFetcher { token, max_notifications }
    }

    /// The address that the notifications are asked from.
    pub fn notifications_url(&self) -> (r: String)
        ensures
            r@ == GITHUB_API_BASE@ + "/notifications"@,
    {
        let mut url = chars_of(GITHUB_API_BASE);
        push_all(&mut url, &chars_of("/notifications"));
        string_of(&url)
    }

    /// The value of the `Authorization` header of the request.
    pub fn authorization(&self) -> (r: String)
        ensures
            r@ == "Bearer "@ + self.token@,
    {
        let mut value = chars_of("Bearer ");
        push_all(&mut value, &chars_of(self.token.as_str()));
        string_of(&value)
    }

    /// The dashboard for an answer of the code host: its first
    /// `max_notifications` notifications, in the order of the answer.
    pub fn dashboard(&self, answer: Vec<GithubApiNotification>) -> (r: GithubDashboard)
        ensures
            r.notifications.len() == if answer.len() < self.max_notifications {
                answer.len()
            } else {
                self.max_notifications
            },
            forall|i: int|
                0 <= i < r.notifications.len() ==> shown(answer[i], #[trigger] r.notifications[i]),
            r.pull_requests.len() == 0,
            r.commits.len() == 0,
    {
        let mut notifications: Vec<GithubNotification> = Vec::new();
        let mut i: usize = 0;
        while i < answer.len() && i < self.max_notifications
            invariant
                i <= answer.len(),
                i <= self.max_notifications,
                notifications.len() == i,
                forall|j: int| 0 <= j < i ==> shown(answer[j], #[trigger] notifications[j]),
            decreases answer.len() - i,
        {
            let n = &answer[i];
            let url = match &n.subject.url {
                Some(url) => url.clone(),
                None => "N/A".to_owned(),
            };
            notifications.push(
                GithubNotification {
                    id: n.id.clone(),
                    title: n.subject.title.clone(),
                    notification_type: n.subject.notification_type.clone(),
                    repository: n.repository.full_name.clone(),
                    url,
                    unread: n.unread,
                    updated_at: n.updated_at.clone(),
                    reason: n.reason.clone(),
                },
            );
            i += 1;
        }
        GithubDashboard { notifications, pull_requests: Vec::new(), commits: Vec::new() }
    }
}

} // verus!
