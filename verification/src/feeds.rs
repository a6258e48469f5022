//! The data that the feeds hand to the dashboard.

use vstd::prelude::*;

pub mod github;
pub mod tweet_text;
pub mod twitter_archive;

verus! {

/// What a feed sends to the widget that shows it.
#[derive(Debug, Clone)]
pub struct FeedMessage {
    pub widget_id: String,
    pub data: FeedData,
}

/// What a feed has to show. Stock quotes, which hold prices as floating
/// point numbers, are not among the cases.
#[derive(Debug, Clone)]
pub enum FeedData {
    HackerNews(Vec<HnStory>),
    Rss(Vec<RssItem>),
    Sports(Vec<SportsEvent>),
    Github(GithubDashboard),
    Youtube(Vec<YoutubeVideo>),
    TwitterArchive(Vec<TwitterArchiveItem>),
    Loading,
    Error(String),
}

/// A story of the news aggregator.
#[derive(Debug, Clone)]
pub struct HnStory {
    pub id: u64,
    pub title: String,
    pub url: Option<String>,
    pub score: u32,
    pub by: String,
    pub descendants: u32,
}

/// An entry of a syndication feed.
#[derive(Debug, Clone)]
pub struct RssItem {
    pub title: String,
    pub link: Option<String>,
    pub published: Option<String>,
    pub source: String,
    pub description: Option<String>,
}

/// A game and its score.
#[derive(Debug, Clone)]
pub struct SportsEvent {
    pub league: String,
    pub home_team: String,
    pub away_team: String,
    pub home_score: Option<u32>,
    pub away_score: Option<u32>,
    pub status: String,
    pub start_time: Option<String>,
}

/// A notification of the code host.
#[derive(Debug, Clone)]
pub struct GithubNotification {
    pub id: String,
    pub title: String,
    pub notification_type: String,
    pub repository: String,
    pub url: String,
    pub unread: bool,
    pub updated_at: String,
    pub reason: String,
}

/// A pull request of the code host.
#[derive(Debug, Clone)]
pub struct GithubPullRequest {
    pub id: u64,
    pub number: u32,
    pub title: String,
    pub repository: String,
    pub state: String,
    pub author: String,
    pub created_at: String,
    pub updated_at: String,
    pub draft: bool,
    pub mergeable: Option<bool>,
    pub comments: u32,
    pub review_comments: u32,
    pub additions: u32,
    pub deletions: u32,
}

/// A commit of the code host.
#[derive(Debug, Clone)]
pub struct GithubCommit {
    pub sha: String,
    pub message: String,
    pub author: String,
    pub repository: String,
    pub branch: String,
    pub timestamp: String,
    pub additions: u32,
    pub deletions: u32,
    pub url: String,
}

/// All that the code host reports.
#[derive(Debug, Clone)]
pub struct GithubDashboard {
    pub notifications: Vec<GithubNotification>,
    pub pull_requests: Vec<GithubPullRequest>,
    pub commits: Vec<GithubCommit>,
}

impl Default for GithubDashboard {
    /// A dashboard that reports nothing.
    fn default() -> (r: Self)
        ensures
            r.notifications@.len() == 0,
            r.pull_requests@.len() == 0,
            r.commits@.len() == 0,
    {
        GithubDashboard {
            notifications: Vec::new(),
            pull_requests: Vec::new(),
            commits: Vec::new(),
        }
    }
}

/// A video of a channel.
#[derive(Debug, Clone)]
pub struct YoutubeVideo {
    pub id: String,
    pub title: String,
    pub channel: String,
    pub published: String,
    pub description: String,
    pub thumbnail_url: Option<String>,
    pub view_count: Option<String>,
    pub duration: Option<String>,
}

/// One archived capture of a tweet.
#[derive(Debug, Clone)]
pub struct TwitterArchiveItem {
    /// The archive's timestamp of the capture, as the index gave it.
    pub timestamp: String,
    /// The address that was captured.
    pub original_url: String,
    /// Where the archive serves the capture.
    pub archive_url: String,
    /// The tweet's text, once it has been recovered from the capture.
    pub tweet_text: Option<String>,
    /// The author's handle, with its leading `@`.
    pub author: Option<String>,
    /// The timestamp in a form for people.
    pub date_display: String,
}

/// What a `TwitterArchiveItem` holds, as plain values.
pub ghost struct ArchiveItemView {
    pub timestamp: Seq<char>,
    pub original_url: Seq<char>,
    pub archive_url: Seq<char>,
    pub tweet_text: Option<Seq<char>>,
    pub author: Option<Seq<char>>,
    pub date_display: Seq<char>,
}

impl View for TwitterArchiveItem {
    type V = ArchiveItemView;

    open spec fn view(&self) -> ArchiveItemView {
        ArchiveItemView {
            timestamp: self.timestamp@,
            original_url: self.original_url@,
            archive_url: self.archive_url@,
            tweet_text: self.tweet_text.deep_view(),
            author: self.author.deep_view(),
            date_display: self.date_display@,
        }
    }
}

impl DeepView for TwitterArchiveItem {
    type V = ArchiveItemView;

    open spec fn deep_view(&self) -> ArchiveItemView {
        self@
    }
}

} // verus!
