//! What the command-line client for the live service reports.

use vstd::prelude::*;

verus! {

/// One tweet of a search or of the mentions.
#[derive(Debug, Clone)]
pub struct Tweet {
    /// What tells the tweet from others: its address.
    pub id: String,
    /// The author's handle, without `@`.
    pub author: String,
    /// The tweet's text, on one line.
    pub text: String,
    /// The tweet's address.
    pub url: Option<String>,
}

/// What a `Tweet` holds, as plain values.
pub ghost struct TweetView {
    pub id: Seq<char>,
    pub author: Seq<char>,
    pub text: Seq<char>,
    pub url: Option<Seq<char>>,
}

impl View for Tweet {
    type V = TweetView;

    open spec fn view(&self) -> TweetView {
        TweetView {
            id: self.id@,
            author: self.author@,
            text: self.text@,
            url: self.url.deep_view(),
        }
    }
}

impl DeepView for Tweet {
    type V = TweetView;

    open spec fn deep_view(&self) -> TweetView {
        self@
    }
}

/// A report of the client, for the widget that asked.
#[derive(Debug, Clone)]
pub struct TwitterMessage {
    pub widget_id: String,
    pub data: TwitterData,
}

/// What the client did or found.
#[derive(Debug, Clone)]
pub enum TwitterData {
    TweetPosted(String),
    ReplyPosted(String),
    SearchResults(Vec<Tweet>),
    Mentions(Vec<Tweet>),
    TweetDetail(String),
    Error(String),
}

} // verus!
