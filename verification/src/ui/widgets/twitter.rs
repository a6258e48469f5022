//! The widget for the live service: a list of tweets, and the windows in
//! which a tweet, a reply or a search is written. What is written goes to
//! a command-line client; the widget says which command is due and takes in
//! what came of it.

use crate::config::{Position, TwitterConfig};
use crate::text::{
    chars_of, decimal, decimal_of, lines_of, push_all, slice, split_lines, string_of,
    without_return,
};
use crate::twitter_message::{Tweet, TweetView};
use crate::ui::widgets::{make_widget_id, widget_id, ScrollState};
use vstd::prelude::*;

verus! {

/// `String::pop` of the standard library: takes the last character off the
/// string and returns it; an empty string stays empty and gives nothing.
pub assume_specification[ String::pop ](s: &mut String) -> (c: Option<char>)
    ensures
        old(s)@.len() == 0 ==> c is None && final(s)@ == old(s)@,
        old(s)@.len() > 0 ==> c == Some(old(s)@.last()) && final(s)@ == old(s)@.drop_last(),
;

/// Which window of the widget is open.
#[derive(Debug, Clone, Copy, PartialEq, Eq, Structural)]
pub enum TwitterMode {
    /// None: the list has the keys.
    Normal,
    /// A tweet is being written.
    Compose,
    /// A reply to the selected tweet is being written.
    Reply,
    /// A search is being written.
    Search,
}

/// A tweet and its thread, as the client printed them.
#[derive(Debug, Clone)]
pub struct TweetDetail {
    pub content: String,
}

/// The widget for the live service.
#[derive(Debug, Clone)]
pub struct TwitterWidget {
    pub id: String,
    pub title: String,
    pub position: Position,
    pub selected: bool,
    pub tweets: Vec<Tweet>,
    pub selected_index: usize,
    pub list_state: ScrollState,
    pub mode: TwitterMode,
    pub compose_text: String,
    pub search_query: String,
    pub detail_view: Option<TweetDetail>,
    pub status_message: Option<String>,
}

/// What a `TwitterWidget` holds, as plain values.
pub ghost struct TwitterWidgetView {
    pub id: Seq<char>,
    pub title: Seq<char>,
    pub position: Position,
    pub selected: bool,
    pub tweets: Seq<TweetView>,
    pub selected_index: usize,
    pub list_state: ScrollState,
    pub mode: TwitterMode,
    pub compose_text: Seq<char>,
    pub search_query: Seq<char>,
    pub detail_view: Option<Seq<char>>,
    pub status_message: Option<Seq<char>>,
}

impl View for TwitterWidget {
    type V = TwitterWidgetView;

    open spec fn view(&self) -> TwitterWidgetView {
        TwitterWidgetView {
            id: self.id@,
            title: self.title@,
            position: self.position,
            selected: self.selected,
            tweets: self.tweets.deep_view(),
            selected_index: self.selected_index,
            list_state: self.list_state,
            mode: self.mode,
            compose_text: self.compose_text@,
            search_query: self.search_query@,
            detail_view: match self.detail_view {
                Some(detail) => Some(detail.content@),
                None => None,
            },
            status_message: self.status_message.deep_view(),
        }
    }
}

/// The widget with every window closed and nothing written.
pub open spec fn modal_closed(w: TwitterWidgetView) -> TwitterWidgetView {
    TwitterWidgetView {
        mode: TwitterMode::Normal,
        compose_text: Seq::empty(),
        search_query: Seq::empty(),
        ..w
    }
}

/// The widget after the client has answered: with `done` and the answer
/// as its status and every window closed where the client succeeded, with
/// `failed` and the reason as its status where it did not.
pub open spec fn posted(
    w: TwitterWidgetView,
    outcome: Result<Seq<char>, Seq<char>>,
    done: Seq<char>,
    failed: Seq<char>,
) -> TwitterWidgetView {
    match outcome {
        Ok(output) => TwitterWidgetView { status_message: Some(done + output), ..modal_closed(w) },
        Err(e) => TwitterWidgetView { status_message: Some(failed + e), ..w },
    }
}

/// The tweets that the widget lists for the lines of the client's output:
/// one for each line that is not empty, named by `kind` and the number of
/// the line, counted from zero.
pub open spec fn numbered(lines: Seq<Seq<char>>, kind: Seq<char>) -> Seq<TweetView>
    decreases lines.len(),
{
    if lines.len() == 0 {
        Seq::empty()
    } else if lines.last().len() > 0 {
        numbered(lines.drop_last(), kind).push(
            TweetView {
                id: kind + seq!['-'] + decimal((lines.len() - 1) as nat),
                author: "Unknown"@,
                text: lines.last(),
                url: None,
            },
        )
    } else {
        numbered(lines.drop_last(), kind)
    }
}

/// The address of the tweet that is selected, where there is one.
pub open spec fn selected_url(w: TwitterWidgetView) -> Option<Seq<char>> {
    if w.selected_index < w.tweets.len() {
        w.tweets[w.selected_index as int].url
    } else {
        None
    }
}

/// The words of the command that posts what is written: there is none
/// while nothing is written.
pub open spec fn tweet_words(w: TwitterWidgetView) -> Option<Seq<Seq<char>>> {
    if w.compose_text.len() == 0 {
        None
    } else {
        Some(seq!["tweet"@, w.compose_text])
    }
}

/// The words of the command that posts what is written as a reply to the
/// selected tweet: there is none while nothing is written, or where the
/// selected tweet has no address.
pub open spec fn reply_words(w: TwitterWidgetView) -> Option<Seq<Seq<char>>> {
    if w.compose_text.len() == 0 {
        None
    } else {
        match selected_url(w) {
            Some(url) => Some(seq!["reply"@, url, w.compose_text]),
            None => None,
        }
    }
}

/// The words of the command that searches for what is written: there is
/// none while nothing is written.
pub open spec fn search_words(w: TwitterWidgetView) -> Option<Seq<Seq<char>>> {
    if w.search_query.len() == 0 {
        None
    } else {
        Some(seq!["search"@, w.search_query, "-n"@, "5"@])
    }
}

/// The words of the command that reads the selected tweet: there is none
/// where the selected tweet has no address.
pub open spec fn read_words(w: TwitterWidgetView) -> Option<Seq<Seq<char>>> {
    match selected_url(w) {
        Some(url) => Some(seq!["read"@, url]),
        None => None,
    }
}

/// The views of the words of a command.
pub open spec fn words_of(command: Option<Vec<String>>) -> Option<Seq<Seq<char>>> {
    match command {
        Some(words) => Some(words.deep_view()),
        None => None,
    }
}

/// What came of a command, as plain values: what the client printed, or
/// why it failed.
pub open spec fn outcome_of(outcome: Result<String, String>) -> Result<Seq<char>, Seq<char>> {
    match outcome {
        Ok(output) => Ok(output@),
        Err(e) => Err(e@),
    }
}

/// `first` and then `second`, as one string.
fn joined(first: &str, second: &str) -> (r: String)
    ensures
        r@ == first@ + second@,
{
    let mut out = chars_of(first);
    push_all(&mut out, &chars_of(second));
    string_of(&out)
}

impl TwitterWidget {
    /// A widget as `config` sets it up: no tweets, no window open.
    pub fn new(config: TwitterConfig) -> (r: Self)
        ensures
            r@ == (TwitterWidgetView {
                id: widget_id("twitter"@, config.position.row, config.position.col),
                title: config.title@,
                position: config.position,
                selected: false,
                tweets: Seq::empty(),
                selected_index: 0,
                list_state: ScrollState { selected: Some(0usize) },
                mode: TwitterMode::Normal,
                compose_text: Seq::empty(),
                search_query: Seq::empty(),
                detail_view: None,
                status_message: None,
            }),
    {
        let mut list_state = ScrollState::new();
        list_state.select(Some(0));
        let r = TwitterWidget {
            id: make_widget_id("twitter", config.position.row, config.position.col),
            title: config.title,
            position: config.position,
            selected: false,
            tweets: Vec::new(),
            selected_index: 0,
            list_state,
            mode: TwitterMode::Normal,
            compose_text: String::new(),
            search_query: String::new(),
            detail_view: None,
            status_message: None,
        };
        assert(r.tweets.deep_view() =~= Seq::<TweetView>::empty());
        r
    }

    /// Opens the window for a new tweet, with nothing written.
    pub fn open_compose(&mut self)
        ensures
            final(self)@ == (TwitterWidgetView {
                mode: TwitterMode::Compose,
                compose_text: Seq::empty(),
                ..old(self)@
            }),
    {
        self.mode = TwitterMode::Compose;
        self.compose_text = String::new();
    }

    /// Opens the window for a reply, with nothing written, where there is
    /// a tweet to reply to.
    pub fn open_reply(&mut self)
        ensures
            final(self)@ == if old(self)@.tweets.len() > 0 {
                TwitterWidgetView {
                    mode: TwitterMode::Reply,
                    compose_text: Seq::empty(),
                    ..old(self)@
                }
            } else {
                old(self)@
            },
    {
        assert(self.tweets.deep_view().len() == self.tweets.len());
        if self.tweets.len() > 0 {
            self.mode = TwitterMode::Reply;
            self.compose_text = String::new();
        }
    }

    /// Opens the window for a search, with nothing written.
    pub fn open_search(&mut self)
        ensures
            final(self)@ == (TwitterWidgetView {
                mode: TwitterMode::Search,
                search_query: Seq::empty(),
                ..old(self)@
            }),
    {
        self.mode = TwitterMode::Search;
        self.search_query = String::new();
    }

    /// Closes whichever window is open and drops what was written.
    pub fn close_modal(&mut self)
        ensures
            final(self)@ == modal_closed(old(self)@),
    {
        self.mode = TwitterMode::Normal;
        self.compose_text = String::new();
        self.search_query = String::new();
    }

    /// Writes `c` into the window that is open.
    pub fn add_char(&mut self, c: char)
        ensures
            final(self)@ == match old(self).mode {
                TwitterMode::Compose | TwitterMode::Reply => TwitterWidgetView {
                    compose_text: old(self)@.compose_text.push(c),
                    ..old(self)@
                },
                TwitterMode::Search => TwitterWidgetView {
                    search_query: old(self)@.search_query.push(c),
                    ..old(self)@
                },
                TwitterMode::Normal => old(self)@,
            },
    {
        match self.mode {
            TwitterMode::Compose | TwitterMode::Reply => {
                self.compose_text.push(c);
            },
            TwitterMode::Search => {
                self.search_query.push(c);
            },
            TwitterMode::Normal => {},
        }
    }

    /// Takes back the last character written in the window that is open.
    pub fn delete_char(&mut self)
        ensures
            final(self)@ == match old(self).mode {
                TwitterMode::Compose | TwitterMode::Reply => TwitterWidgetView {
                    compose_text: if old(self)@.compose_text.len() > 0 {
                        old(self)@.compose_text.drop_last()
                    } else {
                        old(self)@.compose_text
                    },
                    ..old(self)@
                },
                TwitterMode::Search => TwitterWidgetView {
                    search_query: if old(self)@.search_query.len() > 0 {
                        old(self)@.search_query.drop_last()
                    } else {
                        old(self)@.search_query
                    },
                    ..old(self)@
                },
                TwitterMode::Normal => old(self)@,
            },
    {
        match self.mode {
            TwitterMode::Compose | TwitterMode::Reply => {
                self.compose_text.pop();
            },
            TwitterMode::Search => {
                self.search_query.pop();
            },
            TwitterMode::Normal => {},
        }
    }

    /// The address of the tweet that is selected.
    pub fn get_selected_discussion_url(&self) -> (r: Option<String>)
        ensures
            r.deep_view() == selected_url(self@),
    {
        if self.selected_index < self.tweets.len() {
            match &self.tweets[self.selected_index].url {
                Some(url) => Some(url.clone()),
                None => None,
            }
        } else {
            None
        }
    }

    /// The command that posts what is written.
    pub fn tweet_command(&self) -> (r: Option<Vec<String>>)
        ensures
            words_of(r) == tweet_words(self@),
    {
        if self.compose_text.as_str().is_empty() {
            None
        } else {
            let words: Vec<String> = vec!["tweet".to_owned(), self.compose_text.clone()];
            assert(words.deep_view() =~= seq!["tweet"@, self.compose_text@]);
            Some(words)
        }
    }

    /// Takes in what came of posting a tweet.
    pub fn tweet_posted(&mut self, outcome: Result<String, String>)
        ensures
            final(self)@ == posted(
                old(self)@,
                outcome_of(outcome),
                "Tweet posted: "@,
                "Error: "@,
            ),
    {
        match outcome {
            Ok(output) => {
                self.status_message = Some(joined("Tweet posted: ", output.as_str()));
                self.close_modal();
            },
            Err(e) => {
                self.status_message = Some(joined("Error: ", e.as_str()));
            },
        }
    }

    /// The command that posts what is written as a reply to the selected
    /// tweet.
    pub fn reply_command(&self) -> (r: Option<Vec<String>>)
        ensures
            words_of(r) == reply_words(self@),
    {
        if self.compose_text.as_str().is_empty() {
            return None;
        }
        match self.get_selected_discussion_url() {
            Some(url) => {
                let words: Vec<String> = vec!["reply".to_owned(), url, self.compose_text.clone()];
                assert(words.deep_view() =~= seq!["reply"@, url@, self.compose_text@]);
                Some(words)
            },
            None => None,
        }
    }

    /// Takes in what came of posting a reply.
    pub fn reply_posted(&mut self, outcome: Result<String, String>)
        ensures
            final(self)@ == posted(
                old(self)@,
                outcome_of(outcome),
                "Reply posted: "@,
                "Error: "@,
            ),
    {
        match outcome {
            Ok(output) => {
                self.status_message = Some(joined("Reply posted: ", output.as_str()));
                self.close_modal();
            },
            Err(e) => {
                self.status_message = Some(joined("Error: ", e.as_str()));
            },
        }
    }

    /// The command that searches for what is written.
    pub fn search_command(&self) -> (r: Option<Vec<String>>)
        ensures
            words_of(r) == search_words(self@),
    {
        if self.search_query.as_str().is_empty() {
            None
        } else {
            let words: Vec<String> = vec![
                "search".to_owned(),
                self.search_query.clone(),
                "-n".to_owned(),
                "5".to_owned(),
            ];
            assert(words.deep_view() =~= seq!["search"@, self.search_query@, "-n"@, "5"@]);
            Some(words)
        }
    }

    /// Takes in what came of a search: the tweets found replace the list
    /// and the window closes, or the reason of the failure becomes the
    /// status.
    pub fn search_finished(&mut self, outcome: Result<String, String>)
        ensures
            final(self)@ == match outcome_of(outcome) {
                Ok(output) => modal_closed(
                    TwitterWidgetView {
                        tweets: numbered(lines_of(output), "tweet"@),
                        ..old(self)@
                    },
                ),
                Err(e) => TwitterWidgetView {
                    status_message: Some("Search error: "@ + e),
                    ..old(self)@
                },
            },
    {
        match outcome {
            Ok(output) => {
                self.parse_search_results(output.as_str());
                self.close_modal();
            },
            Err(e) => {
                self.status_message = Some(joined("Search error: ", e.as_str()));
            },
        }
    }

    /// The command that lists the mentions.
    pub fn mentions_command(&self) -> (r: Vec<String>)
        ensures
            r.deep_view() == seq!["mentions"@, "-n"@, "5"@],
    {
        let words: Vec<String> = vec!["mentions".to_owned(), "-n".to_owned(), "5".to_owned()];
        assert(words.deep_view() =~= seq!["mentions"@, "-n"@, "5"@]);
        words
    }

    /// Takes in what came of listing the mentions: they replace the list,
    /// or the reason of the failure becomes the status.
    pub fn mentions_loaded(&mut self, outcome: Result<String, String>)
        ensures
            final(self)@ == match outcome_of(outcome) {
                Ok(output) => TwitterWidgetView {
                    tweets: numbered(lines_of(output), "mention"@),
                    ..old(self)@
                },
                Err(e) => TwitterWidgetView {
                    status_message: Some("Mentions error: "@ + e),
                    ..old(self)@
                },
            },
    {
        match outcome {
            Ok(output) => {
                self.parse_mentions(output.as_str());
            },
            Err(e) => {
                self.status_message = Some(joined("Mentions error: ", e.as_str()));
            },
        }
    }

    /// The command that reads the selected tweet and its thread.
    pub fn read_command(&self) -> (r: Option<Vec<String>>)
        ensures
            words_of(r) == read_words(self@),
    {
        match self.get_selected_discussion_url() {
            Some(url) => {
                let words: Vec<String> = vec!["read".to_owned(), url];
                assert(words.deep_view() =~= seq!["read"@, url@]);
                Some(words)
            },
            None => None,
        }
    }

    /// Takes in what came of reading a tweet: what the client printed is
    /// shown in a window of its own, or the reason of the failure becomes
    /// the status.
    pub fn tweet_read(&mut self, outcome: Result<String, String>)
        ensures
            final(self)@ == match outcome_of(outcome) {
                Ok(output) => TwitterWidgetView { detail_view: Some(output), ..old(self)@ },
                Err(e) => TwitterWidgetView {
                    status_message: Some("Read error: "@ + e),
                    ..old(self)@
                },
            },
    {
        match outcome {
            Ok(output) => {
                self.detail_view = Some(TweetDetail { content: output });
            },
            Err(e) => {
                self.status_message = Some(joined("Read error: ", e.as_str()));
            },
        }
    }

    /// Closes the window that shows a tweet and its thread.
    pub fn close_detail_view(&mut self)
        ensures
            final(self)@ == (TwitterWidgetView { detail_view: None, ..old(self)@ }),
    {
        self.detail_view = None;
    }

    /// Lists one tweet for each line of `output` that is not empty.
    fn list_lines(&mut self, output: &str, kind: &str)
        ensures
            final(self)@ == (TwitterWidgetView {
                tweets: numbered(lines_of(output@), kind@),
                ..old(self)@
            }),
    {
        let text = chars_of(output);
        let mut tweets: Vec<Tweet> = Vec::new();
        let mut line: Vec<char> = Vec::new();
        let ghost mut done: Seq<Seq<char>> = Seq::empty();
        let mut index: usize = 0;
        let mut i: usize = 0;
        assert(text@.take(0) =~= Seq::<char>::empty());
        assert(split_lines(text@.take(0)) =~= done.push(line@));
        assert(tweets.deep_view() =~= Seq::<TweetView>::empty());
        assert(done.map_values(|piece: Seq<char>| without_return(piece)) =~= Seq::<
            Seq<char>,
        >::empty());
        while i < text.len()
            invariant
                i <= text.len(),
                index <= i,
                index == done.len(),
                split_lines(text@.take(i as int)) == done.push(line@),
                tweets.deep_view() == numbered(
                    done.map_values(|piece: Seq<char>| without_return(piece)),
                    kind@,
                ),
            decreases text.len() - i,
        {
            let c = text[i];
            assert(text@.take(i + 1).drop_last() =~= text@.take(i as int));
            if c == '\n' {
                let ghost before = tweets.deep_view();
                let ghost lines = done.map_values(|piece: Seq<char>| without_return(piece));
                let end = if line.len() > 0 && line[line.len() - 1] == '\r' {
                    line.len() - 1
                } else {
                    line.len()
                };
                assert(line@.subrange(0, end as int) =~= without_return(line@));
                if end > 0 {
                    let tweet = self::numbered_tweet(kind, index, slice(&line, 0, end));
                    tweets.push(tweet);
                    assert(tweets.deep_view() =~= before.push(tweet.deep_view()));
                }
                proof {
                    assert(done.push(line@).drop_last() =~= done);
                    assert(done.push(line@).map_values(|piece: Seq<char>| without_return(piece))
                        =~= lines.push(without_return(line@)));
                    assert(lines.push(without_return(line@)).drop_last() =~= lines);
                    done = done.push(line@);
                }
                line = Vec::new();
                index += 1;
            } else {
                let ghost before = line@;
                line.push(c);
                assert(done.push(before).drop_last() =~= done);
            }
            i += 1;
        }
        assert(text@.take(i as int) =~= text@);
        proof {
            assert(done.push(line@).drop_last() =~= done);
        }
        if line.len() > 0 {
            let ghost before = tweets.deep_view();
            let ghost lines = done.map_values(|piece: Seq<char>| without_return(piece));
            assert(lines.push(line@).drop_last() =~= lines);
            assert(line@.subrange(0, line.len() as int) =~= line@);
            let tweet = self::numbered_tweet(kind, index, slice(&line, 0, line.len()));
            tweets.push(tweet);
            assert(tweets.deep_view() =~= before.push(tweet.deep_view()));
        }
        self.tweets = tweets;
    }

    /// Lists the tweets that a search found: one for each line of the
    /// client's output that is not empty.
    pub fn parse_search_results(&mut self, output: &str)
        ensures
            final(self)@ == (TwitterWidgetView {
                tweets: numbered(lines_of(output@), "tweet"@),
                ..old(self)@
            }),
    {
        self.list_lines(output, "tweet");
    }

    /// Lists the mentions: one for each line of the client's output that
    /// is not empty.
    pub fn parse_mentions(&mut self, output: &str)
        ensures
            final(self)@ == (TwitterWidgetView {
                tweets: numbered(lines_of(output@), "mention"@),
                ..old(self)@
            }),
    {
        self.list_lines(output, "mention");
    }

    /// Whether a window is open that takes the keys.
    pub fn is_modal_open(&self) -> (r: bool)
        ensures
            r == (self.mode != TwitterMode::Normal || self.detail_view is Some),
    {
        self.mode != TwitterMode::Normal || self.detail_view.is_some()
    }

    /// Moves the selection up by one tweet, unless it is at the first.
    pub fn scroll_up(&mut self)
        ensures
            final(self)@ == if old(self)@.tweets.len() > 0 && old(self).selected_index > 0 {
                TwitterWidgetView {
                    selected_index: (old(self).selected_index - 1) as usize,
                    list_state: ScrollState {
                        selected: Some((old(self).selected_index - 1) as usize),
                    },
                    ..old(self)@
                }
            } else {
                old(self)@
            },
    {
        assert(self.tweets.deep_view().len() == self.tweets.len());
        if self.tweets.len() > 0 && self.selected_index > 0 {
            self.selected_index -= 1;
            self.list_state.select(Some(self.selected_index));
        }
    }

    /// Moves the selection down by one tweet, unless it is at the last.
    pub fn scroll_down(&mut self)
        ensures
            final(self)@ == if old(self).selected_index + 1 < old(self)@.tweets.len() {
                TwitterWidgetView {
                    selected_index: (old(self).selected_index + 1) as usize,
                    list_state: ScrollState {
                        selected: Some((old(self).selected_index + 1) as usize),
                    },
                    ..old(self)@
                }
            } else {
                old(self)@
            },
    {
        assert(self.tweets.deep_view().len() == self.tweets.len());
        if self.tweets.len() > 0 && self.selected_index < self.tweets.len() - 1 {
            self.selected_index += 1;
            self.list_state.select(Some(self.selected_index));
        }
    }

    /// Marks the widget as the one that keys go to, or not.
    pub fn set_selected(&mut self, selected: bool)
        ensures
            final(self)@ == (TwitterWidgetView { selected, ..old(self)@ }),
    {
        self.selected = selected;
    }
}

/// The tweet that the widget lists for the line `text`, which is the line
/// number `index`.
fn numbered_tweet(kind: &str, index: usize, text: Vec<char>) -> (r: Tweet)
    ensures
        r@ == (TweetView {
            id: kind@ + seq!['-'] + decimal(index as nat),
            author: "Unknown"@,
            text: text@,
            url: None,
        }),
{
    let mut id = chars_of(kind);
    id.push('-');
    push_all(&mut id, &decimal_of(index as u128));
    assert(id@ =~= kind@ + seq!['-'] + decimal(index as nat));
    Tweet {
        id: string_of(&id),
        author: "Unknown".to_owned(),
        text: string_of(&text),
        url: None,
    }
}

} // verus!
