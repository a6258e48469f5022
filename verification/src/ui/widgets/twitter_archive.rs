//! The widget for archived tweets.

use crate::config::TwitterArchiveConfig;
use crate::feeds::twitter_archive::TwitterArchiveFetcher;
use crate::feeds::{FeedData, TwitterArchiveItem};
use crate::text::{chars_of, decimal, decimal_of, push_all, string_of};
use crate::ui::widgets::{
    choose_screen, make_widget_id, moved_down, moved_up, screen_of, widget_id, Screen,
    ScrollState, SelectedItem,
};
use vstd::prelude::*;

verus! {

/// The widget for archived tweets: the captures that its feed brought, and
/// which of them is selected.
pub struct TwitterArchiveWidget {
    pub config: TwitterArchiveConfig,
    pub items: Vec<TwitterArchiveItem>,
    pub loading: bool,
    pub error: Option<String>,
    pub scroll_state: ScrollState,
    pub selected: bool,
}

/// What the list shows of a capture: its number, the tweet's text or, for
/// want of it, the address, then the author and the date.
#[derive(Debug, Clone)]
pub struct ListRow {
    pub number: String,
    pub preview: String,
    pub author: String,
    pub date: String,
}

/// The first line of a capture in the list: the tweet's text or, for want
/// of it, the address.
pub open spec fn preview_of(item: TwitterArchiveItem) -> Seq<char> {
    match item.tweet_text {
        Some(text) => text@,
        None => item.original_url@,
    }
}

/// Who a capture is by, as the list names it.
pub open spec fn author_of(item: TwitterArchiveItem) -> Seq<char> {
    match item.author {
        Some(author) => author@,
        None => "unknown"@,
    }
}

/// Where a capture comes from, as it is handed out.
pub open spec fn source_of(item: TwitterArchiveItem) -> Seq<char> {
    match item.author {
        Some(author) => author@,
        None => "Wayback Machine"@,
    }
}

/// `out` is what the widget hands out of `item`.
pub open spec fn hands_out(item: TwitterArchiveItem, out: SelectedItem) -> bool {
    &&& out.title@ == preview_of(item)
    &&& out.url.deep_view() == Some(item.archive_url@)
    &&& out.description.deep_view() == item.tweet_text.deep_view()
    &&& out.source@ == source_of(item)
    &&& out.metadata.deep_view() == Some(item.date_display@)
}

/// `row` is what the list shows of `item`, which stands at `index`.
pub open spec fn shows(item: TwitterArchiveItem, index: int, row: ListRow) -> bool {
    &&& row.number@ == decimal((index + 1) as nat) + ". "@
    &&& row.preview@ == preview_of(item)
    &&& row.author@ == author_of(item)
    &&& row.date@ == " | "@ + item.date_display@
}

impl TwitterArchiveWidget {
    /// A widget as `config` sets it up: it waits for its first data, with
    /// the first entry selected.
    pub fn new(config: TwitterArchiveConfig) -> (r: Self)
        ensures
            r.config == config,
            r.items@.len() == 0,
            r.loading,
            r.error is None,
            r.scroll_state.selected == Some(0usize),
            !r.selected,
    {
        let mut scroll_state = ScrollState::new();
        scroll_state.select(Some(0));
        TwitterArchiveWidget {
            config,
            items: Vec::new(),
            loading: true,
            error: None,
            scroll_state,
            selected: false,
        }
    }

    /// The name that tells the widget from the others.
    pub fn id(&self) -> (r: String)
        ensures
            r@ == widget_id(
                "twitter_archive"@,
                self.config.position.row,
                self.config.position.col,
            ),
    {
        make_widget_id("twitter_archive", self.config.position.row, self.config.position.col)
    }

    /// The heading of the widget.
    pub fn title(&self) -> (r: &str)
        ensures
            r@ == self.config.title@,
    {
        self.config.title.as_str()
    }

    /// The place of the widget in the grid: row and column.
    pub fn position(&self) -> (r: (usize, usize))
        ensures
            r == (self.config.position.row, self.config.position.col),
    {
        (self.config.position.row, self.config.position.col)
    }

    /// Takes in what the feed sent. Captures replace those shown and clear
    /// the error; an error is kept beside the captures shown; the note
    /// that the feed is loading is kept as such; data of another feed
    /// changes nothing but that the widget no longer waits.
    pub fn update_data(&mut self, data: FeedData)
        ensures
            match data {
                FeedData::TwitterArchive(items) => {
                    &&& final(self).items == items
                    &&& final(self).error is None
                    &&& !final(self).loading
                },
                FeedData::Error(e) => {
                    &&& final(self).items == old(self).items
                    &&& final(self).error == Some(e)
                    &&& !final(self).loading
                },
                FeedData::Loading => {
                    &&& final(self).items == old(self).items
                    &&& final(self).error == old(self).error
                    &&& final(self).loading
                },
                _ => {
                    &&& final(self).items == old(self).items
                    &&& final(self).error == old(self).error
                    &&& !final(self).loading
                },
            },
            final(self).config == old(self).config,
            final(self).scroll_state == old(self).scroll_state,
            final(self).selected == old(self).selected,
    {
        self.loading = false;
        match data {
            FeedData::TwitterArchive(items) => {
                self.items = items;
                self.error = None;
            },
            FeedData::Error(e) => {
                self.error = Some(e);
            },
            FeedData::Loading => {
                self.loading = true;
            },
            _ => {},
        }
    }

    /// The fetcher that asks the index for what the widget is set up to
    /// show.
    pub fn create_fetcher(&self) -> (r: TwitterArchiveFetcher)
        ensures
            r.archive_query@ == self.config.archive_query@,
            r.max_items == self.config.max_items,
    {
        TwitterArchiveFetcher::new(self.config.archive_query.clone(), self.config.max_items)
    }

    /// Moves the selection up by one capture, unless it is at the first.
    pub fn scroll_up(&mut self)
        ensures
            final(self).scroll_state.selected == moved_up(old(self).scroll_state.selected),
            final(self).config == old(self).config,
            final(self).items == old(self).items,
            final(self).loading == old(self).loading,
            final(self).error == old(self).error,
            final(self).selected == old(self).selected,
    {
        self.scroll_state.up();
    }

    /// Moves the selection down by one capture, unless it is at the last.
    pub fn scroll_down(&mut self)
        ensures
            final(self).scroll_state.selected == moved_down(
                old(self).scroll_state.selected,
                old(self).items@.len(),
            ),
            final(self).config == old(self).config,
            final(self).items == old(self).items,
            final(self).loading == old(self).loading,
            final(self).error == old(self).error,
            final(self).selected == old(self).selected,
    {
        let entries = self.items.len();
        self.scroll_state.down(entries);
    }

    /// Marks the widget as the one that keys go to, or not.
    pub fn set_selected(&mut self, selected: bool)
        ensures
            final(self).selected == selected,
            final(self).config == old(self).config,
            final(self).items == old(self).items,
            final(self).loading == old(self).loading,
            final(self).error == old(self).error,
            final(self).scroll_state == old(self).scroll_state,
    {
        self.selected = selected;
    }

    /// The capture that is selected, as the dashboard hands it on: there
    /// is one where an entry is selected and the list reaches that far.
    pub fn get_selected_item(&self) -> (r: Option<SelectedItem>)
        ensures
            match self.scroll_state.selected {
                Some(i) => if i < self.items@.len() {
                    r is Some && hands_out(self.items[i as int], r->0)
                } else {
                    r is None
                },
                None => r is None,
            },
    {
        let index = match self.scroll_state.selected() {
            Some(index) => index,
            None => {
                return None;
            },
        };
        if index >= self.items.len() {
            return None;
        }
        let item = &self.items[index];
        let title = match &item.tweet_text {
            Some(text) => text.clone(),
            None => item.original_url.clone(),
        };
        let description = match &item.tweet_text {
            Some(text) => Some(text.clone()),
            None => None,
        };
        let source = match &item.author {
            Some(author) => author.clone(),
            None => "Wayback Machine".to_owned(),
        };
        Some(
            SelectedItem {
                title,
                url: Some(item.archive_url.clone()),
                description,
                source,
                metadata: Some(item.date_display.clone()),
            },
        )
    }

    /// The address where the selected capture is discussed: there is none
    /// for archived tweets.
    pub fn get_selected_discussion_url(&self) -> (r: Option<String>)
        ensures
            r is None,
    {
        None
    }

    /// What the widget has on screen.
    pub fn screen(&self) -> (r: Screen)
        ensures
            r == screen_of(self.loading, self.error is Some, self.items@.len()),
    {
        choose_screen(self.loading, self.error.is_some(), self.items.len())
    }

    /// What the list shows of each capture, in the order of the captures.
    pub fn list_rows(&self) -> (rows: Vec<ListRow>)
        ensures
            rows.len() == self.items.len(),
            forall|i: int|
                0 <= i < rows.len() ==> shows(#[trigger] self.items[i], i, rows[i]),
    {
        let mut rows: Vec<ListRow> = Vec::new();
        let mut index: usize = 0;
        while index < self.items.len()
            invariant
                index <= self.items.len(),
                rows.len() == index,
                forall|i: int| 0 <= i < index ==> shows(#[trigger] self.items[i], i, rows[i]),
            decreases self.items.len() - index,
        {
            let item = &self.items[index];
            let mut number = decimal_of(index as u128 + 1);
            push_all(&mut number, &chars_of(". "));
            let preview = match &item.tweet_text {
                Some(text) => text.clone(),
                None => item.original_url.clone(),
            };
            let author = match &item.author {
                Some(author) => author.clone(),
                None => "unknown".to_owned(),
            };
            let mut date = chars_of(" | ");
            push_all(&mut date, &chars_of(item.date_display.as_str()));
            rows.push(ListRow { number: string_of(&number), preview, author, date: string_of(&date) });
            index += 1;
        }
        rows
    }
}

} // verus!
