//! The widget for notifications of the code host.

use crate::config::GithubConfig;
use crate::feeds::github::GithubFetcher;
use crate::feeds::{FeedData, GithubNotification};
use crate::text::{chars_of, decimal, decimal_of, push_all, string_of};
use crate::ui::widgets::{
    choose_screen, make_widget_id, moved_down, moved_up, screen_of, widget_id, Screen,
    ScrollState,
};
use vstd::prelude::*;

verus! {

/// The widget for notifications: those that its feed brought, and which of
/// them is selected.
pub struct GithubWidget {
    pub config: GithubConfig,
    pub notifications: Vec<GithubNotification>,
    pub loading: bool,
    pub error: Option<String>,
    pub scroll_state: ScrollState,
    pub selected: bool,
}

/// How many of the first `n` notifications are unread.
pub open spec fn unread_among(notifications: Seq<GithubNotification>, n: int) -> nat
    decreases n,
{
    if n <= 0 || n > notifications.len() {
        0
    } else if notifications[n - 1].unread {
        unread_among(notifications, n - 1) + 1
    } else {
        unread_among(notifications, n - 1)
    }
}

/// How many notifications are unread.
pub open spec fn unread_count(notifications: Seq<GithubNotification>) -> nat {
    unread_among(notifications, notifications.len() as int)
}

/// The heading of the widget: its title, and how many notifications are
/// unread where any is.
pub open spec fn heading(title: Seq<char>, unread: nat) -> Seq<char> {
    if unread > 0 {
        " "@ + title + " ("@ + decimal(unread) + " unread) "@
    } else {
        " "@ + title + " "@
    }
}

impl GithubWidget {
    /// A widget as `config` sets it up: it waits for its first data, with
    /// the first entry selected.
    pub fn new(config: GithubConfig) -> (r: Self)
        ensures
            r.config == config,
            r.notifications@.len() == 0,
            r.loading,
            r.error is None,
            r.scroll_state.selected == Some(0usize),
            !r.selected,
    {
        let mut scroll_state = ScrollState::new();
        scroll_state.select(Some(0));
        GithubWidget {
            config,
            notifications: Vec::new(),
            loading: true,
            error: None,
            scroll_state,
            selected: false,
        }
    }

    /// The name that tells the widget from the others.
    pub fn id(&self) -> (r: String)
        ensures
            r@ == widget_id("github"@, self.config.position.row, self.config.position.col),
    {
        make_widget_id("github", self.config.position.row, self.config.position.col)
    }

    /// The title that the widget was set up with.
    pub fn title(&self) -> (r: &str)
        ensures
            r@ == self.config.title@,
    {
        self.config.title.as_str()
    }

    /// The place of the widget in the grid: row and column.
    pub fn position(&self) -> (r: (usize, usize))
        ensures
            r == (self.config.position.row, self.config.position.col),
    {
        (self.config.position.row, self.config.position.col)
    }

    /// How many notifications are unread.
    pub fn count_unread(&self) -> (r: usize)
        ensures
            r == unread_count(self.notifications@),
    {
        let mut count: usize = 0;
        let mut i: usize = 0;
        while i < self.notifications.len()
            invariant
                i <= self.notifications.len(),
                count <= i,
                count == unread_among(self.notifications@, i as int),
            decreases self.notifications.len() - i,
        {
            if self.notifications[i].unread {
                count += 1;
            }
            i += 1;
        }
        count
    }

    /// The heading of the widget.
    pub fn block_title(&self) -> (r: String)
        ensures
            r@ == heading(self.config.title@, unread_count(self.notifications@)),
    {
        let unread = self.count_unread();
        let mut out = chars_of(" ");
        push_all(&mut out, &chars_of(self.config.title.as_str()));
        if unread > 0 {
            push_all(&mut out, &chars_of(" ("));
            push_all(&mut out, &decimal_of(unread as u128));
            push_all(&mut out, &chars_of(" unread) "));
        } else {
            push_all(&mut out, &chars_of(" "));
        }
        string_of(&out)
    }

    /// Takes in what the feed sent. Notifications replace those shown and
    /// clear the error; an error is kept beside the notifications shown;
    /// the note that the feed is loading is kept as such; data of another
    /// feed changes nothing but that the widget no longer waits.
    pub fn update_data(&mut self, data: FeedData)
        ensures
            match data {
                FeedData::Github(dashboard) => {
                    &&& final(self).notifications == dashboard.notifications
                    &&& final(self).error is None
                    &&& !final(self).loading
                },
                FeedData::Error(e) => {
                    &&& final(self).notifications == old(self).notifications
                    &&& final(self).error == Some(e)
                    &&& !final(self).loading
                },
                FeedData::Loading => {
                    &&& final(self).notifications == old(self).notifications
                    &&& final(self).error == old(self).error
                    &&& final(self).loading
                },
                _ => {
                    &&& final(self).notifications == old(self).notifications
                    &&& final(self).error == old(self).error
                    &&& !final(self).loading
                },
            },
            final(self).config == old(self).config,
            final(self).scroll_state == old(self).scroll_state,
            final(self).selected == old(self).selected,
    {
        self.loading = false;
        match data {
            FeedData::Github(dashboard) => {
                self.notifications = dashboard.notifications;
                self.error = None;
            },
            FeedData::Error(e) => {
                self.error = Some(e);
            },
            FeedData::Loading => {
                self.loading = true;
            },
            _ => {},
        }
    }

    /// The fetcher that asks the code host for what the widget is set up
    /// to show.
    pub fn create_fetcher(&self) -> (r: GithubFetcher)
        ensures
            r.token@ == self.config.token@,
            r.max_notifications == self.config.max_notifications,
    {
        GithubFetcher::new(self.config.token.clone(), self.config.max_notifications)
    }

    /// Moves the selection up by one notification, unless it is at the
    /// first.
    pub fn scroll_up(&mut self)
        ensures
            final(self).scroll_state.selected == moved_up(old(self).scroll_state.selected),
            final(self).config == old(self).config,
            final(self).notifications == old(self).notifications,
            final(self).loading == old(self).loading,
            final(self).error == old(self).error,
            final(self).selected == old(self).selected,
    {
        self.scroll_state.up();
    }

    /// Moves the selection down by one notification, unless it is at the
    /// last.
    pub fn scroll_down(&mut self)
        ensures
            final(self).scroll_state.selected == moved_down(
                old(self).scroll_state.selected,
                old(self).notifications@.len(),
            ),
            final(self).config == old(self).config,
            final(self).notifications == old(self).notifications,
            final(self).loading == old(self).loading,
            final(self).error == old(self).error,
            final(self).selected == old(self).selected,
    {
        let entries = self.notifications.len();
        self.scroll_state.down(entries);
    }

    /// Marks the widget as the one that keys go to, or not.
    pub fn set_selected(&mut self, selected: bool)
        ensures
            final(self).selected == selected,
            final(self).config == old(self).config,
            final(self).notifications == old(self).notifications,
            final(self).loading == old(self).loading,
            final(self).error == old(self).error,
            final(self).scroll_state == old(self).scroll_state,
    {
        self.selected = selected;
    }

    /// What the widget has on screen.
    pub fn screen(&self) -> (r: Screen)
        ensures
            r == screen_of(self.loading, self.error is Some, self.notifications@.len()),
    {
        choose_screen(self.loading, self.error.is_some(), self.notifications.len())
    }
}

} // verus!
