//! The widgets of the dashboard: what each holds and how it answers to
//! keys and to the data of its feed. Drawing is left to the terminal.

use crate::text::{chars_of, decimal, decimal_of, push_all, string_of};
use vstd::prelude::*;

pub mod clock;
pub mod github;
pub mod pixelart;
pub mod twitter;
pub mod twitter_archive;

verus! {

/// What a widget hands out of the entry that is selected.
#[derive(Debug, Clone)]
pub struct SelectedItem {
    pub title: String,
    pub url: Option<String>,
    pub description: Option<String>,
    pub source: String,
    pub metadata: Option<String>,
}

/// Which entry of a list is selected.
#[derive(Debug, Clone, Copy)]
pub struct ScrollState {
    pub selected: Option<usize>,
}

impl ScrollState {
    /// A list in which nothing is selected.
    pub fn new() -> (r: Self)
        ensures
            r.selected is None,
    {
        ScrollState { selected: None }
    }

    /// Selects the entry at `index`, or nothing.
    pub fn select(&mut self, index: Option<usize>)
        ensures
            final(self).selected == index,
    {
        self.selected = index;
    }

    /// The position of the entry that is selected.
    pub fn selected(&self) -> (r: Option<usize>)
        ensures
            r == self.selected,
    {
        self.selected
    }

    /// Moves the selection up by one entry, unless it is at the top.
    pub fn up(&mut self)
        ensures
            final(self).selected == moved_up(old(self).selected),
    {
        match self.selected {
            Some(i) => {
                if i > 0 {
                    self.selected = Some(i - 1);
                }
            },
            None => {},
        }
    }

    /// Moves the selection down by one entry, unless it is at the last of
    /// `entries`.
    pub fn down(&mut self, entries: usize)
        ensures
            final(self).selected == moved_down(old(self).selected, entries as nat),
    {
        match self.selected {
            Some(i) => {
                if entries > 0 && i < entries - 1 {
                    self.selected = Some(i + 1);
                }
            },
            None => {},
        }
    }
}

/// What a widget that shows a list has on screen.
#[derive(Debug, Clone, Copy, PartialEq, Eq, Structural)]
pub enum Screen {
    /// Nothing has come yet.
    Loading,
    /// The feed failed.
    Error,
    /// The feed came and holds nothing.
    Empty,
    /// The entries.
    List,
}

/// What a list widget has on screen: while it waits for its first data,
/// that it is loading; after a failure, the error; else its entries, or
/// that there are none.
pub open spec fn screen_of(loading: bool, failed: bool, entries: nat) -> Screen {
    if loading && entries == 0 {
        Screen::Loading
    } else if failed {
        Screen::Error
    } else if entries == 0 {
        Screen::Empty
    } else {
        Screen::List
    }
}

/// What a list widget has on screen.
pub fn choose_screen(loading: bool, failed: bool, entries: usize) -> (r: Screen)
    ensures
        r == screen_of(loading, failed, entries as nat),
{
    if loading && entries == 0 {
        Screen::Loading
    } else if failed {
        Screen::Error
    } else if entries == 0 {
        Screen::Empty
    } else {
        Screen::List
    }
}

/// The entry above the selected one, where there is one.
pub open spec fn moved_up(selected: Option<usize>) -> Option<usize> {
    match selected {
        Some(i) => if i > 0 {
            Some((i - 1) as usize)
        } else {
            selected
        },
        None => None,
    }
}

/// The entry below the selected one, where there is one among `entries`.
pub open spec fn moved_down(selected: Option<usize>, entries: nat) -> Option<usize> {
    match selected {
        Some(i) => if i + 1 < entries {
            Some((i + 1) as usize)
        } else {
            selected
        },
        None => None,
    }
}

/// The name that tells a widget from the others: its kind and its place,
/// as `kind-row-col`.
pub open spec fn widget_id(kind: Seq<char>, row: usize, col: usize) -> Seq<char> {
    kind + seq!['-'] + decimal(row as nat) + seq!['-'] + decimal(col as nat)
}

/// The name of the widget of `kind` at the given place.
pub fn make_widget_id(kind: &str, row: usize, col: usize) -> (r: String)
    ensures
        r@ == widget_id(kind@, row, col),
{
    let mut id = chars_of(kind);
    id.push('-');
    push_all(&mut id, &decimal_of(row as u128));
    id.push('-');
    push_all(&mut id, &decimal_of(col as u128));
    string_of(&id)
}

} // verus!
