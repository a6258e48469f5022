//! The state of what the dashboard shows.

pub mod widgets;
