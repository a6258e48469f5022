//! How the widgets of the dashboard are set up.

use std::path::PathBuf;
use vstd::prelude::*;

verus! {

/// The path of a file.
#[verifier::external_type_specification]
#[verifier::external_body]
pub struct ExPathBuf(PathBuf);

/// The place of a widget in the grid of the dashboard.
#[derive(Debug, Clone, Copy)]
pub struct Position {
    pub row: usize,
    pub col: usize,
}

/// The setup of the clock.
#[derive(Debug, Clone)]
pub struct ClockConfig {
    pub title: String,
    /// The time zones to show, by their names in the time zone database.
    pub timezones: Vec<String>,
    pub position: Position,
}

/// The setup of the widget for notifications of the code host.
#[derive(Debug, Clone)]
pub struct GithubConfig {
    pub title: String,
    pub token: String,
    pub max_notifications: usize,
    pub position: Position,
}

/// The setup of the pixel art widget.
#[derive(Debug, Clone)]
pub struct PixelArtConfig {
    pub title: String,
    /// The file of the picture to show.
    pub image_path: Option<PathBuf>,
    /// How many pixels the longer side of the picture is given.
    pub pixel_size: Option<u32>,
    pub position: Position,
}

/// The setup of the widget for the live service.
#[derive(Debug, Clone)]
pub struct TwitterConfig {
    pub title: String,
    pub position: Position,
}

/// The setup of the widget for archived tweets.
#[derive(Debug, Clone)]
pub struct TwitterArchiveConfig {
    pub title: String,
    pub archive_query: String,
    pub max_items: usize,
    pub position: Position,
}

} // verus!
