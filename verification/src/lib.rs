//! A dashboard for the terminal: what its feeds bring and what its widgets
//! hold.
//!
//! The heart of the crate is the recovery of archived tweets in
//! [`feeds::twitter_archive`] and [`feeds::tweet_text`]: which captures of
//! a profile the archive has, which of them are tweets, and what text an
//! archived page holds. Every function states what it returns over the
//! characters of its arguments, and is proved to return it.

pub mod config;
pub mod feeds;
pub mod text;
pub mod twitter_message;
pub mod twitter_parser;
pub mod ui;
