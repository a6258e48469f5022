use feedtui::config::{
    ClockConfig, GithubConfig, PixelArtConfig, Position, TwitterArchiveConfig, TwitterConfig,
};
use feedtui::feeds::github::{GithubApiNotification, GithubFetcher, Repository, Subject};
use feedtui::feeds::{FeedData, GithubDashboard, GithubNotification, TwitterArchiveItem};
use feedtui::ui::widgets::clock::{padded, zone_label, Clock};
use feedtui::ui::widgets::github::GithubWidget;
use feedtui::ui::widgets::pixelart::{PixelArtWidget, PixelColor, PixelData};
use feedtui::ui::widgets::twitter::{TwitterMode, TwitterWidget};
use feedtui::ui::widgets::twitter_archive::TwitterArchiveWidget;
use feedtui::ui::widgets::{choose_screen, make_widget_id, Screen, ScrollState};
use std::path::PathBuf;

fn make_config() -> TwitterArchiveConfig {
    TwitterArchiveConfig {
        title: "Test Archive".to_string(),
        archive_query: "twitter.com/testuser*".to_string(),
        max_items: 10,
        position: Position { row: 0, col: 0 },
    }
}

fn make_item(idx: usize) -> TwitterArchiveItem {
    TwitterArchiveItem {
        timestamp: format!("2023061514302{}", idx),
        original_url: format!("https://twitter.com/testuser/status/{}", idx),
        archive_url: format!(
            "https://web.archive.org/web/2023061514302{}/https://twitter.com/testuser/status/{}",
            idx, idx
        ),
        tweet_text: Some(format!("Tweet number {}", idx)),
        author: Some("@testuser".to_string()),
        date_display: format!("2023-06-15 14:3{}", idx),
    }
}

#[test]
fn test_widget_id() {
    let widget = TwitterArchiveWidget::new(make_config());
    assert_eq!(widget.id(), "twitter_archive-0-0");
}

#[test]
fn test_widget_title() {
    let widget = TwitterArchiveWidget::new(make_config());
    assert_eq!(widget.title(), "Test Archive");
}

#[test]
fn test_widget_position() {
    let widget = TwitterArchiveWidget::new(make_config());
    assert_eq!(widget.position(), (0, 0));
}

#[test]
fn test_widget_initial_state() {
    let widget = TwitterArchiveWidget::new(make_config());
    assert!(widget.loading);
    assert!(widget.items.is_empty());
    assert!(widget.error.is_none());
}

#[test]
fn test_update_data_with_items() {
    let mut widget = TwitterArchiveWidget::new(make_config());
    let items = vec![make_item(0), make_item(1), make_item(2)];

    widget.update_data(FeedData::TwitterArchive(items));

    assert!(!widget.loading);
    assert_eq!(widget.items.len(), 3);
    assert!(widget.error.is_none());
}

#[test]
fn test_update_data_with_error() {
    let mut widget = TwitterArchiveWidget::new(make_config());
    widget.update_data(FeedData::Error("Network error".to_string()));

    assert!(!widget.loading);
    assert_eq!(widget.error, Some("Network error".to_string()));
}

#[test]
fn test_update_data_loading() {
    let mut widget = TwitterArchiveWidget::new(make_config());
    widget.loading = false;
    widget.update_data(FeedData::Loading);
    assert!(widget.loading);
}

#[test]
fn test_scroll_down() {
    let mut widget = TwitterArchiveWidget::new(make_config());
    let items = vec![make_item(0), make_item(1), make_item(2)];
    widget.update_data(FeedData::TwitterArchive(items));

    assert_eq!(widget.scroll_state.selected(), Some(0));
    widget.scroll_down();
    assert_eq!(widget.scroll_state.selected(), Some(1));
    widget.scroll_down();
    assert_eq!(widget.scroll_state.selected(), Some(2));
    // Should not go past the end
    widget.scroll_down();
    assert_eq!(widget.scroll_state.selected(), Some(2));
}

#[test]
fn test_scroll_up() {
    let mut widget = TwitterArchiveWidget::new(make_config());
    let items = vec![make_item(0), make_item(1), make_item(2)];
    widget.update_data(FeedData::TwitterArchive(items));

    widget.scroll_down();
    widget.scroll_down();
    assert_eq!(widget.scroll_state.selected(), Some(2));

    widget.scroll_up();
    assert_eq!(widget.scroll_state.selected(), Some(1));
    widget.scroll_up();
    assert_eq!(widget.scroll_state.selected(), Some(0));
    // Should not go below 0
    widget.scroll_up();
    assert_eq!(widget.scroll_state.selected(), Some(0));
}

#[test]
fn test_get_selected_item() {
    let mut widget = TwitterArchiveWidget::new(make_config());
    let items = vec![make_item(0), make_item(1)];
    widget.update_data(FeedData::TwitterArchive(items));

    let selected = widget.get_selected_item().unwrap();
    assert_eq!(selected.title, "Tweet number 0");
    assert!(selected.url.unwrap().contains("web.archive.org"));
    assert_eq!(selected.source, "@testuser");
}

#[test]
fn test_get_selected_item_empty() {
    let widget = TwitterArchiveWidget::new(make_config());
    // Items are empty but scroll_state is at 0, so get(0) returns None
    assert!(widget.get_selected_item().is_none());
}

#[test]
fn test_set_selected() {
    let mut widget = TwitterArchiveWidget::new(make_config());
    assert!(!widget.selected);
    widget.set_selected(true);
    assert!(widget.selected);
    widget.set_selected(false);
    assert!(!widget.selected);
}

#[test]
fn test_get_selected_discussion_url() {
    let widget = TwitterArchiveWidget::new(make_config());
    assert!(widget.get_selected_discussion_url().is_none());
}

#[test]
fn test_archive_widget_selected_item_without_text_or_author() {
    let mut widget = TwitterArchiveWidget::new(make_config());
    let mut bare = make_item(4);
    bare.tweet_text = None;
    bare.author = None;
    widget.update_data(FeedData::TwitterArchive(vec![make_item(0), bare]));
    widget.scroll_down();
    let selected = widget.get_selected_item().unwrap();
    assert_eq!(selected.title, "https://twitter.com/testuser/status/4");
    assert_eq!(selected.description, None);
    assert_eq!(selected.source, "Wayback Machine");
    assert_eq!(selected.metadata, Some("2023-06-15 14:34".to_string()));
    assert_eq!(
        selected.url,
        Some("https://web.archive.org/web/20230615143024/https://twitter.com/testuser/status/4".to_string())
    );
    widget.scroll_state.select(None);
    assert!(widget.get_selected_item().is_none());
    widget.scroll_down();
    widget.scroll_up();
    assert_eq!(widget.scroll_state.selected(), None);
}

#[test]
fn test_archive_widget_rows_and_screens() {
    let mut widget = TwitterArchiveWidget::new(make_config());
    assert_eq!(widget.screen(), Screen::Loading);
    widget.update_data(FeedData::Error("down".to_string()));
    assert_eq!(widget.screen(), Screen::Error);
    widget.update_data(FeedData::TwitterArchive(vec![]));
    assert_eq!(widget.screen(), Screen::Empty);
    let mut bare = make_item(1);
    bare.tweet_text = None;
    bare.author = None;
    widget.update_data(FeedData::TwitterArchive(vec![make_item(0), bare]));
    assert_eq!(widget.screen(), Screen::List);
    widget.update_data(FeedData::Loading);
    assert_eq!(widget.screen(), Screen::List);
    let rows = widget.list_rows();
    assert_eq!(rows.len(), 2);
    let row = &rows[0];
    assert_eq!(row.number, "1. ");
    assert_eq!(row.preview, "Tweet number 0");
    assert_eq!(row.author, "@testuser");
    assert_eq!(row.date, " | 2023-06-15 14:30");
    let row = &rows[1];
    assert_eq!(row.number, "2. ");
    assert_eq!(row.preview, "https://twitter.com/testuser/status/1");
    assert_eq!(row.author, "unknown");
    assert_eq!(row.date, " | 2023-06-15 14:31");
    assert!(TwitterArchiveWidget::new(make_config()).list_rows().is_empty());
}

#[test]
fn test_archive_widget_ignores_other_feeds_and_makes_fetcher() {
    let mut widget = TwitterArchiveWidget::new(make_config());
    widget.update_data(FeedData::TwitterArchive(vec![make_item(0)]));
    widget.update_data(FeedData::Github(GithubDashboard::default()));
    assert_eq!(widget.items.len(), 1);
    assert!(!widget.loading);
    widget.update_data(FeedData::Error("e".to_string()));
    assert_eq!(widget.items.len(), 1);
    widget.update_data(FeedData::TwitterArchive(vec![]));
    assert!(widget.error.is_none());
    let fetcher = widget.create_fetcher();
    assert_eq!(fetcher.archive_query, "twitter.com/testuser*");
    assert_eq!(fetcher.max_items, 10);
}

#[test]
fn test_screen_choice_and_ids() {
    assert_eq!(choose_screen(true, true, 0), Screen::Loading);
    assert_eq!(choose_screen(true, true, 2), Screen::Error);
    assert_eq!(choose_screen(false, false, 0), Screen::Empty);
    assert_eq!(choose_screen(true, false, 1), Screen::List);
    assert_eq!(make_widget_id("clock", 12, 0), "clock-12-0");
    assert_eq!(make_widget_id("", 0, 305), "-0-305");
    let mut scroll = ScrollState::new();
    assert_eq!(scroll.selected(), None);
    scroll.select(Some(3));
    scroll.down(4);
    assert_eq!(scroll.selected(), Some(3));
    scroll.down(5);
    assert_eq!(scroll.selected(), Some(4));
    scroll.down(0);
    assert_eq!(scroll.selected(), Some(4));
    scroll.up();
    assert_eq!(scroll.selected(), Some(3));
}

fn api_notification(id: &str, url: Option<&str>, unread: bool) -> GithubApiNotification {
    GithubApiNotification {
        id: id.to_string(),
        subject: Subject {
            title: format!("title {}", id),
            notification_type: "Issue".to_string(),
            url: url.map(|u| u.to_string()),
        },
        repository: Repository { full_name: "owner/repo".to_string() },
        unread,
        updated_at: "2024-01-01T00:00:00Z".to_string(),
        reason: "mention".to_string(),
    }
}

fn notification(unread: bool) -> GithubNotification {
    GithubNotification {
        id: "1".to_string(),
        title: "t".to_string(),
        notification_type: "Issue".to_string(),
        repository: "o/r".to_string(),
        url: "u".to_string(),
        unread,
        updated_at: "now".to_string(),
        reason: "r".to_string(),
    }
}

#[test]
fn test_github_fetcher_dashboard() {
    let fetcher = GithubFetcher::new("abc123".to_string(), 2);
    assert_eq!(fetcher.max_notifications, 2);
    assert_eq!(fetcher.notifications_url(), "https://api.github.com/notifications");
    assert_eq!(fetcher.authorization(), "Bearer abc123");
    let dashboard = fetcher.dashboard(vec![
        api_notification("1", Some("https://api.github.com/x"), true),
        api_notification("2", None, false),
        api_notification("3", None, true),
    ]);
    assert_eq!(dashboard.notifications.len(), 2);
    assert!(dashboard.pull_requests.is_empty());
    assert!(dashboard.commits.is_empty());
    let first = &dashboard.notifications[0];
    assert_eq!(first.id, "1");
    assert_eq!(first.title, "title 1");
    assert_eq!(first.notification_type, "Issue");
    assert_eq!(first.repository, "owner/repo");
    assert_eq!(first.url, "https://api.github.com/x");
    assert!(first.unread);
    assert_eq!(first.updated_at, "2024-01-01T00:00:00Z");
    assert_eq!(first.reason, "mention");
    assert_eq!(dashboard.notifications[1].url, "N/A");
    assert!(!dashboard.notifications[1].unread);
    assert!(fetcher.dashboard(vec![]).notifications.is_empty());
    let none = GithubFetcher::new("t".to_string(), 0);
    assert!(none.dashboard(vec![api_notification("1", None, true)]).notifications.is_empty());
}

#[test]
fn test_github_widget() {
    let config = GithubConfig {
        title: "GitHub".to_string(),
        token: "t".to_string(),
        max_notifications: 5,
        position: Position { row: 1, col: 2 },
    };
    let mut widget = GithubWidget::new(config);
    assert_eq!(widget.id(), "github-1-2");
    assert_eq!(widget.title(), "GitHub");
    assert_eq!(widget.position(), (1, 2));
    assert_eq!(widget.screen(), Screen::Loading);
    assert_eq!(widget.block_title(), " GitHub ");
    let dashboard = GithubDashboard {
        notifications: vec![notification(true), notification(false), notification(true)],
        pull_requests: vec![],
        commits: vec![],
    };
    widget.update_data(FeedData::Github(dashboard));
    assert!(!widget.loading);
    assert_eq!(widget.notifications.len(), 3);
    assert_eq!(widget.count_unread(), 2);
    assert_eq!(widget.block_title(), " GitHub (2 unread) ");
    assert_eq!(widget.screen(), Screen::List);
    widget.scroll_down();
    widget.scroll_down();
    widget.scroll_down();
    assert_eq!(widget.scroll_state.selected(), Some(2));
    widget.scroll_up();
    assert_eq!(widget.scroll_state.selected(), Some(1));
    widget.update_data(FeedData::Error("rate limited".to_string()));
    assert_eq!(widget.error, Some("rate limited".to_string()));
    assert_eq!(widget.screen(), Screen::Error);
    widget.update_data(FeedData::Loading);
    assert!(widget.loading);
    widget.update_data(FeedData::TwitterArchive(vec![]));
    assert_eq!(widget.notifications.len(), 3);
    widget.set_selected(true);
    assert!(widget.selected);
    let fetcher = widget.create_fetcher();
    assert_eq!(fetcher.token, "t");
    assert_eq!(fetcher.max_notifications, 5);
}

fn clock() -> Clock {
    Clock::new(ClockConfig {
        title: "Clock".to_string(),
        timezones: vec!["America/New_York".to_string(), "UTC".to_string()],
        position: Position { row: 2, col: 1 },
    })
}

#[test]
fn test_clock_new() {
    let c = clock();
    assert_eq!(c.id, "clock-2-1");
    assert_eq!(c.title, "Clock");
    assert_eq!((c.position.row, c.position.col), (2, 1));
    assert_eq!(c.timezones.len(), 2);
    assert!(!c.selected);
    assert!(!c.stopwatch_state.running);
    assert_eq!(c.stopwatch_state.elapsed, 0);
    assert!(c.stopwatch_state.last_tick.is_none());
    assert_eq!(c.get_current_elapsed(), 0);
}

#[test]
fn test_clock_toggle_and_reset() {
    let mut c = clock();
    c.toggle_stopwatch();
    assert!(c.stopwatch_state.running);
    assert!(c.stopwatch_state.last_tick.is_some());
    assert_eq!(c.stopwatch_state.elapsed, 0);
    c.tick_stopwatch();
    assert!(c.stopwatch_state.running);
    assert!(c.stopwatch_state.last_tick.is_some());
    let at_tick = c.stopwatch_state.elapsed;
    assert!(c.get_current_elapsed() >= at_tick);
    c.toggle_stopwatch();
    assert!(!c.stopwatch_state.running);
    assert!(c.stopwatch_state.last_tick.is_none());
    let paused = c.stopwatch_state.elapsed;
    assert!(paused >= at_tick);
    c.tick_stopwatch();
    assert_eq!(c.stopwatch_state.elapsed, paused);
    assert_eq!(c.get_current_elapsed(), paused);
    c.reset_stopwatch();
    assert!(!c.stopwatch_state.running);
    assert_eq!(c.stopwatch_state.elapsed, 0);
    assert!(c.stopwatch_state.last_tick.is_none());
    c.set_selected(true);
    assert!(c.selected);
}

#[test]
fn test_clock_given_times() {
    let mut c = clock();
    let now = std::time::Instant::now();
    c.advance(5, now);
    assert_eq!(c.stopwatch_state.elapsed, 0);
    assert!(c.stopwatch_state.last_tick.is_none());
    c.start(now);
    assert_eq!(c.stopwatch_state.last_tick, Some(now));
    assert_eq!(c.elapsed_after(7), 7);
    c.advance(1_500_000_000, now);
    assert_eq!(c.stopwatch_state.elapsed, 1_500_000_000);
    assert_eq!(c.elapsed_after(500_000_000), 2_000_000_000);
    c.pause(250);
    assert_eq!(c.stopwatch_state.elapsed, 1_500_000_250);
    assert!(!c.stopwatch_state.running);
    assert_eq!(c.elapsed_after(999), 1_500_000_250);
    c.pause(250);
    assert_eq!(c.stopwatch_state.elapsed, 1_500_000_250);
    c.start(now);
    c.advance(u128::MAX, now);
    assert_eq!(c.stopwatch_state.elapsed, u128::MAX);
    assert_eq!(c.since_last_tick() >= 0, true);
}

#[test]
fn test_clock_format_duration_and_status() {
    assert_eq!(Clock::format_duration(0), "00:00:00");
    assert_eq!(Clock::format_duration(59), "00:00:59");
    assert_eq!(Clock::format_duration(3661), "01:01:01");
    assert_eq!(Clock::format_duration(86399), "23:59:59");
    assert_eq!(Clock::format_duration(360000), "100:00:00");
    let mut c = clock();
    assert_eq!(c.stopwatch_status(0), "[Stopped]");
    assert_eq!(c.stopwatch_status(3), "[Paused]");
    c.toggle_stopwatch();
    assert_eq!(c.stopwatch_status(0), "[Running]");
}

#[test]
fn test_clock_zone_labels() {
    assert_eq!(zone_label("America/New_York"), "New York");
    assert_eq!(zone_label("America/Argentina/Buenos_Aires"), "Buenos Aires");
    assert_eq!(zone_label("UTC"), "UTC");
    assert_eq!(zone_label("Etc/"), "");
    assert_eq!(zone_label(""), "");
    assert_eq!(padded("UTC", 6), "UTC   ");
    assert_eq!(padded("New York", 15), "New York       ");
    assert_eq!(padded("toolong", 3), "toolong");
    assert_eq!(padded("é", 2), "é ");
}

#[test]
fn test_clock_zone_lines() {
    let c = clock();
    let readings = vec![
        Some(("09:30:00".to_string(), "Jun 15".to_string())),
        Some(("13:30:00".to_string(), "Jun 15".to_string())),
    ];
    let lines = c.zone_lines("UTC", &readings);
    assert_eq!(lines.len(), 2);
    assert_eq!(lines[0].name, "New York       ");
    assert_eq!(lines[0].time, "09:30:00  ");
    assert_eq!(lines[0].date, "Jun 15");
    assert!(!lines[0].local);
    assert_eq!(lines[1].name, "UTC            ");
    assert!(lines[1].local);
    let lines = c.zone_lines("America/New_York", &vec![None, readings[1].clone()]);
    assert_eq!(lines.len(), 1);
    assert_eq!(lines[0].time, "13:30:00  ");
    assert!(!lines[0].local);
    let lines = c.zone_lines("America/New_York", &vec![readings[0].clone()]);
    assert_eq!(lines.len(), 1);
    assert!(lines[0].local);
    assert!(c.zone_lines("UTC", &vec![]).is_empty());
}

fn picture(width: u32, height: u32) -> PixelData {
    let raw: Vec<u8> = (0..width * height * 3).map(|n| n as u8).collect();
    PixelData::from_rgb(&raw, width, height, width * 10, height * 10).unwrap()
}

#[test]
fn test_pixel_data_from_rgb() {
    let data = picture(3, 2);
    assert_eq!(data.width, 3);
    assert_eq!(data.height, 2);
    assert_eq!(data.original_width, 30);
    assert_eq!(data.original_height, 20);
    assert_eq!(data.pixels.len(), 2);
    assert_eq!(data.pixels[0].len(), 3);
    assert_eq!(data.pixels[0][0], PixelColor { r: 0, g: 1, b: 2 });
    assert_eq!(data.pixels[0][2], PixelColor { r: 6, g: 7, b: 8 });
    assert_eq!(data.pixels[1][0], PixelColor { r: 9, g: 10, b: 11 });
    assert_eq!(data.pixels[1][2], PixelColor { r: 15, g: 16, b: 17 });
    assert!(PixelData::from_rgb(&vec![0; 17], 3, 2, 3, 2).is_none());
    assert!(PixelData::from_rgb(&vec![0; 19], 3, 2, 3, 2).is_none());
    let empty = PixelData::from_rgb(&vec![], 0, 5, 1, 1).unwrap();
    assert_eq!(empty.pixels.len(), 5);
    assert!(empty.pixels[4].is_empty());
}

#[test]
fn test_pixel_data_visible_rows() {
    let data = picture(1, 10);
    assert_eq!(data.visible_rows(0, 6), (0, 4));
    assert_eq!(data.visible_rows(3, 6), (3, 7));
    assert_eq!(data.visible_rows(6, 6), (6, 10));
    assert_eq!(data.visible_rows(9, 6), (6, 10));
    assert_eq!(data.visible_rows(0, 40), (0, 10));
    assert_eq!(data.visible_rows(5, 40), (0, 10));
    assert_eq!(data.visible_rows(5, 2), (5, 5));
    assert_eq!(data.visible_rows(5, 0), (5, 5));
    assert_eq!(data.visible_rows(50, 1), (10, 10));
}

#[test]
fn test_pixel_block_chars() {
    assert_eq!(PixelColor::to_block_char(0), " ");
    assert_eq!(PixelColor::to_block_char(31), " ");
    assert_eq!(PixelColor::to_block_char(32), "░");
    assert_eq!(PixelColor::to_block_char(63), "░");
    assert_eq!(PixelColor::to_block_char(64), "▒");
    assert_eq!(PixelColor::to_block_char(95), "▒");
    assert_eq!(PixelColor::to_block_char(96), "▓");
    assert_eq!(PixelColor::to_block_char(127), "▓");
    assert_eq!(PixelColor::to_block_char(128), "█");
    assert_eq!(PixelColor::to_block_char(255), "█");
}

fn pixel_config(path: Option<&str>, size: Option<u32>) -> PixelArtConfig {
    PixelArtConfig {
        title: "Art".to_string(),
        image_path: path.map(PathBuf::from),
        pixel_size: size,
        position: Position { row: 3, col: 4 },
    }
}

#[test]
fn test_pixelart_new() {
    let widget = PixelArtWidget::new(pixel_config(None, None), Some(picture(2, 2)));
    assert_eq!(widget.id, "pixelart-3-4");
    assert_eq!(widget.title, "Art");
    assert_eq!((widget.position.row, widget.position.col), (3, 4));
    assert!(!widget.selected);
    assert!(widget.image_path.is_none());
    assert!(widget.pixel_data.is_none());
    assert_eq!(widget.pixel_size, 32);
    assert!(widget.error_message.is_none());
    assert_eq!(widget.scroll_offset, 0);
    let widget = PixelArtWidget::new(pixel_config(Some("a.png"), Some(16)), Some(picture(2, 2)));
    assert_eq!(widget.image_path, Some(PathBuf::from("a.png")));
    assert_eq!(widget.pixel_data.unwrap().width, 2);
    assert_eq!(widget.pixel_size, 16);
    assert_eq!(PixelArtWidget::target_size(&pixel_config(None, Some(7))), 7);
    assert_eq!(PixelArtWidget::target_size(&pixel_config(None, None)), 32);
}

#[test]
fn test_pixelart_pixel_size_steps() {
    let mut widget = PixelArtWidget::new(pixel_config(None, None), None);
    assert!(widget.increase_pixel_size());
    assert_eq!(widget.pixel_size, 64);
    assert!(widget.increase_pixel_size());
    assert_eq!(widget.pixel_size, 128);
    assert!(!widget.increase_pixel_size());
    assert_eq!(widget.pixel_size, 128);
    for expected in [64, 32, 16, 8] {
        assert!(widget.decrease_pixel_size());
        assert_eq!(widget.pixel_size, expected);
    }
    assert!(!widget.decrease_pixel_size());
    assert_eq!(widget.pixel_size, 8);
    let mut odd = PixelArtWidget::new(pixel_config(None, Some(127)), None);
    assert!(odd.increase_pixel_size());
    assert_eq!(odd.pixel_size, 254);
    assert!(!odd.increase_pixel_size());
    let mut small = PixelArtWidget::new(pixel_config(None, Some(9)), None);
    assert!(small.decrease_pixel_size());
    assert_eq!(small.pixel_size, 4);
    assert!(!small.decrease_pixel_size());
}

#[test]
fn test_pixelart_set_image_path() {
    let mut widget = PixelArtWidget::new(pixel_config(None, None), None);
    widget.set_image_path(PathBuf::from("missing.png"), Err("no such file".to_string()));
    assert_eq!(widget.image_path, Some(PathBuf::from("missing.png")));
    assert!(widget.pixel_data.is_none());
    assert_eq!(
        widget.error_message,
        Some("Error loading image: no such file".to_string())
    );
    widget.scroll_offset = 3;
    widget.set_image_path(PathBuf::from("there.png"), Ok(picture(2, 5)));
    assert_eq!(widget.image_path, Some(PathBuf::from("there.png")));
    assert_eq!(widget.pixel_data.as_ref().unwrap().height, 5);
    assert!(widget.error_message.is_none());
    assert_eq!(widget.scroll_offset, 0);
}

#[test]
fn test_pixelart_reload_image() {
    let mut widget = PixelArtWidget::new(pixel_config(None, None), None);
    widget.reload_image(Ok(picture(1, 1)));
    assert!(widget.pixel_data.is_none());
    widget.reload_image(Err("e".to_string()));
    assert!(widget.error_message.is_none());
    let mut widget = PixelArtWidget::new(pixel_config(Some("a.png"), None), Some(picture(2, 2)));
    widget.reload_image(Err("gone".to_string()));
    assert_eq!(widget.error_message, Some("Error reloading image: gone".to_string()));
    assert_eq!(widget.pixel_data.as_ref().unwrap().height, 2);
    widget.reload_image(Ok(picture(4, 4)));
    assert!(widget.error_message.is_none());
    assert_eq!(widget.pixel_data.as_ref().unwrap().height, 4);
}

#[test]
fn test_pixelart_scrolling() {
    let mut widget = PixelArtWidget::new(pixel_config(None, None), None);
    widget.scroll_down();
    assert_eq!(widget.scroll_offset, 0);
    widget.scroll_up();
    assert_eq!(widget.scroll_offset, 0);
    let mut widget = PixelArtWidget::new(pixel_config(Some("a.png"), None), Some(picture(1, 2)));
    widget.scroll_down();
    widget.scroll_down();
    assert_eq!(widget.scroll_offset, 2);
    widget.scroll_down();
    assert_eq!(widget.scroll_offset, 2);
    widget.scroll_up();
    assert_eq!(widget.scroll_offset, 1);
    widget.set_selected(true);
    assert!(widget.selected);
}

fn twitter() -> TwitterWidget {
    TwitterWidget::new(TwitterConfig {
        title: "Twitter".to_string(),
        position: Position { row: 0, col: 1 },
    })
}

#[test]
fn test_twitter_widget_new() {
    let w = twitter();
    assert_eq!(w.id, "twitter-0-1");
    assert_eq!(w.title, "Twitter");
    assert!(w.tweets.is_empty());
    assert_eq!(w.selected_index, 0);
    assert_eq!(w.list_state.selected(), Some(0));
    assert_eq!(w.mode, TwitterMode::Normal);
    assert_eq!(w.compose_text, "");
    assert_eq!(w.search_query, "");
    assert!(w.detail_view.is_none());
    assert!(w.status_message.is_none());
    assert!(!w.is_modal_open());
}

#[test]
fn test_twitter_widget_compose_and_post() {
    let mut w = twitter();
    w.add_char('x');
    assert_eq!(w.compose_text, "");
    w.open_compose();
    assert!(w.is_modal_open());
    assert_eq!(w.tweet_command(), None);
    for c in "héllo!".chars() {
        w.add_char(c);
    }
    w.delete_char();
    assert_eq!(w.compose_text, "héllo");
    assert_eq!(
        w.tweet_command(),
        Some(vec!["tweet".to_string(), "héllo".to_string()])
    );
    w.tweet_posted(Err("no network".to_string()));
    assert_eq!(w.status_message, Some("Error: no network".to_string()));
    assert_eq!(w.mode, TwitterMode::Compose);
    assert_eq!(w.compose_text, "héllo");
    w.tweet_posted(Ok("id 5".to_string()));
    assert_eq!(w.status_message, Some("Tweet posted: id 5".to_string()));
    assert_eq!(w.mode, TwitterMode::Normal);
    assert_eq!(w.compose_text, "");
    w.open_compose();
    w.delete_char();
    assert_eq!(w.compose_text, "");
    w.add_char('a');
    w.open_compose();
    assert_eq!(w.compose_text, "");
}

#[test]
fn test_twitter_widget_search() {
    let mut w = twitter();
    w.open_search();
    assert_eq!(w.mode, TwitterMode::Search);
    assert_eq!(w.search_command(), None);
    w.add_char('r');
    w.add_char('u');
    w.add_char('s');
    w.add_char('t');
    w.delete_char();
    assert_eq!(w.search_query, "rus");
    assert_eq!(w.compose_text, "");
    assert_eq!(
        w.search_command(),
        Some(vec!["search".to_string(), "rus".to_string(), "-n".to_string(), "5".to_string()])
    );
    w.search_finished(Err("boom".to_string()));
    assert_eq!(w.status_message, Some("Search error: boom".to_string()));
    assert_eq!(w.mode, TwitterMode::Search);
    w.search_finished(Ok("first\r\n\nthird\nlast\r".to_string()));
    assert_eq!(w.mode, TwitterMode::Normal);
    assert_eq!(w.search_query, "");
    let got: Vec<(&str, &str, &str, Option<&str>)> = w
        .tweets
        .iter()
        .map(|t| (t.id.as_str(), t.author.as_str(), t.text.as_str(), t.url.as_deref()))
        .collect();
    assert_eq!(
        got,
        vec![
            ("tweet-0", "Unknown", "first", None),
            ("tweet-2", "Unknown", "third", None),
            ("tweet-3", "Unknown", "last\r", None)
        ]
    );
    w.parse_search_results("a\n");
    assert_eq!(w.tweets.len(), 1);
    w.parse_search_results("\r\n\n");
    assert!(w.tweets.is_empty());
    w.parse_search_results("");
    assert!(w.tweets.is_empty());
}

#[test]
fn test_twitter_widget_lists_the_lines_of_the_output() {
    let mut w = twitter();
    for output in [
        "",
        "\n",
        "a",
        "a\n",
        "a\n\n",
        "\na",
        "a\r\nb\r\n",
        "a\r",
        "a\r\r\nb",
        "\r\n\r\n",
        "\r",
        "one\ntwo\r\n\nfour",
        " padded \n\t\n",
    ] {
        w.parse_search_results(output);
        let expected: Vec<(String, String)> = output
            .lines()
            .enumerate()
            .filter(|(_, line)| !line.is_empty())
            .map(|(idx, line)| (format!("tweet-{}", idx), line.to_string()))
            .collect();
        let got: Vec<(String, String)> = w
            .tweets
            .iter()
            .map(|t| (t.id.clone(), t.text.clone()))
            .collect();
        assert_eq!(got, expected);
    }
}

#[test]
fn test_twitter_widget_mentions_and_scrolling() {
    let mut w = twitter();
    assert_eq!(
        w.mentions_command(),
        vec!["mentions".to_string(), "-n".to_string(), "5".to_string()]
    );
    w.scroll_down();
    w.scroll_up();
    assert_eq!(w.selected_index, 0);
    w.mentions_loaded(Err("x".to_string()));
    assert_eq!(w.status_message, Some("Mentions error: x".to_string()));
    w.mentions_loaded(Ok("one\ntwo\nthree".to_string()));
    assert_eq!(w.tweets.len(), 3);
    assert_eq!(w.tweets[1].id, "mention-1");
    assert_eq!(w.tweets[1].text, "two");
    w.parse_mentions("only");
    assert_eq!(w.tweets[0].id, "mention-0");
    w.mentions_loaded(Ok("one\ntwo\nthree".to_string()));
    w.scroll_down();
    w.scroll_down();
    assert_eq!(w.selected_index, 2);
    assert_eq!(w.list_state.selected(), Some(2));
    w.scroll_down();
    assert_eq!(w.selected_index, 2);
    w.scroll_up();
    assert_eq!(w.selected_index, 1);
    assert_eq!(w.list_state.selected(), Some(1));
    w.scroll_up();
    w.scroll_up();
    assert_eq!(w.selected_index, 0);
    w.set_selected(true);
    assert!(w.selected);
}

#[test]
fn test_twitter_widget_reply_and_read() {
    let mut w = twitter();
    w.open_reply();
    assert_eq!(w.mode, TwitterMode::Normal);
    assert_eq!(w.read_command(), None);
    assert_eq!(w.get_selected_discussion_url(), None);
    w.tweets = feedtui::twitter_parser::parse_search_results(
        "@a: one\nURL: https://x.com/a/status/1\n---\n@b: two\nURL: https://x.com/b/status/2",
    );
    w.scroll_down();
    assert_eq!(
        w.get_selected_discussion_url(),
        Some("https://x.com/b/status/2".to_string())
    );
    assert_eq!(
        w.read_command(),
        Some(vec!["read".to_string(), "https://x.com/b/status/2".to_string()])
    );
    w.open_reply();
    assert_eq!(w.mode, TwitterMode::Reply);
    assert_eq!(w.reply_command(), None);
    w.add_char('o');
    w.add_char('k');
    assert_eq!(
        w.reply_command(),
        Some(vec![
            "reply".to_string(),
            "https://x.com/b/status/2".to_string(),
            "ok".to_string()
        ])
    );
    w.reply_posted(Err("denied".to_string()));
    assert_eq!(w.status_message, Some("Error: denied".to_string()));
    assert_eq!(w.mode, TwitterMode::Reply);
    w.reply_posted(Ok("done".to_string()));
    assert_eq!(w.status_message, Some("Reply posted: done".to_string()));
    assert_eq!(w.mode, TwitterMode::Normal);
    w.tweet_read(Err("gone".to_string()));
    assert_eq!(w.status_message, Some("Read error: gone".to_string()));
    assert!(w.detail_view.is_none());
    w.tweet_read(Ok("the thread".to_string()));
    assert_eq!(w.detail_view.as_ref().unwrap().content, "the thread");
    assert!(w.is_modal_open());
    w.close_detail_view();
    assert!(!w.is_modal_open());
    w.tweets[1].url = None;
    assert_eq!(w.read_command(), None);
    w.open_reply();
    w.add_char('x');
    assert_eq!(w.reply_command(), None);
    w.close_modal();
    assert_eq!(w.compose_text, "");
    assert_eq!(w.mode, TwitterMode::Normal);
}
