use feedtui::feeds::tweet_text::{
    clean, clean_field, extract_article_body_from_value, extract_element_text, extract_json_ld_article_body,
    extract_meta_content, extract_tweet_text, first_article_body, is_site_phrase,
    text_from_response, usable_description, PageResponse,
};
use feedtui::feeds::twitter_archive::{
    archive_urls, build_query, classify, collect_captures, enrich, extract_author_from_url,
    feed_data, format_wayback_timestamp, names_tweet, FetchError, TwitterArchiveFetcher,
    MAX_IN_FLIGHT,
};
use feedtui::feeds::{FeedData, TwitterArchiveItem};

fn row(cells: &[&str]) -> Vec<String> {
    cells.iter().map(|c| c.to_string()).collect()
}

fn item(idx: usize) -> TwitterArchiveItem {
    classify(&row(&[
        &format!("2023061514302{}", idx),
        &format!("https://twitter.com/testuser/status/{}", idx),
        "200",
    ]))
    .unwrap()
}

#[test]
fn test_format_wayback_timestamp_full() {
    assert_eq!(
        format_wayback_timestamp("20230615143022"),
        "2023-06-15 14:30"
    );
}

#[test]
fn test_format_wayback_timestamp_date_only() {
    assert_eq!(format_wayback_timestamp("20230615"), "2023-06-15");
}

#[test]
fn test_format_wayback_timestamp_short() {
    assert_eq!(format_wayback_timestamp("2023"), "2023");
}

#[test]
fn test_format_wayback_timestamp_between_date_and_time() {
    assert_eq!(format_wayback_timestamp(""), "");
    assert_eq!(format_wayback_timestamp("2023061"), "2023061");
    assert_eq!(format_wayback_timestamp("20230615143"), "2023-06-15");
    assert_eq!(format_wayback_timestamp("202306151430"), "2023-06-15 14:30");
}

#[test]
fn test_extract_author_https() {
    assert_eq!(
        extract_author_from_url("https://twitter.com/gethigher77/status/123456"),
        Some("@gethigher77".to_string())
    );
}

#[test]
fn test_extract_author_http() {
    assert_eq!(
        extract_author_from_url("http://twitter.com/someuser/status/789"),
        Some("@someuser".to_string())
    );
}

#[test]
fn test_extract_author_x_dot_com() {
    assert_eq!(
        extract_author_from_url("https://x.com/testuser/status/111"),
        Some("@testuser".to_string())
    );
}

#[test]
fn test_extract_author_www() {
    assert_eq!(
        extract_author_from_url("https://www.twitter.com/handle/status/999"),
        Some("@handle".to_string())
    );
}

#[test]
fn test_extract_author_no_match() {
    assert_eq!(extract_author_from_url("https://example.com/page"), None);
}

#[test]
fn test_extract_author_empty_username() {
    assert_eq!(extract_author_from_url("https://twitter.com/"), None);
}

#[test]
fn test_extract_author_without_scheme_or_path() {
    assert_eq!(
        extract_author_from_url("twitter.com/plain"),
        Some("@plain".to_string())
    );
    assert_eq!(
        extract_author_from_url("www.x.com/w/status/1"),
        Some("@w".to_string())
    );
    assert_eq!(extract_author_from_url("https://twitter.com//status/1"), None);
    assert_eq!(extract_author_from_url("ftp://twitter.com/a"), None);
    assert_eq!(extract_author_from_url(""), None);
}

#[test]
fn test_fetcher_new() {
    let fetcher = TwitterArchiveFetcher::new("twitter.com/test*".to_string(), 10);
    assert_eq!(fetcher.archive_query, "twitter.com/test*");
    assert_eq!(fetcher.max_items, 10);
}

#[test]
fn test_extract_tweet_text_og_description() {
    let html = r#"<html><head><meta property="og:description" content="Hello world, this is a tweet!"></head><body></body></html>"#;
    assert_eq!(
        extract_tweet_text(html),
        Some("Hello world, this is a tweet!".to_string())
    );
}

#[test]
fn test_extract_tweet_text_twitter_description() {
    let html = r#"<html><head><meta name="twitter:description" content="Tweet via twitter card"></head><body></body></html>"#;
    assert_eq!(
        extract_tweet_text(html),
        Some("Tweet via twitter card".to_string())
    );
}

#[test]
fn test_extract_tweet_text_meta_description() {
    let html = r#"<html><head><meta name="description" content="This is a sufficiently long tweet text from the description tag"></head><body></body></html>"#;
    assert_eq!(
        extract_tweet_text(html),
        Some("This is a sufficiently long tweet text from the description tag".to_string())
    );
}

#[test]
fn test_extract_tweet_text_meta_description_boilerplate_filtered() {
    let html = r#"<html><head><meta name="description" content="From breaking news and entertainment to sports"></head><body></body></html>"#;
    assert_eq!(extract_tweet_text(html), None);
}

#[test]
fn test_extract_tweet_text_p_tweet_text() {
    let html = r#"<html><body><div class="tweet"><p class="tweet-text">Old school tweet text here</p></div></body></html>"#;
    assert_eq!(
        extract_tweet_text(html),
        Some("Old school tweet text here".to_string())
    );
}

#[test]
fn test_extract_tweet_text_json_ld() {
    let html = r#"<html><head><script type="application/ld+json">{"@type":"SocialMediaPosting","articleBody":"Tweet from JSON-LD"}</script></head><body></body></html>"#;
    assert_eq!(
        extract_tweet_text(html),
        Some("Tweet from JSON-LD".to_string())
    );
}

#[test]
fn test_extract_tweet_text_og_wins_over_p_tweet_text() {
    let html = r#"<html><head><meta property="og:description" content="OG wins"></head><body><p class="tweet-text">Should not be picked</p></body></html>"#;
    assert_eq!(extract_tweet_text(html), Some("OG wins".to_string()));
}

#[test]
fn test_extract_tweet_text_empty_og_falls_through() {
    let html = r#"<html><head><meta property="og:description" content=""><meta name="twitter:description" content="Fallback to twitter card"></head><body></body></html>"#;
    assert_eq!(
        extract_tweet_text(html),
        Some("Fallback to twitter card".to_string())
    );
}

#[test]
fn test_extract_tweet_text_no_matches() {
    let html = r#"<html><head><title>Nothing here</title></head><body><p>Just a paragraph</p></body></html>"#;
    assert_eq!(extract_tweet_text(html), None);
}

#[test]
fn test_extract_tweet_text_malformed_json_ld() {
    let html = r#"<html><head><script type="application/ld+json">{not valid json</script></head><body></body></html>"#;
    assert_eq!(extract_tweet_text(html), None);
}

#[test]
fn test_extract_tweet_text_json_ld_array_and_later_block() {
    let html = r#"<html><head><script type="application/ld+json">{broken</script><script type="application/ld+json">[{"@type":"Person"},{"articleBody":"   "},{"articleBody":" From the array "}]</script></head><body></body></html>"#;
    assert_eq!(extract_tweet_text(html), Some("From the array".to_string()));
    assert_eq!(
        extract_json_ld_article_body(html),
        Some("From the array".to_string())
    );
}

#[test]
fn test_extract_tweet_text_short_description_falls_through() {
    let html = r#"<html><head><meta name="description" content="too short"></head><body><p class="tweet-text">Inline text</p></body></html>"#;
    assert_eq!(extract_tweet_text(html), Some("Inline text".to_string()));
}

#[test]
fn test_extract_tweet_text_whitespace_is_trimmed() {
    let html = "<html><head><meta property=\"og:description\" content=\"  \n spaced out \t \"></head><body></body></html>";
    assert_eq!(extract_tweet_text(html), Some("spaced out".to_string()));
}

#[test]
fn test_extract_meta_content_reads_first_match_only() {
    let html = r#"<html><head><meta name="a"><meta name="a" content="second"></head></html>"#;
    assert_eq!(extract_meta_content(html, r#"meta[name="a"]"#), None);
    assert_eq!(extract_meta_content(html, "meta[[["), None);
    let html = r#"<html><head><meta name="a" content=" first "><meta name="a" content="second"></head></html>"#;
    assert_eq!(
        extract_meta_content(html, r#"meta[name="a"]"#),
        Some("first".to_string())
    );
}

#[test]
fn test_extract_element_text_joins_nested_text() {
    let html = r#"<html><body><p class="tweet-text"> Hello <b>bold</b> world </p><p class="tweet-text">other</p></body></html>"#;
    assert_eq!(
        extract_element_text(html, "p.tweet-text"),
        Some("Hello bold world".to_string())
    );
    assert_eq!(extract_element_text(html, "p.none"), None);
    assert_eq!(extract_element_text(html, "p[[["), None);
}

#[test]
fn test_clean() {
    assert_eq!(clean("  a b  "), Some("a b".to_string()));
    assert_eq!(clean("\u{3000}x\u{a0}\r\n"), Some("x".to_string()));
    assert_eq!(clean(" \t\n"), None);
    assert_eq!(clean(""), None);
    assert_eq!(clean("\u{200b}"), Some("\u{200b}".to_string()));
}

#[test]
fn test_clean_takes_off_what_trim_takes_off() {
    for code in 0..=0x3100u32 {
        if let Some(c) = char::from_u32(code) {
            let around = format!("{}a b{}", c, c);
            assert_eq!(clean(&around), Some(around.trim().to_string()));
            assert_eq!(clean(&c.to_string()).is_none(), c.is_whitespace());
        }
    }
    assert_eq!(clean("\u{feff}x"), Some("\u{feff}x".to_string()));
}

#[test]
fn test_clean_field() {
    assert_eq!(clean_field(&None), None);
    assert_eq!(clean_field(&Some("\n".to_string())), None);
    assert_eq!(clean_field(&Some(" x ".to_string())), Some("x".to_string()));
}

#[test]
fn test_feed_data() {
    match feed_data(Ok(vec![item(0), item(1)])) {
        FeedData::TwitterArchive(items) => {
            assert_eq!(items.len(), 2);
            assert_eq!(items[1].original_url, "https://twitter.com/testuser/status/1");
        }
        other => panic!("expected captures, got {:?}", other),
    }
    match feed_data(Err(FetchError::Request { message: "timed out".to_string() })) {
        FeedData::Error(message) => assert_eq!(message, "timed out"),
        other => panic!("expected an error, got {:?}", other),
    }
    match feed_data(Err(FetchError::Decode { message: "bad json".to_string() })) {
        FeedData::Error(message) => assert_eq!(message, "bad json"),
        other => panic!("expected an error, got {:?}", other),
    }
}

#[test]
fn test_site_phrases() {
    assert!(is_site_phrase("from breaking news to sports"));
    assert!(is_site_phrase("the latest posts from someone"));
    assert!(is_site_phrase("post with a picture"));
    assert!(is_site_phrase("see what happens on twitter today"));
    assert!(is_site_phrase("somebody on x"));
    assert!(!is_site_phrase("a post with nothing special"));
    assert!(!is_site_phrase(""));
}

#[test]
fn test_usable_description() {
    assert!(usable_description("This is long enough to be a tweet"));
    assert!(!usable_description("exactly twenty chars"));
    assert!(usable_description("exactly twenty chars!"));
    assert!(!usable_description("FROM BREAKING NEWS and entertainment"));
    assert!(!usable_description("Somebody said this ON TWITTER yesterday"));
}

#[test]
fn test_article_body_from_fields() {
    assert_eq!(extract_article_body_from_value(&None), None);
    assert_eq!(extract_article_body_from_value(&Some(" ".to_string())), None);
    assert_eq!(
        extract_article_body_from_value(&Some(" body ".to_string())),
        Some("body".to_string())
    );
    assert_eq!(first_article_body(&vec![]), None);
    assert_eq!(
        first_article_body(&vec![None, Some("".to_string()), Some("x".to_string()), Some("y".to_string())]),
        Some("x".to_string())
    );
}

#[test]
fn test_text_from_response() {
    let page = r#"<html><head><meta property="og:description" content="Found"></head></html>"#;
    let ok = PageResponse::Answer { status: 200, body: Some(page.to_string()) };
    assert_eq!(text_from_response(&ok), Some("Found".to_string()));
    let edge = PageResponse::Answer { status: 299, body: Some(page.to_string()) };
    assert_eq!(text_from_response(&edge), Some("Found".to_string()));
    let missing = PageResponse::Answer { status: 404, body: Some(page.to_string()) };
    assert_eq!(text_from_response(&missing), None);
    let redirect = PageResponse::Answer { status: 300, body: Some(page.to_string()) };
    assert_eq!(text_from_response(&redirect), None);
    let early = PageResponse::Answer { status: 199, body: Some(page.to_string()) };
    assert_eq!(text_from_response(&early), None);
    let unread = PageResponse::Answer { status: 200, body: None };
    assert_eq!(text_from_response(&unread), None);
    assert_eq!(text_from_response(&PageResponse::Unreachable), None);
}

#[test]
fn test_classify_short_rows() {
    assert!(classify(&row(&[])).is_none());
    assert!(classify(&row(&["20230615143022"])).is_none());
    assert!(classify(&row(&["20230615143022", "https://twitter.com/a/status/1"])).is_none());
}

#[test]
fn test_classify_without_marker() {
    assert!(classify(&row(&["20230615143022", "https://twitter.com/a", "200"])).is_none());
    assert!(classify(&row(&["20230615143022", "https://twitter.com/a/status", "200"])).is_none());
    assert!(classify(&row(&["20230615143022", "", "200"])).is_none());
}

#[test]
fn test_classify_identifier_must_start_with_digit() {
    for url in [
        "https://twitter.com/a/status/",
        "https://twitter.com/a/status/abc",
        "https://twitter.com/a/status/?lang=en",
        "https://twitter.com/a/status/%22",
        "https://twitter.com/a/status/#1",
        "https://twitter.com/a/status/\"1",
        "https://twitter.com/a/status//status/1",
    ] {
        assert!(classify(&row(&["20230615143022", url, "200"])).is_none());
        assert!(!names_tweet(url));
    }
    for url in [
        "https://twitter.com/a/status/1",
        "https://twitter.com/a/status/1?lang=en",
        "https://twitter.com/a/status/9abc",
        "https://twitter.com/a/status/1/status/x",
        "/status/0",
    ] {
        assert!(classify(&row(&["20230615143022", url, "200"])).is_some());
        assert!(names_tweet(url));
    }
}

#[test]
fn test_classify_derives_every_field() {
    let got = classify(&row(&[
        "20230615143022",
        "https://twitter.com/testuser/status/123",
        "200",
        "extra",
    ]))
    .unwrap();
    assert_eq!(got.timestamp, "20230615143022");
    assert_eq!(got.original_url, "https://twitter.com/testuser/status/123");
    assert_eq!(
        got.archive_url,
        "https://web.archive.org/web/20230615143022if_/https://twitter.com/testuser/status/123"
    );
    assert_eq!(got.tweet_text, None);
    assert_eq!(got.author, Some("@testuser".to_string()));
    assert_eq!(got.date_display, "2023-06-15 14:30");
}

#[test]
fn test_classify_unknown_host_has_no_author() {
    let got = classify(&row(&["2023", "https://nitter.net/u/status/5", "200"])).unwrap();
    assert_eq!(got.author, None);
    assert_eq!(got.date_display, "2023");
}

#[test]
fn test_collect_skips_header_and_keeps_order() {
    let rows = vec![
        row(&["20230101000000", "https://twitter.com/h/status/1", "200"]),
        row(&["20230102000000", "https://twitter.com/a/status/2", "200"]),
        row(&["short"]),
        row(&["20230103000000", "https://twitter.com/a/media", "200"]),
        row(&["20230104000000", "https://twitter.com/b/status/4", "200"]),
        row(&["20230105000000", "https://twitter.com/c/status/5", "200"]),
    ];
    let all = collect_captures(&rows, 10);
    let urls: Vec<&str> = all.iter().map(|i| i.original_url.as_str()).collect();
    assert_eq!(
        urls,
        vec![
            "https://twitter.com/a/status/2",
            "https://twitter.com/b/status/4",
            "https://twitter.com/c/status/5"
        ]
    );
    let two = collect_captures(&rows, 2);
    assert_eq!(two.len(), 2);
    assert_eq!(two[1].original_url, "https://twitter.com/b/status/4");
    assert!(collect_captures(&rows, 0).is_empty());
    assert!(collect_captures(&vec![], 5).is_empty());
    assert!(collect_captures(&rows[..1].to_vec(), 5).is_empty());
}

#[test]
fn test_build_query() {
    assert_eq!(build_query("twitter.com/test*"), "twitter.com/test/status/*");
    assert_eq!(build_query("twitter.com/test"), "twitter.com/test/status/*");
    assert_eq!(build_query("twitter.com/test/"), "twitter.com/test/status/*");
    assert_eq!(build_query("twitter.com/test//**"), "twitter.com/test/status/*");
    assert_eq!(build_query("twitter.com/test*/"), "twitter.com/test*/status/*");
    assert_eq!(build_query("twitter.com/test/status/*"), "twitter.com/test/status/*");
    assert_eq!(build_query("twitter.com/test/status"), "twitter.com/test/status");
    assert_eq!(build_query(""), "/status/*");
}

#[test]
fn test_index_request_url() {
    let fetcher = TwitterArchiveFetcher::new("twitter.com/test*".to_string(), 10);
    assert_eq!(
        fetcher.index_request_url(),
        "https://web.archive.org/cdx/search/cdx?url=twitter.com%2Ftest%2Fstatus%2F%2A&output=json&limit=11&fl=timestamp,original,statuscode&filter=statuscode:200&collapse=urlkey"
    );
    let fetcher = TwitterArchiveFetcher::new("x.com/a_b-c~d é/status/1".to_string(), 0);
    assert_eq!(
        fetcher.index_request_url(),
        "https://web.archive.org/cdx/search/cdx?url=x.com%2Fa_b-c~d%20%C3%A9%2Fstatus%2F1&output=json&limit=1&fl=timestamp,original,statuscode&filter=statuscode:200&collapse=urlkey"
    );
    let fetcher = TwitterArchiveFetcher::new("q".to_string(), 1234567);
    assert!(fetcher.index_request_url().contains("&limit=1234568&"));
    let fetcher = TwitterArchiveFetcher::new("q".to_string(), usize::MAX);
    assert!(fetcher
        .index_request_url()
        .contains(&format!("&limit={}&", usize::MAX as u128 + 1)));
}

#[test]
fn test_records_from_body_end_to_end() {
    let fetcher = TwitterArchiveFetcher::new("twitter.com/testuser".to_string(), 10);
    let body = r#"[["timestamp","original","statuscode"], ["20230615143022","https://twitter.com/testuser/status/123","200"]]"#;
    let items = fetcher.records_from_body(body).unwrap();
    assert_eq!(items.len(), 1);
    assert_eq!(items[0].date_display, "2023-06-15 14:30");
    assert_eq!(items[0].author, Some("@testuser".to_string()));
    assert!(items[0].archive_url.contains("20230615143022"));
    assert!(items[0]
        .archive_url
        .contains("https://twitter.com/testuser/status/123"));
}

#[test]
fn test_records_from_body_header_only_and_empty() {
    let fetcher = TwitterArchiveFetcher::new("twitter.com/testuser".to_string(), 10);
    assert!(fetcher
        .records_from_body(r#"[["timestamp","original","statuscode"]]"#)
        .unwrap()
        .is_empty());
    assert!(fetcher.records_from_body("[]").unwrap().is_empty());
}

#[test]
fn test_records_from_body_respects_limit() {
    let fetcher = TwitterArchiveFetcher::new("twitter.com/t".to_string(), 1);
    let body = r#"[["timestamp","original","statuscode"],["20230101","https://twitter.com/t/status/1","200"],["20230102","https://twitter.com/t/status/2","200"]]"#;
    let items = fetcher.records_from_body(body).unwrap();
    assert_eq!(items.len(), 1);
    assert_eq!(items[0].original_url, "https://twitter.com/t/status/1");
}

#[test]
fn test_records_from_body_rejects_what_is_no_table() {
    let fetcher = TwitterArchiveFetcher::new("twitter.com/t".to_string(), 5);
    for body in ["", "not json", "{}", "[1,2]", r#"[["a",1]]"#, r#"[["a","b"]"#] {
        match fetcher.records_from_body(body) {
            Err(FetchError::Decode { message }) => assert!(!message.is_empty()),
            other => panic!("expected a decode error for {:?}, got {:?}", body, other),
        }
    }
}

#[test]
fn test_fetch_error_message() {
    let e = FetchError::Request { message: "timed out".to_string() };
    assert_eq!(e.message(), "timed out");
    let e = FetchError::Decode { message: "bad".to_string() };
    assert_eq!(e.message(), "bad");
}

#[test]
fn test_archive_urls() {
    let items = vec![item(0), item(1)];
    assert_eq!(
        archive_urls(&items),
        vec![
            "https://web.archive.org/web/20230615143020if_/https://twitter.com/testuser/status/0"
                .to_string(),
            "https://web.archive.org/web/20230615143021if_/https://twitter.com/testuser/status/1"
                .to_string()
        ]
    );
    assert_eq!(MAX_IN_FLIGHT, 3);
}

#[test]
fn test_enrich_keeps_count_and_order() {
    let items = vec![item(0), item(1), item(2), item(3)];
    let completions = vec![
        (2, Some("third".to_string())),
        (0, Some("first".to_string())),
        (3, None),
        (9, Some("nowhere".to_string())),
    ];
    let out = enrich(items, &completions);
    assert_eq!(out.len(), 4);
    for (i, it) in out.iter().enumerate() {
        assert_eq!(
            it.original_url,
            format!("https://twitter.com/testuser/status/{}", i)
        );
        assert_eq!(it.author, Some("@testuser".to_string()));
    }
    assert_eq!(out[0].tweet_text, Some("first".to_string()));
    assert_eq!(out[1].tweet_text, None);
    assert_eq!(out[2].tweet_text, Some("third".to_string()));
    assert_eq!(out[3].tweet_text, None);
}

#[test]
fn test_enrich_last_completion_wins() {
    let out = enrich(
        vec![item(0)],
        &vec![(0, Some("a".to_string())), (0, Some("b".to_string()))],
    );
    assert_eq!(out[0].tweet_text, Some("b".to_string()));
    let out = enrich(vec![item(0)], &vec![(0, Some("a".to_string())), (0, None)]);
    assert_eq!(out[0].tweet_text, None);
    assert!(enrich(vec![], &vec![(0, Some("a".to_string()))]).is_empty());
}
