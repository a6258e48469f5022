//! Recovery of archived tweets: which captures of a profile exist, which of
//! them are tweets, and what text an archived page holds.

use crate::feeds::{ArchiveItemView, FeedData, TwitterArchiveItem};
use crate::text::{
    chars_of, contains, decimal, decimal_of, find, find_in, has, lemma_find_is_first, matches_at,
    push_all, slice, stop_index, string_of, strip_prefix, trim_end_matches, until_any,
    without_trailing,
};
use vstd::prelude::*;
use vstd::utf8::encode_utf8;

verus! {

/// The display form of an archive timestamp `YYYYMMDDhhmmss`: the date as
/// `YYYY-MM-DD` where there are at least 8 characters, followed by ` hh:mm`
/// where there are at least 12. Anything shorter stands as it is.
pub open spec fn formatted_timestamp(ts: Seq<char>) -> Seq<char> {
    if ts.len() >= 8 {
        let date = ts.subrange(0, 4) + seq!['-'] + ts.subrange(4, 6) + seq!['-'] + ts.subrange(
            6,
            8,
        );
        if ts.len() >= 12 {
            date + seq![' '] + ts.subrange(8, 10) + seq![':'] + ts.subrange(10, 12)
        } else {
            date
        }
    } else {
        ts
    }
}

/// Formats an archive timestamp for display.
pub fn format_wayback_timestamp(ts: &str) -> (r: String)
    ensures
        r@ == formatted_timestamp(ts@),
{
    let t = chars_of(ts);
    if t.len() >= 8 {
        let mut out = slice(&t, 0, 4);
        out.push('-');
        push_all(&mut out, &slice(&t, 4, 6));
        out.push('-');
        push_all(&mut out, &slice(&t, 6, 8));
        if t.len() >= 12 {
            out.push(' ');
            push_all(&mut out, &slice(&t, 8, 10));
            out.push(':');
            push_all(&mut out, &slice(&t, 10, 12));
        }
        string_of(&out)
    } else {
        string_of(&t)
    }
}

/// `url` without a leading `https://` or `http://`.
pub open spec fn without_scheme(url: Seq<char>) -> Seq<char> {
    match strip_prefix(url, "https://"@) {
        Some(rest) => rest,
        None => match strip_prefix(url, "http://"@) {
            Some(rest) => rest,
            None => url,
        },
    }
}

/// `s` without a leading `www.`.
pub open spec fn without_www(s: Seq<char>) -> Seq<char> {
    match strip_prefix(s, "www."@) {
        Some(rest) => rest,
        None => s,
    }
}

/// What follows the host of a tweet's address: `twitter.com/` or `x.com/`.
pub open spec fn after_host(s: Seq<char>) -> Option<Seq<char>> {
    match strip_prefix(s, "twitter.com/"@) {
        Some(rest) => Some(rest),
        None => strip_prefix(s, "x.com/"@),
    }
}

/// The author's handle that a tweet's address names: the first path segment
/// after the host, with `@` before it. There is none where the host is not
/// one of the two, or the segment is empty.
pub open spec fn author_handle(url: Seq<char>) -> Option<Seq<char>> {
    match after_host(without_www(without_scheme(url))) {
        Some(path) => {
            let name = until_any(path, seq!['/']);
            if name.len() == 0 {
                None
            } else {
                Some(seq!['@'] + name)
            }
        },
        None => None,
    }
}

/// `s` without its prefix `p`, where it has that prefix.
fn without_prefix(s: &Vec<char>, p: &str) -> (r: Option<Vec<char>>)
    ensures
        match r {
            Some(rest) => strip_prefix(s@, p@) == Some(rest@),
            None => strip_prefix(s@, p@) is None,
        },
{
    let pattern = chars_of(p);
    if matches_at(s, &pattern, 0) {
        Some(slice(s, pattern.len(), s.len()))
    } else {
        None
    }
}

/// The author's handle that the address of a tweet names.
pub fn extract_author_from_url(url: &str) -> (r: Option<String>)
    ensures
        r.deep_view() == author_handle(url@),
{
    let whole = chars_of(url);
    let rest = match without_prefix(&whole, "https://") {
        Some(rest) => rest,
        None => match without_prefix(&whole, "http://") {
            Some(rest) => rest,
            None => whole,
        },
    };
    let rest = match without_prefix(&rest, "www.") {
        Some(r) => r,
        None => rest,
    };
    let path = match without_prefix(&rest, "twitter.com/") {
        Some(p) => p,
        None => match without_prefix(&rest, "x.com/") {
            Some(p) => p,
            None => {
                return None;
            },
        },
    };
    let stops: Vec<char> = vec!['/'];
    assert(stops@ =~= seq!['/']);
    let end = stop_index(&path, &stops, 0);
    if end == 0 {
        None
    } else {
        let mut handle: Vec<char> = vec!['@'];
        assert(handle@ =~= seq!['@']);
        push_all(&mut handle, &slice(&path, 0, end));
        Some(string_of(&handle))
    }
}

/// What follows the first `/status/` in `url`.
pub open spec fn after_marker(url: Seq<char>) -> Option<Seq<char>> {
    match find(url, "/status/"@) {
        Some(i) => Some(url.skip(i + "/status/"@.len())),
        None => None,
    }
}

/// The characters that end a tweet's identifier in an address: the start of
/// a query or a fragment, an escape, a stray quote.
pub open spec fn id_stops() -> Seq<char> {
    seq!['?', '%', '#', '"']
}

/// The identifier that `url` would name: what follows the first `/status/`,
/// up to the first of `?`, `%`, `#` and `"`.
pub open spec fn candidate_id(url: Seq<char>) -> Option<Seq<char>> {
    match after_marker(url) {
        Some(rest) => Some(until_any(rest, id_stops())),
        None => None,
    }
}

/// `c` is one of the digits `0` to `9`.
pub open spec fn is_digit(c: char) -> bool {
    0x30 <= c as u32 <= 0x39
}

/// `url` is the address of a tweet: it names an identifier that is not
/// empty and begins with a digit.
pub open spec fn is_tweet_url(url: Seq<char>) -> bool {
    match candidate_id(url) {
        Some(id) => id.len() > 0 && is_digit(id[0]),
        None => false,
    }
}

/// Where the archive serves, unframed, the capture of `url` made at `ts`.
pub open spec fn archive_url_of(ts: Seq<char>, url: Seq<char>) -> Seq<char> {
    "https://web.archive.org/web/"@ + ts + "if_/"@ + url
}

/// The capture that a row of the index stands for. A row has at least the
/// columns timestamp, address and status; it stands for a capture where its
/// address is that of a tweet.
pub open spec fn classified(row: Seq<Seq<char>>) -> Option<ArchiveItemView> {
    if row.len() >= 3 && is_tweet_url(row[1]) {
        Some(
            ArchiveItemView {
                timestamp: row[0],
                original_url: row[1],
                archive_url: archive_url_of(row[0], row[1]),
                tweet_text: None,
                author: author_handle(row[1]),
                date_display: formatted_timestamp(row[0]),
            },
        )
    } else {
        None
    }
}

/// Whether `c` is one of the digits `0` to `9`.
fn is_digit_char(c: char) -> (b: bool)
    ensures
        b == is_digit(c),
{
    let n: u32 = c as u32;
    0x30 <= n && n <= 0x39
}

/// Whether `url` is the address of a tweet.
pub fn names_tweet(url: &str) -> (b: bool)
    ensures
        b == is_tweet_url(url@),
{
    let whole = chars_of(url);
    let marker = chars_of("/status/");
    match find_in(&whole, &marker) {
        Some(i) => {
            let rest = slice(&whole, i + marker.len(), whole.len());
            let stops: Vec<char> = vec!['?', '%', '#', '"'];
            assert(stops@ =~= id_stops());
            let end = stop_index(&rest, &stops, 0);
            assert(rest@ =~= whole@.skip(i + marker.len()));
            end > 0 && is_digit_char(rest[0])
        },
        None => false,
    }
}

/// Decides whether a row of the index stands for the capture of a tweet,
/// and if so derives the capture from it. A row that is too short, or whose
/// address is not that of a tweet, is passed over.
pub fn classify(row: &Vec<String>) -> (r: Option<TwitterArchiveItem>)
    ensures
        r.deep_view() == classified(row.deep_view()),
        row.len() < 3 ==> r is None,
        row.len() >= 3 && !contains(row[1]@, "/status/"@) ==> r is None,
        row.len() >= 3 && candidate_id(row[1]@) is Some && (candidate_id(row[1]@)->0.len() == 0
            || !is_digit(candidate_id(row[1]@)->0[0])) ==> r is None,
{
    if row.len() < 3 {
        return None;
    }
    proof {
        lemma_find_is_first(row[1]@, "/status/"@, 0);
    }
    let timestamp = row[0].as_str();
    let original = row[1].as_str();
    if !names_tweet(original) {
        return None;
    }
    let mut archive_url = chars_of("https://web.archive.org/web/");
    push_all(&mut archive_url, &chars_of(timestamp));
    push_all(&mut archive_url, &chars_of("if_/"));
    push_all(&mut archive_url, &chars_of(original));
    Some(
        TwitterArchiveItem {
            timestamp: row[0].clone(),
            original_url: row[1].clone(),
            archive_url: string_of(&archive_url),
            tweet_text: None,
            author: extract_author_from_url(original),
            date_display: format_wayback_timestamp(timestamp),
        },
    )
}

/// The captures that the rows of an index answer stand for, in the rows'
/// order. The first row holds the column names and stands for nothing.
pub open spec fn accepted(rows: Seq<Seq<Seq<char>>>) -> Seq<ArchiveItemView>
    decreases rows.len(),
{
    if rows.len() <= 1 {
        Seq::empty()
    } else {
        match classified(rows.last()) {
            Some(item) => accepted(rows.drop_last()).push(item),
            None => accepted(rows.drop_last()),
        }
    }
}

/// The first `n` elements of `s`, or all of them where there are fewer.
pub open spec fn first_n<T>(s: Seq<T>, n: nat) -> Seq<T> {
    if n < s.len() {
        s.take(n as int)
    } else {
        s
    }
}

/// The captures that an index answer yields where at most `max` are asked
/// for.
pub open spec fn captures(rows: Seq<Seq<Seq<char>>>, max: nat) -> Seq<ArchiveItemView> {
    first_n(accepted(rows), max)
}

/// No more captures are returned than were asked for, and none that the
/// index did not list: the header row aside, at most one for each row.
pub proof fn lemma_captures_are_bounded(rows: Seq<Seq<Seq<char>>>, max: nat)
    ensures
        captures(rows, max).len() <= max,
        captures(rows, max).len() <= accepted(rows).len(),
        rows.len() > 0 ==> accepted(rows).len() <= rows.len() - 1,
        rows.len() == 0 ==> accepted(rows).len() == 0,
    decreases rows.len(),
{
    if rows.len() > 1 {
        lemma_captures_are_bounded(rows.drop_last(), max);
    }
}

/// The captures of the first `i` rows are the first of the captures of the
/// first `j` rows, where `i <= j`.
proof fn lemma_accepted_grows(rows: Seq<Seq<Seq<char>>>, i: int, j: int)
    requires
        0 <= i <= j <= rows.len(),
    ensures
        accepted(rows.take(i)).is_prefix_of(accepted(rows.take(j))),
    decreases j - i,
{
    if i < j {
        lemma_accepted_grows(rows, i, j - 1);
        assert(rows.take(j).drop_last() =~= rows.take(j - 1));
    }
}

/// Goes through the rows of an index answer and keeps the captures of
/// tweets, at most `max_items` of them, in the rows' order.
pub fn collect_captures(rows: &Vec<Vec<String>>, max_items: usize) -> (items: Vec<
    TwitterArchiveItem,
>)
    ensures
        items.deep_view() == captures(rows.deep_view(), max_items as nat),
        items.len() <= max_items,
{
    let ghost all = rows.deep_view();
    let mut items: Vec<TwitterArchiveItem> = Vec::new();
    let mut i: usize = 1;
    if rows.len() <= 1 || max_items == 0 {
        assert(items.deep_view() =~= captures(all, max_items as nat));
        return items;
    }
    assert(items.deep_view() =~= accepted(all.take(1)));
    while i < rows.len() && items.len() < max_items
        invariant
            1 <= i <= rows.len(),
            all == rows.deep_view(),
            items.len() <= max_items,
            items.deep_view() == accepted(all.take(i as int)),
        decreases rows.len() - i,
    {
        let ghost before = items.deep_view();
        assert(all.take(i + 1).drop_last() =~= all.take(i as int));
        assert(all.take(i + 1).last() == rows[i as int].deep_view());
        match classify(&rows[i]) {
            Some(item) => {
                items.push(item);
                assert(items.deep_view() =~= before.push(item.deep_view()));
            },
            None => {},
        }
        i += 1;
    }
    proof {
        lemma_accepted_grows(all, i as int, all.len() as int);
        assert(all.take(all.len() as int) =~= all);
        if i < rows.len() {
            assert(accepted(all).take(max_items as int) =~= items.deep_view());
        }
    }
    items
}

/// The bytes that stand as they are in an encoded address: letters, digits
/// and `-`, `.`, `_`, `~`.
pub open spec fn is_unreserved(b: u8) -> bool {
    ||| 0x30 <= b <= 0x39
    ||| 0x41 <= b <= 0x5A
    ||| 0x61 <= b <= 0x7A
    ||| b == 0x2D
    ||| b == 0x2E
    ||| b == 0x5F
    ||| b == 0x7E
}

/// The upper-case hexadecimal digit for `d`, which is below sixteen.
pub open spec fn hex_digit(d: u8) -> char {
    if d < 10 {
        (0x30 + d) as u8 as char
    } else {
        (0x41 + d - 10) as u8 as char
    }
}

/// The percent-encoding of a sequence of bytes: an unreserved byte stands
/// as it is, any other becomes `%` and its two hexadecimal digits.
pub open spec fn percent_encoded(bytes: Seq<u8>) -> Seq<char>
    decreases bytes.len(),
{
    if bytes.len() == 0 {
        Seq::empty()
    } else {
        let b = bytes[0];
        let head = if is_unreserved(b) {
            seq![b as char]
        } else {
            seq!['%', hex_digit(b / 16), hex_digit(b % 16)]
        };
        head + percent_encoded(bytes.drop_first())
    }
}

/// `urlencoding::encode`: the percent-encoding of the UTF-8 bytes of `s`.
/// Letters, digits and `-`, `.`, `_`, `~` are kept; every other byte is
/// written as `%` and two upper-case hexadecimal digits.
#[verifier::external_body]
fn percent_encode(s: &str) -> (r: String)
    ensures
        r@ == percent_encoded(encode_utf8(s@)),
{
    urlencoding::encode(s).into_owned()
}

/// The pattern of addresses that the index is asked for. A query that names
/// `/status` already is taken as it is; any other loses its trailing `*`
/// and then its trailing `/`, and gets `/status/*`, so that only tweets are
/// asked for.
pub open spec fn status_pattern(query: Seq<char>) -> Seq<char> {
    if contains(query, "/status"@) {
        query
    } else {
        trim_end_matches(trim_end_matches(query, '*'), '/') + "/status/*"@
    }
}

/// The address of the index request for `query` that asks for `limit`
/// rows: JSON output, the columns timestamp, address and status, only
/// captures with status 200, one per address.
pub open spec fn index_url(query: Seq<char>, limit: nat) -> Seq<char> {
    "https://web.archive.org/cdx/search/cdx?url="@ + percent_encoded(
        encode_utf8(status_pattern(query)),
    ) + "&output=json&limit="@ + decimal(limit)
        + "&fl=timestamp,original,statuscode&filter=statuscode:200&collapse=urlkey"@
}

/// Why no captures could be had from the index.
#[derive(Debug)]
pub enum FetchError {
    /// The request failed, or its answer could not be read.
    Request { message: String },
    /// The answer was no JSON table of strings.
    Decode { message: String },
}

impl FetchError {
    /// The error in words.
    pub fn message(&self) -> (r: String)
        ensures
            r@ == match *self {
                FetchError::Request { message } => message@,
                FetchError::Decode { message } => message@,
            },
    {
        match self {
            FetchError::Request { message } => message.clone(),
            FetchError::Decode { message } => message.clone(),
        }
    }
}

/// The error of `serde_json`.
#[verifier::external_type_specification]
#[verifier::external_body]
pub struct ExJsonError(serde_json::Error);

/// The table that a JSON text holds, where the text is an array of arrays
/// of strings; nothing for any other text.
pub uninterp spec fn json_rows(body: Seq<char>) -> Option<Seq<Seq<Seq<char>>>>;

/// `serde_json::from_str` at the type `Vec<Vec<String>>`: the rows and
/// columns of `body` where it is a JSON array of arrays of strings, and an
/// error where it is not.
#[verifier::external_body]
fn parse_rows(body: &str) -> (r: Result<Vec<Vec<String>>, serde_json::Error>)
    ensures
        match r {
            Ok(rows) => json_rows(body@) == Some(rows.deep_view()),
            Err(_) => json_rows(body@) is None,
        },
{
    serde_json::from_str(body)
}

/// The `Display` form of an error of `serde_json`.
#[verifier::external_body]
fn json_error_text(e: &serde_json::Error) -> String {
    format!("{}", e)
}

/// The pattern of addresses that the index is asked for.
pub fn build_query(user_query: &str) -> (r: String)
    ensures
        r@ == status_pattern(user_query@),
{
    let query = chars_of(user_query);
    if has(&query, &chars_of("/status")) {
        string_of(&query)
    } else {
        let mut base = without_trailing(&without_trailing(&query, '*'), '/');
        push_all(&mut base, &chars_of("/status/*"));
        string_of(&base)
    }
}

/// Asks the archive's index which captures of a profile's tweets exist.
pub struct TwitterArchiveFetcher {
    /// The profile or search pattern to look for.
    pub archive_query: String,
    /// How many captures to return at most.
    pub max_items: usize,
}

impl TwitterArchiveFetcher {
    /// A fetcher for `archive_query` that returns at most `max_items`
    /// captures.
    pub fn new(archive_query: String, max_items: usize) -> (r: Self)
        ensures
            r.archive_query == archive_query,
            r.max_items == max_items,
    {
        TwitterArchiveFetcher { archive_query, max_items }
    }

    /// The captures that the body of an index answer holds. A body that is
    /// no table of strings is an error: no part of it is used.
    pub fn records_from_body(&self, body: &str) -> (r: Result<Vec<TwitterArchiveItem>, FetchError>)
        ensures
            match json_rows(body@) {
                Some(rows) => r is Ok && r->Ok_0.deep_view() == captures(
                    rows,
                    self.max_items as nat,
                ) && r->Ok_0.len() <= self.max_items,
                None => r is Err && r->Err_0 is Decode,
            },
    {
        match parse_rows(body) {
            Ok(rows) => Ok(collect_captures(&rows, self.max_items)),
            Err(e) => Err(FetchError::Decode { message: json_error_text(&e) }),
        }
    }

    /// The address of the index request. One row more than `max_items` is
    /// asked for, since the first row of the answer holds the column names.
    pub fn index_request_url(&self) -> (r: String)
        ensures
            r@ == index_url(self.archive_query@, self.max_items as nat + 1),
    {
        let pattern = build_query(self.archive_query.as_str());
        let mut url = chars_of("https://web.archive.org/cdx/search/cdx?url=");
        push_all(&mut url, &chars_of(percent_encode(pattern.as_str()).as_str()));
        push_all(&mut url, &chars_of("&output=json&limit="));
        push_all(&mut url, &decimal_of(self.max_items as u128 + 1));
        push_all(
            &mut url,
            &chars_of("&fl=timestamp,original,statuscode&filter=statuscode:200&collapse=urlkey"),
        );
        string_of(&url)
    }
}

/// What the widget is sent for the outcome of a fetch: the captures, or
/// the error in words in place of them.
pub fn feed_data(outcome: Result<Vec<TwitterArchiveItem>, FetchError>) -> (data: FeedData)
    ensures
        match outcome {
            Ok(items) => data == FeedData::TwitterArchive(items),
            Err(FetchError::Request { message }) => data is Error && data->Error_0@ == message@,
            Err(FetchError::Decode { message }) => data is Error && data->Error_0@ == message@,
        },
{
    match outcome {
        Ok(items) => FeedData::TwitterArchive(items),
        Err(e) => FeedData::Error(e.message()),
    }
}

/// How many pages are asked for at a time.
pub const MAX_IN_FLIGHT: usize = 3;

/// The addresses of the captures, in the order of `items`.
pub fn archive_urls(items: &Vec<TwitterArchiveItem>) -> (urls: Vec<String>)
    ensures
        urls.len() == items.len(),
        forall|i: int| 0 <= i < items.len() ==> urls[i]@ == items[i].archive_url@,
{
    let mut urls: Vec<String> = Vec::new();
    let mut i: usize = 0;
    while i < items.len()
        invariant
            i <= items.len(),
            urls.len() == i,
            forall|j: int| 0 <= j < i ==> urls[j]@ == items[j].archive_url@,
        decreases items.len() - i,
    {
        urls.push(items[i].archive_url.clone());
        i += 1;
    }
    urls
}

/// The text that the completions leave with the capture at `index`, which
/// had `was` before: that of the last completion that names `index`.
pub open spec fn placed(
    completions: Seq<(usize, Option<Seq<char>>)>,
    index: int,
    was: Option<Seq<char>>,
) -> Option<Seq<char>>
    decreases completions.len(),
{
    if completions.len() == 0 {
        was
    } else if completions.last().0 == index {
        completions.last().1
    } else {
        placed(completions.drop_last(), index, was)
    }
}

/// The captures with the texts that the completions brought, each at the
/// place that its completion names.
pub open spec fn enriched(
    items: Seq<ArchiveItemView>,
    completions: Seq<(usize, Option<Seq<char>>)>,
) -> Seq<ArchiveItemView> {
    Seq::new(
        items.len(),
        |i: int|
            ArchiveItemView { tweet_text: placed(completions, i, items[i].tweet_text), ..items[i] },
    )
}

/// Enrichment drops and moves nothing: there are as many captures after it
/// as before, and each is the capture that stood at its place, with nothing
/// but its text changed.
pub proof fn lemma_enriched_keeps_captures(
    items: Seq<ArchiveItemView>,
    completions: Seq<(usize, Option<Seq<char>>)>,
)
    ensures
        enriched(items, completions).len() == items.len(),
        forall|i: int|
            0 <= i < items.len() ==> (#[trigger] enriched(items, completions)[i])
                == (ArchiveItemView {
                tweet_text: enriched(items, completions)[i].tweet_text,
                ..items[i]
            }),
{
}

/// A capture for which no completion came keeps the text it had.
pub proof fn lemma_unnamed_capture_keeps_text(
    completions: Seq<(usize, Option<Seq<char>>)>,
    index: int,
    was: Option<Seq<char>>,
)
    requires
        forall|k: int| 0 <= k < completions.len() ==> (#[trigger] completions[k]).0 != index,
    ensures
        placed(completions, index, was) == was,
    decreases completions.len(),
{
    if completions.len() > 0 {
        assert(completions.last() == completions[completions.len() - 1]);
        lemma_unnamed_capture_keeps_text(completions.drop_last(), index, was);
    }
}

/// A copy of `text`.
fn copy_text(text: &Option<String>) -> (r: Option<String>)
    ensures
        r.deep_view() == text.deep_view(),
{
    match text {
        Some(t) => Some(t.clone()),
        None => None,
    }
}

/// Gives each capture the text that was recovered for it. A completion is
/// the position of a capture in `items` and the text of its page, if any;
/// completions may come in any order, and one that names no capture is
/// passed over. No capture is dropped or moved, and nothing but its text
/// changes.
pub fn enrich(items: Vec<TwitterArchiveItem>, completions: &Vec<(usize, Option<String>)>) -> (out:
    Vec<TwitterArchiveItem>)
    ensures
        out.deep_view() == enriched(items.deep_view(), completions.deep_view()),
        out.len() == items.len(),
        forall|i: int|
            0 <= i < items.len() ==> {
                &&& out[i].timestamp@ == items[i].timestamp@
                &&& out[i].original_url@ == items[i].original_url@
                &&& out[i].archive_url@ == items[i].archive_url@
                &&& out[i].author.deep_view() == items[i].author.deep_view()
                &&& out[i].date_display@ == items[i].date_display@
            },
{
    let ghost before = items.deep_view();
    let ghost all = completions.deep_view();
    let mut out = items;
    let mut k: usize = 0;
    while k < completions.len()
        invariant
            k <= completions.len(),
            all == completions.deep_view(),
            out.len() == before.len(),
            forall|i: int|
                0 <= i < out.len() ==> (#[trigger] out[i])@ == (ArchiveItemView {
                    tweet_text: placed(all.take(k as int), i, before[i].tweet_text),
                    ..before[i]
                }),
        decreases completions.len() - k,
    {
        let tag = completions[k].0;
        let text = copy_text(&completions[k].1);
        assert(all.take(k + 1).drop_last() =~= all.take(k as int));
        assert(all.take(k + 1).last() == all[k as int]);
        assert(all[k as int] == (tag, text.deep_view()));
        if tag < out.len() {
            out[tag].tweet_text = text;
        }
        k += 1;
    }
    assert(all.take(k as int) =~= all);
    assert(out.deep_view() =~= enriched(before, all));
    out
}

} // verus!
