//! The text of a tweet, recovered from an archived page.
//!
//! Archived pages differ by the year of their capture, so several places
//! are tried in a fixed order and the first that holds text wins: the
//! page's social description, its card description, its plain description
//! where that is no site-wide phrase, the old inline markup of a tweet, and
//! the linked data that the page embeds.

use crate::text::{chars_of, contains, has, matches_at, starts_with, string_of, trim, trimmed};
use vstd::prelude::*;

verus! {

/// The elements of the page `html` that the CSS selector `selector`
/// matches, in the order in which the page is searched. Of each element
/// there is the value of its attribute `attribute`, where it has one, and
/// the text that it holds: its text nodes, joined. There is no element where
/// the selector is not valid.
pub uninterp spec fn selected(html: Seq<char>, selector: Seq<char>, attribute: Seq<char>) -> Seq<
    (Option<Seq<char>>, Seq<char>),
>;

/// The strings that a JSON text holds under `key`: for an array, one entry
/// for each of its elements, in order; for any other value, one entry for
/// the value itself. An entry is the string under `key` where the element
/// is an object that has one, and nothing otherwise. There is no result
/// where the text is not JSON.
pub uninterp spec fn json_string_fields(json: Seq<char>, key: Seq<char>) -> Option<
    Seq<Option<Seq<char>>>,
>;

/// `s` in lower case, as Unicode maps it.
pub uninterp spec fn lowercase_of(s: Seq<char>) -> Seq<char>;

/// `scraper`: parses `html` as a document (`Html::parse_document`) and
/// `selector` as a selector (`Selector::parse`), and gives for each element
/// that `Html::select` yields its attribute `attribute` (`Element::attr`)
/// and the text nodes below it, joined (`ElementRef::text`).
#[verifier::external_body]
fn select(html: &str, selector: &str, attribute: &str) -> (r: Vec<(Option<String>, String)>)
    ensures
        r.deep_view() == selected(html@, selector@, attribute@),
{
    let document = scraper::Html::parse_document(html);
    match scraper::Selector::parse(selector) {
        Ok(selector) => document.select(&selector).map(
            |e| (e.value().attr(attribute).map(|v| v.to_string()), e.text().collect::<String>()),
        ).collect(),
        Err(_) => Vec::new(),
    }
}

/// `serde_json`: parses `json` as a `Value` (`from_str`) and reads the
/// string under `key` (`Value::get`, `Value::as_str`) of each element of an
/// array (`Value::as_array`), or of the value itself where it is no array.
#[verifier::external_body]
fn string_fields(json: &str, key: &str) -> (r: Option<Vec<Option<String>>>)
    ensures
        r.deep_view() == json_string_fields(json@, key@),
{
    let value: serde_json::Value = serde_json::from_str(json).ok()?;
    let field = |v: &serde_json::Value| v.get(key).and_then(|f| f.as_str()).map(|s| s.to_string());
    match value.as_array() {
        Some(elements) => Some(elements.iter().map(field).collect()),
        None => Some(vec![field(&value)]),
    }
}

/// `str::to_lowercase` of the standard library: each character mapped to
/// lower case, which depends on the text alone.
pub assume_specification[ str::to_lowercase ](s: &str) -> (r: String)
    ensures
        r@ == lowercase_of(s@),
;

/// Text that counts: `raw` without the white space around it, where
/// anything is left.
pub open spec fn cleaned(raw: Seq<char>) -> Option<Seq<char>> {
    if trim(raw).len() > 0 {
        Some(trim(raw))
    } else {
        None
    }
}

/// `cleaned`, of text that may be absent.
pub open spec fn cleaned_field(raw: Option<Seq<char>>) -> Option<Seq<char>> {
    match raw {
        Some(text) => cleaned(text),
        None => None,
    }
}

/// The `content` of the first `meta` element that `selector` matches,
/// where it holds text.
pub open spec fn meta_content(html: Seq<char>, selector: Seq<char>) -> Option<Seq<char>> {
    let found = selected(html, selector, "content"@);
    if found.len() > 0 {
        cleaned_field(found[0].0)
    } else {
        None
    }
}

/// The text of the first element that `selector` matches, where it holds
/// any.
pub open spec fn element_text(html: Seq<char>, selector: Seq<char>) -> Option<Seq<char>> {
    let found = selected(html, selector, "content"@);
    if found.len() > 0 {
        cleaned(found[0].1)
    } else {
        None
    }
}

/// A description, given in lower case, is one of the phrases that the site
/// puts on every page.
pub open spec fn is_boilerplate(lower: Seq<char>) -> bool {
    ||| starts_with(lower, "from breaking news"@)
    ||| starts_with(lower, "the latest posts"@)
    ||| starts_with(lower, "post with"@)
    ||| contains(lower, "on twitter"@)
    ||| contains(lower, "on x"@)
}

/// A plain description counts as the tweet's text where it is longer than
/// 20 characters and no site-wide phrase.
pub open spec fn is_usable_description(text: Seq<char>) -> bool {
    !is_boilerplate(lowercase_of(text)) && text.len() > 20
}

/// The first text that counts among `fields`, from position `from` on.
pub open spec fn body_from(fields: Seq<Option<Seq<char>>>, from: int) -> Option<Seq<char>>
    decreases fields.len() - from,
{
    if from < 0 || from >= fields.len() {
        None
    } else if cleaned_field(fields[from]) is Some {
        cleaned_field(fields[from])
    } else {
        body_from(fields, from + 1)
    }
}

/// The article body that a block of linked data holds: the first
/// `articleBody` that counts, of the value itself or of the elements of an
/// array. A block that is not JSON holds none.
pub open spec fn block_body(block: Seq<char>) -> Option<Seq<char>> {
    match json_string_fields(block, "articleBody"@) {
        Some(fields) => body_from(fields, 0),
        None => None,
    }
}

/// The first article body among the texts of `blocks`, from position
/// `from` on.
pub open spec fn blocks_body_from(
    blocks: Seq<(Option<Seq<char>>, Seq<char>)>,
    from: int,
) -> Option<Seq<char>>
    decreases blocks.len() - from,
{
    if from < 0 || from >= blocks.len() {
        None
    } else if block_body(blocks[from].1) is Some {
        block_body(blocks[from].1)
    } else {
        blocks_body_from(blocks, from + 1)
    }
}

/// The article body of the first block of linked data of the page that
/// holds one.
pub open spec fn linked_data_body(html: Seq<char>) -> Option<Seq<char>> {
    blocks_body_from(selected(html, "script[type=\"application/ld+json\"]"@, "content"@), 0)
}

/// The plain description of the page, where it counts as the tweet's text.
pub open spec fn plain_description(html: Seq<char>) -> Option<Seq<char>> {
    match meta_content(html, "meta[name=\"description\"]"@) {
        Some(text) => if is_usable_description(text) {
            Some(text)
        } else {
            None
        },
        None => None,
    }
}

/// `first` where there is one, else `second`.
pub open spec fn or_else(first: Option<Seq<char>>, second: Option<Seq<char>>) -> Option<
    Seq<char>,
> {
    match first {
        Some(_) => first,
        None => second,
    }
}

/// The text of the tweet that an archived page shows: the first that
/// exists of the social description, the card description, the plain
/// description where it is usable, the inline tweet text, and the article
/// body of the linked data.
pub open spec fn tweet_text(html: Seq<char>) -> Option<Seq<char>> {
    or_else(
        meta_content(html, "meta[property=\"og:description\"]"@),
        or_else(
            meta_content(html, "meta[name=\"twitter:description\"]"@),
            or_else(
                plain_description(html),
                or_else(element_text(html, "p.tweet-text"@), linked_data_body(html)),
            ),
        ),
    )
}

/// The social description wins: where the page has one, it is the text
/// of the tweet, whatever else the page holds.
pub proof fn lemma_social_description_wins(html: Seq<char>)
    requires
        meta_content(html, "meta[property=\"og:description\"]"@) is Some,
    ensures
        tweet_text(html) == meta_content(html, "meta[property=\"og:description\"]"@),
{
}

/// The card description comes second: where the page has no social
/// description, or an empty one, and has a card description, that is the
/// text of the tweet.
pub proof fn lemma_card_description_comes_second(html: Seq<char>)
    requires
        meta_content(html, "meta[property=\"og:description\"]"@) is None,
        meta_content(html, "meta[name=\"twitter:description\"]"@) is Some,
    ensures
        tweet_text(html) == meta_content(html, "meta[name=\"twitter:description\"]"@),
{
}

/// A site-wide phrase is no text: a page whose plain description is such
/// a phrase, and which holds the tweet in no other place, yields nothing.
pub proof fn lemma_boilerplate_is_no_text(html: Seq<char>)
    requires
        meta_content(html, "meta[property=\"og:description\"]"@) is None,
        meta_content(html, "meta[name=\"twitter:description\"]"@) is None,
        meta_content(html, "meta[name=\"description\"]"@) is Some,
        is_boilerplate(lowercase_of(meta_content(html, "meta[name=\"description\"]"@)->0)),
        element_text(html, "p.tweet-text"@) is None,
        linked_data_body(html) is None,
    ensures
        tweet_text(html) is None,
{
}

/// What the page yields is the first text that one of the five places
/// holds, in their order; it yields nothing only where none holds any.
pub proof fn lemma_first_place_wins(html: Seq<char>)
    ensures
        tweet_text(html) is None <==> {
            &&& meta_content(html, "meta[property=\"og:description\"]"@) is None
            &&& meta_content(html, "meta[name=\"twitter:description\"]"@) is None
            &&& plain_description(html) is None
            &&& element_text(html, "p.tweet-text"@) is None
            &&& linked_data_body(html) is None
        },
{
}

/// An article body that is found among fields is never empty.
proof fn lemma_body_is_not_empty(fields: Seq<Option<Seq<char>>>, from: int)
    ensures
        body_from(fields, from) is Some ==> body_from(fields, from)->0.len() > 0,
    decreases fields.len() - from,
{
    if 0 <= from < fields.len() && cleaned_field(fields[from]) is None {
        lemma_body_is_not_empty(fields, from + 1);
    }
}

/// An article body that is found among blocks is never empty.
proof fn lemma_blocks_body_is_not_empty(blocks: Seq<(Option<Seq<char>>, Seq<char>)>, from: int)
    ensures
        blocks_body_from(blocks, from) is Some ==> blocks_body_from(blocks, from)->0.len() > 0,
    decreases blocks.len() - from,
{
    if 0 <= from < blocks.len() {
        if block_body(blocks[from].1) is Some {
            lemma_body_is_not_empty(json_string_fields(blocks[from].1, "articleBody"@)->0, 0);
        } else {
            lemma_blocks_body_is_not_empty(blocks, from + 1);
        }
    }
}

/// Empty text is no text: what a page yields is never empty.
pub proof fn lemma_text_is_not_empty(html: Seq<char>)
    ensures
        tweet_text(html) is Some ==> tweet_text(html)->0.len() > 0,
{
    lemma_blocks_body_is_not_empty(
        selected(html, "script[type=\"application/ld+json\"]"@, "content"@),
        0,
    );
}

/// `raw` without the white space around it, where anything is left.
pub fn clean(raw: &str) -> (r: Option<String>)
    ensures
        r.deep_view() == cleaned(raw@),
{
    let text = trimmed(&chars_of(raw));
    if text.len() == 0 {
        None
    } else {
        Some(string_of(&text))
    }
}

/// `raw` without the white space around it, where it is there and anything
/// is left.
pub fn clean_field(raw: &Option<String>) -> (r: Option<String>)
    ensures
        r.deep_view() == cleaned_field(raw.deep_view()),
{
    match raw {
        Some(text) => clean(text.as_str()),
        None => None,
    }
}

/// The `content` of the first `meta` element that `selector` matches,
/// where it holds text.
pub fn extract_meta_content(html: &str, selector: &str) -> (r: Option<String>)
    ensures
        r.deep_view() == meta_content(html@, selector@),
{
    let found = select(html, selector, "content");
    if found.len() > 0 {
        clean_field(&found[0].0)
    } else {
        None
    }
}

/// The text of the first element that `selector` matches, where it holds
/// any.
pub fn extract_element_text(html: &str, selector: &str) -> (r: Option<String>)
    ensures
        r.deep_view() == element_text(html@, selector@),
{
    let found = select(html, selector, "content");
    if found.len() > 0 {
        clean(found[0].1.as_str())
    } else {
        None
    }
}

/// Whether a description, given in lower case, is one of the phrases that
/// the site puts on every page.
pub fn is_site_phrase(lower: &str) -> (b: bool)
    ensures
        b == is_boilerplate(lower@),
{
    let l = chars_of(lower);
    matches_at(&l, &chars_of("from breaking news"), 0) || matches_at(
        &l,
        &chars_of("the latest posts"),
        0,
    ) || matches_at(&l, &chars_of("post with"), 0) || has(&l, &chars_of("on twitter")) || has(
        &l,
        &chars_of("on x"),
    )
}

/// Whether a plain description counts as the tweet's text.
pub fn usable_description(text: &str) -> (b: bool)
    ensures
        b == is_usable_description(text@),
{
    let lower = text.to_lowercase();
    !is_site_phrase(lower.as_str()) && chars_of(text).len() > 20
}

/// The article body that one value of linked data holds, given the string
/// under its `articleBody`, if it has one.
pub fn extract_article_body_from_value(field: &Option<String>) -> (r: Option<String>)
    ensures
        r.deep_view() == cleaned_field(field.deep_view()),
{
    clean_field(field)
}

/// The first article body among the values of a block of linked data.
pub fn first_article_body(fields: &Vec<Option<String>>) -> (r: Option<String>)
    ensures
        r.deep_view() == body_from(fields.deep_view(), 0),
{
    let mut i: usize = 0;
    while i < fields.len()
        invariant
            i <= fields.len(),
            body_from(fields.deep_view(), 0) == body_from(fields.deep_view(), i as int),
        decreases fields.len() - i,
    {
        let body = extract_article_body_from_value(&fields[i]);
        if body.is_some() {
            return body;
        }
        i += 1;
    }
    None
}

/// The article body of the first block of linked data of the page that
/// holds one. A block that is not JSON is passed over.
pub fn extract_json_ld_article_body(html: &str) -> (r: Option<String>)
    ensures
        r.deep_view() == linked_data_body(html@),
{
    let blocks = select(html, "script[type=\"application/ld+json\"]", "content");
    let mut i: usize = 0;
    while i < blocks.len()
        invariant
            i <= blocks.len(),
            blocks.deep_view() == selected(
                html@,
                "script[type=\"application/ld+json\"]"@,
                "content"@,
            ),
            linked_data_body(html@) == blocks_body_from(blocks.deep_view(), i as int),
        decreases blocks.len() - i,
    {
        match string_fields(blocks[i].1.as_str(), "articleBody") {
            Some(fields) => {
                let body = first_article_body(&fields);
                if body.is_some() {
                    return body;
                }
            },
            None => {},
        }
        i += 1;
    }
    None
}

/// Recovers the text of the tweet that an archived page shows.
pub fn extract_tweet_text(html: &str) -> (r: Option<String>)
    ensures
        r.deep_view() == tweet_text(html@),
{
    let social = extract_meta_content(html, "meta[property=\"og:description\"]");
    if social.is_some() {
        return social;
    }
    let card = extract_meta_content(html, "meta[name=\"twitter:description\"]");
    if card.is_some() {
        return card;
    }
    match extract_meta_content(html, "meta[name=\"description\"]") {
        Some(text) => {
            if usable_description(text.as_str()) {
                return Some(text);
            }
        },
        None => {},
    }
    let inline = extract_element_text(html, "p.tweet-text");
    if inline.is_some() {
        return inline;
    }
    extract_json_ld_article_body(html)
}

/// What came of asking the archive for a page.
#[derive(Debug)]
pub enum PageResponse {
    /// The request failed.
    Unreachable,
    /// The archive answered with this status; the body is there where it
    /// could be read.
    Answer { status: u16, body: Option<String> },
}

/// A status that reports success: 200 to 299.
pub open spec fn is_success(status: u16) -> bool {
    200 <= status < 300
}

/// The text that a response yields: that of the page where the archive
/// answered with success and the body could be read, and none otherwise.
pub open spec fn response_text(response: PageResponse) -> Option<Seq<char>> {
    match response {
        PageResponse::Answer { status, body: Some(page) } => if is_success(status) {
            tweet_text(page@)
        } else {
            None
        },
        _ => None,
    }
}

/// The text of the tweet that a response holds. A request that failed, a
/// status other than success and a body that could not be read all leave
/// the capture without text; none of them is an error.
pub fn text_from_response(response: &PageResponse) -> (r: Option<String>)
    ensures
        r.deep_view() == response_text(*response),
{
    match response {
        PageResponse::Answer { status, body: Some(page) } => {
            if 200 <= *status && *status < 300 {
                extract_tweet_text(page.as_str())
            } else {
                None
            }
        },
        _ => None,
    }
}

} // verus!
