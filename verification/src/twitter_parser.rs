//! Reads what the command-line client prints for a search or for the
//! mentions.
//!
//! The client prints one block for each tweet:
//!
//! ```text
//! @username: Tweet text
//! URL: https://twitter.com/...
//! ---
//! ```
//!
//! A block begins at a line that starts with `@`; lines that follow and are
//! neither an address nor a separator continue the text. A block without an
//! address is no tweet.

use crate::text::{
    chars_of, matches_at, push_all, slice, split_lines, starts_with, stop_from, stop_index,
    string_of, trim, trim_start_matches, trimmed, without_leading,
};
use crate::twitter_message::{Tweet, TweetView};
use vstd::prelude::*;

verus! {

/// A tweet that is being read: what its block has given so far.
pub ghost struct Draft {
    pub author: Seq<char>,
    pub text: Seq<char>,
    pub url: Seq<char>,
}

/// Where the reading stands: the tweets that are complete, and the block
/// that is open, if any.
pub ghost struct Reading {
    pub tweets: Seq<TweetView>,
    pub current: Option<Draft>,
}

/// `s` without `p` at its start, as often as it stands there.
pub open spec fn strip_all(s: Seq<char>, p: Seq<char>) -> Seq<char>
    decreases s.len(),
{
    if p.len() > 0 && starts_with(s, p) {
        strip_all(s.skip(p.len() as int), p)
    } else {
        s
    }
}

/// `s` cut at its first `c`: what stands before it and what stands after.
pub open spec fn split_once(s: Seq<char>, c: char) -> Option<(Seq<char>, Seq<char>)> {
    let i = stop_from(s, seq![c], 0);
    if i < s.len() {
        Some((s.take(i), s.skip(i + 1)))
    } else {
        None
    }
}

/// The tweet that a complete block stands for.
pub open spec fn tweet_of(d: Draft) -> TweetView {
    TweetView { id: d.url, author: d.author, text: d.text, url: Some(d.url) }
}

/// The open block is closed: it becomes a tweet where it has an address,
/// and is dropped where it has none.
pub open spec fn closed(r: Reading) -> Reading {
    match r.current {
        Some(d) => Reading {
            tweets: if d.url.len() > 0 {
                r.tweets.push(tweet_of(d))
            } else {
                r.tweets
            },
            current: None,
        },
        None => r,
    }
}

/// What one line, without the white space around it, does to the reading.
pub open spec fn after_line(r: Reading, line: Seq<char>) -> Reading {
    if starts_with(line, seq!['@']) {
        match split_once(line, ':') {
            Some((author, text)) => Reading {
                tweets: closed(r).tweets,
                current: Some(
                    Draft {
                        author: trim_start_matches(author, '@'),
                        text: trim(text),
                        url: Seq::empty(),
                    },
                ),
            },
            None => closed(r),
        }
    } else if starts_with(line, "URL:"@) || starts_with(line, "http"@) {
        match r.current {
            Some(d) => Reading {
                tweets: r.tweets,
                current: Some(Draft { url: trim(strip_all(line, "URL:"@)), ..d }),
            },
            None => r,
        }
    } else if line == "---"@ || line.len() == 0 {
        closed(r)
    } else {
        match r.current {
            Some(d) => Reading {
                tweets: r.tweets,
                current: Some(
                    Draft {
                        text: if d.text.len() > 0 {
                            d.text + seq![' '] + line
                        } else {
                            line
                        },
                        ..d
                    },
                ),
            },
            None => r,
        }
    }
}

/// The reading after the given lines, each taken without the white space
/// around it.
pub open spec fn after_lines(lines: Seq<Seq<char>>) -> Reading
    decreases lines.len(),
{
    if lines.len() == 0 {
        Reading { tweets: Seq::empty(), current: None }
    } else {
        after_line(after_lines(lines.drop_last()), trim(lines.last()))
    }
}

/// The tweets that the client's output holds.
pub open spec fn parsed(output: Seq<char>) -> Seq<TweetView> {
    closed(after_lines(split_lines(output))).tweets
}

/// The open block, as the parser holds it.
struct Block {
    author: Vec<char>,
    text: Vec<char>,
    url: Vec<char>,
}

/// What the open block holds, as plain values.
spec fn draft_of(b: Block) -> Draft {
    Draft { author: b.author@, text: b.text@, url: b.url@ }
}

/// What the parser holds, as a reading.
spec fn reading(tweets: Vec<Tweet>, current: Option<Block>) -> Reading {
    Reading {
        tweets: tweets.deep_view(),
        current: match current {
            Some(b) => Some(draft_of(b)),
            None => None,
        },
    }
}

/// Closes the open block.
fn close(tweets: &mut Vec<Tweet>, current: &mut Option<Block>)
    ensures
        reading(*final(tweets), *final(current)) == closed(reading(*old(tweets), *old(current))),
{
    let ghost before = tweets.deep_view();
    match current.take() {
        Some(block) => {
            if block.url.len() > 0 {
                let url = string_of(&block.url);
                let tweet = Tweet {
                    id: url.clone(),
                    author: string_of(&block.author),
                    text: string_of(&block.text),
                    url: Some(url),
                };
                tweets.push(tweet);
                assert(tweets.deep_view() =~= before.push(tweet_of(draft_of(block))));
            }
        },
        None => {},
    }
}

/// `s` without `p` at its start, as often as it stands there.
fn without_all(s: &Vec<char>, p: &Vec<char>) -> (r: Vec<char>)
    ensures
        r@ == strip_all(s@, p@),
{
    if p.len() == 0 {
        return slice(s, 0, s.len());
    }
    let mut a: usize = 0;
    assert(s@.skip(0) =~= s@);
    while matches_at(s, p, a)
        invariant
            a <= s.len(),
            p.len() > 0,
            strip_all(s@, p@) == strip_all(s@.skip(a as int), p@),
        decreases s.len() - a,
    {
        assert(s@.skip(a as int).subrange(0, p.len() as int) =~= s@.subrange(
            a as int,
            a + p.len(),
        ));
        assert(s@.skip(a as int).skip(p.len() as int) =~= s@.skip(a + p.len()));
        a += p.len();
    }
    proof {
        if a + p.len() <= s.len() {
            assert(s@.skip(a as int).subrange(0, p.len() as int) =~= s@.subrange(
                a as int,
                a + p.len(),
            ));
        }
        assert(s@.skip(a as int) =~= s@.subrange(a as int, s.len() as int));
    }
    slice(s, a, s.len())
}

/// Takes one line, without the white space around it, into the reading.
fn take_line(tweets: &mut Vec<Tweet>, current: &mut Option<Block>, line: &Vec<char>)
    ensures
        reading(*final(tweets), *final(current)) == after_line(
            reading(*old(tweets), *old(current)),
            line@,
        ),
{
    let at: Vec<char> = vec!['@'];
    assert(at@ =~= seq!['@']);
    if matches_at(line, &at, 0) {
        close(tweets, current);
        let colon: Vec<char> = vec![':'];
        assert(colon@ =~= seq![':']);
        let i = stop_index(line, &colon, 0);
        if i < line.len() {
            let author = without_leading(&slice(line, 0, i), '@');
            let text = trimmed(&slice(line, i + 1, line.len()));
            assert(line@.take(i as int) =~= line@.subrange(0, i as int));
            assert(line@.skip(i + 1) =~= line@.subrange(i + 1, line.len() as int));
            *current = Some(Block { author, text, url: Vec::new() });
        }
    } else if matches_at(line, &chars_of("URL:"), 0) || matches_at(line, &chars_of("http"), 0) {
        match current.take() {
            Some(block) => {
                let url = trimmed(&without_all(line, &chars_of("URL:")));
                *current = Some(Block { author: block.author, text: block.text, url });
            },
            None => {},
        }
    } else if line.len() == 0 || is_separator(line) {
        close(tweets, current);
    } else {
        match current.take() {
            Some(block) => {
                let ghost had = block.text@;
                let mut text = block.text;
                if text.len() > 0 {
                    text.push(' ');
                    assert(text@ =~= had + seq![' ']);
                }
                push_all(&mut text, line);
                assert(had.len() == 0 ==> text@ =~= line@);
                *current = Some(Block { author: block.author, text, url: block.url });
            },
            None => {},
        }
    }
}

/// Whether `line` is the separator `---`.
fn is_separator(line: &Vec<char>) -> (b: bool)
    ensures
        b == (line@ == "---"@),
{
    let dashes = chars_of("---");
    if line.len() == dashes.len() {
        let b = matches_at(line, &dashes, 0);
        assert(line@.subrange(0, line.len() as int) =~= line@);
        b
    } else {
        false
    }
}

/// Reads the tweets that the client printed for a search.
pub fn parse_search_results(output: &str) -> (tweets: Vec<Tweet>)
    ensures
        tweets.deep_view() == parsed(output@),
{
    let text = chars_of(output);
    let mut tweets: Vec<Tweet> = Vec::new();
    let mut current: Option<Block> = None;
    let mut line: Vec<char> = Vec::new();
    let ghost mut done: Seq<Seq<char>> = Seq::empty();
    let mut i: usize = 0;
    assert(text@.take(0) =~= Seq::<char>::empty());
    assert(split_lines(text@.take(0)) =~= done.push(line@));
    assert(tweets.deep_view() =~= Seq::<TweetView>::empty());
    while i < text.len()
        invariant
            i <= text.len(),
            split_lines(text@.take(i as int)) == done.push(line@),
            reading(tweets, current) == after_lines(done),
        decreases text.len() - i,
    {
        let c = text[i];
        assert(text@.take(i + 1).drop_last() =~= text@.take(i as int));
        if c == '\n' {
            take_line(&mut tweets, &mut current, &trimmed(&line));
            proof {
                assert(done.push(line@).drop_last() =~= done);
                done = done.push(line@);
            }
            line = Vec::new();
        } else {
            let ghost before = line@;
            line.push(c);
            assert(done.push(before).drop_last() =~= done);
        }
        i += 1;
    }
    assert(text@.take(i as int) =~= text@);
    take_line(&mut tweets, &mut current, &trimmed(&line));
    assert(done.push(line@).drop_last() =~= done);
    close(&mut tweets, &mut current);
    tweets
}

/// Reads the tweets that the client printed for the mentions, which have
/// the form of search results.
pub fn parse_mentions(output: &str) -> (tweets: Vec<Tweet>)
    ensures
        tweets.deep_view() == parsed(output@),
{
    parse_search_results(output)
}

} // verus!
