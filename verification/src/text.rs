//! Text as sequences of characters.
//!
//! Every contract of this crate speaks of a string through its view, a
//! `Seq<char>`. The executable functions here work on `Vec<char>` and are
//! tied to the spec functions of the same purpose.

use vstd::prelude::*;

verus! {

/// `String::push` of the standard library: appends one character to the end
/// of the string and changes nothing else.
pub assume_specification[ String::push ](s: &mut String, c: char)
    ensures
        final(s)@ == old(s)@.push(c),
;

/// The pattern `p` stands in `s` at position `i`.
pub open spec fn occurs_at(s: Seq<char>, p: Seq<char>, i: int) -> bool {
    &&& 0 <= i
    &&& i + p.len() <= s.len()
    &&& s.subrange(i, i + p.len()) == p
}

/// `p` occurs somewhere in `s`.
pub open spec fn contains(s: Seq<char>, p: Seq<char>) -> bool {
    exists|i: int| occurs_at(s, p, i)
}

/// The first position at or after `from` at which `p` stands in `s`.
pub open spec fn find_from(s: Seq<char>, p: Seq<char>, from: int) -> Option<int>
    decreases s.len() - from,
{
    if from < 0 || from + p.len() > s.len() {
        None
    } else if occurs_at(s, p, from) {
        Some(from)
    } else if from + p.len() == s.len() {
        None
    } else {
        find_from(s, p, from + 1)
    }
}

/// The first position at which `p` stands in `s`.
pub open spec fn find(s: Seq<char>, p: Seq<char>) -> Option<int> {
    find_from(s, p, 0)
}

/// `s` begins with `p`.
pub open spec fn starts_with(s: Seq<char>, p: Seq<char>) -> bool {
    occurs_at(s, p, 0)
}

/// `s` without its prefix `p`, where it has that prefix.
pub open spec fn strip_prefix(s: Seq<char>, p: Seq<char>) -> Option<Seq<char>> {
    if starts_with(s, p) {
        Some(s.skip(p.len() as int))
    } else {
        None
    }
}

/// The first position at or after `from` that holds one of `stops`, or the
/// length of `s` where there is none.
pub open spec fn stop_from(s: Seq<char>, stops: Seq<char>, from: int) -> int
    decreases s.len() - from,
{
    if from < 0 || from >= s.len() {
        s.len() as int
    } else if stops.contains(s[from]) {
        from
    } else {
        stop_from(s, stops, from + 1)
    }
}

/// The part of `s` before the first of `stops`; all of `s` where none occurs.
pub open spec fn until_any(s: Seq<char>, stops: Seq<char>) -> Seq<char> {
    s.take(stop_from(s, stops, 0))
}

/// White space as Unicode defines it (the property `White_Space`).
pub open spec fn is_space(c: char) -> bool {
    let n = c as u32;
    ||| 0x09 <= n <= 0x0D
    ||| n == 0x20
    ||| n == 0x85
    ||| n == 0xA0
    ||| n == 0x1680
    ||| 0x2000 <= n <= 0x200A
    ||| n == 0x2028
    ||| n == 0x2029
    ||| n == 0x202F
    ||| n == 0x205F
    ||| n == 0x3000
}

/// The first position at or after `from` that holds no white space, or the
/// length of `s`.
pub open spec fn ink_from(s: Seq<char>, from: int) -> int
    decreases s.len() - from,
{
    if from < 0 || from >= s.len() {
        s.len() as int
    } else if !is_space(s[from]) {
        from
    } else {
        ink_from(s, from + 1)
    }
}

/// The end of the last character before `to` that is no white space: the
/// largest `e <= to` with `e == 0` or `s[e - 1]` no white space.
pub open spec fn ink_end(s: Seq<char>, to: int) -> int
    decreases to,
{
    if to <= 0 || to > s.len() {
        0
    } else if !is_space(s[to - 1]) {
        to
    } else {
        ink_end(s, to - 1)
    }
}

/// `s` without leading white space.
pub open spec fn trim_start(s: Seq<char>) -> Seq<char> {
    s.skip(ink_from(s, 0))
}

/// `s` without trailing white space.
pub open spec fn trim_end(s: Seq<char>) -> Seq<char> {
    s.take(ink_end(s, s.len() as int))
}

/// `s` without leading and trailing white space.
pub open spec fn trim(s: Seq<char>) -> Seq<char> {
    trim_end(trim_start(s))
}

/// Where `s` ends once every `c` that stands at its end, before `to`, is
/// cut off: the largest `e <= to` with `e == 0` or `s[e - 1] != c`.
pub open spec fn end_without(s: Seq<char>, c: char, to: int) -> int
    decreases to,
{
    if to <= 0 || to > s.len() {
        0
    } else if s[to - 1] != c {
        to
    } else {
        end_without(s, c, to - 1)
    }
}

/// `s` without any run of `c` at its end.
pub open spec fn trim_end_matches(s: Seq<char>, c: char) -> Seq<char> {
    s.take(end_without(s, c, s.len() as int))
}

/// The first position at or after `from` that does not hold `c`, or the
/// length of `s`.
pub open spec fn start_without(s: Seq<char>, c: char, from: int) -> int
    decreases s.len() - from,
{
    if from < 0 || from >= s.len() {
        s.len() as int
    } else if s[from] != c {
        from
    } else {
        start_without(s, c, from + 1)
    }
}

/// `s` without any run of `c` at its start.
pub open spec fn trim_start_matches(s: Seq<char>, c: char) -> Seq<char> {
    s.skip(start_without(s, c, 0))
}

/// What `trim` leaves is a part of `s` that neither begins nor ends with
/// white space, and what it cuts off is white space only.
pub proof fn lemma_trim_is_tight(s: Seq<char>)
    ensures
        trim(s).len() > 0 ==> !is_space(trim(s).first()) && !is_space(trim(s).last()),
        exists|a: int, b: int|
            0 <= a <= b <= s.len() && trim(s) == s.subrange(a, b) && (forall|i: int|
                0 <= i < a || b <= i < s.len() ==> is_space(#[trigger] s[i])),
{
    let a = ink_from(s, 0);
    lemma_ink_from(s, 0);
    let t = s.skip(a);
    let e = ink_end(t, t.len() as int);
    lemma_ink_end(t, t.len() as int);
    assert(trim(s) =~= s.subrange(a, a + e));
    assert forall|i: int| 0 <= i < a || a + e <= i < s.len() implies is_space(
        #[trigger] s[i],
    ) by {
        if a + e <= i {
            assert(t[i - a] == s[i]);
        }
    }
    if trim(s).len() > 0 {
        assert(trim(s).first() == s[a]);
        assert(trim(s).last() == t[e - 1]);
    }
}

/// `ink_from` passes over white space and nothing else.
proof fn lemma_ink_from(s: Seq<char>, from: int)
    requires
        0 <= from <= s.len(),
    ensures
        from <= ink_from(s, from) <= s.len(),
        forall|i: int| from <= i < ink_from(s, from) ==> is_space(#[trigger] s[i]),
        ink_from(s, from) < s.len() ==> !is_space(s[ink_from(s, from)]),
    decreases s.len() - from,
{
    if from < s.len() && is_space(s[from]) {
        lemma_ink_from(s, from + 1);
    }
}

/// `ink_end` passes over white space and nothing else.
proof fn lemma_ink_end(s: Seq<char>, to: int)
    requires
        0 <= to <= s.len(),
    ensures
        0 <= ink_end(s, to) <= to,
        forall|i: int| ink_end(s, to) <= i < to ==> is_space(#[trigger] s[i]),
        ink_end(s, to) > 0 ==> !is_space(s[ink_end(s, to) - 1]),
    decreases to,
{
    if to > 0 && is_space(s[to - 1]) {
        lemma_ink_end(s, to - 1);
    }
}

/// What `until_any` gives holds none of `stops`, and ends where `s` ends
/// or the first of `stops` stands.
pub proof fn lemma_until_any(s: Seq<char>, stops: Seq<char>)
    ensures
        until_any(s, stops).is_prefix_of(s),
        forall|i: int|
            0 <= i < until_any(s, stops).len() ==> !stops.contains(#[trigger] until_any(s, stops)[i]),
        until_any(s, stops).len() < s.len() ==> stops.contains(s[until_any(s, stops).len() as int]),
{
    lemma_stop_from(s, stops, 0);
}

/// `stop_from` passes over what is none of `stops`, and nothing else.
proof fn lemma_stop_from(s: Seq<char>, stops: Seq<char>, from: int)
    requires
        0 <= from <= s.len(),
    ensures
        from <= stop_from(s, stops, from) <= s.len(),
        forall|i: int| from <= i < stop_from(s, stops, from) ==> !stops.contains(#[trigger] s[i]),
        stop_from(s, stops, from) < s.len() ==> stops.contains(s[stop_from(s, stops, from)]),
    decreases s.len() - from,
{
    if from < s.len() && !stops.contains(s[from]) {
        lemma_stop_from(s, stops, from + 1);
    }
}

/// Where `p` occurs in `s`, what `find` returns is its first occurrence;
/// where it does not, `find` returns nothing.
pub proof fn lemma_find_is_first(s: Seq<char>, p: Seq<char>, from: int)
    requires
        0 <= from,
    ensures
        match find_from(s, p, from) {
            Some(i) => from <= i && occurs_at(s, p, i) && forall|j: int|
                from <= j < i ==> !occurs_at(s, p, j),
            None => forall|j: int| from <= j ==> !occurs_at(s, p, j),
        },
    decreases s.len() - from,
{
    if from + p.len() > s.len() {
    } else if occurs_at(s, p, from) {
    } else if from + p.len() == s.len() {
    } else {
        lemma_find_is_first(s, p, from + 1);
    }
}

/// `find` succeeds exactly where the pattern occurs.
pub proof fn lemma_find_contains(s: Seq<char>, p: Seq<char>)
    ensures
        find(s, p) is Some <==> contains(s, p),
{
    lemma_find_is_first(s, p, 0);
}

/// The characters of `s`, in order.
pub fn chars_of(s: &str) -> (v: Vec<char>)
    ensures
        v@ == s@,
{
    let mut v: Vec<char> = Vec::new();
    for c in it: s.chars()
        invariant
            v@ == it.seq().take(it.index() as int),
    {
        v.push(c);
    }
    v
}

/// The string made of the characters of `v`, in order.
pub fn string_of(v: &Vec<char>) -> (s: String)
    ensures
        s@ == v@,
{
    let mut s = String::new();
    let mut i: usize = 0;
    while i < v.len()
        invariant
            i <= v.len(),
            s@ == v@.take(i as int),
        decreases v.len() - i,
    {
        s.push(v[i]);
        i += 1;
    }
    s
}

/// The characters of `v` from `from` up to, not including, `to`.
pub fn slice(v: &Vec<char>, from: usize, to: usize) -> (r: Vec<char>)
    requires
        from <= to <= v.len(),
    ensures
        r@ == v@.subrange(from as int, to as int),
{
    let mut r: Vec<char> = Vec::new();
    let mut i: usize = from;
    while i < to
        invariant
            from <= i <= to <= v.len(),
            r@ == v@.subrange(from as int, i as int),
        decreases to - i,
    {
        r.push(v[i]);
        i += 1;
    }
    r
}

/// Appends the characters of `w` to `v`.
pub fn push_all(v: &mut Vec<char>, w: &Vec<char>)
    ensures
        final(v)@ == old(v)@ + w@,
{
    let mut i: usize = 0;
    while i < w.len()
        invariant
            i <= w.len(),
            v@ == old(v)@ + w@.take(i as int),
        decreases w.len() - i,
    {
        v.push(w[i]);
        i += 1;
    }
}

/// Whether `p` stands in `s` at position `i`.
pub fn matches_at(s: &Vec<char>, p: &Vec<char>, i: usize) -> (b: bool)
    ensures
        b == occurs_at(s@, p@, i as int),
{
    if p.len() > s.len() || i > s.len() - p.len() {
        return false;
    }
    let mut k: usize = 0;
    while k < p.len()
        invariant
            k <= p.len(),
            i + p.len() <= s.len(),
            forall|j: int| 0 <= j < k ==> s@[i + j] == p@[j],
        decreases p.len() - k,
    {
        if s[i + k] != p[k] {
            assert(s@.subrange(i as int, i + p.len())[k as int] == s@[i + k]);
            return false;
        }
        k += 1;
    }
    assert(s@.subrange(i as int, i + p.len()) =~= p@);
    true
}

/// The first position at which `p` stands in `s`.
pub fn find_in(s: &Vec<char>, p: &Vec<char>) -> (r: Option<usize>)
    ensures
        match r {
            Some(i) => find(s@, p@) == Some(i as int) && i + p.len() <= s.len(),
            None => find(s@, p@) is None,
        },
{
    if p.len() > s.len() {
        return None;
    }
    let last: usize = s.len() - p.len();
    let mut i: usize = 0;
    loop
        invariant
            i <= last,
            last == s.len() - p.len(),
            find(s@, p@) == find_from(s@, p@, i as int),
        decreases last - i,
    {
        if matches_at(s, p, i) {
            return Some(i);
        }
        if i == last {
            return None;
        }
        i += 1;
    }
}

/// Whether `p` occurs in `s`.
pub fn has(s: &Vec<char>, p: &Vec<char>) -> (b: bool)
    ensures
        b == contains(s@, p@),
{
    proof {
        lemma_find_contains(s@, p@);
    }
    find_in(s, p).is_some()
}

/// Whether `c` is one of `stops`.
pub fn is_one_of(c: char, stops: &Vec<char>) -> (b: bool)
    ensures
        b == stops@.contains(c),
{
    let mut k: usize = 0;
    while k < stops.len()
        invariant
            k <= stops.len(),
            forall|j: int| 0 <= j < k ==> stops@[j] != c,
        decreases stops.len() - k,
    {
        if stops[k] == c {
            return true;
        }
        k += 1;
    }
    false
}

/// The first position at or after `from` that holds one of `stops`, or the
/// length of `s`.
pub fn stop_index(s: &Vec<char>, stops: &Vec<char>, from: usize) -> (r: usize)
    ensures
        r == stop_from(s@, stops@, from as int),
        from <= s.len() ==> from <= r <= s.len(),
{
    if from >= s.len() {
        return s.len();
    }
    let mut i: usize = from;
    while i < s.len()
        invariant
            from <= i <= s.len(),
            stop_from(s@, stops@, from as int) == stop_from(s@, stops@, i as int),
        decreases s.len() - i,
    {
        if is_one_of(s[i], stops) {
            return i;
        }
        i += 1;
    }
    i
}

/// Whether `c` is white space.
pub fn is_space_char(c: char) -> (b: bool)
    ensures
        b == is_space(c),
{
    let n: u32 = c as u32;
    (0x09 <= n && n <= 0x0D) || n == 0x20 || n == 0x85 || n == 0xA0 || n == 0x1680 || (0x2000 <= n
        && n <= 0x200A) || n == 0x2028 || n == 0x2029 || n == 0x202F || n == 0x205F || n == 0x3000
}

/// `s` without leading and trailing white space.
pub fn trimmed(s: &Vec<char>) -> (r: Vec<char>)
    ensures
        r@ == trim(s@),
{
    let mut a: usize = 0;
    while a < s.len() && is_space_char(s[a])
        invariant
            a <= s.len(),
            ink_from(s@, 0) == ink_from(s@, a as int),
        decreases s.len() - a,
    {
        a += 1;
    }
    let mut b: usize = s.len();
    while b > a && is_space_char(s[b - 1])
        invariant
            a <= b <= s.len(),
            a == ink_from(s@, 0),
            ink_end(s@.skip(a as int), s.len() - a) == ink_end(s@.skip(a as int), b - a),
        decreases b,
    {
        b -= 1;
    }
    proof {
        let t = s@.skip(a as int);
        if b == a {
            if a < s.len() {
                assert(!is_space(s@[a as int]));
            }
            assert(ink_end(t, 0) == 0);
        }
        assert(ink_end(t, b - a) == b - a);
        assert(t.take(b - a) =~= s@.subrange(a as int, b as int));
    }
    slice(s, a, b)
}

/// `s` without any run of `c` at its end.
pub fn without_trailing(s: &Vec<char>, c: char) -> (r: Vec<char>)
    ensures
        r@ == trim_end_matches(s@, c),
{
    let mut b: usize = s.len();
    while b > 0 && s[b - 1] == c
        invariant
            b <= s.len(),
            end_without(s@, c, s.len() as int) == end_without(s@, c, b as int),
        decreases b,
    {
        b -= 1;
    }
    assert(s@.take(b as int) =~= s@.subrange(0, b as int));
    slice(s, 0, b)
}

/// `s` without any run of `c` at its start.
pub fn without_leading(s: &Vec<char>, c: char) -> (r: Vec<char>)
    ensures
        r@ == trim_start_matches(s@, c),
{
    let mut a: usize = 0;
    while a < s.len() && s[a] == c
        invariant
            a <= s.len(),
            start_without(s@, c, 0) == start_without(s@, c, a as int),
        decreases s.len() - a,
    {
        a += 1;
    }
    assert(s@.skip(a as int) =~= s@.subrange(a as int, s.len() as int));
    slice(s, a, s.len())
}

/// The pieces of `s` between its line feeds. There is always at least one
/// piece; the last is empty where `s` is empty or ends with a line feed.
pub open spec fn split_lines(s: Seq<char>) -> Seq<Seq<char>>
    decreases s.len(),
{
    if s.len() == 0 {
        seq![Seq::empty()]
    } else {
        let before = split_lines(s.drop_last());
        if s.last() == '\n' {
            before.push(Seq::empty())
        } else {
            before.drop_last().push(before.last().push(s.last()))
        }
    }
}

/// `piece` without a carriage return at its end.
pub open spec fn without_return(piece: Seq<char>) -> Seq<char> {
    if piece.len() > 0 && piece.last() == '\r' {
        piece.drop_last()
    } else {
        piece
    }
}

/// The lines of `s`. A line ends at a line feed, or at a carriage return
/// and a line feed; neither belongs to the line. What follows the last line
/// feed is a line as it stands, unless it is empty.
pub open spec fn lines_of(s: Seq<char>) -> Seq<Seq<char>> {
    let pieces = split_lines(s);
    let ended = pieces.drop_last().map_values(|piece: Seq<char>| without_return(piece));
    if pieces.last().len() == 0 {
        ended
    } else {
        ended.push(pieces.last())
    }
}

/// The digit that stands for `d`, which is below ten.
pub open spec fn digit_char(d: nat) -> char {
    (0x30 + d) as u8 as char
}

/// `n` written in decimal, without leading zeros.
pub open spec fn decimal(n: nat) -> Seq<char>
    decreases n,
{
    if n < 10 {
        seq![digit_char(n)]
    } else {
        decimal(n / 10).push(digit_char(n % 10))
    }
}

/// `n` written in decimal, without leading zeros.
pub fn decimal_of(n: u128) -> (r: Vec<char>)
    ensures
        r@ == decimal(n as nat),
    decreases n,
{
    if n < 10 {
        let d: u8 = n as u8;
        let r: Vec<char> = vec![(0x30 + d) as char];
        assert(r@ =~= seq![digit_char(n as nat)]);
        r
    } else {
        let mut r = decimal_of(n / 10);
        let d: u8 = (n % 10) as u8;
        r.push((0x30 + d) as char);
        r
    }
}

} // verus!
