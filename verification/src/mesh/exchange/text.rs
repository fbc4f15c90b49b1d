//! Lines and whitespace-separated tokens of a text, and the unsigned integers
//! that tokens spell.

use vstd::prelude::*;

verus! {

/// The characters with the Unicode property `White_Space`.
pub open spec fn is_whitespace(c: char) -> bool {
    let u = c as u32;
    ||| 0x09 <= u <= 0x0D
    ||| u == 0x20
    ||| u == 0x85
    ||| u == 0xA0
    ||| u == 0x1680
    ||| 0x2000 <= u <= 0x200A
    ||| u == 0x2028
    ||| u == 0x2029
    ||| u == 0x202F
    ||| u == 0x205F
    ||| u == 0x3000
}

/// The first position at or after `from` that holds a line feed, or the
/// length of `s` if there is none.
pub open spec fn line_end(s: Seq<char>, from: int) -> int
    decreases s.len() - from,
{
    if from >= s.len() || s[from] == '\n' {
        from
    } else {
        line_end(s, from + 1)
    }
}

/// The first position at or after `from` that holds no whitespace, or the
/// length of `s` if there is none.
pub open spec fn token_start(s: Seq<char>, from: int) -> int
    decreases s.len() - from,
{
    if from >= s.len() || !is_whitespace(s[from]) {
        from
    } else {
        token_start(s, from + 1)
    }
}

/// The first position at or after `from` that holds whitespace, or the
/// length of `s` if there is none.
pub open spec fn token_end(s: Seq<char>, from: int) -> int
    decreases s.len() - from,
{
    if from >= s.len() || is_whitespace(s[from]) {
        from
    } else {
        token_end(s, from + 1)
    }
}

/// The tokens of `s` that start at or after `from`: skip whitespace, take
/// the characters up to the next whitespace as one token, and go on behind
/// it.
pub open spec fn tokens_from(s: Seq<char>, from: int) -> Seq<Seq<char>>
    decreases s.len() - from,
{
    let start = token_start(s, from);
    let end = token_end(s, start + 1);
    if 0 <= from && start < s.len() {
        proof {
            lemma_token_start_bounds(s, from);
            lemma_token_end_bounds(s, start + 1);
        }
        seq![s.subrange(start, end)] + tokens_from(s, end)
    } else {
        Seq::empty()
    }
}

/// The maximal runs of characters of `s` that hold no whitespace, in order.
pub open spec fn tokens(s: Seq<char>) -> Seq<Seq<char>> {
    tokens_from(s, 0)
}

/// `token_start` stays within the sequence and does not go back.
pub proof fn lemma_token_start_bounds(s: Seq<char>, from: int)
    requires
        0 <= from <= s.len(),
    ensures
        from <= token_start(s, from) <= s.len(),
    decreases s.len() - from,
{
    if from < s.len() && is_whitespace(s[from]) {
        lemma_token_start_bounds(s, from + 1);
    }
}

/// `token_end` stays within the sequence and does not go back.
pub proof fn lemma_token_end_bounds(s: Seq<char>, from: int)
    requires
        0 <= from <= s.len(),
    ensures
        from <= token_end(s, from) <= s.len(),
    decreases s.len() - from,
{
    if from < s.len() && !is_whitespace(s[from]) {
        lemma_token_end_bounds(s, from + 1);
    }
}

/// `line_end` stays within the sequence and does not go back.
pub proof fn lemma_line_end_bounds(s: Seq<char>, from: int)
    requires
        0 <= from <= s.len(),
    ensures
        from <= line_end(s, from) <= s.len(),
    decreases s.len() - from,
{
    if from < s.len() && s[from] != '\n' {
        lemma_line_end_bounds(s, from + 1);
    }
}

/// Where `token_start` stops short of the end, it stops at a character that
/// is no whitespace.
pub proof fn lemma_token_start_holds(s: Seq<char>, from: int)
    requires
        0 <= from <= s.len(),
        token_start(s, from) < s.len(),
    ensures
        !is_whitespace(s[token_start(s, from)]),
    decreases s.len() - from,
{
    if from < s.len() && is_whitespace(s[from]) {
        lemma_token_start_holds(s, from + 1);
    }
}

/// No character between `from` and `token_end` is whitespace.
pub proof fn lemma_token_end_holds(s: Seq<char>, from: int)
    requires
        0 <= from <= s.len(),
    ensures
        forall|k: int| from <= k < token_end(s, from) ==> !is_whitespace(#[trigger] s[k]),
    decreases s.len() - from,
{
    if from < s.len() && !is_whitespace(s[from]) {
        lemma_token_end_holds(s, from + 1);
    }
}

/// No token is empty, and no token holds whitespace.
pub proof fn lemma_tokens_hold_no_whitespace(s: Seq<char>, from: int)
    requires
        0 <= from <= s.len(),
    ensures
        forall|i: int|
            0 <= i < tokens_from(s, from).len() ==> (#[trigger] tokens_from(s, from)[i]).len() > 0,
        forall|i: int, j: int|
            0 <= i < tokens_from(s, from).len() && 0 <= j < tokens_from(s, from)[i].len()
                ==> !is_whitespace(#[trigger] tokens_from(s, from)[i][j]),
    decreases s.len() - from,
{
    let start = token_start(s, from);
    let end = token_end(s, start + 1);
    lemma_token_start_bounds(s, from);
    if start < s.len() {
        lemma_token_end_bounds(s, start + 1);
        lemma_token_start_holds(s, from);
        lemma_token_end_holds(s, start + 1);
        lemma_tokens_hold_no_whitespace(s, end);
        let first = s.subrange(start, end);
        let rest = tokens_from(s, end);
        assert(tokens_from(s, from) == seq![first] + rest);
        assert forall|i: int| 0 <= i < tokens_from(s, from).len() implies (
        #[trigger] tokens_from(s, from)[i]).len() > 0 by {
            if i > 0 {
                assert(tokens_from(s, from)[i] == rest[i - 1]);
            }
        }
        assert forall|i: int, j: int|
            0 <= i < tokens_from(s, from).len() && 0 <= j < tokens_from(s, from)[i].len()
                implies !is_whitespace(#[trigger] tokens_from(s, from)[i][j]) by {
            if i > 0 {
                assert(tokens_from(s, from)[i] == rest[i - 1]);
            } else {
                assert(first[j] == s[start + j]);
            }
        }
    }
}

/// Whether `c` is whitespace.
pub fn is_space(c: char) -> (r: bool)
    ensures
        r == is_whitespace(c),
{
    let u: u32 = c as u32;
    (0x09 <= u && u <= 0x0D) || u == 0x20 || u == 0x85 || u == 0xA0 || u == 0x1680 || (0x2000 <= u
        && u <= 0x200A) || u == 0x2028 || u == 0x2029 || u == 0x202F || u == 0x205F || u == 0x3000
}

/// The views of the tokens held in `v`.
pub open spec fn views(v: Seq<Vec<char>>) -> Seq<Seq<char>> {
    v.map_values(|t: Vec<char>| t@)
}

/// The characters of `text`, in order.
pub fn chars(text: &str) -> (v: Vec<char>)
    ensures
        v@ == text@,
{
    let mut v: Vec<char> = Vec::new();
    for c in it: text.chars()
        invariant
            it.seq() == text@,
            v@ == it.seq().take(it.index() as int),
    {
        v.push(c);
    }
    v
}

/// The position where the line that holds position `from` ends.
pub fn find_line_end(text: &[char], from: usize) -> (end: usize)
    requires
        from <= text@.len(),
    ensures
        end == line_end(text@, from as int),
        from <= end <= text@.len(),
{
    let mut i: usize = from;
    while i < text.len() && text[i] != '\n'
        invariant
            from <= i <= text@.len(),
            line_end(text@, from as int) == line_end(text@, i as int),
        decreases text@.len() - i,
    {
        i += 1;
    }
    i
}

/// A copy of the characters of `text` from position `from` up to, not
/// including, position `to`.
pub fn copy_range(text: &[char], from: usize, to: usize) -> (v: Vec<char>)
    requires
        from <= to <= text@.len(),
    ensures
        v@ == text@.subrange(from as int, to as int),
{
    let mut v: Vec<char> = Vec::new();
    let mut i: usize = from;
    while i < to
        invariant
            from <= i <= to <= text@.len(),
            v@ == text@.subrange(from as int, i as int),
        decreases to - i,
    {
        v.push(text[i]);
        i += 1;
    }
    v
}

/// The tokens of `line`: its maximal runs of characters other than
/// whitespace, in order.
pub fn split_tokens(line: &[char]) -> (r: Vec<Vec<char>>)
    ensures
        views(r@) == tokens(line@),
{
    let mut out: Vec<Vec<char>> = Vec::new();
    let mut i: usize = 0;
    loop
        invariant
            i <= line@.len(),
            views(out@) + tokens_from(line@, i as int) == tokens(line@),
        ensures
            views(out@) == tokens(line@),
        decreases line@.len() - i,
    {
        let ghost from = i as int;
        while i < line.len() && is_space(line[i])
            invariant
                from <= i <= line@.len(),
                token_start(line@, from) == token_start(line@, i as int),
            decreases line@.len() - i,
        {
            i += 1;
        }
        if i >= line.len() {
            break ;
        }
        let start: usize = i;
        i += 1;
        while i < line.len() && !is_space(line[i])
            invariant
                start < i <= line@.len(),
                token_end(line@, start + 1) == token_end(line@, i as int),
            decreases line@.len() - i,
        {
            i += 1;
        }
        let token = copy_range(line, start, i);
        out.push(token);
    }
    out
}

/// The decimal digits `0` to `9`.
pub open spec fn is_digit(c: char) -> bool {
    0x30 <= c as u32 <= 0x39
}

/// The number a digit stands for; zero for any other character.
pub open spec fn digit_value(c: char) -> nat {
    if is_digit(c) {
        (c as u32 - 0x30) as nat
    } else {
        0
    }
}

/// The number that the digits of `s` spell in base ten.
pub open spec fn digits_value(s: Seq<char>) -> nat
    decreases s.len(),
{
    if s.len() == 0 {
        0
    } else {
        digits_value(s.drop_last()) * 10 + digit_value(s.last())
    }
}

/// Every character of `s` is a decimal digit.
pub open spec fn all_digits(s: Seq<char>) -> bool {
    forall|i: int| 0 <= i < s.len() ==> is_digit(#[trigger] s[i])
}

/// `s` without the plus sign that may lead it.
pub open spec fn without_sign(s: Seq<char>) -> Seq<char> {
    if s.len() > 0 && s[0] == '+' {
        s.subrange(1, s.len() as int)
    } else {
        s
    }
}

/// The unsigned integer that `s` spells: an optional plus sign followed by
/// one or more decimal digits and nothing else. `None` for any other text.
pub open spec fn unsigned_value(s: Seq<char>) -> Option<nat> {
    let digits = without_sign(s);
    if digits.len() > 0 && all_digits(digits) {
        Some(digits_value(digits))
    } else {
        None
    }
}

/// The `usize` that `s` spells: its unsigned value, if it has one that fits.
pub open spec fn usize_value(s: Seq<char>) -> Option<usize> {
    match unsigned_value(s) {
        Some(n) => if n <= usize::MAX {
            Some(n as usize)
        } else {
            None
        },
        None => None,
    }
}

/// A prefix of a digit string spells no more than the whole string.
pub proof fn lemma_digits_value_prefix(s: Seq<char>, k: int)
    requires
        0 <= k <= s.len(),
    ensures
        digits_value(s.take(k)) <= digits_value(s),
    decreases s.len(),
{
    if k == s.len() {
        assert(s.take(k) =~= s);
    } else {
        lemma_digits_value_prefix(s.drop_last(), k);
        assert(s.drop_last().take(k) =~= s.take(k));
    }
}

/// Reads `token` as a `usize`, as `str::parse::<usize>` does.
pub fn parse_usize(token: &[char]) -> (r: Option<usize>)
    ensures
        r == usize_value(token@),
{
    let n: usize = token.len();
    let first: usize = if n > 0 && token[0] == '+' {
        1
    } else {
        0
    };
    let ghost digits = without_sign(token@);
    if first >= n {
        return None;
    }
    let mut acc: usize = 0;
    let mut i: usize = first;
    while i < n
        invariant
            first <= i <= n,
            n == token@.len(),
            digits == without_sign(token@),
            digits == token@.subrange(first as int, n as int),
            all_digits(digits.take(i - first)),
            acc == digits_value(digits.take(i - first)),
        decreases n - i,
    {
        let u: u32 = token[i] as u32;
        if u < 0x30 || u > 0x39 {
            assert(!is_digit(digits[i - first]));
            return None;
        }
        let d: usize = (u - 0x30) as usize;
        let ghost next = digits.take(i - first + 1);
        assert(next.drop_last() =~= digits.take(i - first));
        if acc > (usize::MAX - d) / 10 {
            proof {
                lemma_digits_value_prefix(digits, i - first + 1);
            }
            return None;
        }
        acc = acc * 10 + d;
        i += 1;
    }
    assert(digits.take(n - first) =~= digits);
    Some(acc)
}

/// `tokens` joined into one text with a single space between neighbours.
pub open spec fn joined(tokens: Seq<Seq<char>>) -> Seq<char>
    decreases tokens.len(),
{
    if tokens.len() == 0 {
        Seq::empty()
    } else if tokens.len() == 1 {
        tokens[0]
    } else {
        joined(tokens.drop_last()) + seq![' '] + tokens.last()
    }
}

/// `String::push`: puts `c` behind the last character of `s`.
#[verifier::external_body]
fn push_char(s: &mut String, c: char)
    ensures
        final(s)@ == old(s)@.push(c),
{
    s.push(c)
}

/// Puts the characters of `token` behind the last character of `s`.
pub fn push_chars(s: &mut String, token: &[char])
    ensures
        final(s)@ == old(s)@ + token@,
{
    let mut i: usize = 0;
    while i < token.len()
        invariant
            i <= token@.len(),
            s@ == old(s)@ + token@.take(i as int),
        decreases token@.len() - i,
    {
        push_char(s, token[i]);
        i += 1;
    }
}

/// The string spelled by `token`.
pub fn to_string(token: &[char]) -> (s: String)
    ensures
        s@ == token@,
{
    let mut s = String::new();
    push_chars(&mut s, token);
    s
}

/// The tokens joined into one string, a single space between neighbours.
pub fn join(tokens: &[Vec<char>]) -> (s: String)
    ensures
        s@ == joined(views(tokens@)),
{
    let mut s = String::new();
    let mut i: usize = 0;
    while i < tokens.len()
        invariant
            i <= tokens@.len(),
            s@ == joined(views(tokens@).take(i as int)),
        decreases tokens@.len() - i,
    {
        let ghost done = views(tokens@).take(i as int);
        let ghost next = views(tokens@).take(i + 1);
        assert(next.drop_last() =~= done);
        if i > 0 {
            push_char(&mut s, ' ');
        }
        push_chars(&mut s, tokens[i].as_slice());
        i += 1;
    }
    assert(views(tokens@).take(tokens@.len() as int) =~= views(tokens@));
    s
}

} // verus!
