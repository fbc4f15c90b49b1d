use geomesh::mesh::exchange::text::{
    chars, copy_range, find_line_end, is_space, join, parse_usize, push_chars, split_tokens,
    to_string,
};

fn letters(s: &str) -> Vec<char> {
    s.chars().collect()
}

fn words(s: &str) -> Vec<String> {
    split_tokens(&letters(s)).iter().map(|t| t.iter().collect()).collect()
}

#[test]
fn chars_gives_every_character() {
    assert_eq!(chars("v 1 \u{e9}\u{3000}x"), vec!['v', ' ', '1', ' ', '\u{e9}', '\u{3000}', 'x']);
    assert_eq!(chars(""), Vec::<char>::new());
}

#[test]
fn whitespace_is_what_std_calls_whitespace() {
    for code in 0..0x11_0000u32 {
        if let Some(c) = char::from_u32(code) {
            assert_eq!(is_space(c), c.is_whitespace());
        }
    }
}

#[test]
fn line_ends_at_the_line_feed() {
    let text = letters("ab\ncd\n\nef");
    assert_eq!(find_line_end(&text, 0), 2);
    assert_eq!(find_line_end(&text, 1), 2);
    assert_eq!(find_line_end(&text, 2), 2);
    assert_eq!(find_line_end(&text, 3), 5);
    assert_eq!(find_line_end(&text, 6), 6);
    assert_eq!(find_line_end(&text, 7), 9);
    assert_eq!(find_line_end(&text, 9), 9);
}

#[test]
fn copy_range_copies_the_range() {
    let text = letters("abcdef");
    assert_eq!(copy_range(&text, 1, 4), letters("bcd"));
    assert_eq!(copy_range(&text, 3, 3), letters(""));
    assert_eq!(copy_range(&text, 0, 6), text);
}

#[test]
fn tokens_are_split_at_whitespace() {
    assert_eq!(words("v 1 2 3"), vec!["v", "1", "2", "3"]);
    assert_eq!(words("  f\t1   2 \r"), vec!["f", "1", "2"]);
    assert_eq!(words(""), Vec::<String>::new());
    assert_eq!(words(" \t \u{a0}"), Vec::<String>::new());
    assert_eq!(words("one"), vec!["one"]);
    assert_eq!(words("g\u{2003}left\u{3000}wing"), vec!["g", "left", "wing"]);
}

#[test]
fn tokens_are_what_std_splits() {
    for line in ["v 1 2 3", "  a  b ", "\tx\u{b}y\u{c}z\r", "", "   ", "f 1/2/3 4//5", "# note"] {
        let expected: Vec<String> = line.trim().split_whitespace().map(String::from).collect();
        assert_eq!(words(line), expected);
    }
}

#[test]
fn usize_tokens() {
    assert_eq!(parse_usize(&letters("0")), Some(0));
    assert_eq!(parse_usize(&letters("7")), Some(7));
    assert_eq!(parse_usize(&letters("+7")), Some(7));
    assert_eq!(parse_usize(&letters("007")), Some(7));
    assert_eq!(parse_usize(&letters("1234567890")), Some(1234567890));
    assert_eq!(parse_usize(&letters(&usize::MAX.to_string())), Some(usize::MAX));
}

#[test]
fn tokens_that_are_no_usize() {
    for token in ["", "+", "-", "-1", "+-1", "++1", "1+", "1.0", "1e3", "1_000", "0x10", " 1", "1 ",
        "1/2/3", "one", "\u{661}", "18446744073709551616", "99999999999999999999999999"]
    {
        assert_eq!(parse_usize(&letters(token)), None);
    }
}

#[test]
fn usize_tokens_are_what_std_reads() {
    for token in ["0", "1", "+0", "+12", "0012", "4294967295", "4294967296", "18446744073709551615",
        "18446744073709551616", "184467440737095516150", "", "+", "-0", "12a", "a12", "1 2"]
    {
        assert_eq!(parse_usize(&letters(token)), token.parse::<usize>().ok());
    }
}

#[test]
fn to_string_spells_the_characters() {
    assert_eq!(to_string(&letters("1.5e-3")), "1.5e-3");
    assert_eq!(to_string(&letters("")), "");
    assert_eq!(to_string(&letters("\u{e9}t\u{e9}")), "\u{e9}t\u{e9}");
}

#[test]
fn push_chars_appends() {
    let mut s = String::from("ab");
    push_chars(&mut s, &letters("cd"));
    assert_eq!(s, "abcd");
    push_chars(&mut s, &letters(""));
    assert_eq!(s, "abcd");
}

#[test]
fn join_puts_single_spaces_between() {
    assert_eq!(join(&[letters("left"), letters("wing")]), "left wing");
    assert_eq!(join(&[letters("a"), letters("b"), letters("c")]), "a b c");
    assert_eq!(join(&[letters("alone")]), "alone");
    assert_eq!(join(&[]), "");
}
