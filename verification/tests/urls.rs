use wallers::urls::{is_space, parse_urls};

fn owned(items: &[&str]) -> Vec<String> {
    items.iter().map(|s| s.to_string()).collect()
}

fn by_std(text: &str) -> Vec<String> {
    text.lines()
        .map(|line| line.trim())
        .filter(|line| !line.is_empty())
        .map(|line| line.to_string())
        .collect()
}

#[test]
fn empty_text_holds_no_url() {
    assert_eq!(parse_urls(""), Vec::<String>::new());
}

#[test]
fn single_line_without_line_feed() {
    assert_eq!(parse_urls("http://a"), owned(&["http://a"]));
}

#[test]
fn one_url_per_line_in_order() {
    assert_eq!(
        parse_urls("http://a\nhttp://b\nhttp://c\n"),
        owned(&["http://a", "http://b", "http://c"])
    );
}

#[test]
fn lines_are_trimmed() {
    assert_eq!(parse_urls("  http://a \t\n\thttp://b  "), owned(&["http://a", "http://b"]));
}

#[test]
fn blank_lines_are_dropped() {
    assert_eq!(
        parse_urls("\n\nhttp://a\n\n   \n\t\nhttp://b\n\n"),
        owned(&["http://a", "http://b"])
    );
    assert_eq!(parse_urls("\n \n\t\n"), Vec::<String>::new());
}

#[test]
fn carriage_returns_are_trimmed() {
    assert_eq!(parse_urls("http://a\r\nhttp://b\r\n\r\n"), owned(&["http://a", "http://b"]));
}

#[test]
fn whitespace_inside_a_line_stays() {
    assert_eq!(parse_urls(" http://a b \n"), owned(&["http://a b"]));
    assert_eq!(parse_urls("a\rb\n"), owned(&["a\rb"]));
}

#[test]
fn unicode_whitespace_is_trimmed() {
    assert_eq!(parse_urls("\u{3000}http://a\u{a0}\n\u{2003}\n"), owned(&["http://a"]));
    assert_eq!(parse_urls("\u{200b}x"), owned(&["\u{200b}x"]));
}

#[test]
fn duplicates_are_kept() {
    assert_eq!(parse_urls("u\nu\nu"), owned(&["u", "u", "u"]));
}

#[test]
fn non_ascii_urls_are_kept_whole() {
    assert_eq!(
        parse_urls("http://exämple.org/ü\nhttp://例え.jp/\n"),
        owned(&["http://exämple.org/ü", "http://例え.jp/"])
    );
}

#[test]
fn no_parsed_url_is_empty_or_padded() {
    let text = " a \n\n\tb\n \n c d \r\n\u{2028}\ne";
    let urls = parse_urls(text);
    assert_eq!(urls, owned(&["a", "b", "c d", "e"]));
    for url in &urls {
        assert!(!url.is_empty());
        assert_eq!(url.trim(), url.as_str());
        assert!(!url.contains('\n'));
    }
}

#[test]
fn parse_agrees_with_lines_and_trim() {
    let samples = [
        "",
        "\n",
        "a",
        "a\n",
        "\na",
        "a\n\nb",
        " a \r\n b \r\n",
        "\r\n\r\n",
        "x\u{b}\n\u{c}y\n",
        "one two\n three four \n",
        "\u{1680}a\u{205f}\n\u{202f}\n",
        "tail\r",
    ];
    for text in samples.iter() {
        assert_eq!(parse_urls(text), by_std(text), "text {:?}", text);
    }
}

#[test]
fn is_space_agrees_with_char_is_whitespace() {
    let mut code: u32 = 0;
    while code <= 0x10ffff {
        if let Some(c) = char::from_u32(code) {
            assert_eq!(is_space(c), c.is_whitespace(), "code point {:x}", code);
        }
        code += 1;
    }
}

#[test]
fn is_space_on_named_characters() {
    assert!(is_space(' '));
    assert!(is_space('\t'));
    assert!(is_space('\n'));
    assert!(is_space('\r'));
    assert!(is_space('\u{85}'));
    assert!(!is_space('a'));
    assert!(!is_space('\u{8}'));
    assert!(!is_space('\u{e}'));
    assert!(!is_space('\u{200b}'));
}
