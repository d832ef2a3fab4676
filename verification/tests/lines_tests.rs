use enerator::lines::split_lines;

fn std_lines(s: &str) -> Vec<String> {
    s.lines().map(String::from).collect()
}

#[test]
fn splits_at_line_feeds() {
    assert_eq!(split_lines("a\nb"), vec!["a", "b"]);
    assert_eq!(split_lines("a\nb\n"), vec!["a", "b"]);
}

#[test]
fn strips_carriage_returns_before_line_feeds() {
    assert_eq!(split_lines("a\r\nb\r\n"), vec!["a", "b"]);
}

#[test]
fn keeps_carriage_returns_without_a_line_feed() {
    assert_eq!(split_lines("a\rb"), vec!["a\rb"]);
    assert_eq!(split_lines("a\r"), vec!["a\r"]);
}

#[test]
fn empty_text_has_no_lines() {
    assert_eq!(split_lines(""), Vec::<String>::new());
}

#[test]
fn lone_line_feed_is_one_empty_line() {
    assert_eq!(split_lines("\n"), vec![""]);
}

#[test]
fn keeps_empty_lines_in_the_middle() {
    assert_eq!(split_lines("a\n\nb"), vec!["a", "", "b"]);
}

#[test]
fn agrees_with_the_standard_line_iterator() {
    let samples = [
        "",
        "x",
        "x\n",
        "\n\n",
        "one\ntwo\nthree",
        "one\r\ntwo\r\n",
        "mixed\r\nendings\nhere\r",
        "trailing\rreturn\r\r\n",
        "unicode \u{e9}\u{4e16}\n\u{1f600}\r\nend",
    ];
    for s in samples {
        assert_eq!(split_lines(s), std_lines(s), "input {:?}", s);
    }
}
