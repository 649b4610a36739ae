use tide::logger::{lines, log_block, log_line};

fn strings(items: &[&str]) -> Vec<String> {
    items.iter().map(|s| s.to_string()).collect()
}

#[test]
fn log_line_puts_the_time_in_brackets() {
    assert_eq!(
        log_line("2024-05-01 12:00:00", "▶ [g] t :: ls"),
        "[2024-05-01 12:00:00] ▶ [g] t :: ls"
    );
    assert_eq!(log_line("", ""), "[] ");
}

#[test]
fn lines_end_at_line_feeds() {
    assert_eq!(lines("a\nb\nc"), strings(&["a", "b", "c"]));
    assert_eq!(lines("a\nb\n"), strings(&["a", "b"]));
    assert_eq!(lines("a\n\nb"), strings(&["a", "", "b"]));
    assert_eq!(lines("\n"), strings(&[""]));
    assert_eq!(lines("\n\n"), strings(&["", ""]));
    assert_eq!(lines(""), Vec::<String>::new());
    assert_eq!(lines("one"), strings(&["one"]));
}

#[test]
fn carriage_return_before_a_line_feed_is_dropped() {
    assert_eq!(lines("a\r\nb\r\n"), strings(&["a", "b"]));
    assert_eq!(lines("a\r\r\nb"), strings(&["a\r", "b"]));
    assert_eq!(lines("a\rb\n"), strings(&["a\rb"]));
    assert_eq!(lines("a\r"), strings(&["a\r"]));
    assert_eq!(lines("\r\n"), strings(&[""]));
}

#[test]
fn lines_agree_with_the_standard_library() {
    for text in [
        "",
        "x",
        "x\n",
        "\nx",
        "é\r\n🌊\n\n",
        "a\r\n\r\nb\r",
        "\r",
        "\r\n\r\n",
        "tab\there\n  indented\n",
    ] {
        let expected: Vec<String> = text.lines().map(|l| l.to_string()).collect();
        assert_eq!(lines(text), expected, "for {:?}", text);
    }
}

#[test]
fn block_indents_each_line_of_the_body() {
    assert_eq!(
        log_block("└ output [g] t", "first\n  second\r\n\nlast"),
        strings(&["└ output [g] t", "    first", "      second", "    ", "    last"])
    );
    assert_eq!(log_block("head", ""), strings(&["head"]));
}
