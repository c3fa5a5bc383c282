use termfmt::style::{paint, paint_both, Style};

#[test]
fn colours_end_with_the_default_foreground() {
    assert_eq!(paint(Style::Red, "x"), "\x1b[31mx\x1b[39m");
    assert_eq!(paint(Style::Green, "x"), "\x1b[32mx\x1b[39m");
    assert_eq!(paint(Style::Yellow, "x"), "\x1b[33mx\x1b[39m");
    assert_eq!(paint(Style::Blue, "x"), "\x1b[34mx\x1b[39m");
    assert_eq!(paint(Style::Purple, "x"), "\x1b[35mx\x1b[39m");
    assert_eq!(paint(Style::Cyan, "x"), "\x1b[36mx\x1b[39m");
}

#[test]
fn weights_end_with_a_reset() {
    assert_eq!(paint(Style::Bold, "x"), "\x1b[1mx\x1b[0m");
    assert_eq!(paint(Style::Dimmed, "x"), "\x1b[2mx\x1b[0m");
    assert_eq!(paint(Style::Underline, "x"), "\x1b[4mx\x1b[0m");
}

#[test]
fn paint_of_an_empty_text_is_the_two_sequences() {
    assert_eq!(paint(Style::Blue, ""), "\x1b[34m\x1b[39m");
    assert_eq!(paint(Style::Bold, ""), "\x1b[1m\x1b[0m");
}

#[test]
fn paint_keeps_the_text_as_it_is() {
    assert_eq!(paint(Style::Cyan, "a b\tc=d"), "\x1b[36ma b\tc=d\x1b[39m");
    assert_eq!(paint(Style::Red, "\u{e9}t\u{e9}"), "\x1b[31m\u{e9}t\u{e9}\x1b[39m");
}

#[test]
fn paint_both_nests_the_inner_style() {
    assert_eq!(
        paint_both(Style::Bold, Style::Yellow, " WARN"),
        "\x1b[1m\x1b[33m WARN\x1b[39m\x1b[0m"
    );
    assert_eq!(
        paint_both(Style::Dimmed, Style::Purple, "("),
        "\x1b[2m\x1b[35m(\x1b[39m\x1b[0m"
    );
}

#[test]
fn painted_text_is_as_wide_as_the_text() {
    let styles = [
        Style::Red,
        Style::Green,
        Style::Yellow,
        Style::Blue,
        Style::Purple,
        Style::Cyan,
        Style::Bold,
        Style::Dimmed,
        Style::Underline,
    ];
    for style in styles {
        let painted = paint(style, "hello");
        assert_eq!(console::measure_text_width(&painted), 5);
        assert_eq!(console::strip_ansi_codes(&painted), "hello");
    }
}
