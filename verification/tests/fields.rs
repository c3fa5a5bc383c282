use termfmt::event::SpanFrame;
use termfmt::fields::{parse_fields, parse_sound_fields, split, split_pair, MalformedField};

fn pair(key: &str, value: &str) -> (String, String) {
    (String::from(key), String::from(value))
}

#[test]
fn split_cuts_at_every_separator() {
    assert_eq!(split("a=1 b=2 c=3", ' '), vec!["a=1", "b=2", "c=3"]);
    assert_eq!(split("a,b", ','), vec!["a", "b"]);
}

#[test]
fn split_of_a_text_without_separator_is_the_text() {
    assert_eq!(split("single", ' '), vec!["single"]);
    assert_eq!(split("", ' '), vec![""]);
}

#[test]
fn split_keeps_empty_pieces() {
    assert_eq!(split("a  b", ' '), vec!["a", "", "b"]);
    assert_eq!(split(" a", ' '), vec!["", "a"]);
    assert_eq!(split("a ", ' '), vec!["a", ""]);
    assert_eq!(split(" ", ' '), vec!["", ""]);
}

#[test]
fn split_agrees_with_the_standard_library() {
    for text in ["", " ", "x", "k=v", "k=v a=b", "  lead", "trail  ", "\u{e9} \u{fc} \u{1f600}"] {
        let expected: Vec<String> = text.split(' ').map(String::from).collect();
        assert_eq!(split(text, ' '), expected);
    }
}

#[test]
fn split_pair_cuts_at_the_first_equals_sign() {
    assert_eq!(split_pair("id=42"), Some(pair("id", "42")));
    assert_eq!(split_pair("a=b=c"), Some(pair("a", "b=c")));
}

#[test]
fn split_pair_allows_an_empty_key_or_value() {
    assert_eq!(split_pair("=v"), Some(pair("", "v")));
    assert_eq!(split_pair("k="), Some(pair("k", "")));
    assert_eq!(split_pair("="), Some(pair("", "")));
}

#[test]
fn split_pair_without_equals_sign_is_none() {
    assert_eq!(split_pair("novalue"), None);
    assert_eq!(split_pair(""), None);
}

#[test]
fn parse_fields_of_an_empty_text_is_empty() {
    assert_eq!(parse_fields(""), Ok(Vec::new()));
}

#[test]
fn parse_fields_reads_the_pairs_in_order() {
    assert_eq!(parse_fields("id=42"), Ok(vec![pair("id", "42")]));
    assert_eq!(
        parse_fields("id=42 user=\"ann\" retry=true"),
        Ok(vec![pair("id", "42"), pair("user", "\"ann\""), pair("retry", "true")])
    );
}

#[test]
fn parse_fields_takes_the_styling_out() {
    assert_eq!(
        parse_fields("\x1b[3mid\x1b[0m\x1b[2m=\x1b[0m42"),
        Ok(vec![pair("id", "42")])
    );
    assert_eq!(
        parse_fields("\x1b[3ma\x1b[0m\x1b[2m=\x1b[0m1 \x1b[3mb\x1b[0m\x1b[2m=\x1b[0m2"),
        Ok(vec![pair("a", "1"), pair("b", "2")])
    );
}

#[test]
fn parse_fields_reports_the_first_pair_without_equals_sign() {
    assert_eq!(parse_fields("novalue"), Err(MalformedField { index: 0 }));
    assert_eq!(parse_fields("a=1 bad"), Err(MalformedField { index: 1 }));
    assert_eq!(parse_fields("a=1 bad worse c=3"), Err(MalformedField { index: 1 }));
}

#[test]
fn parse_fields_takes_an_empty_piece_for_a_pair() {
    assert_eq!(parse_fields("a=1  b=2"), Err(MalformedField { index: 1 }));
    assert_eq!(parse_fields(" "), Err(MalformedField { index: 0 }));
    assert_eq!(parse_fields("a=1 "), Err(MalformedField { index: 1 }));
}

#[test]
fn span_frame_parse_keeps_name_and_fields() {
    let span = SpanFrame::parse("request", "id=42 method=GET").unwrap();
    assert_eq!(span.name, "request");
    assert_eq!(span.fields, vec![pair("id", "42"), pair("method", "GET")]);
}

#[test]
fn span_frame_parse_without_fields() {
    let span = SpanFrame::parse("startup", "").unwrap();
    assert_eq!(span, SpanFrame { name: String::from("startup"), fields: Vec::new() });
}

#[test]
fn span_frame_parse_reports_a_malformed_pair() {
    assert_eq!(SpanFrame::parse("request", "id"), Err(MalformedField { index: 0 }));
}

#[test]
fn parse_sound_fields_agrees_on_well_formed_text() {
    for text in ["", "id=42", "a=1 b=2 c=3", "\x1b[3mid\x1b[0m\x1b[2m=\x1b[0m42", "k= =v"] {
        assert_eq!(Ok(parse_sound_fields(text)), parse_fields(text));
    }
}

#[test]
fn parse_sound_fields_leaves_out_pairs_without_equals_sign() {
    assert_eq!(parse_sound_fields("novalue"), Vec::new());
    assert_eq!(parse_sound_fields("a=1 bad c=3"), vec![pair("a", "1"), pair("c", "3")]);
    assert_eq!(parse_sound_fields("a=1  b=2"), vec![pair("a", "1"), pair("b", "2")]);
    assert_eq!(parse_sound_fields(" "), Vec::new());
}

#[test]
fn span_frame_parse_sound_keeps_what_it_can() {
    let span = SpanFrame::parse_sound("request", "id=42 oops method=GET");
    assert_eq!(span.name, "request");
    assert_eq!(span.fields, vec![pair("id", "42"), pair("method", "GET")]);
}
