use rustplayer::lyrics::Lyrics;

#[test]
fn single_token_parses_to_one_entry() {
    let l = Lyrics::from_string(String::from("[01:02.345]hello"));
    assert_eq!(l.list.len(), 1);
    assert_eq!(l.list[0].time_ms, 62_345);
    assert_eq!(l.list[0].content, "hello");
}

#[test]
fn several_tokens_parse_in_order() {
    let text = "[00:00.000]a\n[00:10.000]b\n[00:20.000]c";
    let l = Lyrics::from_string(String::from(text));
    assert_eq!(l.list.len(), 3);
    assert_eq!(l.list[0].time_ms, 0);
    assert_eq!(l.list[0].content, "a\n");
    assert_eq!(l.list[1].time_ms, 10_000);
    assert_eq!(l.list[1].content, "b\n");
    assert_eq!(l.list[2].time_ms, 20_000);
    assert_eq!(l.list[2].content, "c");
}

#[test]
fn empty_text_parses_to_nothing() {
    let l = Lyrics::from_string(String::new());
    assert_eq!(l.list.len(), 0);
}

#[test]
fn text_without_tokens_parses_to_nothing() {
    let l = Lyrics::from_string(String::from("just some words\nand more"));
    assert_eq!(l.list.len(), 0);
}

#[test]
fn malformed_tokens_are_skipped() {
    let l = Lyrics::from_string(String::from("[bad]x[0102.345]y[01:02.345]good"));
    assert_eq!(l.list.len(), 1);
    assert_eq!(l.list[0].content, "good");
}

#[test]
fn seconds_and_milliseconds_are_clamped() {
    let l = Lyrics::from_string(String::from("[00:99.9999]x"));
    assert_eq!(l.list.len(), 1);
    assert_eq!(l.list[0].time_ms, 59 * 1000 + 999);
}

#[test]
fn oversized_minute_field_reads_as_zero() {
    // Twenty-one digits cannot be a u64, so the field falls back to 0.
    let l = Lyrics::from_string(String::from("[111111111111111111111:02.345]x"));
    assert_eq!(l.list.len(), 1);
    assert_eq!(l.list[0].time_ms, 2345);
}

#[test]
fn content_stops_at_next_bracket() {
    let l = Lyrics::from_string(String::from("[00:01.000]one[00:02.000]two"));
    assert_eq!(l.list.len(), 2);
    assert_eq!(l.list[0].content, "one");
    assert_eq!(l.list[1].content, "two");
}

#[test]
fn empty_content_is_kept() {
    let l = Lyrics::from_string(String::from("[00:01.000]"));
    assert_eq!(l.list.len(), 1);
    assert_eq!(l.list[0].content, "");
}

#[test]
fn unicode_content_is_kept() {
    let l = Lyrics::from_string(String::from("[00:01.000]你好世界"));
    assert_eq!(l.list.len(), 1);
    assert_eq!(l.list[0].content, "你好世界");
}

#[test]
fn empty_constructor_has_no_lines() {
    let l = Lyrics::empty();
    assert_eq!(l.list.len(), 0);
}

#[test]
fn out_of_order_tokens_come_back_time_sorted() {
    let l = Lyrics::from_string(String::from("[01:00.000]late[00:30.000]early"));
    assert_eq!(l.list.len(), 2);
    assert_eq!(l.list[0].time_ms, 30_000);
    assert_eq!(l.list[0].content, "early");
    assert_eq!(l.list[1].time_ms, 60_000);
    assert_eq!(l.list[1].content, "late");
}

#[test]
fn parsed_track_is_always_time_sorted() {
    let l = Lyrics::from_string(String::from(
        "[00:20.000]c[00:00.000]a[00:30.000]d[00:10.000]b",
    ));
    assert_eq!(l.list.len(), 4);
    for w in l.list.windows(2) {
        assert!(w[0].time_ms <= w[1].time_ms);
    }
    let texts: Vec<&str> = l.list.iter().map(|x| x.content.as_str()).collect();
    assert_eq!(texts, vec!["a", "b", "c", "d"]);
}

#[test]
fn equal_timestamps_keep_textual_order() {
    let l = Lyrics::from_string(String::from(
        "[00:10.000]first[00:05.000]earlier[00:10.000]second",
    ));
    assert_eq!(l.list.len(), 3);
    assert_eq!(l.list[0].content, "earlier");
    assert_eq!(l.list[1].content, "first");
    assert_eq!(l.list[2].content, "second");
    assert_eq!(l.list[1].time_ms, l.list[2].time_ms);
}
