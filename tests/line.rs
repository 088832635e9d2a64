use hecto::{Buffer, Line};

#[test]
fn length_counts_ascii_graphemes() {
    assert_eq!(Line::from("hello").length(), 5);
}

#[test]
fn length_of_empty_line_is_zero() {
    let line = Line::from("");
    assert_eq!(line.length(), 0);
    assert_eq!(line.get(0..10), "");
}

#[test]
fn double_width_character_counts_once() {
    let line = Line::from("中");
    assert_eq!(line.length(), 1);
    assert_eq!(line.get(0..1), "中");
}

#[test]
fn combining_sequence_is_one_grapheme() {
    let line = Line::from("he\u{301}llo");
    assert_eq!(line.length(), 5);
    assert_eq!(line.get(1..2), "e\u{301}");
}

#[test]
fn get_slices_by_grapheme() {
    let line = Line::from("a中b");
    assert_eq!(line.get(1..2), "中");
    assert_eq!(line.get(0..3), "a中b");
}

#[test]
fn get_clamps_end_past_length() {
    assert_eq!(Line::from("hello").get(2..100), "llo");
}

#[test]
fn get_reversed_range_is_empty() {
    #[allow(clippy::reversed_empty_ranges)]
    let range = 3..1;
    assert_eq!(Line::from("hello").get(range), "");
}

#[test]
fn get_range_past_end_is_empty() {
    assert_eq!(Line::from("hello").get(10..20), "");
    assert_eq!(Line::from("hello").get(5..5), "");
    assert_eq!(Line::from("hello").get(usize::MAX..usize::MAX), "");
}

#[test]
fn zero_width_grapheme_renders_as_dot() {
    let line = Line::from("a\u{200B}b");
    assert_eq!(line.length(), 3);
    assert_eq!(line.get(0..3), "a.b");
}

#[test]
fn buffer_load_splits_lines() {
    let buffer = Buffer::load("one\ntwo\r\nthree\n");
    assert_eq!(buffer.lines.len(), 3);
    assert_eq!(buffer.lines[0].get(0..10), "one");
    assert_eq!(buffer.lines[1].get(0..10), "two");
    assert_eq!(buffer.lines[2].get(0..10), "three");
    assert!(!buffer.is_empty());
}

#[test]
fn buffer_load_of_empty_text_is_empty() {
    assert!(Buffer::load("").is_empty());
    assert!(Buffer::default().is_empty());
}

#[test]
fn get_joins_at_any_split_point() {
    let line = Line::from("a中b\u{301}cd");
    for mid in 0..8 {
        assert_eq!(line.get(0..7), line.get(0..mid) + &line.get(mid..7));
    }
    assert_eq!(line.get(1..9), line.get(1..3) + &line.get(3..9));
}

#[test]
fn get_over_whole_line_gives_back_text() {
    let text = "he\u{301}llo, 世界";
    let line = Line::from(text);
    assert_eq!(line.get(0..line.length()), text);
}

#[test]
fn get_is_empty_only_for_empty_clamped_range() {
    let line = Line::from("ab\u{200B}");
    for start in 0..5 {
        for end in 0..5 {
            let clamped_empty = start.min(3) >= end.min(3);
            assert_eq!(line.get(start..end).is_empty(), clamped_empty);
        }
    }
}

#[test]
fn loaded_line_shows_replacement_for_zero_width() {
    let buffer = Buffer::load("x\u{200B}y\nz");
    assert_eq!(buffer.lines[0].get(0..3), "x.y");
    assert_eq!(buffer.lines[1].get(0..1), "z");
}
