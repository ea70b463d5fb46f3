use checklist::display::text::{signed_distance, HighLightInfo, HighlightDirection, TextInfo};

fn chars(s: &str) -> usize {
    s.chars().count()
}

#[test]
fn new_text_info_is_at_the_start() {
    let info = TextInfo::new();
    assert_eq!(info.character_index, 0);
    assert!(!info.is_text_highlighted);
    assert_eq!(info.highlight_info, HighLightInfo { start: 0, distance: 0 });
}

#[test]
fn typing_inserts_at_the_cursor() {
    let mut text = String::new();
    let mut info = TextInfo::new();
    for c in "héllo".chars() {
        info.insert_char(&mut text, c);
    }
    assert_eq!(text, "héllo");
    assert_eq!(info.character_index, 5);
    info.move_left(&text);
    info.move_left(&text);
    info.move_left(&text);
    info.move_left(&text);
    assert_eq!(info.character_index, 1);
    info.insert_char(&mut text, 'X');
    assert_eq!(text, "hXéllo");
    assert_eq!(info.character_index, 2);
    info.insert_char(&mut text, '→');
    assert_eq!(text, "hX→éllo");
    assert_eq!(info.character_index, 3);
}

#[test]
fn backspace_removes_the_character_before_the_cursor() {
    let mut text = String::from("añb");
    let mut info = TextInfo::new();
    info.delete_backward(&mut text);
    assert_eq!(text, "añb");
    assert_eq!(info.character_index, 0);
    info.character_index = 2;
    info.delete_backward(&mut text);
    assert_eq!(text, "ab");
    assert_eq!(info.character_index, 1);
    info.character_index = 99;
    info.delete_backward(&mut text);
    assert_eq!(text, "a");
    assert_eq!(info.character_index, 1);
}

#[test]
fn cursor_moves_are_clamped() {
    let text = String::from("ab");
    let mut info = TextInfo::new();
    info.move_left(&text);
    assert_eq!(info.character_index, 0);
    info.move_right(&text);
    info.move_right(&text);
    info.move_right(&text);
    assert_eq!(info.character_index, 2);
    info.character_index = 50;
    info.move_right(&text);
    assert_eq!(info.character_index, 2);
    info.character_index = 50;
    info.move_left(&text);
    assert_eq!(info.character_index, 1);
}

#[test]
fn cursor_stays_within_the_text_through_any_edits() {
    let mut text = String::from("añ→b");
    let mut info = TextInfo::new();
    info.character_index = 17;
    let steps: Vec<u8> = vec![0, 1, 1, 2, 3, 3, 3, 0, 4, 4, 1, 5, 0, 2, 2, 2, 6, 1, 1, 1, 1, 1, 3, 0];
    for step in steps {
        match step {
            0 => info.insert_char(&mut text, 'ö'),
            1 => info.delete_backward(&mut text),
            2 => info.move_left(&text),
            3 => info.move_right(&text),
            4 => info.extend_selection(&text, HighlightDirection::Left),
            5 => info.extend_selection(&text, HighlightDirection::Right),
            _ => info.select_all(&text),
        }
        assert!(info.character_index <= chars(&text));
    }
}

#[test]
fn select_all_then_typing_replaces_the_text() {
    let mut text = String::from("some longer text");
    let mut info = TextInfo::new();
    info.character_index = 4;
    info.select_all(&text);
    assert!(info.is_text_highlighted);
    assert_eq!(info.character_index, 0);
    assert_eq!(info.highlight_info, HighLightInfo { start: 0, distance: 16 });
    info.insert_char(&mut text, 'c');
    assert_eq!(text, "c");
    assert_eq!(info.character_index, 1);
    assert!(!info.is_text_highlighted);

    let mut empty = String::new();
    let mut at_start = TextInfo::new();
    at_start.select_all(&empty);
    at_start.insert_char(&mut empty, 'z');
    assert_eq!(empty, "z");
}

#[test]
fn select_all_then_backspace_empties_the_text() {
    let mut text = String::from("abc");
    let mut info = TextInfo::new();
    info.select_all(&text);
    info.delete_backward(&mut text);
    assert_eq!(text, "");
    assert_eq!(info.character_index, 0);
    assert!(!info.is_text_highlighted);
}

#[test]
fn selection_extends_both_ways_from_its_anchor() {
    let text = String::from("abcdef");
    let mut info = TextInfo::new();
    info.character_index = 3;
    info.extend_selection(&text, HighlightDirection::Right);
    assert_eq!(info.highlight_info, HighLightInfo { start: 3, distance: 1 });
    assert_eq!(info.selection_bounds(6), (3, 4));
    info.extend_selection(&text, HighlightDirection::Right);
    assert_eq!(info.selection_bounds(6), (3, 5));
    info.extend_selection(&text, HighlightDirection::Left);
    info.extend_selection(&text, HighlightDirection::Left);
    info.extend_selection(&text, HighlightDirection::Left);
    assert_eq!(info.highlight_info, HighLightInfo { start: 3, distance: -1 });
    assert_eq!(info.character_index, 2);
    assert_eq!(info.selection_bounds(6), (2, 3));
    info.extend_selection(&text, HighlightDirection::Left);
    info.extend_selection(&text, HighlightDirection::Left);
    info.extend_selection(&text, HighlightDirection::Left);
    assert_eq!(info.highlight_info, HighLightInfo { start: 3, distance: -3 });
    assert_eq!(info.selection_bounds(6), (0, 3));
    assert_eq!(info.edit_bounds(6), (0, 3));
}

#[test]
fn typing_replaces_the_selection() {
    let mut text = String::from("abcdef");
    let mut info = TextInfo::new();
    info.character_index = 4;
    info.extend_selection(&text, HighlightDirection::Left);
    info.extend_selection(&text, HighlightDirection::Left);
    info.insert_char(&mut text, 'X');
    assert_eq!(text, "abXef");
    assert_eq!(info.character_index, 3);
    assert!(!info.is_text_highlighted);
}

#[test]
fn backspace_removes_the_selection() {
    let mut text = String::from("abcdef");
    let mut info = TextInfo::new();
    info.character_index = 1;
    info.extend_selection(&text, HighlightDirection::Right);
    info.extend_selection(&text, HighlightDirection::Right);
    info.extend_selection(&text, HighlightDirection::Right);
    info.delete_backward(&mut text);
    assert_eq!(text, "aef");
    assert_eq!(info.character_index, 1);
}

#[test]
fn moving_collapses_the_selection() {
    let text = String::from("abcdef");
    let mut info = TextInfo::new();
    info.character_index = 2;
    info.extend_selection(&text, HighlightDirection::Right);
    info.extend_selection(&text, HighlightDirection::Right);
    let mut left = info;
    left.move_left(&text);
    assert_eq!(left.character_index, 2);
    assert!(!left.is_text_highlighted);
    let mut right = info;
    right.move_right(&text);
    assert_eq!(right.character_index, 4);
    assert!(!right.is_text_highlighted);
}

#[test]
fn selection_bounds_are_clamped_to_the_text() {
    let info = TextInfo {
        character_index: 0,
        is_text_highlighted: true,
        highlight_info: HighLightInfo { start: 4, distance: 100 },
    };
    assert_eq!(info.selection_bounds(6), (4, 6));
    let left = TextInfo {
        character_index: 0,
        is_text_highlighted: true,
        highlight_info: HighLightInfo { start: 4, distance: -100 },
    };
    assert_eq!(left.selection_bounds(6), (0, 4));
    let beyond = TextInfo {
        character_index: 9,
        is_text_highlighted: false,
        highlight_info: HighLightInfo { start: 40, distance: -2 },
    };
    assert_eq!(beyond.selection_bounds(6), (6, 6));
    assert_eq!(beyond.cursor_within(6), 6);
    assert_eq!(beyond.edit_bounds(6), (6, 6));
}

#[test]
fn signed_distance_saturates() {
    assert_eq!(signed_distance(3, 10), 7);
    assert_eq!(signed_distance(10, 3), -7);
    assert_eq!(signed_distance(5, 5), 0);
    assert_eq!(signed_distance(0, 0x7fff_ffff), i32::MAX);
    assert_eq!(signed_distance(0, 0x8000_0000), i32::MAX);
    assert_eq!(signed_distance(0x8000_0000, 0), i32::MIN);
    assert_eq!(signed_distance(0x7fff_ffff, 0), -i32::MAX);
}

#[test]
fn a_distance_at_its_limit_reaches_to_the_end_of_the_text() {
    let far = TextInfo {
        character_index: 0,
        is_text_highlighted: true,
        highlight_info: HighLightInfo { start: 2, distance: i32::MAX },
    };
    assert_eq!(far.selection_bounds(6), (2, 6));
    assert_eq!(far.selection_bounds(1), (1, 1));
    let back = TextInfo {
        character_index: 0,
        is_text_highlighted: true,
        highlight_info: HighLightInfo { start: 4, distance: i32::MIN },
    };
    assert_eq!(back.selection_bounds(6), (0, 4));
    let near = TextInfo {
        character_index: 0,
        is_text_highlighted: true,
        highlight_info: HighLightInfo { start: 4, distance: i32::MIN + 1 },
    };
    assert_eq!(near.selection_bounds(6), (0, 4));
    let mut text = String::from("abcdef");
    let mut typed = far;
    typed.insert_char(&mut text, 'X');
    assert_eq!(text, "abX");
    assert_eq!(typed.character_index, 3);
}
