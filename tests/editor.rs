use patina::app::{App, Mode};
use patina::text::{byte_index, char_count, utf8_width};
use patina::viewport::scroll_to_row;

fn app_with(lines: &[&str], row: usize, col: usize) -> App {
    let mut app = App::new();
    app.buffer = lines.iter().map(|l| l.to_string()).collect();
    app.cursor_y = row;
    app.cursor_x = col;
    app
}

#[test]
fn new_app_is_one_empty_line() {
    let app = App::new();
    assert_eq!(app.buffer, vec![String::new()]);
    assert_eq!((app.cursor_y, app.cursor_x), (0, 0));
    assert_eq!(app.mode, Mode::Normal);
    assert_eq!(app.filename, None);
    assert_eq!((app.scroll_y, app.viewport_height), (0, 0));
    assert!(!app.should_quit);
}

#[test]
fn mode_default_is_normal() {
    assert_eq!(Mode::default(), Mode::Normal);
}

#[test]
fn switch_mode_and_quit() {
    let mut app = app_with(&["ab"], 0, 1);
    app.switch_mode(Mode::Insert);
    assert_eq!(app.mode, Mode::Insert);
    app.switch_mode(Mode::Help);
    assert_eq!(app.mode, Mode::Help);
    assert_eq!(app.buffer, vec!["ab".to_string()]);
    assert_eq!(app.cursor_x, 1);
    app.quit();
    assert!(app.should_quit);
}

#[test]
fn enter_at_end_of_line_opens_empty_line() {
    let mut app = app_with(&["hello", "world"], 0, 5);
    app.enter_key();
    assert_eq!(app.buffer, vec!["hello", "", "world"]);
    assert_eq!((app.cursor_y, app.cursor_x), (1, 0));
}

#[test]
fn enter_in_middle_splits_line() {
    let mut app = app_with(&["héllo"], 0, 2);
    app.enter_key();
    assert_eq!(app.buffer, vec!["hé", "llo"]);
    assert_eq!((app.cursor_y, app.cursor_x), (1, 0));
}

#[test]
fn right_stops_at_end_of_line() {
    let mut app = app_with(&["ab"], 0, 0);
    app.move_cursor_right();
    app.move_cursor_right();
    assert_eq!(app.cursor_x, 2);
    app.move_cursor_right();
    assert_eq!(app.cursor_x, 2);
}

#[test]
fn left_stops_at_start_of_line() {
    let mut app = app_with(&["ab"], 0, 1);
    app.move_cursor_left();
    assert_eq!(app.cursor_x, 0);
    app.move_cursor_left();
    assert_eq!(app.cursor_x, 0);
}

#[test]
fn moving_down_past_window_scrolls() {
    let lines: Vec<String> = (0..10).map(|i| format!("line {}", i)).collect();
    let refs: Vec<&str> = lines.iter().map(|l| l.as_str()).collect();
    let mut app = app_with(&refs, 0, 0);
    app.viewport_height = 3;
    for _ in 0..9 {
        app.move_cursor_down();
        assert!(app.scroll_y <= app.cursor_y && app.cursor_y < app.scroll_y + 3);
    }
    assert_eq!(app.cursor_y, 9);
    assert_eq!(app.scroll_y, 7);
    app.move_cursor_down();
    assert_eq!((app.cursor_y, app.scroll_y), (9, 7));
}

#[test]
fn moving_up_above_window_scrolls() {
    let lines: Vec<String> = (0..10).map(|i| format!("{}", i)).collect();
    let refs: Vec<&str> = lines.iter().map(|l| l.as_str()).collect();
    let mut app = app_with(&refs, 5, 0);
    app.viewport_height = 3;
    app.scroll_y = 5;
    app.move_cursor_up();
    assert_eq!((app.cursor_y, app.scroll_y), (4, 4));
    for _ in 0..6 {
        app.move_cursor_up();
        assert!(app.scroll_y <= app.cursor_y && app.cursor_y < app.scroll_y + 3);
    }
    assert_eq!((app.cursor_y, app.scroll_y), (0, 0));
}

#[test]
fn moving_up_after_window_shrank_shows_cursor() {
    let lines: Vec<String> = (0..20).map(|i| format!("{}", i)).collect();
    let refs: Vec<&str> = lines.iter().map(|l| l.as_str()).collect();
    let mut app = app_with(&refs, 15, 0);
    app.viewport_height = 2;
    app.scroll_y = 5;
    app.move_cursor_up();
    assert_eq!((app.cursor_y, app.scroll_y), (14, 13));
}

#[test]
fn vertical_moves_clamp_column() {
    let mut app = app_with(&["long line", "ab", "also long"], 0, 7);
    app.move_cursor_down();
    assert_eq!((app.cursor_y, app.cursor_x), (1, 2));
    app.move_cursor_down();
    assert_eq!((app.cursor_y, app.cursor_x), (2, 2));
    app.move_cursor_up();
    app.move_cursor_up();
    assert_eq!((app.cursor_y, app.cursor_x), (0, 2));
    app.move_cursor_up();
    assert_eq!((app.cursor_y, app.cursor_x), (0, 2));
}

#[test]
fn backspace_at_origin_keeps_one_line() {
    let mut app = App::new();
    for _ in 0..5 {
        app.delete_char();
        assert_eq!(app.buffer.len(), 1);
        assert_eq!((app.cursor_y, app.cursor_x), (0, 0));
    }
    let mut app = app_with(&["abc", "d"], 0, 0);
    app.delete_char();
    assert_eq!(app.buffer, vec!["abc", "d"]);
}

#[test]
fn backspace_joins_lines() {
    let mut app = app_with(&["héllo", "wörld"], 1, 0);
    app.delete_char();
    assert_eq!(app.buffer, vec!["héllowörld"]);
    assert_eq!((app.cursor_y, app.cursor_x), (0, 5));
}

#[test]
fn backspace_removes_character_before_cursor() {
    let mut app = app_with(&["aé€b"], 0, 3);
    app.delete_char();
    assert_eq!(app.buffer, vec!["aéb"]);
    assert_eq!(app.cursor_x, 2);
    app.delete_char();
    assert_eq!(app.buffer, vec!["ab"]);
    assert_eq!(app.cursor_x, 1);
}

#[test]
fn type_then_backspace_restores_empty_line() {
    let mut app = App::new();
    let typed = ['h', 'é', '😀', 'x'];
    for c in typed {
        app.insert_char(c);
    }
    assert_eq!(app.buffer, vec!["hé😀x"]);
    assert_eq!(app.cursor_x, 4);
    for _ in 0..typed.len() {
        app.delete_char();
    }
    assert_eq!(app.buffer, vec![String::new()]);
    assert_eq!((app.cursor_y, app.cursor_x), (0, 0));
}

#[test]
fn multibyte_insert_then_right_left() {
    let mut app = app_with(&["abc"], 0, 1);
    app.insert_char('é');
    assert_eq!(app.buffer, vec!["aébc"]);
    assert_eq!(app.cursor_x, 2);
    app.move_cursor_right();
    app.move_cursor_left();
    assert_eq!(app.cursor_x, 2);
    assert_eq!(app.buffer, vec!["aébc"]);
    app.delete_char();
    assert_eq!(app.buffer[0].as_bytes(), "abc".as_bytes());
    assert_eq!(app.cursor_x, 1);
}

#[test]
fn insert_past_end_appends() {
    let mut app = app_with(&["ab"], 0, 9);
    app.insert_char('z');
    assert_eq!(app.buffer, vec!["abz"]);
    assert_eq!(app.cursor_x, 10);
}

#[test]
fn enter_then_backspace_restores_line() {
    for k in 0..=5 {
        let mut app = app_with(&["x", "hello", "y"], 1, k);
        app.enter_key();
        assert_eq!(app.buffer.len(), 4);
        app.delete_char();
        assert_eq!(app.buffer, vec!["x", "hello", "y"]);
        assert_eq!((app.cursor_y, app.cursor_x), (1, k));
    }
}

#[test]
fn out_of_range_row_is_left_alone() {
    let mut app = app_with(&["ab"], 3, 0);
    app.insert_char('x');
    app.enter_key();
    app.delete_char();
    assert_eq!(app.buffer, vec!["ab"]);
    assert_eq!((app.cursor_y, app.cursor_x), (3, 0));
}

#[test]
fn load_text_splits_lines() {
    let mut app = App::new();
    app.load_text("notes.txt", Some("a\nb\r\n\nc\r\n"));
    assert_eq!(app.buffer, vec!["a", "b", "", "c"]);
    assert_eq!(app.filename, Some("notes.txt".to_string()));
}

#[test]
fn load_text_keeps_lone_carriage_return() {
    let mut app = App::new();
    app.load_text("f", Some("x\r\ny\r"));
    assert_eq!(app.buffer, vec!["x", "y\r"]);
}

#[test]
fn load_empty_text_gives_one_empty_line() {
    let mut app = app_with(&["old"], 0, 2);
    app.load_text("empty.txt", Some(""));
    assert_eq!(app.buffer, vec![String::new()]);
    assert_eq!((app.cursor_y, app.cursor_x), (0, 0));
}

#[test]
fn failed_load_keeps_lines_and_records_name() {
    let mut app = app_with(&["keep", "me"], 1, 1);
    app.load_text("missing.txt", None);
    assert_eq!(app.buffer, vec!["keep", "me"]);
    assert_eq!((app.cursor_y, app.cursor_x), (1, 1));
    assert_eq!(app.filename, Some("missing.txt".to_string()));
}

#[test]
fn load_cuts_cursor_back() {
    let mut app = app_with(&["a", "b", "c", "long line"], 3, 8);
    app.load_text("short", Some("one\ntwo\n"));
    assert_eq!(app.buffer, vec!["one", "two"]);
    assert_eq!((app.cursor_y, app.cursor_x), (1, 3));
}

#[test]
fn contents_ends_each_line() {
    let app = app_with(&["a", "", "bé"], 0, 0);
    assert_eq!(app.contents(), "a\n\nbé\n");
    assert_eq!(App::new().contents(), "\n");
}

#[test]
fn contents_load_round_trip() {
    let app = app_with(&["first", "", "trois"], 0, 0);
    let mut other = App::new();
    other.load_text("f", Some(&app.contents()));
    assert_eq!(other.buffer, app.buffer);
}

#[test]
fn char_offsets_to_byte_offsets() {
    assert_eq!(byte_index("héllo", 0), 0);
    assert_eq!(byte_index("héllo", 2), 3);
    assert_eq!(byte_index("héllo", 5), 6);
    assert_eq!(byte_index("héllo", 9), 6);
    assert_eq!(byte_index("€😀a", 2), 7);
    assert_eq!(byte_index("", 3), 0);
}

#[test]
fn counts_characters_not_bytes() {
    assert_eq!(char_count("héllo"), 5);
    assert_eq!(char_count(""), 0);
    assert_eq!(char_count("€😀a"), 3);
}

#[test]
fn character_widths() {
    assert_eq!(utf8_width('a'), 1);
    assert_eq!(utf8_width('é'), 2);
    assert_eq!(utf8_width('€'), 3);
    assert_eq!(utf8_width('😀'), 4);
    assert_eq!(utf8_width('\u{7f}'), 1);
    assert_eq!(utf8_width('\u{80}'), 2);
    assert_eq!(utf8_width('\u{ffff}'), 3);
}

#[test]
fn scroll_policy_values() {
    assert_eq!(scroll_to_row(9, 0, 3), 7);
    assert_eq!(scroll_to_row(2, 5, 3), 2);
    assert_eq!(scroll_to_row(6, 5, 3), 5);
    assert_eq!(scroll_to_row(8, 5, 3), 6);
    assert_eq!(scroll_to_row(8, 5, 0), 5);
    assert_eq!(scroll_to_row(1, 5, 0), 1);
}

#[test]
fn untouched_editor_is_recognised() {
    let mut app = App::new();
    assert!(app.is_untouched());
    app.insert_char('a');
    assert!(!app.is_untouched());
    let mut app = App::new();
    app.switch_mode(Mode::Insert);
    assert!(!app.is_untouched());
    let mut app = App::new();
    app.load_text("f", None);
    assert!(!app.is_untouched());
    let app = app_with(&["", ""], 0, 0);
    assert!(!app.is_untouched());
}

#[test]
fn visible_rows_of_window() {
    let mut app = app_with(&["a", "b", "c", "d", "e"], 0, 0);
    assert_eq!(app.visible_rows(3), (0, 3));
    assert_eq!(app.visible_rows(10), (0, 5));
    app.scroll_y = 3;
    assert_eq!(app.visible_rows(3), (3, 5));
    assert_eq!(app.visible_rows(usize::MAX), (3, 5));
    app.scroll_y = 7;
    assert_eq!(app.visible_rows(2), (7, 5));
}

#[test]
fn join_keeps_window_on_document() {
    let mut app = app_with(&["a", "b"], 1, 0);
    app.viewport_height = 3;
    app.scroll_y = 1;
    app.delete_char();
    assert_eq!(app.buffer, vec!["ab"]);
    assert_eq!((app.cursor_y, app.cursor_x), (0, 1));
    assert_eq!(app.scroll_y, 0);
}

#[test]
fn join_on_top_line_scrolls_up() {
    let lines: Vec<String> = (0..10).map(|i| format!("{}", i)).collect();
    let refs: Vec<&str> = lines.iter().map(|l| l.as_str()).collect();
    let mut app = app_with(&refs, 7, 0);
    app.viewport_height = 3;
    app.scroll_y = 7;
    app.delete_char();
    assert_eq!((app.cursor_y, app.cursor_x), (6, 1));
    assert_eq!(app.scroll_y, 6);
}

#[test]
fn enter_on_last_shown_line_scrolls_down() {
    let mut app = app_with(&["a", "b", "c"], 2, 1);
    app.viewport_height = 3;
    app.enter_key();
    assert_eq!((app.cursor_y, app.cursor_x), (3, 0));
    assert_eq!(app.scroll_y, 1);
    app.delete_char();
    assert_eq!(app.buffer, vec!["a", "b", "c"]);
    assert_eq!((app.cursor_y, app.cursor_x), (2, 1));
    assert_eq!(app.scroll_y, 1);
}

#[test]
fn load_shorter_text_cuts_window_back() {
    let lines: Vec<String> = (0..10).map(|i| format!("{}", i)).collect();
    let refs: Vec<&str> = lines.iter().map(|l| l.as_str()).collect();
    let mut app = app_with(&refs, 9, 0);
    app.viewport_height = 3;
    app.scroll_y = 7;
    app.load_text("short", Some("x\ny\n"));
    assert_eq!((app.cursor_y, app.cursor_x), (1, 0));
    assert_eq!(app.scroll_y, 1);
}

#[test]
fn insert_on_missing_row_with_largest_column_is_no_op() {
    let mut app = app_with(&["ab"], 4, usize::MAX);
    app.insert_char('x');
    assert_eq!(app.buffer, vec!["ab"]);
    assert_eq!((app.cursor_y, app.cursor_x), (4, usize::MAX));
}
