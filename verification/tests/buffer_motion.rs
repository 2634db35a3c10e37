use weather_search::app::App;
use weather_search::char_is_whitespace;

fn chars(s: &str) -> Vec<char> {
    s.chars().collect()
}

fn app_with_input(s: &str) -> App {
    let mut app = App::new(Vec::new());
    for c in s.chars() {
        app.insert_char(c);
    }
    app
}

#[test]
fn insert_builds_text_and_moves_cursor() {
    let mut app = App::new(Vec::new());
    app.insert_char('h');
    app.insert_char('i');
    assert_eq!(app.input, chars("hi"));
    assert_eq!(app.cursor_position, 2);
}

#[test]
fn insert_in_middle() {
    let mut app = app_with_input("ac");
    app.move_cursor_left();
    app.insert_char('b');
    assert_eq!(app.input, chars("abc"));
    assert_eq!(app.cursor_position, 2);
}

#[test]
fn cursor_clamps_at_both_ends() {
    let mut app = app_with_input("ab");
    app.move_cursor_left();
    app.move_cursor_left();
    app.move_cursor_left();
    assert_eq!(app.cursor_position, 0);
    app.move_cursor_right();
    app.move_cursor_right();
    app.move_cursor_right();
    assert_eq!(app.cursor_position, 2);
    app.move_cursor_start();
    assert_eq!(app.cursor_position, 0);
    app.move_cursor_end();
    assert_eq!(app.cursor_position, 2);
}

#[test]
fn delete_at_end_and_backspace_at_start_are_no_ops() {
    let mut app = app_with_input("xy");
    app.delete_char();
    assert_eq!(app.input, chars("xy"));
    app.move_cursor_start();
    app.backspace();
    assert_eq!(app.input, chars("xy"));
    assert_eq!(app.cursor_position, 0);
}

#[test]
fn delete_forward_removes_under_cursor() {
    let mut app = app_with_input("abc");
    app.move_cursor_start();
    app.delete_char();
    assert_eq!(app.input, chars("bc"));
    assert_eq!(app.cursor_position, 0);
}

#[test]
fn backspace_removes_before_cursor() {
    let mut app = app_with_input("abc");
    app.backspace();
    assert_eq!(app.input, chars("ab"));
    assert_eq!(app.cursor_position, 2);
}

#[test]
fn insert_then_backspace_restores_multibyte_buffer() {
    let mut app = app_with_input("m\u{fc}nch");
    app.move_cursor_left();
    app.move_cursor_left();
    let before = app.input.clone();
    let cursor_before = app.cursor_position;
    app.insert_char('\u{65e5}');
    app.backspace();
    assert_eq!(app.input, before);
    assert_eq!(app.cursor_position, cursor_before);
}

#[test]
fn cursor_is_a_character_index_not_a_byte_index() {
    let mut app = app_with_input("\u{65e5}\u{672c}");
    assert_eq!(app.cursor_position, 2);
    app.insert_char('x');
    assert_eq!(app.input, chars("\u{65e5}\u{672c}x"));
}

#[test]
fn next_word_single_token_goes_to_end() {
    let mut app = app_with_input("london");
    app.move_cursor_start();
    app.move_to_next_word();
    assert_eq!(app.cursor_position, 6);
}

#[test]
fn next_word_skips_word_then_spaces() {
    let mut app = app_with_input("new york city");
    app.move_cursor_start();
    app.move_to_next_word();
    assert_eq!(app.cursor_position, 4);
    app.move_to_next_word();
    assert_eq!(app.cursor_position, 9);
    app.move_to_next_word();
    assert_eq!(app.cursor_position, 13);
}

#[test]
fn next_word_on_whitespace_skips_only_spaces() {
    let mut app = app_with_input("a  b");
    app.move_cursor_start();
    app.move_cursor_right();
    app.move_to_next_word();
    assert_eq!(app.cursor_position, 3);
}

#[test]
fn prev_word_goes_to_word_starts() {
    let mut app = app_with_input("new york");
    app.move_to_prev_word();
    assert_eq!(app.cursor_position, 4);
    app.move_to_prev_word();
    assert_eq!(app.cursor_position, 0);
}

#[test]
fn word_motions_are_no_ops_at_their_boundaries() {
    let mut app = app_with_input("paris");
    app.move_to_next_word();
    assert_eq!(app.cursor_position, 5);
    app.move_to_next_word();
    assert_eq!(app.cursor_position, 5);
    app.move_cursor_start();
    app.move_to_prev_word();
    assert_eq!(app.cursor_position, 0);
}

#[test]
fn next_then_prev_word_from_inside_a_word_does_not_advance() {
    let mut app = app_with_input("rio de janeiro");
    app.move_cursor_start();
    app.move_cursor_right();
    let start = app.cursor_position;
    app.move_to_next_word();
    app.move_to_prev_word();
    assert!(app.cursor_position <= start);
}

#[test]
fn clear_input_empties_buffer() {
    let mut app = app_with_input("oslo");
    app.clear_input();
    assert_eq!(app.input, chars(""));
    assert_eq!(app.cursor_position, 0);
}

#[test]
fn whitespace_classification() {
    assert!(char_is_whitespace(' '));
    assert!(char_is_whitespace('\t'));
    assert!(char_is_whitespace('\u{a0}'));
    assert!(!char_is_whitespace('a'));
    assert!(!char_is_whitespace('-'));
    for c in "city name\u{3000}here".chars() {
        assert_eq!(char_is_whitespace(c), c.is_whitespace());
    }
}

#[test]
fn char_count_counts_characters() {
    let app = app_with_input("z\u{fc}rich");
    assert_eq!(app.char_count(), 6);
}
