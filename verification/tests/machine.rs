use weather_search::app::{App, AppState, FocusedPane, Mode};
use weather_search::fetch::not_found_message;
use weather_search::keys::{Key, KeyOutcome};
use weather_search::weather::WeatherInfo;

fn chars(s: &str) -> Vec<char> {
    s.chars().collect()
}

fn plain(c: char) -> Key {
    Key::Char(c, false)
}

fn report(name: &str, country: &str) -> WeatherInfo {
    WeatherInfo {
        location_name: name.to_string(),
        country: country.to_string(),
        region: None,
        weather_code: 0,
        humidity: 50,
        temperature: "21.0\u{b0}C".to_string(),
        apparent_temperature: "20.5\u{b0}C".to_string(),
        precipitation: "0.0 mm".to_string(),
        wind_speed: "8.1 km/h".to_string(),
        pressure: "1013.2 hPa".to_string(),
    }
}

fn insert_text(app: &mut App, s: &str) {
    assert_eq!(app.on_key(plain('i')), KeyOutcome::Continue);
    for c in s.chars() {
        assert_eq!(app.on_key(plain(c)), KeyOutcome::Continue);
    }
}

#[test]
fn normal_mode_entries_position_the_cursor() {
    let mut app = App::new(Vec::new());
    insert_text(&mut app, "abc");
    app.on_key(Key::Esc);
    assert_eq!(app.mode, Mode::Normal);

    app.on_key(plain('I'));
    assert_eq!(app.mode, Mode::Insert);
    assert_eq!(app.cursor_position, 0);
    app.on_key(Key::Esc);

    app.on_key(plain('A'));
    assert_eq!(app.mode, Mode::Insert);
    assert_eq!(app.cursor_position, 3);
    app.on_key(Key::Esc);

    let cursor = app.cursor_position;
    app.on_key(plain('a'));
    assert_eq!(app.mode, Mode::Insert);
    assert_eq!(app.cursor_position, cursor + 1);
}

#[test]
fn normal_w_on_single_token_moves_to_end() {
    let mut app = App::new(Vec::new());
    insert_text(&mut app, "london");
    app.on_key(Key::Esc);
    app.on_key(plain('0'));
    assert_eq!(app.cursor_position, 0);
    assert_eq!(app.focused_pane, FocusedPane::Search);
    app.on_key(plain('w'));
    assert_eq!(app.cursor_position, 6);
}

#[test]
fn normal_motions_and_deletion() {
    let mut app = App::new(Vec::new());
    insert_text(&mut app, "abc");
    app.on_key(Key::Esc);
    app.on_key(plain('h'));
    assert_eq!(app.cursor_position, 1);
    app.on_key(plain('l'));
    assert_eq!(app.cursor_position, 2);
    app.on_key(plain('x'));
    assert_eq!(app.input, chars("ab"));
    app.on_key(plain('$'));
    assert_eq!(app.cursor_position, 2);
    app.on_key(plain('^'));
    assert_eq!(app.cursor_position, 0);
}

#[test]
fn ctrl_d_clears_the_buffer_and_plain_d_does_not() {
    let mut app = App::new(Vec::new());
    insert_text(&mut app, "oslo");
    app.on_key(Key::Esc);
    app.on_key(plain('d'));
    assert_eq!(app.input, chars("oslo"));
    app.on_key(Key::Char('d', true));
    assert_eq!(app.input, chars(""));
    assert_eq!(app.cursor_position, 0);
}

#[test]
fn tab_switches_panes_in_normal_mode() {
    let mut app = App::new(Vec::new());
    assert_eq!(app.focused_pane, FocusedPane::Search);
    app.on_key(Key::Tab);
    assert_eq!(app.focused_pane, FocusedPane::History);
    app.on_key(Key::Tab);
    assert_eq!(app.focused_pane, FocusedPane::Search);
}

#[test]
fn esc_quits_from_normal_mode_only() {
    let mut app = App::new(Vec::new());
    assert_eq!(app.on_key(Key::Esc), KeyOutcome::Quit);
    app.on_key(plain('i'));
    assert_eq!(app.on_key(Key::Esc), KeyOutcome::Continue);
    assert_eq!(app.mode, Mode::Normal);
}

#[test]
fn insert_esc_steps_cursor_left_and_hides_suggestions() {
    let mut app = App::new(Vec::new());
    insert_text(&mut app, "ber");
    app.apply_suggestions(&chars("ber"), vec![weather_search::app::Candidate {
        name: chars("Bern"),
        country: chars("Switzerland"),
        region: None,
    }]);
    assert!(app.show_autocomplete);
    app.on_key(Key::Esc);
    assert_eq!(app.mode, Mode::Normal);
    assert_eq!(app.cursor_position, 2);
    assert!(!app.show_autocomplete);
}

#[test]
fn coordinator_dispatches_at_three_chars_and_on_change_only() {
    let mut app = App::new(Vec::new());
    app.on_key(plain('i'));
    app.on_key(plain('p'));
    assert_eq!(app.take_pending_lookup(), None);
    app.on_key(plain('a'));
    assert_eq!(app.take_pending_lookup(), None);
    app.on_key(plain('r'));
    assert_eq!(app.take_pending_lookup(), Some(chars("par")));
    app.on_key(plain('i'));
    assert_eq!(app.take_pending_lookup(), Some(chars("pari")));
}

#[test]
fn shrinking_below_three_chars_hides_suggestions_without_dispatch() {
    let mut app = App::new(Vec::new());
    insert_text(&mut app, "pari");
    app.take_pending_lookup();
    app.apply_suggestions(&chars("pari"), vec![weather_search::app::Candidate {
        name: chars("Paris"),
        country: chars("France"),
        region: None,
    }]);
    assert!(app.show_autocomplete);
    app.on_key(Key::Backspace);
    assert_eq!(app.take_pending_lookup(), Some(chars("par")));
    app.on_key(Key::Backspace);
    assert_eq!(app.input, chars("pa"));
    assert!(!app.show_autocomplete);
    assert!(app.autocomplete_suggestions.is_empty());
    assert_eq!(app.take_pending_lookup(), None);
}

#[test]
fn backspace_rearms_when_content_differs_from_last_dispatch() {
    let mut app = App::new(Vec::new());
    insert_text(&mut app, "par");
    app.take_pending_lookup();
    app.on_key(plain('i'));
    app.take_pending_lookup();
    app.on_key(Key::Backspace);
    assert_eq!(app.input, chars("par"));
    assert_eq!(app.take_pending_lookup(), Some(chars("par")));
}

#[test]
fn insert_enter_accepts_visible_suggestion_instead_of_submitting() {
    let mut app = App::new(Vec::new());
    insert_text(&mut app, "ber");
    app.apply_suggestions(&chars("ber"), vec![weather_search::app::Candidate {
        name: chars("Bern"),
        country: chars("Switzerland"),
        region: None,
    }]);
    assert_eq!(app.on_key(Key::Enter), KeyOutcome::Continue);
    assert_eq!(app.input, chars("Bern, Switzerland"));
    assert_eq!(app.state, AppState::Input);
}

#[test]
fn insert_tab_accepts_suggestion_or_switches_pane() {
    let mut app = App::new(Vec::new());
    insert_text(&mut app, "ber");
    app.on_key(Key::Tab);
    assert_eq!(app.focused_pane, FocusedPane::History);
    app.on_key(Key::Tab);
    app.apply_suggestions(&chars("ber"), vec![weather_search::app::Candidate {
        name: chars("Bern"),
        country: chars("Switzerland"),
        region: None,
    }]);
    app.on_key(Key::Tab);
    assert_eq!(app.input, chars("Bern, Switzerland"));
    assert_eq!(app.focused_pane, FocusedPane::Search);
}

#[test]
fn empty_submission_is_a_no_op() {
    let mut app = App::new(Vec::new());
    assert_eq!(app.on_key(Key::Enter), KeyOutcome::Continue);
    assert_eq!(app.state, AppState::Input);
    app.on_key(plain('i'));
    assert_eq!(app.on_key(Key::Enter), KeyOutcome::Continue);
    assert_eq!(app.state, AppState::Input);
}

#[test]
fn submission_success_records_history_and_shows_display() {
    let mut app = App::new(Vec::new());
    insert_text(&mut app, "Bern");
    assert_eq!(app.on_key(Key::Enter), KeyOutcome::Submit);
    assert_eq!(app.state, AppState::Loading);
    app.finish_submission(Ok(report("Bern", "Switzerland")), 42);
    assert_eq!(app.state, AppState::Display);
    assert!(app.weather_data.is_some());
    assert_eq!(app.search_history.len(), 1);
    assert_eq!(app.search_history[0].query, chars("Bern"));
    assert_eq!(app.search_history[0].timestamp, 42);
    assert_eq!(app.input, chars(""));
    assert_eq!(app.cursor_position, 0);
    assert_eq!(app.mode, Mode::Normal);
}

#[test]
fn loading_phase_ignores_keys() {
    let mut app = App::new(Vec::new());
    insert_text(&mut app, "Bern");
    app.on_key(Key::Enter);
    assert_eq!(app.state, AppState::Loading);
    assert_eq!(app.on_key(Key::Esc), KeyOutcome::Continue);
    assert_eq!(app.on_key(plain('x')), KeyOutcome::Continue);
    assert_eq!(app.state, AppState::Loading);
    assert_eq!(app.input, chars("Bern"));
}

#[test]
fn failed_submission_shows_error_with_the_city_name() {
    let mut app = App::new(Vec::new());
    insert_text(&mut app, "Atlantis");
    assert_eq!(app.on_key(Key::Enter), KeyOutcome::Submit);
    let message = not_found_message(&app.input_chars());
    app.finish_submission(Err(message), 7);
    assert_eq!(app.state, AppState::Error);
    assert!(app.error_message.contains("Atlantis"));
    assert!(app.search_history.is_empty());

    app.on_key(plain('z'));
    assert_eq!(app.state, AppState::Input);
    assert_eq!(app.mode, Mode::Normal);
    assert!(app.error_message.is_empty());
}

#[test]
fn unrecognized_keys_leave_the_input_phase_alone_but_exit_error() {
    let mut app = App::new(Vec::new());
    insert_text(&mut app, "Bern");
    assert_eq!(app.on_key(Key::Other), KeyOutcome::Continue);
    assert_eq!(app.input, chars("Bern"));
    assert_eq!(app.mode, Mode::Insert);
    app.on_key(Key::Enter);
    app.finish_submission(Err("boom".to_string()), 7);
    assert_eq!(app.state, AppState::Error);
    assert_eq!(app.on_key(Key::Other), KeyOutcome::Continue);
    assert_eq!(app.state, AppState::Input);
    assert_eq!(app.mode, Mode::Normal);
    assert!(app.error_message.is_empty());
}

#[test]
fn display_phase_exits_by_any_key_and_i_enters_insert() {
    let mut app = App::new(Vec::new());
    insert_text(&mut app, "Bern");
    app.on_key(Key::Enter);
    app.finish_submission(Ok(report("Bern", "Switzerland")), 1);
    assert_eq!(app.on_key(plain('q')), KeyOutcome::Quit);
    assert_eq!(app.on_key(Key::Esc), KeyOutcome::Quit);
    assert_eq!(app.on_key(plain('i')), KeyOutcome::Continue);
    assert_eq!(app.state, AppState::Input);
    assert_eq!(app.mode, Mode::Insert);
}

#[test]
fn normal_enter_with_history_focus_loads_the_selection() {
    let mut app = App::new(vec![weather_search::app::HistoryEntry {
        query: chars("geneva"),
        timestamp: 5,
    }]);
    app.on_key(Key::Tab);
    assert_eq!(app.on_key(Key::Enter), KeyOutcome::Continue);
    assert_eq!(app.input, chars("geneva"));
    assert_eq!(app.mode, Mode::Insert);
    assert_eq!(app.focused_pane, FocusedPane::Search);
}

#[test]
fn history_navigation_keys_work_only_with_history_focus() {
    let mut app = App::new(vec![
        weather_search::app::HistoryEntry { query: chars("a"), timestamp: 1 },
        weather_search::app::HistoryEntry { query: chars("b"), timestamp: 2 },
    ]);
    app.on_key(plain('j'));
    assert_eq!(app.selected_history_index, 0);
    app.on_key(Key::Tab);
    app.on_key(plain('j'));
    assert_eq!(app.selected_history_index, 1);
    app.on_key(plain('k'));
    assert_eq!(app.selected_history_index, 0);
}

#[test]
fn suggestion_arrows_move_selection_only_while_visible() {
    let mut app = App::new(Vec::new());
    insert_text(&mut app, "ber");
    app.on_key(Key::Down);
    assert_eq!(app.selected_suggestion, 0);
    app.apply_suggestions(&chars("ber"), vec![
        weather_search::app::Candidate {
            name: chars("Bern"),
            country: chars("Switzerland"),
            region: None,
        },
        weather_search::app::Candidate {
            name: chars("Berlin"),
            country: chars("Germany"),
            region: None,
        },
    ]);
    app.on_key(Key::Down);
    assert_eq!(app.selected_suggestion, 1);
    app.on_key(Key::Up);
    assert_eq!(app.selected_suggestion, 0);
}
