use weather_search::app::{App, Candidate, FocusedPane, HistoryEntry, Mode};

fn chars(s: &str) -> Vec<char> {
    s.chars().collect()
}

fn entry(q: &str, ts: u64) -> HistoryEntry {
    HistoryEntry { query: chars(q), timestamp: ts }
}

fn candidate(name: &str, country: &str) -> Candidate {
    Candidate { name: chars(name), country: chars(country), region: None }
}

#[test]
fn recording_same_query_twice_keeps_one_entry_at_front() {
    let mut app = App::new(Vec::new());
    app.add_to_history(chars("Paris"), 100);
    app.add_to_history(chars("Rome"), 200);
    app.add_to_history(chars("Paris"), 300);
    let paris: Vec<&HistoryEntry> =
        app.search_history.iter().filter(|e| e.query == chars("Paris")).collect();
    assert_eq!(paris.len(), 1);
    assert_eq!(app.search_history[0].query, chars("Paris"));
    assert_eq!(app.search_history[0].timestamp, 300);
    assert_eq!(app.search_history.len(), 2);
}

#[test]
fn recording_fifty_one_distinct_queries_evicts_the_oldest() {
    let mut app = App::new(Vec::new());
    for i in 0..51u64 {
        app.add_to_history(chars(&format!("city{}", i)), i);
    }
    assert_eq!(app.search_history.len(), 50);
    assert_eq!(app.search_history[0].query, chars("city50"));
    assert!(app.search_history.iter().all(|e| e.query != chars("city0")));
    assert_eq!(app.search_history[49].query, chars("city1"));
}

#[test]
fn new_app_clamps_an_overlong_loaded_history() {
    let loaded: Vec<HistoryEntry> = (0..60u64).map(|i| entry(&format!("q{}", i), i)).collect();
    let app = App::new(loaded);
    assert_eq!(app.search_history.len(), 50);
    assert_eq!(app.search_history[0].query, chars("q0"));
}

#[test]
fn history_selection_wraps_both_ways() {
    let mut app = App::new(vec![entry("a", 1), entry("b", 2), entry("c", 3)]);
    assert_eq!(app.selected_history_index, 0);
    app.select_prev_history();
    assert_eq!(app.selected_history_index, 2);
    app.select_next_history();
    assert_eq!(app.selected_history_index, 0);
    app.select_next_history();
    assert_eq!(app.selected_history_index, 1);
}

#[test]
fn history_selection_is_a_no_op_on_empty_history() {
    let mut app = App::new(Vec::new());
    app.select_next_history();
    app.select_prev_history();
    assert_eq!(app.selected_history_index, 0);
}

#[test]
fn load_selected_history_fills_buffer_and_enters_insert() {
    let mut app = App::new(vec![entry("tokyo", 1), entry("berlin", 2)]);
    app.select_next_history();
    app.load_selected_history();
    assert_eq!(app.input, chars("berlin"));
    assert_eq!(app.cursor_position, 6);
    assert_eq!(app.focused_pane, FocusedPane::Search);
    assert_eq!(app.mode, Mode::Insert);
}

#[test]
fn stale_suggestion_result_is_discarded() {
    let mut app = App::new(Vec::new());
    for c in "Berl".chars() {
        app.insert_char(c);
    }
    app.apply_suggestions(&chars("Ber"), vec![candidate("Bern", "Switzerland")]);
    assert!(app.autocomplete_suggestions.is_empty());
    assert!(!app.show_autocomplete);
}

#[test]
fn matching_suggestion_result_is_applied() {
    let mut app = App::new(Vec::new());
    for c in "Berl".chars() {
        app.insert_char(c);
    }
    app.apply_suggestions(
        &chars("Berl"),
        vec![candidate("Berlin", "Germany"), candidate("Berlingo", "Italy")],
    );
    assert_eq!(app.autocomplete_suggestions.len(), 2);
    assert!(app.show_autocomplete);
    assert_eq!(app.selected_suggestion, 0);
}

#[test]
fn empty_matching_result_is_applied_but_hidden() {
    let mut app = App::new(Vec::new());
    for c in "Berl".chars() {
        app.insert_char(c);
    }
    app.apply_suggestions(&chars("Berl"), Vec::new());
    assert!(app.autocomplete_suggestions.is_empty());
    assert!(!app.show_autocomplete);
}

#[test]
fn suggestion_selection_wraps_both_ways() {
    let mut app = App::new(Vec::new());
    for c in "ber".chars() {
        app.insert_char(c);
    }
    app.apply_suggestions(
        &chars("ber"),
        vec![candidate("Berlin", "Germany"), candidate("Bern", "Switzerland")],
    );
    app.select_next_suggestion();
    assert_eq!(app.selected_suggestion, 1);
    app.select_next_suggestion();
    assert_eq!(app.selected_suggestion, 0);
    app.select_prev_suggestion();
    assert_eq!(app.selected_suggestion, 1);
}

#[test]
fn accept_suggestion_writes_name_comma_country() {
    let mut app = App::new(Vec::new());
    for c in "ber".chars() {
        app.insert_char(c);
    }
    app.apply_suggestions(&chars("ber"), vec![candidate("Bern", "Switzerland")]);
    app.accept_suggestion();
    assert_eq!(app.input, chars("Bern, Switzerland"));
    assert_eq!(app.cursor_position, 17);
    assert!(!app.show_autocomplete);
    assert!(app.autocomplete_suggestions.is_empty());
}

#[test]
fn accept_suggestion_without_visible_suggestions_is_a_no_op() {
    let mut app = App::new(Vec::new());
    for c in "ber".chars() {
        app.insert_char(c);
    }
    app.accept_suggestion();
    assert_eq!(app.input, chars("ber"));
}
