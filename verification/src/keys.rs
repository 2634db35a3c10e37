//! The modal key state machine: every (phase, mode, focus, key) combination
//! maps to exactly one transition of the application view, given by
//! `spec_step`, together with the outward outcome the UI loop must act on.

use vstd::prelude::*;

verus! {

use crate::app::{App, AppState, AppView, FocusedPane, Mode};
use crate::buffer::{
    spec_backspace, spec_clear_input, spec_delete_forward, spec_insert_char, spec_move_end,
    spec_move_left, spec_move_right, spec_move_start, spec_next_word, spec_prev_word,
};
use crate::history::{
    record_step, spec_load_selected_history, spec_select_next_history, spec_select_prev_history,
};
use crate::suggest::{
    spec_accept_suggestion, spec_arm_lookup, spec_clear_suggestions, spec_select_next_suggestion,
    spec_select_prev_suggestion, LOOKUP_MIN_LEN,
};
use crate::weather::WeatherInfo;

/// A terminal key, reduced to what the engine distinguishes.  The flag on a
/// character key says whether Control was held.
#[derive(PartialEq, Eq, Structural, Clone, Copy, Debug)]
pub enum Key {
    Char(char, bool),
    Enter,
    Esc,
    Tab,
    Backspace,
    Delete,
    Left,
    Right,
    Up,
    Down,
    Home,
    End,
    Other,
}

/// What the UI loop must do after a keystroke: keep going, quit, or fetch
/// the weather for the submitted buffer content.
#[derive(PartialEq, Eq, Structural, Clone, Copy, Debug)]
pub enum KeyOutcome {
    Continue,
    Quit,
    Submit,
}

/// Moves focus to the other pane.
pub open spec fn spec_toggle_pane(v: AppView) -> AppView {
    AppView {
        focus: if v.focus == FocusedPane::Search {
            FocusedPane::History
        } else {
            FocusedPane::Search
        },
        ..v
    }
}

/// The Normal-mode key table.
pub open spec fn spec_normal_step(v: AppView, key: Key) -> (AppView, KeyOutcome) {
    match key {
        Key::Char(c, ctrl) => {
            if c == 'i' {
                (AppView { mode: Mode::Insert, ..v }, KeyOutcome::Continue)
            } else if c == 'I' {
                (AppView { mode: Mode::Insert, ..spec_move_start(v) }, KeyOutcome::Continue)
            } else if c == 'a' {
                (AppView { mode: Mode::Insert, ..spec_move_right(v) }, KeyOutcome::Continue)
            } else if c == 'A' {
                (AppView { mode: Mode::Insert, ..spec_move_end(v) }, KeyOutcome::Continue)
            } else if c == 'h' {
                if v.focus == FocusedPane::Search {
                    (spec_move_left(v), KeyOutcome::Continue)
                } else {
                    (v, KeyOutcome::Continue)
                }
            } else if c == 'l' {
                if v.focus == FocusedPane::Search {
                    (spec_move_right(v), KeyOutcome::Continue)
                } else {
                    (v, KeyOutcome::Continue)
                }
            } else if c == 'j' {
                if v.focus == FocusedPane::History {
                    (spec_select_next_history(v), KeyOutcome::Continue)
                } else {
                    (v, KeyOutcome::Continue)
                }
            } else if c == 'k' {
                if v.focus == FocusedPane::History {
                    (spec_select_prev_history(v), KeyOutcome::Continue)
                } else {
                    (v, KeyOutcome::Continue)
                }
            } else if c == '0' || c == '^' {
                (spec_move_start(v), KeyOutcome::Continue)
            } else if c == '$' {
                (spec_move_end(v), KeyOutcome::Continue)
            } else if c == 'w' {
                (spec_next_word(v), KeyOutcome::Continue)
            } else if c == 'b' {
                (spec_prev_word(v), KeyOutcome::Continue)
            } else if c == 'x' {
                (spec_delete_forward(v), KeyOutcome::Continue)
            } else if c == 'd' {
                if ctrl {
                    (spec_clear_input(v), KeyOutcome::Continue)
                } else {
                    (v, KeyOutcome::Continue)
                }
            } else {
                (v, KeyOutcome::Continue)
            }
        },
        Key::Tab => (spec_toggle_pane(v), KeyOutcome::Continue),
        Key::Enter => {
            if v.focus == FocusedPane::History {
                (spec_load_selected_history(v), KeyOutcome::Continue)
            } else if v.input.len() > 0 {
                (AppView { state: AppState::Loading, ..v }, KeyOutcome::Submit)
            } else {
                (v, KeyOutcome::Continue)
            }
        },
        Key::Esc => (v, KeyOutcome::Quit),
        _ => (v, KeyOutcome::Continue),
    }
}

/// The Insert-mode key table.
pub open spec fn spec_insert_step(v: AppView, key: Key) -> (AppView, KeyOutcome) {
    match key {
        Key::Esc => (
            AppView {
                mode: Mode::Normal,
                cursor: if v.cursor > 0 {
                    v.cursor - 1
                } else {
                    0
                },
                show_autocomplete: false,
                ..v
            },
            KeyOutcome::Continue,
        ),
        Key::Char(c, _) => (spec_arm_lookup(spec_insert_char(v, c)), KeyOutcome::Continue),
        Key::Backspace => {
            let v1 = spec_backspace(v);
            if v1.input.len() < LOOKUP_MIN_LEN {
                (spec_clear_suggestions(v1), KeyOutcome::Continue)
            } else {
                (spec_arm_lookup(v1), KeyOutcome::Continue)
            }
        },
        Key::Delete => (spec_delete_forward(v), KeyOutcome::Continue),
        Key::Left => (spec_move_left(v), KeyOutcome::Continue),
        Key::Right => (spec_move_right(v), KeyOutcome::Continue),
        Key::Home => (spec_move_start(v), KeyOutcome::Continue),
        Key::End => (spec_move_end(v), KeyOutcome::Continue),
        Key::Down => {
            if v.show_autocomplete {
                (spec_select_next_suggestion(v), KeyOutcome::Continue)
            } else {
                (v, KeyOutcome::Continue)
            }
        },
        Key::Up => {
            if v.show_autocomplete {
                (spec_select_prev_suggestion(v), KeyOutcome::Continue)
            } else {
                (v, KeyOutcome::Continue)
            }
        },
        Key::Tab => {
            if v.show_autocomplete {
                (spec_accept_suggestion(v), KeyOutcome::Continue)
            } else {
                (spec_toggle_pane(v), KeyOutcome::Continue)
            }
        },
        Key::Enter => {
            if v.show_autocomplete && v.suggestions.len() > 0 {
                (spec_accept_suggestion(v), KeyOutcome::Continue)
            } else if v.input.len() > 0 {
                (
                    AppView { state: AppState::Loading, show_autocomplete: false, ..v },
                    KeyOutcome::Submit,
                )
            } else {
                (v, KeyOutcome::Continue)
            }
        },
        _ => (v, KeyOutcome::Continue),
    }
}

/// Leaving the Display or Error phase: back to Input, except the keys that
/// quit or jump straight into Insert mode; the error message is cleared.
pub open spec fn spec_result_step(v: AppView, key: Key) -> (AppView, KeyOutcome) {
    match key {
        Key::Esc => (v, KeyOutcome::Quit),
        Key::Char(c, _) => {
            if c == 'q' {
                (v, KeyOutcome::Quit)
            } else if c == 'i' {
                (
                    AppView {
                        state: AppState::Input,
                        mode: Mode::Insert,
                        error_message: Seq::<char>::empty(),
                        show_autocomplete: false,
                        ..v
                    },
                    KeyOutcome::Continue,
                )
            } else {
                (
                    AppView {
                        state: AppState::Input,
                        mode: Mode::Normal,
                        error_message: Seq::<char>::empty(),
                        show_autocomplete: false,
                        ..v
                    },
                    KeyOutcome::Continue,
                )
            }
        },
        _ => (
            AppView {
                state: AppState::Input,
                mode: Mode::Normal,
                error_message: Seq::<char>::empty(),
                show_autocomplete: false,
                ..v
            },
            KeyOutcome::Continue,
        ),
    }
}

/// One keystroke of the whole application: the Input phase dispatches to the
/// active mode's table, Display and Error leave through `spec_result_step`,
/// and Loading ignores all input.
pub open spec fn spec_step(v: AppView, key: Key) -> (AppView, KeyOutcome) {
    match v.state {
        AppState::Input => match v.mode {
            Mode::Normal => spec_normal_step(v, key),
            Mode::Insert => spec_insert_step(v, key),
        },
        AppState::Display => spec_result_step(v, key),
        AppState::Error => spec_result_step(v, key),
        AppState::Loading => (v, KeyOutcome::Continue),
    }
}

/// Resolving a submission: success stores the report, records the submitted
/// query, clears the buffer and shows the Display phase; failure carries the
/// message into the Error phase and leaves everything else as it was.
pub open spec fn spec_finish_submission(
    v: AppView,
    outcome: Result<WeatherInfo, String>,
    ts: u64,
) -> AppView {
    match outcome {
        Result::Ok(w) => AppView {
            weather: Option::Some(w),
            history: record_step(v.history, v.input, ts),
            state: AppState::Display,
            input: Seq::<char>::empty(),
            cursor: 0,
            mode: Mode::Normal,
            ..v
        },
        Result::Err(e) => AppView { error_message: e@, state: AppState::Error, ..v },
    }
}

impl App {
    /// Handles one keystroke in Normal mode, exactly as `spec_normal_step`
    /// states.
    pub fn handle_normal_key(&mut self, key: Key) -> (r: KeyOutcome)
        requires
            old(self)@.wf(),
        ensures
            final(self)@ == spec_normal_step(old(self)@, key).0,
            r == spec_normal_step(old(self)@, key).1,
            final(self)@.wf(),
    {
        match key {
            Key::Char(c, ctrl) => {
                if c == 'i' {
                    self.mode = Mode::Insert;
                    proof {
                        assert(self@ =~= spec_normal_step(old(self)@, key).0);
                    }
                    KeyOutcome::Continue
                } else if c == 'I' {
                    self.mode = Mode::Insert;
                    self.move_cursor_start();
                    proof {
                        assert(self@ =~= spec_normal_step(old(self)@, key).0);
                    }
                    KeyOutcome::Continue
                } else if c == 'a' {
                    self.mode = Mode::Insert;
                    self.move_cursor_right();
                    proof {
                        assert(self@ =~= spec_normal_step(old(self)@, key).0);
                    }
                    KeyOutcome::Continue
                } else if c == 'A' {
                    self.mode = Mode::Insert;
                    self.move_cursor_end();
                    proof {
                        assert(self@ =~= spec_normal_step(old(self)@, key).0);
                    }
                    KeyOutcome::Continue
                } else if c == 'h' {
                    if self.focused_pane == FocusedPane::Search {
                        self.move_cursor_left();
                    }
                    KeyOutcome::Continue
                } else if c == 'l' {
                    if self.focused_pane == FocusedPane::Search {
                        self.move_cursor_right();
                    }
                    KeyOutcome::Continue
                } else if c == 'j' {
                    if self.focused_pane == FocusedPane::History {
                        self.select_next_history();
                    }
                    KeyOutcome::Continue
                } else if c == 'k' {
                    if self.focused_pane == FocusedPane::History {
                        self.select_prev_history();
                    }
                    KeyOutcome::Continue
                } else if c == '0' || c == '^' {
                    self.move_cursor_start();
                    KeyOutcome::Continue
                } else if c == '$' {
                    self.move_cursor_end();
                    KeyOutcome::Continue
                } else if c == 'w' {
                    self.move_to_next_word();
                    KeyOutcome::Continue
                } else if c == 'b' {
                    self.move_to_prev_word();
                    KeyOutcome::Continue
                } else if c == 'x' {
                    self.delete_char();
                    KeyOutcome::Continue
                } else if c == 'd' {
                    if ctrl {
                        self.clear_input();
                    }
                    KeyOutcome::Continue
                } else {
                    KeyOutcome::Continue
                }
            },
            Key::Tab => {
                self.toggle_pane();
                KeyOutcome::Continue
            },
            Key::Enter => {
                if self.focused_pane == FocusedPane::History {
                    self.load_selected_history();
                    KeyOutcome::Continue
                } else if self.input.len() > 0 {
                    self.state = AppState::Loading;
                    proof {
                        assert(self@ =~= spec_normal_step(old(self)@, key).0);
                    }
                    KeyOutcome::Submit
                } else {
                    KeyOutcome::Continue
                }
            },
            Key::Esc => KeyOutcome::Quit,
            _ => KeyOutcome::Continue,
        }
    }

    /// Handles one keystroke in Insert mode, exactly as `spec_insert_step`
    /// states.
    pub fn handle_insert_key(&mut self, key: Key) -> (r: KeyOutcome)
        requires
            old(self)@.wf(),
        ensures
            final(self)@ == spec_insert_step(old(self)@, key).0,
            r == spec_insert_step(old(self)@, key).1,
            final(self)@.wf(),
    {
        match key {
            Key::Esc => {
                self.mode = Mode::Normal;
                if self.cursor_position > 0 {
                    self.cursor_position = self.cursor_position - 1;
                }
                self.show_autocomplete = false;
                proof {
                    assert(self@ =~= spec_insert_step(old(self)@, key).0);
                }
                KeyOutcome::Continue
            },
            Key::Char(c, _) => {
                self.insert_char(c);
                self.arm_lookup();
                KeyOutcome::Continue
            },
            Key::Backspace => {
                self.backspace();
                if self.input.len() < LOOKUP_MIN_LEN {
                    self.clear_suggestions();
                } else {
                    self.arm_lookup();
                }
                KeyOutcome::Continue
            },
            Key::Delete => {
                self.delete_char();
                KeyOutcome::Continue
            },
            Key::Left => {
                self.move_cursor_left();
                KeyOutcome::Continue
            },
            Key::Right => {
                self.move_cursor_right();
                KeyOutcome::Continue
            },
            Key::Home => {
                self.move_cursor_start();
                KeyOutcome::Continue
            },
            Key::End => {
                self.move_cursor_end();
                KeyOutcome::Continue
            },
            Key::Down => {
                if self.show_autocomplete {
                    self.select_next_suggestion();
                }
                KeyOutcome::Continue
            },
            Key::Up => {
                if self.show_autocomplete {
                    self.select_prev_suggestion();
                }
                KeyOutcome::Continue
            },
            Key::Tab => {
                if self.show_autocomplete {
                    self.accept_suggestion();
                } else {
                    self.toggle_pane();
                }
                KeyOutcome::Continue
            },
            Key::Enter => {
                if self.show_autocomplete && self.autocomplete_suggestions.len() > 0 {
                    self.accept_suggestion();
                    KeyOutcome::Continue
                } else if self.input.len() > 0 {
                    self.state = AppState::Loading;
                    self.show_autocomplete = false;
                    proof {
                        assert(self@ =~= spec_insert_step(old(self)@, key).0);
                    }
                    KeyOutcome::Submit
                } else {
                    KeyOutcome::Continue
                }
            },
            _ => KeyOutcome::Continue,
        }
    }

    /// Handles one keystroke in the Display or Error phase, exactly as
    /// `spec_result_step` states.
    pub fn handle_result_key(&mut self, key: Key) -> (r: KeyOutcome)
        requires
            old(self)@.wf(),
        ensures
            final(self)@ == spec_result_step(old(self)@, key).0,
            r == spec_result_step(old(self)@, key).1,
            final(self)@.wf(),
    {
        match key {
            Key::Esc => KeyOutcome::Quit,
            Key::Char(c, _) => {
                if c == 'q' {
                    KeyOutcome::Quit
                } else if c == 'i' {
                    self.state = AppState::Input;
                    self.mode = Mode::Insert;
                    self.error_message = String::new();
                    self.show_autocomplete = false;
                    proof {
                        assert(self@ =~= spec_result_step(old(self)@, key).0);
                    }
                    KeyOutcome::Continue
                } else {
                    self.state = AppState::Input;
                    self.mode = Mode::Normal;
                    self.error_message = String::new();
                    self.show_autocomplete = false;
                    proof {
                        assert(self@ =~= spec_result_step(old(self)@, key).0);
                    }
                    KeyOutcome::Continue
                }
            },
            _ => {
                self.state = AppState::Input;
                self.mode = Mode::Normal;
                self.error_message = String::new();
                self.show_autocomplete = false;
                proof {
                    assert(self@ =~= spec_result_step(old(self)@, key).0);
                }
                KeyOutcome::Continue
            },
        }
    }

    /// Moves focus to the other pane.
    pub fn toggle_pane(&mut self)
        requires
            old(self)@.wf(),
        ensures
            final(self)@ == spec_toggle_pane(old(self)@),
            final(self)@.wf(),
    {
        self.focused_pane = if self.focused_pane == FocusedPane::Search {
            FocusedPane::History
        } else {
            FocusedPane::Search
        };
        proof {
            assert(self@ =~= spec_toggle_pane(old(self)@));
        }
    }

    /// Handles one keystroke of the whole application, exactly as
    /// `spec_step` states: the result says whether the UI loop keeps going,
    /// quits, or must fetch the weather for the submitted buffer content.
    pub fn on_key(&mut self, key: Key) -> (r: KeyOutcome)
        requires
            old(self)@.wf(),
        ensures
            final(self)@ == spec_step(old(self)@, key).0,
            r == spec_step(old(self)@, key).1,
            final(self)@.wf(),
    {
        let state = self.state;
        match state {
            AppState::Input => {
                let mode = self.mode;
                match mode {
                    Mode::Normal => self.handle_normal_key(key),
                    Mode::Insert => self.handle_insert_key(key),
                }
            },
            AppState::Display => self.handle_result_key(key),
            AppState::Error => self.handle_result_key(key),
            AppState::Loading => KeyOutcome::Continue,
        }
    }

    /// Resolves a submission that was announced by `KeyOutcome::Submit`,
    /// exactly as `spec_finish_submission` states.
    pub fn finish_submission(&mut self, outcome: Result<WeatherInfo, String>, timestamp: u64)
        requires
            old(self)@.wf(),
        ensures
            final(self)@ == spec_finish_submission(old(self)@, outcome, timestamp),
            final(self)@.wf(),
    {
        match outcome {
            Result::Ok(w) => {
                self.weather_data = Some(w);
                let q = self.input_chars();
                self.add_to_history(q, timestamp);
                self.state = AppState::Display;
                self.input = Vec::new();
                self.cursor_position = 0;
                self.mode = Mode::Normal;
                proof {
                    assert(self@ =~= spec_finish_submission(old(self)@, outcome, timestamp));
                }
            },
            Result::Err(e) => {
                self.error_message = e;
                self.state = AppState::Error;
                proof {
                    assert(self@ =~= spec_finish_submission(old(self)@, outcome, timestamp));
                }
            },
        }
    }
}

} // verus!
