//! Application state: the text buffer, modal and pane state, suggestion set,
//! history ring and top-level phase, together with its mathematical view.

use vstd::prelude::*;

verus! {

use crate::weather::WeatherInfo;

/// Modal editing state: which key table is active.
#[derive(PartialEq, Eq, Structural, Clone, Copy, Debug)]
pub enum Mode {
    Normal,
    Insert,
}

/// Top-level application phase.  Exactly one is active at a time.
#[derive(PartialEq, Eq, Structural, Clone, Copy, Debug)]
pub enum AppState {
    Input,
    Loading,
    Display,
    Error,
}

/// Which pane's navigation keys are live.
#[derive(PartialEq, Eq, Structural, Clone, Copy, Debug)]
pub enum FocusedPane {
    Search,
    History,
}

/// One remembered query with the second it was recorded at.
pub struct HistoryEntry {
    pub query: Vec<char>,
    pub timestamp: u64,
}

/// Mathematical view of a history entry.
pub ghost struct HistoryEntryView {
    pub query: Seq<char>,
    pub timestamp: u64,
}

impl View for HistoryEntry {
    type V = HistoryEntryView;

    open spec fn view(&self) -> HistoryEntryView {
        HistoryEntryView { query: self.query@, timestamp: self.timestamp }
    }
}

/// One autocomplete candidate: the location fields the engine reads.
pub struct Candidate {
    pub name: Vec<char>,
    pub country: Vec<char>,
    pub region: Option<Vec<char>>,
}

/// Mathematical view of a candidate.
pub ghost struct CandidateView {
    pub name: Seq<char>,
    pub country: Seq<char>,
    pub region: Option<Seq<char>>,
}

impl View for Candidate {
    type V = CandidateView;

    open spec fn view(&self) -> CandidateView {
        CandidateView {
            name: self.name@,
            country: self.country@,
            region: match self.region {
                Option::Some(r) => Option::Some(r@),
                Option::None => Option::None,
            },
        }
    }
}

/// Mathematical view of the whole application state.
#[verifier::ext_equal]
pub ghost struct AppView {
    pub input: Seq<char>,
    pub cursor: int,
    pub state: AppState,
    pub mode: Mode,
    pub weather: Option<WeatherInfo>,
    pub error_message: Seq<char>,
    pub history: Seq<HistoryEntryView>,
    pub suggestions: Seq<CandidateView>,
    pub selected_suggestion: int,
    pub show_autocomplete: bool,
    pub last_query: Seq<char>,
    pub focus: FocusedPane,
    pub selected_history: int,
    pub pending_lookup: Option<Seq<char>>,
}

/// How many entries the history ring keeps.
pub const HISTORY_CAP: usize = 50;

/// A history that respects the ring's capacity: anything longer is cut back
/// to the newest entries.
pub open spec fn clamp_history(h: Seq<HistoryEntryView>) -> Seq<HistoryEntryView> {
    if h.len() > HISTORY_CAP {
        h.take(HISTORY_CAP as int)
    } else {
        h
    }
}

impl AppView {
    /// Well-formedness: the cursor sits on a character boundary of the input,
    /// the history respects the ring's capacity, and each selection index
    /// addresses its list when the list is occupied.
    pub open spec fn wf(self) -> bool {
        &&& 0 <= self.cursor <= self.input.len()
        &&& 0 <= self.selected_suggestion
        &&& (self.suggestions.len() > 0 ==> self.selected_suggestion < self.suggestions.len())
        &&& 0 <= self.selected_history
        &&& self.history.len() <= HISTORY_CAP
        &&& (self.history.len() > 0 ==> self.selected_history < self.history.len())
        &&& (self.history.len() == 0 ==> self.selected_history == 0)
    }
}

/// The single owner of all mutable UI state.
pub struct App {
    pub input: Vec<char>,
    pub cursor_position: usize,
    pub state: AppState,
    pub mode: Mode,
    pub weather_data: Option<WeatherInfo>,
    pub error_message: String,
    pub search_history: Vec<HistoryEntry>,
    pub autocomplete_suggestions: Vec<Candidate>,
    pub selected_suggestion: usize,
    pub show_autocomplete: bool,
    pub last_autocomplete_query: Vec<char>,
    pub focused_pane: FocusedPane,
    pub selected_history_index: usize,
    pub pending_lookup: Option<Vec<char>>,
}

impl View for App {
    type V = AppView;

    open spec fn view(&self) -> AppView {
        AppView {
            input: self.input@,
            cursor: self.cursor_position as int,
            state: self.state,
            mode: self.mode,
            weather: self.weather_data,
            error_message: self.error_message@,
            history: self.search_history@.map_values(|e: HistoryEntry| e@),
            suggestions: self.autocomplete_suggestions@.map_values(|c: Candidate| c@),
            selected_suggestion: self.selected_suggestion as int,
            show_autocomplete: self.show_autocomplete,
            last_query: self.last_autocomplete_query@,
            focus: self.focused_pane,
            selected_history: self.selected_history_index as int,
            pending_lookup: match self.pending_lookup {
                Option::Some(v) => Option::Some(v@),
                Option::None => Option::None,
            },
        }
    }
}

impl App {
    /// A fresh application over a previously saved history: empty buffer,
    /// Normal mode, Input phase, search pane focused, nothing selected.  A
    /// loaded history longer than the ring's capacity is cut back to the
    /// newest entries.
    pub fn new(history: Vec<HistoryEntry>) -> (r: App)
        ensures
            r@.wf(),
            r@.input == Seq::<char>::empty(),
            r@.cursor == 0,
            r@.state == AppState::Input,
            r@.mode == Mode::Normal,
            r@.weather == Option::<WeatherInfo>::None,
            r@.error_message == Seq::<char>::empty(),
            r@.history == clamp_history(history@.map_values(|e: HistoryEntry| e@)),
            r@.suggestions == Seq::<CandidateView>::empty(),
            r@.selected_suggestion == 0,
            !r@.show_autocomplete,
            r@.last_query == Seq::<char>::empty(),
            r@.focus == FocusedPane::Search,
            r@.selected_history == 0,
            r@.pending_lookup == Option::<Seq<char>>::None,
    {
        let ghost full = history@.map_values(|e: HistoryEntry| e@);
        let mut history = history;
        if history.len() > HISTORY_CAP {
            history.truncate(HISTORY_CAP);
        }
        proof {
            assert(history@.map_values(|e: HistoryEntry| e@) =~= clamp_history(full));
        }
        let r = App {
            input: Vec::new(),
            cursor_position: 0,
            state: AppState::Input,
            mode: Mode::Normal,
            weather_data: None,
            error_message: String::new(),
            search_history: history,
            autocomplete_suggestions: Vec::new(),
            selected_suggestion: 0,
            show_autocomplete: false,
            last_autocomplete_query: Vec::new(),
            focused_pane: FocusedPane::Search,
            selected_history_index: 0,
            pending_lookup: None,
        };
        proof {
            assert(r@.suggestions =~= Seq::<CandidateView>::empty());
        }
        r
    }

    /// The number of characters in the input buffer.
    pub fn char_count(&self) -> (r: usize)
        ensures
            r == self@.input.len(),
    {
        self.input.len()
    }

    /// A copy of the current buffer content.
    pub fn input_chars(&self) -> (r: Vec<char>)
        ensures
            r@ == self@.input,
    {
        crate::text::clone_chars(&self.input)
    }

    /// Hands the armed lookup, if any, to the caller and disarms it.
    pub fn take_pending_lookup(&mut self) -> (r: Option<Vec<char>>)
        ensures
            r == old(self).pending_lookup,
            final(self)@ == (AppView { pending_lookup: Option::<Seq<char>>::None, ..old(self)@ }),
            old(self)@.wf() ==> final(self)@.wf(),
    {
        let mut taken: Option<Vec<char>> = None;
        core::mem::swap(&mut taken, &mut self.pending_lookup);
        taken
    }
}

} // verus!
