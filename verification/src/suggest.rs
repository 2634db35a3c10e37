//! The suggestion set and the race-safe merge of asynchronous autocomplete
//! results: a result is applied only while the buffer still reads exactly as
//! it did when the lookup was dispatched.

use vstd::prelude::*;

verus! {

use crate::app::{App, AppView, Candidate, CandidateView};
use crate::text::{append_chars, chars_eq, clone_chars};

/// The least buffer length that triggers an autocomplete lookup.
pub const LOOKUP_MIN_LEN: usize = 3;

/// The dispatch decision after a buffer mutation in Insert mode: a lookup is
/// armed exactly when the buffer holds at least `LOOKUP_MIN_LEN` characters
/// and differs from the last dispatched query; the buffer content is then
/// captured verbatim as the lookup key.
pub open spec fn spec_arm_lookup(v: AppView) -> AppView {
    if v.input.len() >= LOOKUP_MIN_LEN && v.input != v.last_query {
        AppView { pending_lookup: Option::Some(v.input), last_query: v.input, ..v }
    } else {
        v
    }
}

/// Selection one step down, wrapping past the last candidate.
pub open spec fn spec_select_next_suggestion(v: AppView) -> AppView {
    if v.suggestions.len() > 0 {
        AppView { selected_suggestion: (v.selected_suggestion + 1) % (v.suggestions.len() as int), ..v }
    } else {
        v
    }
}

/// Selection one step up, wrapping past the first candidate.
pub open spec fn spec_select_prev_suggestion(v: AppView) -> AppView {
    if v.suggestions.len() > 0 {
        AppView {
            selected_suggestion: if v.selected_suggestion == 0 {
                v.suggestions.len() - 1
            } else {
                v.selected_suggestion - 1
            },
            ..v
        }
    } else {
        v
    }
}

/// The canonical buffer content for an accepted candidate: "Name, Country".
pub open spec fn canonical_text(c: CandidateView) -> Seq<char> {
    c.name + seq![',', ' '] + c.country
}

/// Accepting the selected candidate replaces the whole buffer with its
/// canonical text, moves the cursor to the end and clears the suggestion
/// set; no-op while no suggestions are shown.
pub open spec fn spec_accept_suggestion(v: AppView) -> AppView {
    if v.show_autocomplete && v.suggestions.len() > 0 {
        let t = canonical_text(v.suggestions[v.selected_suggestion]);
        AppView {
            input: t,
            cursor: t.len() as int,
            show_autocomplete: false,
            suggestions: Seq::<CandidateView>::empty(),
            ..v
        }
    } else {
        v
    }
}

/// Hides and empties the suggestion set.
pub open spec fn spec_clear_suggestions(v: AppView) -> AppView {
    AppView { show_autocomplete: false, suggestions: Seq::<CandidateView>::empty(), ..v }
}

/// Merging a lookup result keyed by `query`: applied, with the selection
/// reset and visibility following non-emptiness, only when the live buffer
/// still equals `query`; discarded otherwise.
pub open spec fn spec_apply_results(v: AppView, query: Seq<char>, results: Seq<CandidateView>) -> AppView {
    if v.input == query {
        AppView {
            suggestions: results,
            show_autocomplete: results.len() > 0,
            selected_suggestion: 0,
            ..v
        }
    } else {
        v
    }
}

/// A result keyed by a query that no longer matches the live buffer is
/// discarded without any effect on the state.
pub proof fn lemma_stale_result_discarded(v: AppView, query: Seq<char>, results: Seq<CandidateView>)
    requires
        v.input != query,
    ensures
        spec_apply_results(v, query, results) == v,
{
}

/// Merging the same result twice is the same as merging it once, so the
/// order in which superseded lookups resolve cannot matter: every lookup but
/// the one matching the live buffer is discarded, and the matching one
/// always leaves the same state.
pub proof fn lemma_apply_results_idempotent(
    v: AppView,
    query: Seq<char>,
    results: Seq<CandidateView>,
)
    ensures
        spec_apply_results(spec_apply_results(v, query, results), query, results)
            == spec_apply_results(v, query, results),
{
}

impl App {
    /// Moves the suggestion selection one step down, wrapping.
    pub fn select_next_suggestion(&mut self)
        requires
            old(self)@.wf(),
        ensures
            final(self)@ == spec_select_next_suggestion(old(self)@),
            final(self)@.wf(),
    {
        if self.autocomplete_suggestions.len() > 0 {
            self.selected_suggestion = (self.selected_suggestion + 1)
                % self.autocomplete_suggestions.len();
        }
        proof {
            assert(self@ =~= spec_select_next_suggestion(old(self)@));
        }
    }

    /// Moves the suggestion selection one step up, wrapping.
    pub fn select_prev_suggestion(&mut self)
        requires
            old(self)@.wf(),
        ensures
            final(self)@ == spec_select_prev_suggestion(old(self)@),
            final(self)@.wf(),
    {
        if self.autocomplete_suggestions.len() > 0 {
            if self.selected_suggestion == 0 {
                self.selected_suggestion = self.autocomplete_suggestions.len() - 1;
            } else {
                self.selected_suggestion = self.selected_suggestion - 1;
            }
        }
        proof {
            assert(self@ =~= spec_select_prev_suggestion(old(self)@));
        }
    }

    /// Replaces the buffer with the selected candidate's "Name, Country"
    /// text, moves the cursor to the end and clears the suggestions; no-op
    /// while no suggestions are shown.
    pub fn accept_suggestion(&mut self)
        requires
            old(self)@.wf(),
        ensures
            final(self)@ == spec_accept_suggestion(old(self)@),
            final(self)@.wf(),
    {
        if self.show_autocomplete && self.autocomplete_suggestions.len() > 0 {
            let chosen = &self.autocomplete_suggestions[self.selected_suggestion];
            let mut t = clone_chars(&chosen.name);
            t.push(',');
            t.push(' ');
            append_chars(&mut t, &chosen.country);
            proof {
                assert(t@ =~= canonical_text(old(self)@.suggestions[old(self)@.selected_suggestion]));
            }
            self.cursor_position = t.len();
            self.input = t;
            self.show_autocomplete = false;
            self.autocomplete_suggestions = Vec::new();
        }
        proof {
            assert(self@.suggestions =~= spec_accept_suggestion(old(self)@).suggestions);
            assert(self@ =~= spec_accept_suggestion(old(self)@));
        }
    }

    /// Hides and empties the suggestion set.
    pub fn clear_suggestions(&mut self)
        requires
            old(self)@.wf(),
        ensures
            final(self)@ == spec_clear_suggestions(old(self)@),
            final(self)@.wf(),
    {
        self.show_autocomplete = false;
        self.autocomplete_suggestions = Vec::new();
        proof {
            assert(self@.suggestions =~= Seq::<CandidateView>::empty());
            assert(self@ =~= spec_clear_suggestions(old(self)@));
        }
    }

    /// Arms an autocomplete lookup for the current buffer content when it is
    /// long enough and differs from the last dispatched query.
    pub fn arm_lookup(&mut self)
        requires
            old(self)@.wf(),
        ensures
            final(self)@ == spec_arm_lookup(old(self)@),
            final(self)@.wf(),
    {
        if self.input.len() >= LOOKUP_MIN_LEN && !chars_eq(&self.input, &self.last_autocomplete_query) {
            let q = clone_chars(&self.input);
            self.last_autocomplete_query = clone_chars(&self.input);
            self.pending_lookup = Some(q);
        }
        proof {
            assert(self@ =~= spec_arm_lookup(old(self)@));
        }
    }

    /// Merges an arrived lookup result keyed by the query that produced it.
    /// The result is applied only when the live buffer still equals that
    /// query; a stale result is discarded without any other effect.
    pub fn apply_suggestions(&mut self, query: &Vec<char>, results: Vec<Candidate>)
        requires
            old(self)@.wf(),
        ensures
            final(self)@ == spec_apply_results(
                old(self)@,
                query@,
                results@.map_values(|c: Candidate| c@),
            ),
            final(self)@.wf(),
    {
        if chars_eq(&self.input, query) {
            self.show_autocomplete = results.len() > 0;
            self.autocomplete_suggestions = results;
            self.selected_suggestion = 0;
        }
        proof {
            assert(self@ =~= spec_apply_results(
                old(self)@,
                query@,
                results@.map_values(|c: Candidate| c@),
            ));
        }
    }
}

} // verus!
