//! The search-history ring: a bounded, most-recent-first, de-duplicated list
//! of past queries, with wrapping selection and load-back into the buffer.

use vstd::prelude::*;

verus! {

use crate::app::{App, AppView, FocusedPane, HistoryEntry, HistoryEntryView, Mode, HISTORY_CAP};
use crate::text::{chars_eq, clone_chars};

/// The index of the first entry whose query is `q`, or -1 when none holds it.
pub open spec fn find_query(h: Seq<HistoryEntryView>, q: Seq<char>) -> int
    decreases h.len(),
{
    if h.len() == 0 {
        -1
    } else if h[0].query == q {
        0
    } else {
        let r = find_query(h.drop_first(), q);
        if r == -1 {
            -1
        } else {
            r + 1
        }
    }
}

/// `find_query` names the first matching index, and -1 exactly when no entry
/// matches.
pub proof fn lemma_find_query(h: Seq<HistoryEntryView>, q: Seq<char>)
    ensures
        find_query(h, q) == -1 ==> forall|i: int| 0 <= i < h.len() ==> h[i].query != q,
        find_query(h, q) != -1 ==> 0 <= find_query(h, q) < h.len() && h[find_query(h, q)].query
            == q,
        find_query(h, q) != -1 ==> forall|i: int| 0 <= i < find_query(h, q) ==> h[i].query != q,
    decreases h.len(),
{
    if h.len() > 0 && h[0].query != q {
        let t = h.drop_first();
        lemma_find_query(t, q);
        let ft = find_query(t, q);
        if ft == -1 {
            assert forall|i: int| 0 <= i < h.len() implies h[i].query != q by {
                if i > 0 {
                    assert(t[i - 1] == h[i]);
                }
            }
        } else {
            assert(t[ft] == h[ft + 1]);
            assert forall|i: int| 0 <= i < find_query(h, q) implies h[i].query != q by {
                if i > 0 {
                    assert(t[i - 1] == h[i]);
                }
            }
        }
    }
}

/// Recording a query: the first entry with the same text, if any, is
/// removed; a fresh entry goes to the front; the ring is cut back to its
/// capacity, dropping the oldest.
pub open spec fn record_step(h: Seq<HistoryEntryView>, q: Seq<char>, ts: u64) -> Seq<
    HistoryEntryView,
> {
    let f = find_query(h, q);
    let h1 = if f >= 0 {
        h.remove(f)
    } else {
        h
    };
    let h2 = seq![HistoryEntryView { query: q, timestamp: ts }] + h1;
    if h2.len() > HISTORY_CAP {
        h2.take(HISTORY_CAP as int)
    } else {
        h2
    }
}

/// The history ring's own invariant: no two entries share a query, and the
/// ring never exceeds its capacity.
pub open spec fn history_wf(h: Seq<HistoryEntryView>) -> bool {
    &&& h.len() <= HISTORY_CAP
    &&& forall|i: int, j: int| 0 <= i < j < h.len() ==> h[i].query != h[j].query
}

/// Recording preserves the ring invariant, puts the recorded query at the
/// front with the given timestamp, and never leaves two entries for it.
pub proof fn lemma_record_preserves_wf(h: Seq<HistoryEntryView>, q: Seq<char>, ts: u64)
    requires
        history_wf(h),
    ensures
        history_wf(record_step(h, q, ts)),
        record_step(h, q, ts).len() > 0,
        record_step(h, q, ts)[0] == (HistoryEntryView { query: q, timestamp: ts }),
        forall|i: int| 0 < i < record_step(h, q, ts).len() ==> record_step(h, q, ts)[i].query != q,
{
    lemma_find_query(h, q);
    let f = find_query(h, q);
    let h1 = if f >= 0 {
        h.remove(f)
    } else {
        h
    };
    assert forall|i: int| 0 <= i < h1.len() implies h1[i].query != q by {
        if f >= 0 {
            if i < f {
                assert(h1[i] == h[i]);
            } else {
                assert(h1[i] == h[i + 1]);
            }
        }
    }
    let h2 = seq![HistoryEntryView { query: q, timestamp: ts }] + h1;
    assert forall|i: int, j: int| 0 <= i < j < h2.len() implies h2[i].query != h2[j].query by {
        if i > 0 {
            if f >= 0 {
                assert(h2[i] == h1[i - 1] && h2[j] == h1[j - 1]);
                if i - 1 < f {
                    assert(h1[i - 1] == h[i - 1]);
                } else {
                    assert(h1[i - 1] == h[i]);
                }
                if j - 1 < f {
                    assert(h1[j - 1] == h[j - 1]);
                } else {
                    assert(h1[j - 1] == h[j]);
                }
            }
        }
    }
}

impl App {
    /// Moves the history selection one step down, wrapping.
    pub fn select_next_history(&mut self)
        requires
            old(self)@.wf(),
        ensures
            final(self)@ == spec_select_next_history(old(self)@),
            final(self)@.wf(),
    {
        if self.search_history.len() > 0 {
            self.selected_history_index = (self.selected_history_index + 1)
                % self.search_history.len();
        }
        proof {
            assert(self@ =~= spec_select_next_history(old(self)@));
        }
    }

    /// Moves the history selection one step up, wrapping.
    pub fn select_prev_history(&mut self)
        requires
            old(self)@.wf(),
        ensures
            final(self)@ == spec_select_prev_history(old(self)@),
            final(self)@.wf(),
    {
        if self.search_history.len() > 0 {
            if self.selected_history_index == 0 {
                self.selected_history_index = self.search_history.len() - 1;
            } else {
                self.selected_history_index = self.selected_history_index - 1;
            }
        }
        proof {
            assert(self@ =~= spec_select_prev_history(old(self)@));
        }
    }

    /// Copies the selected entry's query into the buffer, moves the cursor
    /// to its end, focuses the search pane and enters Insert mode; no-op on
    /// an empty history.
    pub fn load_selected_history(&mut self)
        requires
            old(self)@.wf(),
        ensures
            final(self)@ == spec_load_selected_history(old(self)@),
            final(self)@.wf(),
    {
        if self.search_history.len() > 0 && self.selected_history_index < self.search_history.len()
        {
            let q = clone_chars(&self.search_history[self.selected_history_index].query);
            self.cursor_position = q.len();
            self.input = q;
            self.focused_pane = FocusedPane::Search;
            self.mode = Mode::Insert;
        }
        proof {
            assert(self@ =~= spec_load_selected_history(old(self)@));
        }
    }

    /// Records `query` at the given time: removes any entry with the same
    /// text, pushes a fresh entry to the front, and cuts the ring back to
    /// its capacity.
    pub fn add_to_history(&mut self, query: Vec<char>, timestamp: u64)
        requires
            old(self)@.wf(),
        ensures
            final(self)@ == (AppView {
                history: record_step(old(self)@.history, query@, timestamp),
                ..old(self)@
            }),
            final(self)@.wf(),
    {
        let ghost h = self@.history;
        let mut i: usize = 0;
        let mut found = false;
        while i < self.search_history.len()
            invariant_except_break
                0 <= i <= self.search_history.len(),
                !found,
                *self == *old(self),
                h == self@.history,
                forall|j: int| 0 <= j < i ==> h[j].query != query@,
            ensures
                *self == *old(self),
                h == self@.history,
                found ==> 0 <= i < h.len() && h[i as int].query == query@ && (forall|j: int|
                    0 <= j < i ==> h[j].query != query@),
                !found ==> forall|j: int| 0 <= j < h.len() ==> h[j].query != query@,
            decreases self.search_history.len() - i,
        {
            if chars_eq(&self.search_history[i].query, &query) {
                found = true;
                break;
            }
            i = i + 1;
        }
        proof {
            lemma_find_query(h, query@);
            if found {
                assert(find_query(h, query@) == i);
            } else {
                assert(find_query(h, query@) == -1);
            }
        }
        if found {
            self.search_history.remove(i);
        }
        self.search_history.insert(0, HistoryEntry { query, timestamp });
        if self.search_history.len() > HISTORY_CAP {
            self.search_history.truncate(HISTORY_CAP);
        }
        proof {
            assert(self@.history =~= record_step(h, query@, timestamp));
            assert(self@ =~= (AppView {
                history: record_step(old(self)@.history, query@, timestamp),
                ..old(self)@
            }));
        }
    }
}

/// Selection one step down over the current length, wrapping; no-op on an
/// empty history.
pub open spec fn spec_select_next_history(v: AppView) -> AppView {
    if v.history.len() > 0 {
        AppView { selected_history: (v.selected_history + 1) % (v.history.len() as int), ..v }
    } else {
        v
    }
}

/// Selection one step up over the current length, wrapping; no-op on an
/// empty history.
pub open spec fn spec_select_prev_history(v: AppView) -> AppView {
    if v.history.len() > 0 {
        AppView {
            selected_history: if v.selected_history == 0 {
                v.history.len() - 1
            } else {
                v.selected_history - 1
            },
            ..v
        }
    } else {
        v
    }
}

/// Loading the selected entry: its query becomes the buffer, the cursor goes
/// to the end, the search pane takes focus and Insert mode begins.
pub open spec fn spec_load_selected_history(v: AppView) -> AppView {
    if v.history.len() > 0 && v.selected_history < v.history.len() {
        let q = v.history[v.selected_history].query;
        AppView {
            input: q,
            cursor: q.len() as int,
            focus: FocusedPane::Search,
            mode: Mode::Insert,
            ..v
        }
    } else {
        v
    }
}

} // verus!
