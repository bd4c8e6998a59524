//! The bounded history of processed match summaries.
use vstd::prelude::*;
use crate::kills::ParticipantStats;

verus! {

/// The number of match summaries that the history keeps.
pub const HISTORY_CAPACITY: usize = 30;

/// The overview of one processed match.
#[derive(Clone, Debug)]
pub struct MatchSummary {
    pub id: String,
    pub date: String,
    pub game_mode: String,
    pub map_name: String,
    pub squad: Vec<ParticipantStats>,
}

/// What `append_if_new` did.
#[derive(Clone, Debug, PartialEq, Eq)]
pub enum AppendOutcome {
    /// The id was already held; nothing changed.
    Duplicate,
    /// The summary was appended; `evicted` is the id of the oldest summary
    /// where it had to leave to keep the capacity.
    Appended { evicted: Option<String> },
}

/// Whether some summary of `h` has the id `id`.
pub open spec fn has_id(h: Seq<MatchSummary>, id: Seq<char>) -> bool {
    exists|k: int| 0 <= k < h.len() && #[trigger] h[k].id@ == id
}

/// The history after `append_if_new(s)`.
pub open spec fn after_append(h: Seq<MatchSummary>, s: MatchSummary) -> Seq<MatchSummary> {
    if has_id(h, s.id@) {
        h
    } else if h.len() < HISTORY_CAPACITY {
        h.push(s)
    } else {
        h.push(s).drop_first()
    }
}

/// What `append_if_new(s)` reports.
pub open spec fn append_outcome(h: Seq<MatchSummary>, s: MatchSummary) -> AppendOutcome {
    if has_id(h, s.id@) {
        AppendOutcome::Duplicate
    } else if h.len() < HISTORY_CAPACITY {
        AppendOutcome::Appended { evicted: None }
    } else {
        AppendOutcome::Appended { evicted: Some(h[0].id) }
    }
}

/// An ordered history of match summaries, oldest first, never longer than
/// its capacity.
pub struct HistoryStore {
    entries: Vec<MatchSummary>,
}

impl View for HistoryStore {
    type V = Seq<MatchSummary>;

    closed spec fn view(&self) -> Seq<MatchSummary> {
        self.entries@
    }
}

impl HistoryStore {
    /// The store holds no more summaries than its capacity.
    pub open spec fn wf(&self) -> bool {
        self@.len() <= HISTORY_CAPACITY
    }

    /// An empty history.
    pub fn new() -> (r: HistoryStore)
        ensures
            r.wf(),
            r@ == Seq::<MatchSummary>::empty(),
    {
        HistoryStore { entries: Vec::new() }
    }

    /// A history read back from storage; where it holds more summaries than
    /// the capacity, only the newest are kept.
    pub fn load(entries: Vec<MatchSummary>) -> (r: HistoryStore)
        ensures
            r.wf(),
            entries@.len() <= HISTORY_CAPACITY ==> r@ == entries@,
            entries@.len() > HISTORY_CAPACITY ==> r@ == entries@.subrange(
                entries@.len() - HISTORY_CAPACITY,
                entries@.len() as int,
            ),
    {
        let mut entries = entries;
        if entries.len() > HISTORY_CAPACITY {
            let at = entries.len() - HISTORY_CAPACITY;
            let newest = entries.split_off(at);
            HistoryStore { entries: newest }
        } else {
            HistoryStore { entries }
        }
    }

    /// The summaries, oldest first.
    pub fn entries(&self) -> (r: &Vec<MatchSummary>)
        ensures
            r@ == self@,
    {
        &self.entries
    }

    /// The number of summaries held.
    pub fn len(&self) -> (r: usize)
        ensures
            r == self@.len(),
    {
        self.entries.len()
    }

    /// Whether a summary with this id is held.
    pub fn contains(&self, id: &String) -> (r: bool)
        ensures
            r == has_id(self@, id@),
    {
        let mut i: usize = 0;
        while i < self.entries.len()
            invariant
                i <= self@.len(),
                forall|k: int| 0 <= k < i ==> #[trigger] self@[k].id@ != id@,
            decreases self@.len() - i,
        {
            if self.entries[i].id == *id {
                return true;
            }
            i = i + 1;
        }
        false
    }

    /// Appends `s` unless its id is already held. Where the history then
    /// exceeds its capacity, the oldest summary leaves and its id is reported
    /// for invalidation.
    pub fn append_if_new(&mut self, s: MatchSummary) -> (r: AppendOutcome)
        requires
            old(self).wf(),
        ensures
            final(self).wf(),
            final(self)@ == after_append(old(self)@, s),
            r == append_outcome(old(self)@, s),
    {
        if self.contains(&s.id) {
            return AppendOutcome::Duplicate;
        }
        let ghost h = self@;
        self.entries.push(s);
        if self.entries.len() > HISTORY_CAPACITY {
            let removed = self.entries.remove(0);
            assert(self@ =~= h.push(s).drop_first());
            AppendOutcome::Appended { evicted: Some(removed.id) }
        } else {
            AppendOutcome::Appended { evicted: None }
        }
    }
}

/// Appending a summary a second time, or another with the same id, changes
/// nothing more; the history never exceeds its capacity; and appending to a
/// full history evicts exactly its oldest summary, whose id is reported.
pub proof fn lemma_append_once(h: Seq<MatchSummary>, s: MatchSummary, t: MatchSummary)
    requires
        h.len() <= HISTORY_CAPACITY,
        t.id@ == s.id@,
    ensures
        after_append(after_append(h, s), t) == after_append(h, s),
        append_outcome(after_append(h, s), t) == AppendOutcome::Duplicate,
        after_append(h, s).len() <= HISTORY_CAPACITY,
        !has_id(h, s.id@) && h.len() == HISTORY_CAPACITY ==> append_outcome(h, s)
            == (AppendOutcome::Appended { evicted: Some(h[0].id) }) && after_append(h, s)
            == h.drop_first().push(s),
{
    let a = after_append(h, s);
    if has_id(h, s.id@) {
    } else {
        let p = h.push(s);
        assert(p[h.len() as int].id@ == s.id@);
        if h.len() < HISTORY_CAPACITY {
            assert(a[h.len() as int].id@ == t.id@);
        } else {
            assert(a[h.len() - 1].id@ == t.id@);
            assert(h.push(s).drop_first() =~= h.drop_first().push(s));
        }
    }
}

} // verus!
