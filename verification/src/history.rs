//! Undo/redo history of drawing snapshots.
use vstd::prelude::*;

verus! {

/// The number of snapshots that the undo stack keeps at most.
pub const MAX_UNDO: usize = 50;

/// The abstract state of a history: two stacks, the top at the end.
pub struct HistoryView<T> {
    pub undo: Seq<T>,
    pub redo: Seq<T>,
}

/// The history after a new action is recorded: the snapshot taken before the
/// action goes on the undo stack, the oldest snapshot falls off when more than
/// `MAX_UNDO` are kept, and the redo stack is emptied.
pub open spec fn spec_record<T>(h: HistoryView<T>, snapshot: T) -> HistoryView<T> {
    let pushed = h.undo.push(snapshot);
    HistoryView {
        undo: if pushed.len() > MAX_UNDO { pushed.drop_first() } else { pushed },
        redo: Seq::empty(),
    }
}

/// One undo step with `current` the snapshot of the present drawings: the top
/// of the undo stack comes back and `current` goes on the redo stack; with an
/// empty undo stack nothing changes.
pub open spec fn spec_undo<T>(h: HistoryView<T>, current: T) -> (HistoryView<T>, Option<T>) {
    if h.undo.len() == 0 {
        (h, None)
    } else {
        (HistoryView { undo: h.undo.drop_last(), redo: h.redo.push(current) }, Some(h.undo.last()))
    }
}

/// One redo step, the mirror image of `spec_undo`.
pub open spec fn spec_redo<T>(h: HistoryView<T>, current: T) -> (HistoryView<T>, Option<T>) {
    if h.redo.len() == 0 {
        (h, None)
    } else {
        (HistoryView { undo: h.undo.push(current), redo: h.redo.drop_last() }, Some(h.redo.last()))
    }
}

/// Undo and redo stacks of snapshots (for drawings: their time-based copies).
pub struct History<T> {
    undo_stack: Vec<T>,
    redo_stack: Vec<T>,
}

impl<T> View for History<T> {
    type V = HistoryView<T>;

    closed spec fn view(&self) -> HistoryView<T> {
        HistoryView { undo: self.undo_stack@, redo: self.redo_stack@ }
    }
}

impl<T> History<T> {
    /// Both stacks together never hold more than `MAX_UNDO` snapshots.
    pub open spec fn wf(&self) -> bool {
        self@.undo.len() + self@.redo.len() <= MAX_UNDO
    }

    pub fn new() -> (r: Self)
        ensures
            r@.undo == Seq::<T>::empty(),
            r@.redo == Seq::<T>::empty(),
            r.wf(),
    {
        History { undo_stack: Vec::new(), redo_stack: Vec::new() }
    }

    /// Records the state before an action.
    pub fn save_state(&mut self, snapshot: T)
        requires
            old(self).wf(),
        ensures
            final(self)@ == spec_record(old(self)@, snapshot),
            final(self).wf(),
    {
        self.undo_stack.push(snapshot);
        self.redo_stack.clear();
        if self.undo_stack.len() > MAX_UNDO {
            self.undo_stack.remove(0);
        }
        assert(self.undo_stack@ =~= spec_record(old(self)@, snapshot).undo);
    }

    /// Steps back: returns the snapshot to restore, if there is one.
    pub fn undo(&mut self, current: T) -> (r: Option<T>)
        requires
            old(self).wf(),
        ensures
            (final(self)@, r) == spec_undo(old(self)@, current),
            final(self).wf(),
    {
        match self.undo_stack.pop() {
            Some(prev) => {
                self.redo_stack.push(current);
                Some(prev)
            },
            None => None,
        }
    }

    /// Steps forward again: returns the snapshot to restore, if there is one.
    pub fn redo(&mut self, current: T) -> (r: Option<T>)
        requires
            old(self).wf(),
        ensures
            (final(self)@, r) == spec_redo(old(self)@, current),
            final(self).wf(),
    {
        match self.redo_stack.pop() {
            Some(next) => {
                self.undo_stack.push(current);
                Some(next)
            },
            None => None,
        }
    }

    pub fn undo_len(&self) -> (r: usize)
        ensures
            r == self@.undo.len(),
    {
        self.undo_stack.len()
    }

    pub fn redo_len(&self) -> (r: usize)
        ensures
            r == self@.redo.len(),
    {
        self.redo_stack.len()
    }
}

/// Undoing right after recording gives back the recorded snapshot and puts the
/// present state on the redo stack.
pub proof fn lemma_undo_after_record<T>(h: HistoryView<T>, snapshot: T, current: T)
    ensures
        spec_undo(spec_record(h, snapshot), current).1 == Some(snapshot),
        spec_undo(spec_record(h, snapshot), current).0.redo == seq![current],
{
    let r = spec_record(h, snapshot);
    assert(r.undo.last() == snapshot);
    assert(r.redo.push(current) =~= seq![current]);
}

/// A redo right after an undo reverses it: the snapshot that the undo stored
/// comes back, and once the restored state is handed in, both stacks are as
/// they were before the undo.
pub proof fn lemma_redo_reverses_undo<T>(h: HistoryView<T>, current: T)
    requires
        h.undo.len() > 0,
    ensures
        ({
            let (h1, restored) = spec_undo(h, current);
            let (h2, back) = spec_redo(h1, restored->0);
            back == Some(current) && h2 == h
        }),
{
    let (h1, restored) = spec_undo(h, current);
    let (h2, back) = spec_redo(h1, restored->0);
    assert(h2.undo =~= h.undo);
    assert(h2.redo =~= h.redo);
}

/// An undo right after a redo reverses it in the same way.
pub proof fn lemma_undo_reverses_redo<T>(h: HistoryView<T>, current: T)
    requires
        h.redo.len() > 0,
    ensures
        ({
            let (h1, restored) = spec_redo(h, current);
            let (h2, back) = spec_undo(h1, restored->0);
            back == Some(current) && h2 == h
        }),
{
    let (h1, restored) = spec_redo(h, current);
    let (h2, back) = spec_undo(h1, restored->0);
    assert(h2.undo =~= h.undo);
    assert(h2.redo =~= h.redo);
}

/// Recording keeps the fifty most recent snapshots, the new one on top, and
/// never drops one while fewer than fifty are kept.
pub proof fn lemma_record_keeps_latest_fifty<T>(h: HistoryView<T>, snapshot: T)
    requires
        h.undo.len() <= 50,
    ensures
        spec_record(h, snapshot).undo.len() == if h.undo.len() < 50 { h.undo.len() + 1 } else { 50 },
        spec_record(h, snapshot).undo.last() == snapshot,
        h.undo.len() < 50 ==> spec_record(h, snapshot).undo == h.undo.push(snapshot),
        h.undo.len() == 50 ==> spec_record(h, snapshot).undo == h.undo.subrange(1, 50).push(snapshot),
{
    let r = spec_record(h, snapshot);
    if h.undo.len() == 50 {
        assert(r.undo =~= h.undo.subrange(1, 50).push(snapshot));
    }
}

/// Recording a new action leaves nothing to redo.
pub proof fn lemma_record_clears_redo<T>(h: HistoryView<T>, snapshot: T, current: T)
    ensures
        spec_redo(spec_record(h, snapshot), current).1 == None::<T>,
{
}

} // verus!
