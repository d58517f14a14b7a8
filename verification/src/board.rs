//! The drawings of one chart with the drawing in progress, the selection, the
//! drag in progress and the undo/redo history of snapshots `S` of the drawings.
use vstd::prelude::*;
use crate::drawing::{topmost_hit, DragMode};
use crate::history::{spec_record, spec_redo, spec_undo, History, HistoryView, MAX_UNDO};

verus! {

/// The abstract state of a board.
pub struct BoardView<D, S> {
    pub drawings: Seq<D>,
    pub current: Option<D>,
    pub selected: Option<usize>,
    pub drag: Option<DragMode>,
    pub history: HistoryView<S>,
}

/// A selection that points at one of the drawings, or none.
pub open spec fn selection_valid<D, S>(v: BoardView<D, S>) -> bool {
    v.selected is None || v.selected->0 < v.drawings.len()
}

/// The selection and drag that remain once the drawings are replaced by
/// `drawings`: kept while the selection still points at a drawing, else
/// both cleared.
pub open spec fn spec_replace_drawings<D, S>(v: BoardView<D, S>, drawings: Seq<D>) -> BoardView<D, S> {
    if v.selected is Some && v.selected->0 >= drawings.len() {
        BoardView { drawings: drawings, selected: None, drag: None, ..v }
    } else {
        BoardView { drawings: drawings, ..v }
    }
}

pub struct DrawingBoard<D, S> {
    drawings: Vec<D>,
    current: Option<D>,
    selected: Option<usize>,
    drag: Option<DragMode>,
    history: History<S>,
}

impl<D, S> View for DrawingBoard<D, S> {
    type V = BoardView<D, S>;

    closed spec fn view(&self) -> BoardView<D, S> {
        BoardView {
            drawings: self.drawings@,
            current: self.current,
            selected: self.selected,
            drag: self.drag,
            history: self.history@,
        }
    }
}

impl<D, S> DrawingBoard<D, S> {
    /// The selection points at one of the drawings (or there is none), and the
    /// history is within its bound.
    pub open spec fn wf(&self) -> bool {
        &&& selection_valid(self@)
        &&& self@.history.undo.len() + self@.history.redo.len() <= MAX_UNDO
    }

    pub fn new() -> (r: Self)
        ensures
            r.wf(),
            r@.drawings == Seq::<D>::empty(),
            r@.current is None,
            r@.selected is None,
            r@.drag is None,
            r@.history.undo == Seq::<S>::empty(),
            r@.history.redo == Seq::<S>::empty(),
    {
        DrawingBoard {
            drawings: Vec::new(),
            current: None,
            selected: None,
            drag: None,
            history: History::new(),
        }
    }

    pub fn drawings(&self) -> (r: &Vec<D>)
        ensures
            r@ == self@.drawings,
    {
        &self.drawings
    }

    /// Drawing `i`, for changing its points or properties in place.
    pub fn drawing_mut(&mut self, i: usize) -> (r: &mut D)
        requires
            old(self).wf(),
            i < old(self)@.drawings.len(),
        ensures
            *r == old(self)@.drawings[i as int],
            final(self)@ == (BoardView { drawings: old(self)@.drawings.update(i as int, *final(r)), ..old(self)@ }),
            final(self).wf(),
    {
        &mut self.drawings[i]
    }

    /// Replaces the drawings (after they were rebuilt for new candles or from
    /// a snapshot). A selection that no longer points at a drawing is
    /// cleared together with the drag.
    pub fn set_drawings(&mut self, drawings: Vec<D>)
        requires
            old(self).wf(),
        ensures
            final(self)@ == spec_replace_drawings(old(self)@, drawings@),
            final(self).wf(),
    {
        let n = drawings.len();
        self.drawings = drawings;
        match self.selected {
            Some(i) => {
                if i >= n {
                    self.selected = None;
                    self.drag = None;
                }
            },
            None => {},
        }
    }

    pub fn current(&self) -> (r: Option<&D>)
        ensures
            r is Some <==> self@.current is Some,
            r is Some ==> *r->0 == self@.current->0,
    {
        match &self.current {
            Some(d) => Some(d),
            None => None,
        }
    }

    /// The drawing in progress, for moving its second point.
    pub fn current_mut(&mut self) -> (r: Option<&mut D>)
        requires
            old(self).wf(),
        ensures
            r is Some <==> old(self)@.current is Some,
            r is Some ==> *r->0 == old(self)@.current->0 && final(self)@ == (BoardView {
                current: Some(*final(r->0)),
                ..old(self)@
            }),
            r is None ==> final(self)@ == old(self)@,
            final(self).wf(),
    {
        match &mut self.current {
            Some(d) => Some(d),
            None => None,
        }
    }

    pub fn selected(&self) -> (r: Option<usize>)
        requires
            self.wf(),
        ensures
            r == self@.selected,
            r is Some ==> r->0 < self@.drawings.len(),
    {
        self.selected
    }

    pub fn drag_mode(&self) -> (r: Option<DragMode>)
        ensures
            r == self@.drag,
    {
        self.drag
    }

    /// The selected drawing, if there is a selection.
    pub fn selected_drawing(&self) -> (r: Option<&D>)
        requires
            self.wf(),
        ensures
            match self@.selected {
                Some(i) => r is Some && *r->0 == self@.drawings[i as int],
                None => r is None,
            },
    {
        match self.selected {
            Some(i) => Some(&self.drawings[i]),
            None => None,
        }
    }

    /// Starts a new drawing.
    pub fn start_drawing(&mut self, d: D)
        requires
            old(self).wf(),
        ensures
            final(self)@ == (BoardView { current: Some(d), ..old(self)@ }),
            final(self).wf(),
    {
        self.current = Some(d);
    }

    /// Records the state before an action; `snapshot` is the present drawings.
    pub fn save_state(&mut self, snapshot: S)
        requires
            old(self).wf(),
        ensures
            final(self).wf(),
            final(self)@ == (BoardView { history: spec_record(old(self)@.history, snapshot), ..old(self)@ }),
    {
        self.history.save_state(snapshot);
    }

    /// Finishes the drawing in progress, if there is one: the state before is
    /// recorded and the drawing joins the others. Returns whether there was one.
    pub fn complete_drawing(&mut self, snapshot: S) -> (r: bool)
        requires
            old(self).wf(),
        ensures
            final(self).wf(),
            r == old(self)@.current is Some,
            !r ==> final(self)@ == old(self)@,
            r ==> final(self)@ == (BoardView {
                drawings: old(self)@.drawings.push(old(self)@.current->0),
                current: None,
                history: spec_record(old(self)@.history, snapshot),
                ..old(self)@
            }),
    {
        match self.current.take() {
            Some(d) => {
                self.history.save_state(snapshot);
                self.drawings.push(d);
                true
            },
            None => false,
        }
    }

    /// One undo step; `current` is the snapshot of the present drawings. On
    /// success the selection is cleared and the snapshot to restore is returned
    /// (the caller rebuilds the drawings from it with `set_drawings`).
    pub fn undo(&mut self, current: S) -> (r: Option<S>)
        requires
            old(self).wf(),
        ensures
            final(self).wf(),
            r == spec_undo(old(self)@.history, current).1,
            final(self)@ == (BoardView {
                history: spec_undo(old(self)@.history, current).0,
                selected: if r is Some { None } else { old(self)@.selected },
                ..old(self)@
            }),
    {
        let r = self.history.undo(current);
        if r.is_some() {
            self.selected = None;
        }
        r
    }

    /// One redo step, the mirror image of `undo`.
    pub fn redo(&mut self, current: S) -> (r: Option<S>)
        requires
            old(self).wf(),
        ensures
            final(self).wf(),
            r == spec_redo(old(self)@.history, current).1,
            final(self)@ == (BoardView {
                history: spec_redo(old(self)@.history, current).0,
                selected: if r is Some { None } else { old(self)@.selected },
                ..old(self)@
            }),
    {
        let r = self.history.redo(current);
        if r.is_some() {
            self.selected = None;
        }
        r
    }

    /// Selects the topmost drawing that a click hit (`hits[i]` tells whether
    /// drawing `i` was hit), or nothing; returns whether one was hit.
    pub fn select_topmost(&mut self, hits: &Vec<bool>) -> (r: bool)
        requires
            old(self).wf(),
            hits@.len() == old(self)@.drawings.len(),
        ensures
            final(self).wf(),
            final(self)@.drawings == old(self)@.drawings,
            final(self)@.current == old(self)@.current,
            final(self)@.drag == old(self)@.drag,
            final(self)@.history == old(self)@.history,
            r == final(self)@.selected is Some,
            match final(self)@.selected {
                Some(i) => i < hits@.len() && hits@[i as int] && forall|j: int|
                    i < j < hits@.len() ==> !hits@[j],
                None => forall|j: int| 0 <= j < hits@.len() ==> !hits@[j],
            },
    {
        self.selected = topmost_hit(hits);
        self.selected.is_some()
    }

    /// Clears the selection and any drag.
    pub fn deselect(&mut self)
        requires
            old(self).wf(),
        ensures
            final(self)@ == (BoardView { selected: None, drag: None, ..old(self)@ }),
            final(self).wf(),
    {
        self.selected = None;
        self.drag = None;
    }

    /// Starts a drag of the selected drawing in the mode that the press grabbed
    /// (see `drag_target`), recording the state before it. Returns whether a
    /// drag started.
    pub fn begin_drag(&mut self, target: Option<DragMode>, snapshot: S) -> (r: bool)
        requires
            old(self).wf(),
        ensures
            final(self).wf(),
            r == target is Some,
            !r ==> final(self)@ == old(self)@,
            r ==> final(self)@ == (BoardView {
                drag: target,
                history: spec_record(old(self)@.history, snapshot),
                ..old(self)@
            }),
    {
        match target {
            Some(m) => {
                self.history.save_state(snapshot);
                self.drag = Some(m);
                true
            },
            None => false,
        }
    }

    /// Ends the drag in progress.
    pub fn end_drag(&mut self)
        requires
            old(self).wf(),
        ensures
            final(self)@ == (BoardView { drag: None, ..old(self)@ }),
            final(self).wf(),
    {
        self.drag = None;
    }

    /// Deletes the selected drawing, if there is one, after recording the
    /// state before; clears the selection and drag then.
    pub fn remove_selected(&mut self, snapshot: S) -> (r: Option<D>)
        requires
            old(self).wf(),
        ensures
            final(self).wf(),
            match old(self)@.selected {
                Some(i) => r == Some(old(self)@.drawings[i as int]) && final(self)@ == (BoardView {
                    drawings: old(self)@.drawings.remove(i as int),
                    selected: None,
                    drag: None,
                    history: spec_record(old(self)@.history, snapshot),
                    ..old(self)@
                }),
                None => r is None && final(self)@ == old(self)@,
            },
    {
        match self.selected {
            Some(i) => {
                self.history.save_state(snapshot);
                let d = self.drawings.remove(i);
                self.selected = None;
                self.drag = None;
                Some(d)
            },
            None => None,
        }
    }

    /// Begins an edit of the selected drawing's properties: when there is a
    /// selection the state before is recorded and the drawing is handed out.
    pub fn edit_selected(&mut self, snapshot: S) -> (r: Option<&mut D>)
        requires
            old(self).wf(),
        ensures
            final(self).wf(),
            old(self)@.selected is None ==> r is None && final(self)@ == old(self)@,
            old(self)@.selected is Some ==> {
                let i = old(self)@.selected->0 as int;
                &&& r is Some
                &&& *r->0 == old(self)@.drawings[i]
                &&& final(self)@ == (BoardView {
                    drawings: old(self)@.drawings.update(i, *final(r->0)),
                    history: spec_record(old(self)@.history, snapshot),
                    ..old(self)@
                })
            },
    {
        match self.selected {
            Some(i) => {
                self.history.save_state(snapshot);
                Some(&mut self.drawings[i])
            },
            None => None,
        }
    }

    pub fn undo_len(&self) -> (r: usize)
        ensures
            r == self@.history.undo.len(),
    {
        self.history.undo_len()
    }

    pub fn redo_len(&self) -> (r: usize)
        ensures
            r == self@.history.redo.len(),
    {
        self.history.redo_len()
    }
}

/// Replacing the drawings never leaves the selection pointing past them, and
/// keeps it where it still points at a drawing.
pub proof fn lemma_replace_keeps_selection_valid<D, S>(v: BoardView<D, S>, drawings: Seq<D>)
    ensures
        selection_valid(spec_replace_drawings(v, drawings)),
        v.selected is Some && v.selected->0 < drawings.len() ==> spec_replace_drawings(v, drawings).selected
            == v.selected,
{
}

} // verus!
