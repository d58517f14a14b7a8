//! Drawing tools: their kinds and the rules for selecting and dragging them.
use vstd::prelude::*;

verus! {

/// The kinds of drawing tools.
#[derive(Clone, Copy, Debug, PartialEq, Eq, Structural)]
pub enum DrawingType {
    Segment,
    Line,
    Ray,
    Horizontal,
    Vertical,
}

/// What a drag of a selected drawing moves.
#[derive(Clone, Copy, Debug, PartialEq, Eq, Structural)]
pub enum DragMode {
    /// The first anchor point.
    P1,
    /// The second anchor point.
    P2,
    /// The whole drawing, keeping its shape.
    Body,
}

/// What one drag step does to the selected drawing.
#[derive(Clone, Copy, Debug, PartialEq, Eq, Structural)]
pub enum DragEdit {
    /// Both points follow the pointer at their stored offsets.
    MoveBody,
    /// The first point goes to the pointer.
    MoveP1,
    /// The second point goes to the pointer.
    MoveP2,
    /// Nothing changes.
    Keep,
}

impl DrawingType {
    /// The tool for a numeric code; an unknown code gives a segment.
    pub open spec fn spec_from_u8(v: u8) -> DrawingType {
        if v == 1 {
            DrawingType::Line
        } else if v == 2 {
            DrawingType::Ray
        } else if v == 3 {
            DrawingType::Horizontal
        } else if v == 4 {
            DrawingType::Vertical
        } else {
            DrawingType::Segment
        }
    }

    pub fn from_u8(v: u8) -> (r: DrawingType)
        ensures
            r == Self::spec_from_u8(v),
            v == 0 ==> r is Segment,
            v == 1 ==> r is Line,
            v == 2 ==> r is Ray,
            v == 3 ==> r is Horizontal,
            v == 4 ==> r is Vertical,
            v > 4 ==> r is Segment,
    {
        match v {
            0 => DrawingType::Segment,
            1 => DrawingType::Line,
            2 => DrawingType::Ray,
            3 => DrawingType::Horizontal,
            4 => DrawingType::Vertical,
            _ => DrawingType::Segment,
        }
    }

    /// Horizontal and vertical lines have no draggable anchor points.
    pub open spec fn spec_has_anchors(self) -> bool {
        !(self is Horizontal || self is Vertical)
    }

    pub fn has_anchors(&self) -> (r: bool)
        ensures
            r == self.spec_has_anchors(),
    {
        match self {
            DrawingType::Horizontal | DrawingType::Vertical => false,
            _ => true,
        }
    }
}

/// Which part of the selected drawing a press grabs, given whether the press is
/// near its first anchor, near its second anchor, and near its body. Anchors
/// take priority over the body, the first anchor over the second, and shapes
/// without anchors can only be grabbed by the body.
pub open spec fn spec_drag_target(shape: DrawingType, near_p1: bool, near_p2: bool, near_body: bool) -> Option<DragMode> {
    if shape.spec_has_anchors() && near_p1 {
        Some(DragMode::P1)
    } else if shape.spec_has_anchors() && near_p2 {
        Some(DragMode::P2)
    } else if near_body {
        Some(DragMode::Body)
    } else {
        None
    }
}

pub fn drag_target(shape: DrawingType, near_p1: bool, near_p2: bool, near_body: bool) -> (r: Option<DragMode>)
    ensures
        r == spec_drag_target(shape, near_p1, near_p2, near_body),
        r == Some(DragMode::P1) <==> (!(shape is Horizontal || shape is Vertical) && near_p1),
        r == Some(DragMode::P2) <==> (!(shape is Horizontal || shape is Vertical) && !near_p1 && near_p2),
        r == Some(DragMode::Body) <==> (near_body && ((shape is Horizontal || shape is Vertical) || (!near_p1
            && !near_p2))),
        r is None <==> (!near_body && ((shape is Horizontal || shape is Vertical) || (!near_p1 && !near_p2))),
{
    let anchors = shape.has_anchors();
    if anchors && near_p1 {
        Some(DragMode::P1)
    } else if anchors && near_p2 {
        Some(DragMode::P2)
    } else if near_body {
        Some(DragMode::Body)
    } else {
        None
    }
}

/// What a drag step in `mode` does to a drawing of kind `shape`: a body drag
/// moves both points; an anchor drag moves that point, except on shapes
/// without anchors, which keep their points.
pub open spec fn spec_drag_edit(shape: DrawingType, mode: DragMode) -> DragEdit {
    match mode {
        DragMode::Body => DragEdit::MoveBody,
        DragMode::P1 => if shape.spec_has_anchors() { DragEdit::MoveP1 } else { DragEdit::Keep },
        DragMode::P2 => if shape.spec_has_anchors() { DragEdit::MoveP2 } else { DragEdit::Keep },
    }
}

pub fn drag_edit(shape: DrawingType, mode: DragMode) -> (r: DragEdit)
    ensures
        r == spec_drag_edit(shape, mode),
        mode is Body ==> r == DragEdit::MoveBody,
        (shape is Segment || shape is Line || shape is Ray) && mode is P1 ==> r == DragEdit::MoveP1,
        (shape is Segment || shape is Line || shape is Ray) && mode is P2 ==> r == DragEdit::MoveP2,
        (shape is Horizontal || shape is Vertical) && !(mode is Body) ==> r == DragEdit::Keep,
{
    match mode {
        DragMode::Body => DragEdit::MoveBody,
        DragMode::P1 => if shape.has_anchors() { DragEdit::MoveP1 } else { DragEdit::Keep },
        DragMode::P2 => if shape.has_anchors() { DragEdit::MoveP2 } else { DragEdit::Keep },
    }
}

/// The topmost (most recently added) drawing among those hit by a click:
/// the last index whose entry is `true`.
pub fn topmost_hit(hits: &Vec<bool>) -> (r: Option<usize>)
    ensures
        match r {
            Some(i) => i < hits@.len() && hits@[i as int] && forall|j: int|
                i < j < hits@.len() ==> !hits@[j],
            None => forall|j: int| 0 <= j < hits@.len() ==> !hits@[j],
        },
{
    let mut i: usize = hits.len();
    while i > 0
        invariant
            i <= hits@.len(),
            forall|j: int| i <= j < hits@.len() ==> !hits@[j],
        decreases i,
    {
        if hits[i - 1] {
            return Some(i - 1);
        }
        i = i - 1;
    }
    None
}

/// A drag of a horizontal or vertical line never moves one of its points on
/// its own: a press on it grabs the body or nothing, and an anchor mode, if
/// it were set, keeps the drawing unchanged.
pub proof fn lemma_lines_without_anchors_move_whole(shape: DrawingType, near_p1: bool, near_p2: bool, near_body: bool, mode: DragMode)
    requires
        shape is Horizontal || shape is Vertical,
    ensures
        spec_drag_target(shape, near_p1, near_p2, near_body) is None
            || spec_drag_target(shape, near_p1, near_p2, near_body) == Some(DragMode::Body),
        spec_drag_edit(shape, mode) is MoveBody || spec_drag_edit(shape, mode) is Keep,
{
}

/// An anchor drag of a segment, line or ray moves exactly the grabbed anchor;
/// on horizontal and vertical lines it changes nothing; a body drag moves the
/// whole drawing whatever its shape.
pub proof fn lemma_drag_edit_moves_grabbed_part(shape: DrawingType)
    ensures
        shape is Segment || shape is Line || shape is Ray ==> spec_drag_edit(shape, DragMode::P1)
            == DragEdit::MoveP1 && spec_drag_edit(shape, DragMode::P2) == DragEdit::MoveP2,
        shape is Horizontal || shape is Vertical ==> spec_drag_edit(shape, DragMode::P1) == DragEdit::Keep
            && spec_drag_edit(shape, DragMode::P2) == DragEdit::Keep,
        spec_drag_edit(shape, DragMode::Body) == DragEdit::MoveBody,
{
}

/// Whatever part a press grabs, a drag in that mode moves it: an anchor grab
/// moves that anchor and a body grab the whole drawing.
pub proof fn lemma_grabbed_part_moves(shape: DrawingType, near_p1: bool, near_p2: bool, near_body: bool)
    ensures
        spec_drag_target(shape, near_p1, near_p2, near_body) == Some(DragMode::P1) ==> spec_drag_edit(
            shape,
            DragMode::P1,
        ) == DragEdit::MoveP1,
        spec_drag_target(shape, near_p1, near_p2, near_body) == Some(DragMode::P2) ==> spec_drag_edit(
            shape,
            DragMode::P2,
        ) == DragEdit::MoveP2,
        spec_drag_target(shape, near_p1, near_p2, near_body) == Some(DragMode::Body) ==> spec_drag_edit(
            shape,
            DragMode::Body,
        ) == DragEdit::MoveBody,
        (shape is Segment || shape is Line || shape is Ray) && near_p1 ==> spec_drag_target(
            shape,
            near_p1,
            near_p2,
            near_body,
        ) == Some(DragMode::P1),
        (shape is Segment || shape is Line || shape is Ray) && !near_p1 && near_p2 ==> spec_drag_target(
            shape,
            near_p1,
            near_p2,
            near_body,
        ) == Some(DragMode::P2),
{
}

} // verus!
