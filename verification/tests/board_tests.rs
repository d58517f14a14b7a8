use chart_engine::board::DrawingBoard;
use chart_engine::drawing::DragMode;

fn board_with(items: &[u32]) -> DrawingBoard<u32, Vec<u32>> {
    let mut b: DrawingBoard<u32, Vec<u32>> = DrawingBoard::new();
    for &i in items {
        b.start_drawing(i);
        let snap = b.drawings().clone();
        assert!(b.complete_drawing(snap));
    }
    b
}

#[test]
fn new_board_is_empty() {
    let b: DrawingBoard<u32, Vec<u32>> = DrawingBoard::new();
    assert!(b.drawings().is_empty());
    assert!(b.current().is_none());
    assert_eq!(b.selected(), None);
    assert_eq!(b.drag_mode(), None);
    assert_eq!(b.undo_len(), 0);
}

#[test]
fn complete_drawing_appends_and_records() {
    let mut b: DrawingBoard<u32, Vec<u32>> = DrawingBoard::new();
    assert!(!b.complete_drawing(vec![]));
    assert_eq!(b.undo_len(), 0);
    b.start_drawing(5);
    *b.current_mut().unwrap() = 6;
    assert!(b.complete_drawing(vec![]));
    assert_eq!(b.drawings(), &vec![6]);
    assert!(b.current().is_none());
    assert_eq!(b.undo_len(), 1);
}

#[test]
fn undo_returns_snapshot_and_clears_selection() {
    let mut b = board_with(&[1, 2]);
    assert!(b.select_topmost(&vec![true, false]));
    assert_eq!(b.selected(), Some(0));
    let prev = b.undo(b.drawings().clone()).unwrap();
    assert_eq!(prev, vec![1]);
    assert_eq!(b.selected(), None);
    b.set_drawings(prev);
    assert_eq!(b.drawings(), &vec![1]);
    let next = b.redo(b.drawings().clone()).unwrap();
    assert_eq!(next, vec![1, 2]);
}

#[test]
fn undo_without_history_keeps_selection() {
    let mut b: DrawingBoard<u32, Vec<u32>> = DrawingBoard::new();
    b.set_drawings(vec![3]);
    b.select_topmost(&vec![true]);
    assert_eq!(b.undo(vec![3]), None);
    assert_eq!(b.selected(), Some(0));
    assert_eq!(b.redo(vec![3]), None);
}

#[test]
fn select_topmost_picks_last_hit() {
    let mut b = board_with(&[1, 2, 3]);
    assert!(b.select_topmost(&vec![true, true, false]));
    assert_eq!(b.selected(), Some(1));
    assert_eq!(b.selected_drawing(), Some(&2));
    assert!(!b.select_topmost(&vec![false, false, false]));
    assert_eq!(b.selected(), None);
}

#[test]
fn remove_selected_then_undo_brings_it_back() {
    let mut b = board_with(&[1, 2, 3]);
    b.select_topmost(&vec![false, true, false]);
    let snap = b.drawings().clone();
    assert_eq!(b.remove_selected(snap), Some(2));
    assert_eq!(b.drawings(), &vec![1, 3]);
    assert_eq!(b.selected(), None);
    let prev = b.undo(b.drawings().clone()).unwrap();
    assert_eq!(prev, vec![1, 2, 3]);
}

#[test]
fn remove_without_selection_does_nothing() {
    let mut b = board_with(&[1]);
    let undo_before = b.undo_len();
    assert_eq!(b.remove_selected(vec![1]), None);
    assert_eq!(b.drawings(), &vec![1]);
    assert_eq!(b.undo_len(), undo_before);
}

#[test]
fn replacing_drawings_clears_a_selection_past_them() {
    let mut b = board_with(&[1, 2]);
    b.select_topmost(&vec![false, true]);
    b.begin_drag(Some(DragMode::Body), vec![1, 2]);
    b.set_drawings(vec![9]);
    assert_eq!(b.selected(), None);
    assert_eq!(b.drag_mode(), None);
    assert_eq!(b.selected_drawing(), None);
    assert_eq!(b.remove_selected(vec![9]), None);
    assert_eq!(b.drawings(), &vec![9]);
}

#[test]
fn drawing_made_before_candles_then_emptied() {
    let mut b = board_with(&[1]);
    b.select_topmost(&vec![true]);
    b.set_drawings(vec![]);
    assert_eq!(b.selected(), None);
    assert!(b.selected_drawing().is_none());
}

#[test]
fn replacing_drawings_keeps_a_selection_inside_them() {
    let mut b = board_with(&[1, 2]);
    b.select_topmost(&vec![true, false]);
    b.begin_drag(Some(DragMode::P1), vec![1, 2]);
    b.set_drawings(vec![7, 8]);
    assert_eq!(b.selected(), Some(0));
    assert_eq!(b.drag_mode(), Some(DragMode::P1));
    assert_eq!(b.selected_drawing(), Some(&7));
}

#[test]
fn drag_lifecycle() {
    let mut b = board_with(&[1]);
    b.select_topmost(&vec![true]);
    let undo_before = b.undo_len();
    assert!(!b.begin_drag(None, vec![1]));
    assert_eq!(b.undo_len(), undo_before);
    assert!(b.begin_drag(Some(DragMode::P2), vec![1]));
    assert_eq!(b.drag_mode(), Some(DragMode::P2));
    assert_eq!(b.undo_len(), undo_before + 1);
    b.end_drag();
    assert_eq!(b.drag_mode(), None);
    assert_eq!(b.selected(), Some(0));
    b.begin_drag(Some(DragMode::Body), vec![1]);
    b.deselect();
    assert_eq!(b.drag_mode(), None);
    assert_eq!(b.selected(), None);
}

#[test]
fn edit_selected_records_and_hands_out_drawing() {
    let mut b = board_with(&[1, 2]);
    assert!(b.edit_selected(vec![]).is_none());
    let undo_before = b.undo_len();
    b.select_topmost(&vec![true, false]);
    *b.edit_selected(vec![1, 2]).unwrap() = 10;
    assert_eq!(b.drawings(), &vec![10, 2]);
    assert_eq!(b.undo_len(), undo_before + 1);
    b.set_drawings(vec![]);
    assert!(b.edit_selected(vec![]).is_none());
    assert_eq!(b.undo_len(), undo_before + 1);
}

#[test]
fn drawings_can_be_changed_in_place() {
    let mut b = board_with(&[1, 2]);
    for i in 0..b.drawings().len() {
        *b.drawing_mut(i) += 100;
    }
    assert_eq!(b.drawings(), &vec![101, 102]);
}
