use chart_engine::drawing::{drag_edit, drag_target, topmost_hit, DragEdit, DragMode, DrawingType};

#[test]
fn from_u8_maps_codes() {
    assert_eq!(DrawingType::from_u8(0), DrawingType::Segment);
    assert_eq!(DrawingType::from_u8(1), DrawingType::Line);
    assert_eq!(DrawingType::from_u8(2), DrawingType::Ray);
    assert_eq!(DrawingType::from_u8(3), DrawingType::Horizontal);
    assert_eq!(DrawingType::from_u8(4), DrawingType::Vertical);
}

#[test]
fn from_u8_unknown_code_is_segment() {
    assert_eq!(DrawingType::from_u8(5), DrawingType::Segment);
    assert_eq!(DrawingType::from_u8(255), DrawingType::Segment);
}

#[test]
fn anchors_only_on_two_point_shapes() {
    assert!(DrawingType::Segment.has_anchors());
    assert!(DrawingType::Line.has_anchors());
    assert!(DrawingType::Ray.has_anchors());
    assert!(!DrawingType::Horizontal.has_anchors());
    assert!(!DrawingType::Vertical.has_anchors());
}

#[test]
fn drag_target_prefers_anchors() {
    assert_eq!(drag_target(DrawingType::Segment, true, true, true), Some(DragMode::P1));
    assert_eq!(drag_target(DrawingType::Ray, false, true, true), Some(DragMode::P2));
    assert_eq!(drag_target(DrawingType::Line, false, false, true), Some(DragMode::Body));
    assert_eq!(drag_target(DrawingType::Line, false, false, false), None);
}

#[test]
fn drag_target_lines_without_anchors_move_whole() {
    assert_eq!(drag_target(DrawingType::Horizontal, true, true, true), Some(DragMode::Body));
    assert_eq!(drag_target(DrawingType::Vertical, true, false, false), None);
}

#[test]
fn drag_edit_by_mode_and_shape() {
    assert_eq!(drag_edit(DrawingType::Segment, DragMode::P1), DragEdit::MoveP1);
    assert_eq!(drag_edit(DrawingType::Segment, DragMode::P2), DragEdit::MoveP2);
    assert_eq!(drag_edit(DrawingType::Vertical, DragMode::P1), DragEdit::Keep);
    assert_eq!(drag_edit(DrawingType::Horizontal, DragMode::P2), DragEdit::Keep);
    assert_eq!(drag_edit(DrawingType::Horizontal, DragMode::Body), DragEdit::MoveBody);
}

#[test]
fn topmost_hit_is_last_hit() {
    assert_eq!(topmost_hit(&vec![true, false, true, false]), Some(2));
    assert_eq!(topmost_hit(&vec![true]), Some(0));
    assert_eq!(topmost_hit(&vec![false, false]), None);
    assert_eq!(topmost_hit(&vec![]), None);
}
