use chart_engine::path::{band_outline, trace_polyline, PathStep};

#[test]
fn polyline_breaks_at_gaps() {
    let pts = vec![None, Some(1), Some(2), None, Some(3), Some(4), Some(5)];
    assert_eq!(
        trace_polyline(&pts),
        vec![
            PathStep::MoveTo(1),
            PathStep::LineTo(2),
            PathStep::MoveTo(3),
            PathStep::LineTo(4),
            PathStep::LineTo(5),
        ]
    );
}

#[test]
fn polyline_empty_and_all_missing() {
    let empty: Vec<Option<u8>> = vec![];
    assert!(trace_polyline(&empty).is_empty());
    assert!(trace_polyline(&vec![None::<u8>, None]).is_empty());
    assert_eq!(trace_polyline(&vec![Some(7)]), vec![PathStep::MoveTo(7)]);
}

#[test]
fn band_outline_goes_round() {
    let upper = vec![Some(1), None, Some(3)];
    let lower = vec![Some(10), Some(20), None, Some(40)];
    assert_eq!(band_outline(&upper, &lower), vec![1, 3, 40, 20, 10]);
}

#[test]
fn band_outline_empty() {
    let none: Vec<Option<u8>> = vec![None, None];
    assert!(band_outline(&none, &none).is_empty());
}
