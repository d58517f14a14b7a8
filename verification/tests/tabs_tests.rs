use chart_engine::tabs::ChartEngine;

#[test]
fn new_engine_has_one_active_tab() {
    let e: ChartEngine<u8> = ChartEngine::new(0);
    assert_eq!(e.len(), 1);
    assert_eq!(e.active_chart_id(), 1);
    let info = e.get_tabs_info();
    assert_eq!(info.len(), 1);
    assert_eq!(info[0].id, 1);
    assert_eq!(info[0].symbol, "BTCUSDT");
    assert_eq!(info[0].interval, "1d");
    assert!(info[0].is_active);
}

#[test]
fn create_tab_gives_fresh_active_ids() {
    let mut e: ChartEngine<u8> = ChartEngine::new(0);
    let a = e.create_tab("ETHUSDT".to_string(), "1h".to_string(), 5);
    assert_eq!(a, 2);
    assert_eq!(e.active_chart_id(), 2);
    assert_eq!(*e.ctx(), 5);
    let b = e.create_tab("SOLUSDT".to_string(), "15m".to_string(), 6);
    assert_eq!(b, 3);
    assert_eq!(e.len(), 3);
    let info = e.get_tabs_info();
    let ids: Vec<u32> = info.iter().map(|t| t.id).collect();
    assert_eq!(ids, vec![1, 2, 3]);
    let active: Vec<bool> = info.iter().map(|t| t.is_active).collect();
    assert_eq!(active, vec![false, false, true]);
}

#[test]
fn switch_tab_only_to_existing() {
    let mut e: ChartEngine<u8> = ChartEngine::new(0);
    e.create_tab("X".to_string(), "1m".to_string(), 1);
    assert!(e.switch_tab(1));
    assert_eq!(e.active_chart_id(), 1);
    assert!(!e.switch_tab(42));
    assert_eq!(e.active_chart_id(), 1);
}

#[test]
fn last_tab_cannot_be_closed() {
    let mut e: ChartEngine<u8> = ChartEngine::new(0);
    e.close_tab(1);
    assert_eq!(e.len(), 1);
    assert_eq!(e.active_chart_id(), 1);
}

#[test]
fn closing_active_tab_activates_first_remaining() {
    let mut e: ChartEngine<u8> = ChartEngine::new(0);
    e.create_tab("A".to_string(), "1m".to_string(), 1);
    e.create_tab("B".to_string(), "1m".to_string(), 2);
    assert_eq!(e.active_chart_id(), 3);
    e.close_tab(3);
    assert_eq!(e.len(), 2);
    assert_eq!(e.active_chart_id(), 1);
    assert!(!e.contains_key(3));
}

#[test]
fn closing_other_tab_keeps_active() {
    let mut e: ChartEngine<u8> = ChartEngine::new(0);
    e.create_tab("A".to_string(), "1m".to_string(), 1);
    e.close_tab(1);
    assert_eq!(e.active_chart_id(), 2);
    assert_eq!(e.len(), 1);
    // closing a missing tab changes nothing
    e.create_tab("B".to_string(), "1m".to_string(), 2);
    e.close_tab(77);
    assert_eq!(e.len(), 2);
}

#[test]
fn close_after_create_restores_tab_list() {
    let mut e: ChartEngine<u8> = ChartEngine::new(0);
    let before: Vec<u32> = e.get_tabs_info().iter().map(|t| t.id).collect();
    let id = e.create_tab("A".to_string(), "1m".to_string(), 1);
    e.close_tab(id);
    let after: Vec<u32> = e.get_tabs_info().iter().map(|t| t.id).collect();
    assert_eq!(before, after);
}

#[test]
fn set_tab_interval_changes_only_that_tab() {
    let mut e: ChartEngine<u8> = ChartEngine::new(0);
    e.create_tab("A".to_string(), "1m".to_string(), 1);
    e.set_tab_interval(1, "4h".to_string());
    assert_eq!(e.chart_interval(1).unwrap(), "4h");
    assert_eq!(e.chart_interval(2).unwrap(), "1m");
    e.set_tab_interval(9, "1w".to_string());
    assert!(e.chart_interval(9).is_none());
}

#[test]
fn contexts_are_reached_by_id_and_active() {
    let mut e: ChartEngine<Vec<u8>> = ChartEngine::new(vec![1]);
    e.create_tab("A".to_string(), "1m".to_string(), vec![2]);
    e.ctx_mut().push(3);
    assert_eq!(e.chart(2).unwrap(), &vec![2, 3]);
    e.chart_mut(1).unwrap().push(9);
    assert_eq!(e.chart(1).unwrap(), &vec![1, 9]);
    assert!(e.chart_mut(5).is_none());
    assert!(e.chart(5).is_none());
}
