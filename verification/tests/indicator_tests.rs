use chart_engine::indicator::{
    band_ids_to_add, bb_needs_recalc, choose_ma_color, find_id, ma_needs_recalc, MaSource, MaType,
};
use chart_engine::interval::{interval_to_ms, same_text};

#[test]
fn interval_lengths() {
    assert_eq!(interval_to_ms("1s"), 1000);
    assert_eq!(interval_to_ms("1m"), 60_000);
    assert_eq!(interval_to_ms("3m"), 180_000);
    assert_eq!(interval_to_ms("5m"), 300_000);
    assert_eq!(interval_to_ms("15m"), 900_000);
    assert_eq!(interval_to_ms("30m"), 1_800_000);
    assert_eq!(interval_to_ms("1h"), 3_600_000);
    assert_eq!(interval_to_ms("2h"), 7_200_000);
    assert_eq!(interval_to_ms("4h"), 14_400_000);
    assert_eq!(interval_to_ms("6h"), 21_600_000);
    assert_eq!(interval_to_ms("8h"), 28_800_000);
    assert_eq!(interval_to_ms("12h"), 43_200_000);
    assert_eq!(interval_to_ms("1d"), 86_400_000);
    assert_eq!(interval_to_ms("3d"), 259_200_000);
    assert_eq!(interval_to_ms("1w"), 604_800_000);
    assert_eq!(interval_to_ms("1M"), 2_592_000_000);
}

#[test]
fn unknown_interval_is_one_minute() {
    assert_eq!(interval_to_ms(""), 60_000);
    assert_eq!(interval_to_ms("1H"), 60_000);
    assert_eq!(interval_to_ms("2d"), 60_000);
}

#[test]
fn same_text_compares_characters() {
    assert!(same_text("abc", "abc"));
    assert!(!same_text("abc", "abd"));
    assert!(!same_text("ab", "abc"));
    assert!(same_text("", ""));
}

#[test]
fn method_parsing() {
    assert_eq!(MaType::from_method("EMA"), MaType::EMA);
    assert_eq!(MaType::from_method("ema"), MaType::EMA);
    assert_eq!(MaType::from_method("Ema"), MaType::SMA);
    assert_eq!(MaType::from_method("SMA"), MaType::SMA);
    assert_eq!(MaType::from_method(""), MaType::SMA);
}

#[test]
fn source_parsing() {
    assert_eq!(MaSource::from_name("Open"), MaSource::Open);
    assert_eq!(MaSource::from_name("open"), MaSource::Open);
    assert_eq!(MaSource::from_name("high"), MaSource::High);
    assert_eq!(MaSource::from_name("Low"), MaSource::Low);
    assert_eq!(MaSource::from_name("hl2"), MaSource::HL2);
    assert_eq!(MaSource::from_name("HLC3"), MaSource::HLC3);
    assert_eq!(MaSource::from_name("Close"), MaSource::Close);
    assert_eq!(MaSource::from_name("OPEN"), MaSource::Close);
}

#[test]
fn first_ma_gets_orange() {
    assert_eq!(choose_ma_color(&vec![]), "#FFA500");
}

#[test]
fn ma_color_skips_used_colors() {
    let used = vec!["#FFA500".to_string(), "#FF00FF".to_string()];
    assert_eq!(choose_ma_color(&used), "#00FF00");
    let used = vec!["#00FF00".to_string(), "#FFA500".to_string(), "#123456".to_string()];
    assert_eq!(choose_ma_color(&used), "#FF00FF");
}

#[test]
fn ma_color_cycles_when_palette_exhausted() {
    let palette = ["#FFA500", "#00FF00", "#FF00FF", "#00FFFF", "#FFFF00", "#FF0000", "#0000FF", "#FFFFFF"];
    let mut used: Vec<String> = palette.iter().map(|s| s.to_string()).collect();
    assert_eq!(choose_ma_color(&used), "#FFA500");
    used.push("#FFFFFF".to_string());
    assert_eq!(choose_ma_color(&used), "#00FF00");
}

#[test]
fn recalc_rules() {
    assert!(!ma_needs_recalc(20, 20, "close", "close", "SMA", "SMA"));
    assert!(ma_needs_recalc(20, 21, "close", "close", "SMA", "SMA"));
    assert!(ma_needs_recalc(20, 20, "close", "open", "SMA", "SMA"));
    assert!(ma_needs_recalc(20, 20, "close", "close", "SMA", "EMA"));
    assert!(!bb_needs_recalc(20, 20, "Close", "Close", false));
    assert!(bb_needs_recalc(20, 20, "Close", "Close", true));
    assert!(bb_needs_recalc(20, 10, "Close", "Close", false));
    assert!(bb_needs_recalc(20, 20, "Close", "High", false));
}

#[test]
fn find_id_first_position() {
    assert_eq!(find_id(&vec![4, 7, 9], 7), Some(1));
    assert_eq!(find_id(&vec![4, 7, 7], 7), Some(1));
    assert_eq!(find_id(&vec![4, 7, 9], 5), None);
    assert_eq!(find_id(&vec![], 1), None);
}

#[test]
fn band_ids_grow_list_to_index() {
    assert_eq!(band_ids_to_add(1, 0, 2), (vec![], 2));
    assert_eq!(band_ids_to_add(1, 1, 2), (vec![2], 3));
    assert_eq!(band_ids_to_add(1, 3, 2), (vec![2, 3, 4], 5));
    assert_eq!(band_ids_to_add(0, 0, 1), (vec![1], 2));
}
