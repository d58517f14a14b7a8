//! Bar intervals and text comparison.
use vstd::prelude::*;

verus! {

/// Whether two texts are equal, character for character.
pub fn same_text(a: &str, b: &str) -> (r: bool)
    ensures
        r == (a@ == b@),
{
    let x: String = a.to_owned();
    let y: String = b.to_owned();
    x == y
}

/// The length in milliseconds of one bar of an interval such as `"15m"` or
/// `"1d"`; an unknown interval counts as one minute.
pub open spec fn spec_interval_to_ms(interval: Seq<char>) -> u64 {
    if interval == "1s"@ {
        1000
    } else if interval == "1m"@ {
        60_000
    } else if interval == "3m"@ {
        180_000
    } else if interval == "5m"@ {
        300_000
    } else if interval == "15m"@ {
        900_000
    } else if interval == "30m"@ {
        1_800_000
    } else if interval == "1h"@ {
        3_600_000
    } else if interval == "2h"@ {
        7_200_000
    } else if interval == "4h"@ {
        14_400_000
    } else if interval == "6h"@ {
        21_600_000
    } else if interval == "8h"@ {
        28_800_000
    } else if interval == "12h"@ {
        43_200_000
    } else if interval == "1d"@ {
        86_400_000
    } else if interval == "3d"@ {
        259_200_000
    } else if interval == "1w"@ {
        604_800_000
    } else if interval == "1M"@ {
        2_592_000_000
    } else {
        60_000
    }
}

pub fn interval_to_ms(interval: &str) -> (r: u64)
    ensures
        r == spec_interval_to_ms(interval@),
        r > 0,
        interval@ == "1s"@ ==> r == 1000,
        interval@ == "1m"@ ==> r == 60 * 1000,
        interval@ == "1h"@ ==> r == 60 * 60 * 1000,
        interval@ == "1d"@ ==> r == 24 * 60 * 60 * 1000,
{
    proof {
        lemma_interval_lengths();
    }
    if same_text(interval, "1s") {
        1000
    } else if same_text(interval, "1m") {
        60_000
    } else if same_text(interval, "3m") {
        180_000
    } else if same_text(interval, "5m") {
        300_000
    } else if same_text(interval, "15m") {
        900_000
    } else if same_text(interval, "30m") {
        1_800_000
    } else if same_text(interval, "1h") {
        3_600_000
    } else if same_text(interval, "2h") {
        7_200_000
    } else if same_text(interval, "4h") {
        14_400_000
    } else if same_text(interval, "6h") {
        21_600_000
    } else if same_text(interval, "8h") {
        28_800_000
    } else if same_text(interval, "12h") {
        43_200_000
    } else if same_text(interval, "1d") {
        86_400_000
    } else if same_text(interval, "3d") {
        259_200_000
    } else if same_text(interval, "1w") {
        604_800_000
    } else if same_text(interval, "1M") {
        2_592_000_000
    } else {
        60_000
    }
}

/// Every interval is a whole number of its unit: seconds, minutes, hours,
/// days, weeks (seven days) or months (thirty days), one second being a
/// thousand milliseconds.
pub proof fn lemma_interval_lengths()
    ensures
        spec_interval_to_ms("1s"@) == 1000,
        spec_interval_to_ms("1m"@) == 60 * spec_interval_to_ms("1s"@),
        spec_interval_to_ms("3m"@) == 3 * spec_interval_to_ms("1m"@),
        spec_interval_to_ms("5m"@) == 5 * spec_interval_to_ms("1m"@),
        spec_interval_to_ms("15m"@) == 15 * spec_interval_to_ms("1m"@),
        spec_interval_to_ms("30m"@) == 30 * spec_interval_to_ms("1m"@),
        spec_interval_to_ms("1h"@) == 60 * spec_interval_to_ms("1m"@),
        spec_interval_to_ms("2h"@) == 2 * spec_interval_to_ms("1h"@),
        spec_interval_to_ms("4h"@) == 4 * spec_interval_to_ms("1h"@),
        spec_interval_to_ms("6h"@) == 6 * spec_interval_to_ms("1h"@),
        spec_interval_to_ms("8h"@) == 8 * spec_interval_to_ms("1h"@),
        spec_interval_to_ms("12h"@) == 12 * spec_interval_to_ms("1h"@),
        spec_interval_to_ms("1d"@) == 24 * spec_interval_to_ms("1h"@),
        spec_interval_to_ms("3d"@) == 3 * spec_interval_to_ms("1d"@),
        spec_interval_to_ms("1w"@) == 7 * spec_interval_to_ms("1d"@),
        spec_interval_to_ms("1M"@) == 30 * spec_interval_to_ms("1d"@),
{
    reveal_strlit("1s");
    reveal_strlit("1m");
    reveal_strlit("3m");
    reveal_strlit("5m");
    reveal_strlit("15m");
    reveal_strlit("30m");
    reveal_strlit("1h");
    reveal_strlit("2h");
    reveal_strlit("4h");
    reveal_strlit("6h");
    reveal_strlit("8h");
    reveal_strlit("12h");
    reveal_strlit("1d");
    reveal_strlit("3d");
    reveal_strlit("1w");
    reveal_strlit("1M");
    assert("1s"@.len() == 2 && "1m"@.len() == 2 && "3m"@.len() == 2 && "5m"@.len() == 2);
    assert("15m"@.len() == 3 && "30m"@.len() == 3 && "12h"@.len() == 3);
    assert("1h"@.len() == 2 && "2h"@.len() == 2 && "4h"@.len() == 2 && "6h"@.len() == 2 && "8h"@.len() == 2);
    assert("1d"@.len() == 2 && "3d"@.len() == 2 && "1w"@.len() == 2 && "1M"@.len() == 2);
    assert("1s"@[1] == 's' && "1m"@[1] == 'm' && "1h"@[1] == 'h' && "1d"@[1] == 'd' && "1w"@[1] == 'w'
        && "1M"@[1] == 'M');
    assert("3m"@[0] == '3' && "5m"@[0] == '5' && "2h"@[0] == '2' && "4h"@[0] == '4' && "6h"@[0] == '6'
        && "8h"@[0] == '8' && "3d"@[0] == '3' && "1s"@[0] == '1' && "1m"@[0] == '1' && "1h"@[0] == '1');
    assert("3m"@[1] == 'm' && "5m"@[1] == 'm' && "2h"@[1] == 'h' && "4h"@[1] == 'h' && "6h"@[1] == 'h'
        && "8h"@[1] == 'h' && "3d"@[1] == 'd' && "1d"@[0] == '1' && "1w"@[0] == '1' && "1M"@[0] == '1');
    assert("15m"@[0] == '1' && "15m"@[1] == '5' && "30m"@[0] == '3' && "12h"@[0] == '1' && "12h"@[1] == '2');
}

} // verus!
