//! The time axis of a candle series and the integer side of the view: search
//! by time, anchor restoration, live updates and the visible window.
use vstd::prelude::*;

verus! {

/// Times in non-decreasing order.
pub open spec fn sorted(times: Seq<i64>) -> bool {
    forall|i: int, j: int| 0 <= i <= j < times.len() ==> times[i] <= times[j]
}

/// Times in strictly increasing order.
pub open spec fn strictly_increasing(times: Seq<i64>) -> bool {
    forall|i: int, j: int| 0 <= i < j < times.len() ==> times[i] < times[j]
}

/// `k` is a place where `target` could be inserted as far as its neighbours
/// tell: the time before it is smaller and the time at it is not.
pub open spec fn is_search_point(times: Seq<i64>, target: i64, k: int) -> bool {
    &&& 0 <= k <= times.len()
    &&& k > 0 ==> times[k - 1] < target
    &&& k < times.len() ==> times[k] >= target
}

/// `k` splits the times into those before `target` and the others.
pub open spec fn is_lower_bound(times: Seq<i64>, target: i64, k: int) -> bool {
    &&& 0 <= k <= times.len()
    &&& forall|i: int| 0 <= i < k ==> times[i] < target
    &&& forall|i: int| k <= i < times.len() ==> times[i] >= target
}

/// On sorted times a search point is the lower bound.
pub proof fn lemma_search_point_of_sorted(times: Seq<i64>, target: i64, k: int)
    requires
        sorted(times),
        is_search_point(times, target, k),
    ensures
        is_lower_bound(times, target, k),
{
    assert forall|i: int| 0 <= i < k implies times[i] < target by {
        assert(times[i] <= times[k - 1]);
    }
    assert forall|i: int| k <= i < times.len() implies times[i] >= target by {
        assert(times[k] <= times[i]);
    }
}

/// On any times there is at most one lower bound.
pub proof fn lemma_lower_bound_unique(times: Seq<i64>, target: i64, k1: int, k2: int)
    requires
        is_lower_bound(times, target, k1),
        is_lower_bound(times, target, k2),
    ensures
        k1 == k2,
{
    if k1 < k2 {
        assert(times[k1] >= target);
    } else if k2 < k1 {
        assert(times[k2] >= target);
    }
}

/// The index that a search result carries, found or not.
pub open spec fn result_index(r: Result<usize, usize>) -> int {
    match r {
        Ok(k) => k as int,
        Err(k) => k as int,
    }
}

/// Binary search for `target` among candle times: `Ok(k)` when the time at
/// the search point `k` is `target`, `Err(k)` otherwise. On sorted times `k`
/// is the first index whose time is not before `target`.
pub fn search_time(times: &Vec<i64>, target: i64) -> (r: Result<usize, usize>)
    ensures
        is_search_point(times@, target, result_index(r)),
        sorted(times@) ==> is_lower_bound(times@, target, result_index(r)),
        r is Ok <==> (result_index(r) < times@.len() && times@[result_index(r)] == target),
{
    let mut lo: usize = 0;
    let mut hi: usize = times.len();
    while lo < hi
        invariant
            lo <= hi <= times@.len(),
            lo > 0 ==> times@[lo - 1] < target,
            hi < times@.len() ==> times@[hi as int] >= target,
        decreases hi - lo,
    {
        let mid = lo + (hi - lo) / 2;
        if times[mid] < target {
            lo = mid + 1;
        } else {
            hi = mid;
        }
    }
    proof {
        if sorted(times@) {
            lemma_search_point_of_sorted(times@, target, lo as int);
        }
    }
    if lo < times.len() && times[lo] == target {
        Ok(lo)
    } else {
        Err(lo)
    }
}

/// The index `k` clamped to the last index of a series of `len` entries
/// (zero for an empty series).
pub open spec fn clamp_to_last(k: int, len: int) -> int {
    if k >= len {
        if len > 0 { len - 1 } else { 0 }
    } else {
        k
    }
}

/// The candle at which the view is re-anchored after the candles were
/// replaced: the one at `target` if there is one, else the one where `target`
/// would be inserted, kept within the series.
pub fn restore_index(times: &Vec<i64>, target: i64) -> (r: usize)
    ensures
        exists|k: int|
            is_search_point(times@, target, k) && (sorted(times@) ==> is_lower_bound(times@, target, k))
                && r == clamp_to_last(k, times@.len() as int),
        times@.len() > 0 ==> r < times@.len(),
        times@.len() == 0 ==> r == 0,
{
    let len = times.len();
    match search_time(times, target) {
        Ok(k) => k,
        Err(k) => {
            if k >= len {
                len.saturating_sub(1)
            } else {
                k
            }
        },
    }
}

/// The candle under the right edge of the view, from its (rounded) index: an
/// index before the series gives the first candle, one after it the last.
pub open spec fn spec_anchor_index(len: nat, right_idx: i64) -> int {
    if right_idx < 0 {
        0
    } else if right_idx >= len {
        len - 1
    } else {
        right_idx as int
    }
}

pub fn anchor_index(len: usize, right_idx: i64) -> (r: usize)
    requires
        len > 0,
    ensures
        r == spec_anchor_index(len as nat, right_idx),
        r < len,
        0 <= right_idx < len ==> r == right_idx,
        right_idx < 0 ==> r == 0,
        right_idx >= len ==> r == len - 1,
{
    if right_idx < 0 {
        0
    } else if right_idx as u64 >= len as u64 {
        len - 1
    } else {
        right_idx as usize
    }
}

/// Whether the view has to be reset after the candles were replaced: when it
/// could not be re-anchored by time and either there are no candles or its
/// first visible index lies beyond them.
pub fn needs_view_reset(restored: bool, len: usize, start_index: i64) -> (r: bool)
    ensures
        r == (!restored && (len == 0 || start_index > len)),
{
    if restored {
        false
    } else if len == 0 {
        true
    } else {
        start_index >= 0 && start_index as u64 > len as u64
    }
}

/// What a live price update does to the series.
#[derive(Clone, Copy, Debug, PartialEq, Eq, Structural)]
pub enum LiveUpdate {
    /// The update is for the last candle, which takes its values.
    ReplaceLast,
    /// The update opens a new candle at the end.
    Append,
    /// The update is older than the last candle and is dropped.
    Ignore,
}

pub open spec fn spec_live_update(last_time: Option<i64>, time: i64) -> LiveUpdate {
    match last_time {
        None => LiveUpdate::Append,
        Some(last) => if last == time {
            LiveUpdate::ReplaceLast
        } else if time > last {
            LiveUpdate::Append
        } else {
            LiveUpdate::Ignore
        },
    }
}

/// Decides what a live update at `time` does, given the time of the last
/// candle (`None` for an empty series).
pub fn live_update(last_time: Option<i64>, time: i64) -> (r: LiveUpdate)
    ensures
        r == spec_live_update(last_time, time),
        r is Append <==> (last_time is None || time > last_time->0),
        r is ReplaceLast <==> (last_time is Some && time == last_time->0),
        r is Ignore <==> (last_time is Some && time < last_time->0),
{
    match last_time {
        None => LiveUpdate::Append,
        Some(last) => {
            if last == time {
                LiveUpdate::ReplaceLast
            } else if time > last {
                LiveUpdate::Append
            } else {
                LiveUpdate::Ignore
            }
        },
    }
}

/// The candle times after a live update at `time`.
pub open spec fn apply_live_update(times: Seq<i64>, time: i64) -> Seq<i64> {
    let last = if times.len() == 0 { None } else { Some(times.last()) };
    match spec_live_update(last, time) {
        LiveUpdate::Append => times.push(time),
        _ => times,
    }
}

/// Live updates keep candle times strictly increasing, and after one the last
/// candle is at the later of its old time and the update's time.
pub proof fn lemma_live_update_keeps_order(times: Seq<i64>, time: i64)
    requires
        strictly_increasing(times),
    ensures
        strictly_increasing(apply_live_update(times, time)),
        times.len() == 0 ==> apply_live_update(times, time) == seq![time],
        times.len() > 0 ==> apply_live_update(times, time).last() == if time > times.last() {
            time
        } else {
            times.last()
        },
{
    let t2 = apply_live_update(times, time);
    if times.len() == 0 {
        assert(t2 =~= seq![time]);
    } else if time > times.last() {
        assert forall|i: int, j: int| 0 <= i < j < t2.len() implies t2[i] < t2[j] by {
            if j == times.len() {
                assert(times[i] <= times.last());
            }
        }
    }
}

/// The range of candle indices `[start, end)` that the view shows, from the
/// (floored and ceiled) indices at its edges: the start is never negative and
/// the end never past the series nor negative.
pub open spec fn spec_visible_window(start_index: isize, end_index: isize, len: usize) -> (int, int) {
    let start = if start_index < 0 { 0 } else { start_index as int };
    let capped = if end_index < len { end_index as int } else { len as int };
    let end = if capped < 0 { 0 } else { capped };
    (start, end)
}

pub fn visible_window(start_index: isize, end_index: isize, len: usize) -> (r: (usize, usize))
    requires
        len <= isize::MAX,
    ensures
        (r.0 as int, r.1 as int) == spec_visible_window(start_index, end_index, len),
        r.0 == (if start_index < 0 { 0 } else { start_index as int }),
        r.1 == (if end_index < 0 { 0 } else if end_index > len { len as int } else { end_index as int }),
        r.1 <= len,
{
    let start: usize = if start_index < 0 { 0 } else { start_index as usize };
    let capped: isize = if end_index < len as isize { end_index } else { len as isize };
    let end: usize = if capped < 0 { 0 } else { capped as usize };
    (start, end)
}

/// The window starts at the left edge's index, or at the first candle when
/// that is negative, and ends at the right edge's index, cut to the series
/// and to zero; each end depends on its own edge alone.
pub proof fn lemma_visible_window_edges(start_index: isize, end_index: isize, len: usize)
    ensures
        spec_visible_window(start_index, end_index, len).0 == if start_index < 0 {
            0
        } else {
            start_index as int
        },
        spec_visible_window(start_index, end_index, len).1 == if end_index < 0 {
            0
        } else if end_index > len {
            len as int
        } else {
            end_index as int
        },
        0 <= end_index <= len ==> spec_visible_window(start_index, end_index, len).1 == end_index,
        0 <= start_index ==> spec_visible_window(start_index, end_index, len).0 == start_index,
{
}

/// Whether a window holds candles to draw.
pub fn window_has_candles(start: usize, end: usize, len: usize) -> (r: bool)
    ensures
        r == (start < end && start < len),
        r && end <= len ==> start < end <= len,
{
    !(start >= end || start >= len)
}

/// The candle at a (rounded) index under the pointer, if there is one.
pub fn candle_at(index: isize, len: usize) -> (r: Option<usize>)
    ensures
        r == (if 0 <= index < len { Some(index as usize) } else { None::<usize> }),
{
    if index < 0 || index as usize >= len {
        None
    } else {
        Some(index as usize)
    }
}

/// The entry of an indicator of `len` values that is shown at candle `i` when
/// the indicator is shifted right by `offset` candles.
pub fn shifted_index(i: usize, offset: i32, len: usize) -> (r: Option<usize>)
    ensures
        r == (if 0 <= i - offset < len { Some((i - offset) as usize) } else { None::<usize> }),
{
    if offset >= 0 {
        let o = offset as usize;
        if i >= o && i - o < len {
            Some(i - o)
        } else {
            None
        }
    } else {
        let o: u64 = (0i64 - offset as i64) as u64;
        if (o as u128) < (len as u128) && (i as u128) < (len as u128) - (o as u128) {
            Some(i + o as usize)
        } else {
            None
        }
    }
}

} // verus!
