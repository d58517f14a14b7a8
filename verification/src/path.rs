//! Assembly of indicator paths from per-candle points: polylines with gaps,
//! and the closed outline of a band.
use vstd::prelude::*;

verus! {

/// One step of a pen path.
#[derive(Clone, Copy, Debug, PartialEq, Eq, Structural)]
pub enum PathStep<P> {
    /// Lift the pen and put it down at the point.
    MoveTo(P),
    /// Draw a line to the point.
    LineTo(P),
}

/// The point a step goes to.
pub open spec fn step_point<P>(s: PathStep<P>) -> P {
    match s {
        PathStep::MoveTo(p) => p,
        PathStep::LineTo(p) => p,
    }
}

/// The points that are present, in order.
pub open spec fn present<P>(s: Seq<Option<P>>) -> Seq<P>
    decreases s.len(),
{
    if s.len() == 0 {
        Seq::empty()
    } else {
        let before = present(s.drop_last());
        match s.last() {
            Some(p) => before.push(p),
            None => before,
        }
    }
}

/// The path through the present points: a missing point lifts the pen, so the
/// first point after a gap (or at the start) is a move and every other a line.
pub open spec fn spec_polyline<P>(s: Seq<Option<P>>) -> Seq<PathStep<P>>
    decreases s.len(),
{
    if s.len() == 0 {
        Seq::empty()
    } else {
        let before = spec_polyline(s.drop_last());
        match s.last() {
            Some(p) => if s.len() >= 2 && s[s.len() - 2] is Some {
                before.push(PathStep::LineTo(p))
            } else {
                before.push(PathStep::MoveTo(p))
            },
            None => before,
        }
    }
}

/// Builds the pen path of an indicator line from its per-candle points.
pub fn trace_polyline<P: Copy>(points: &Vec<Option<P>>) -> (r: Vec<PathStep<P>>)
    ensures
        r@ == spec_polyline(points@),
        r@.len() == present(points@).len(),
        forall|i: int|
            0 <= i < points@.len() && points@[i] is Some ==> {
                let k = present(#[trigger] points@.take(i)).len() as int;
                &&& 0 <= k < r@.len()
                &&& r@[k] == if i > 0 && points@[i - 1] is Some {
                    PathStep::LineTo(points@[i]->0)
                } else {
                    PathStep::MoveTo(points@[i]->0)
                }
            },
{
    let mut out: Vec<PathStep<P>> = Vec::new();
    let mut drawing = false;
    let mut i: usize = 0;
    while i < points.len()
        invariant
            i <= points@.len(),
            out@ == spec_polyline(points@.take(i as int)),
            drawing == (i > 0 && points@[i - 1] is Some),
        decreases points@.len() - i,
    {
        let ghost s = points@.take(i + 1);
        assert(s.drop_last() =~= points@.take(i as int));
        assert(s.last() == points@[i as int]);
        match points[i] {
            Some(p) => {
                if drawing {
                    assert(s[s.len() - 2] == points@[i - 1]);
                    out.push(PathStep::LineTo(p));
                } else {
                    out.push(PathStep::MoveTo(p));
                }
                drawing = true;
            },
            None => {
                drawing = false;
            },
        }
        i += 1;
    }
    assert(points@.take(points@.len() as int) =~= points@);
    proof {
        lemma_polyline_len(points@);
        lemma_polyline_steps(points@);
    }
    out
}

fn collect_present<P: Copy>(points: &Vec<Option<P>>) -> (r: Vec<P>)
    ensures
        r@ == present(points@),
{
    let mut out: Vec<P> = Vec::new();
    let mut i: usize = 0;
    while i < points.len()
        invariant
            i <= points@.len(),
            out@ == present(points@.take(i as int)),
        decreases points@.len() - i,
    {
        let ghost s = points@.take(i + 1);
        assert(s.drop_last() =~= points@.take(i as int));
        assert(s.last() == points@[i as int]);
        match points[i] {
            Some(p) => {
                out.push(p);
            },
            None => {},
        }
        i += 1;
    }
    assert(points@.take(points@.len() as int) =~= points@);
    out
}

/// The closed outline of a band: the present upper points from left to right,
/// then the present lower points from right to left.
pub fn band_outline<P: Copy>(upper: &Vec<Option<P>>, lower: &Vec<Option<P>>) -> (r: Vec<P>)
    ensures
        r@ == present(upper@) + present(lower@).reverse(),
{
    let mut out = collect_present(upper);
    let low = collect_present(lower);
    let ghost up = out@;
    let n = low.len();
    let mut k: usize = 0;
    while k < n
        invariant
            n == low@.len(),
            k <= n,
            out@ == up + Seq::new(k as nat, |j: int| low@[n - 1 - j]),
        decreases n - k,
    {
        out.push(low[n - 1 - k]);
        k += 1;
        assert(out@ =~= up + Seq::new(k as nat, |j: int| low@[n - 1 - j]));
    }
    assert(Seq::new(n as nat, |j: int| low@[n - 1 - j]) =~= low@.reverse());
    out
}

/// The pen path visits exactly the present points, in order.
pub proof fn lemma_polyline_visits_present_points<P>(s: Seq<Option<P>>)
    ensures
        spec_polyline(s).map_values(|st: PathStep<P>| step_point(st)) == present(s),
    decreases s.len(),
{
    if s.len() > 0 {
        lemma_polyline_visits_present_points(s.drop_last());
        assert(spec_polyline(s).map_values(|st: PathStep<P>| step_point(st)) =~= present(s));
    } else {
        assert(spec_polyline(s).map_values(|st: PathStep<P>| step_point(st)) =~= present(s));
    }
}

/// A pen path starts by putting the pen down.
pub proof fn lemma_polyline_starts_with_move<P>(s: Seq<Option<P>>)
    ensures
        spec_polyline(s).len() > 0 ==> spec_polyline(s)[0] is MoveTo,
    decreases s.len(),
{
    if s.len() > 0 {
        lemma_polyline_starts_with_move(s.drop_last());
        if spec_polyline(s.drop_last()).len() == 0 && spec_polyline(s).len() > 0 {
            lemma_polyline_empty_means_none_present(s.drop_last());
        }
    }
}

/// The path has one step per present point.
pub proof fn lemma_polyline_len<P>(s: Seq<Option<P>>)
    ensures
        spec_polyline(s).len() == present(s).len(),
    decreases s.len(),
{
    if s.len() > 0 {
        lemma_polyline_len(s.drop_last());
    }
}

/// The step for a present point `s[i]` (the step at the number of present
/// points before it) goes to that point, and draws a line exactly when the
/// point before it, `s[i - 1]`, is present; otherwise it lifts the pen.
pub proof fn lemma_polyline_steps<P>(s: Seq<Option<P>>)
    ensures
        forall|i: int|
            0 <= i < s.len() && s[i] is Some ==> {
                let k = present(#[trigger] s.take(i)).len() as int;
                &&& 0 <= k < spec_polyline(s).len()
                &&& spec_polyline(s)[k] == if i > 0 && s[i - 1] is Some {
                    PathStep::LineTo(s[i]->0)
                } else {
                    PathStep::MoveTo(s[i]->0)
                }
            },
    decreases s.len(),
{
    if s.len() > 0 {
        let t = s.drop_last();
        let n = s.len() as int;
        lemma_polyline_steps(t);
        lemma_polyline_len(t);
        assert forall|i: int|
            0 <= i < s.len() && s[i] is Some implies {
                let k = present(#[trigger] s.take(i)).len() as int;
                &&& 0 <= k < spec_polyline(s).len()
                &&& spec_polyline(s)[k] == if i > 0 && s[i - 1] is Some {
                    PathStep::LineTo(s[i]->0)
                } else {
                    PathStep::MoveTo(s[i]->0)
                }
            } by {
            if i < n - 1 {
                assert(s.take(i) =~= t.take(i));
                assert(t[i] == s[i]);
                if i > 0 {
                    assert(t[i - 1] == s[i - 1]);
                }
            } else {
                assert(s.take(i) =~= t);
            }
        }
    }
}

proof fn lemma_polyline_empty_means_none_present<P>(s: Seq<Option<P>>)
    requires
        spec_polyline(s).len() == 0,
    ensures
        forall|i: int| 0 <= i < s.len() ==> s[i] is None,
    decreases s.len(),
{
    if s.len() > 0 {
        lemma_polyline_empty_means_none_present(s.drop_last());
        assert forall|i: int| 0 <= i < s.len() implies s[i] is None by {
            if i < s.len() - 1 {
                assert(s.drop_last()[i] == s[i]);
            }
        }
    }
}

} // verus!
