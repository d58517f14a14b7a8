//! The chart tabs of the engine: each tab has an identifier, a symbol, an
//! interval and a context `C` with its view, data and drawings; one tab is
//! active at any time.
use vstd::prelude::*;

verus! {

/// The abstract contents of one tab.
pub struct ChartView<C> {
    pub id: u32,
    pub symbol: Seq<char>,
    pub interval: Seq<char>,
    pub ctx: C,
}

/// One tab.
pub struct Chart<C> {
    id: u32,
    symbol: String,
    interval: String,
    ctx: C,
}

impl<C> Chart<C> {
    pub closed spec fn model(self) -> ChartView<C> {
        ChartView { id: self.id, symbol: self.symbol@, interval: self.interval@, ctx: self.ctx }
    }
}

/// What the tab list shows of one tab.
#[derive(Debug)]
pub struct TabInfo {
    pub id: u32,
    pub symbol: String,
    pub interval: String,
    pub is_active: bool,
}

/// The tabs, kept in the order of their identifiers, the active one, and
/// the identifier that the next new tab gets.
pub struct ChartEngine<C> {
    charts: Vec<Chart<C>>,
    active_chart_id: u32,
    next_chart_id: u32,
}

/// The position of the tab with identifier `id`.
pub open spec fn chart_index<C>(charts: Seq<ChartView<C>>, id: u32) -> int {
    choose|i: int| 0 <= i < charts.len() && charts[i].id == id
}

/// Whether some tab has identifier `id`.
pub open spec fn has_id<C>(charts: Seq<ChartView<C>>, id: u32) -> bool {
    exists|i: int| 0 <= i < charts.len() && charts[i].id == id
}

/// Identifiers strictly increase along the tabs.
pub open spec fn ids_increasing<C>(charts: Seq<ChartView<C>>) -> bool {
    forall|i: int, j: int| 0 <= i < j < charts.len() ==> charts[i].id < charts[j].id
}

/// The tab `charts[i]` with a new context.
pub open spec fn with_ctx<C>(v: ChartView<C>, ctx: C) -> ChartView<C> {
    ChartView { id: v.id, symbol: v.symbol, interval: v.interval, ctx: ctx }
}

/// The tab `charts[i]` with a new interval.
pub open spec fn with_interval<C>(v: ChartView<C>, interval: Seq<char>) -> ChartView<C> {
    ChartView { id: v.id, symbol: v.symbol, interval: interval, ctx: v.ctx }
}

proof fn lemma_index_unique<C>(charts: Seq<ChartView<C>>, id: u32, i: int)
    requires
        ids_increasing(charts),
        0 <= i < charts.len(),
        charts[i].id == id,
    ensures
        has_id(charts, id),
        chart_index(charts, id) == i,
{
    assert(has_id(charts, id));
    let j = chart_index(charts, id);
    if j < i {
        assert(charts[j].id < charts[i].id);
    } else if i < j {
        assert(charts[i].id < charts[j].id);
    }
}

impl<C> ChartEngine<C> {
    /// The tabs in order.
    pub closed spec fn charts(&self) -> Seq<ChartView<C>> {
        self.charts@.map_values(|c: Chart<C>| c.model())
    }

    /// The identifier of the active tab.
    pub closed spec fn active(&self) -> u32 {
        self.active_chart_id
    }

    /// The identifier that the next new tab gets.
    pub closed spec fn next_id(&self) -> u32 {
        self.next_chart_id
    }

    pub open spec fn has_chart(&self, id: u32) -> bool {
        has_id(self.charts(), id)
    }

    /// The position of the active tab.
    pub open spec fn active_index(&self) -> int {
        chart_index(self.charts(), self.active())
    }

    /// There is always at least one tab, identifiers increase along the tabs
    /// and stay below the next one, and the active tab is one of them.
    pub open spec fn wf(&self) -> bool {
        &&& self.charts().len() >= 1
        &&& ids_increasing(self.charts())
        &&& forall|i: int| 0 <= i < self.charts().len() ==> self.charts()[i].id < self.next_id()
        &&& self.has_chart(self.active())
    }

    fn position(&self, id: u32) -> (r: Option<usize>)
        requires
            ids_increasing(self.charts()),
        ensures
            match r {
                Some(i) => i < self.charts().len() && self.charts()[i as int].id == id
                    && chart_index(self.charts(), id) == i && self.has_chart(id),
                None => !self.has_chart(id),
            },
    {
        let mut i: usize = 0;
        while i < self.charts.len()
            invariant
                i <= self.charts@.len(),
                self.charts().len() == self.charts@.len(),
                ids_increasing(self.charts()),
                forall|j: int| 0 <= j < i ==> self.charts()[j].id != id,
            decreases self.charts@.len() - i,
        {
            if self.charts[i].id == id {
                proof {
                    assert(self.charts()[i as int] == self.charts@[i as int].model());
                    lemma_index_unique(self.charts(), id, i as int);
                }
                return Some(i);
            }
            assert(self.charts()[i as int] == self.charts@[i as int].model());
            i += 1;
        }
        None
    }

    /// Replacing the context of one tab keeps the engine well formed.
    proof fn lemma_ctx_update_keeps_wf(e: &Self, i: int)
        requires
            e.wf(),
            0 <= i < e.charts().len(),
        ensures
            forall|e2: &Self, c: C|
                #![trigger e2.wf(), with_ctx(e.charts()[i], c)]
                e2.charts() == e.charts().update(i, with_ctx(e.charts()[i], c)) && e2.active()
                    == e.active() && e2.next_id() == e.next_id() ==> e2.wf(),
    {
        assert forall|e2: &Self, c: C|
            #![trigger e2.wf(), with_ctx(e.charts()[i], c)]
            e2.charts() == e.charts().update(i, with_ctx(e.charts()[i], c)) && e2.active()
                == e.active() && e2.next_id() == e.next_id() implies e2.wf() by {
            let a = chart_index(e.charts(), e.active());
            assert(e2.charts()[a].id == e.active());
        }
    }

    /// An engine with one tab (identifier 1, `"BTCUSDT"`, `"1d"`), which is active.
    pub fn new(ctx: C) -> (r: Self)
        ensures
            r.wf(),
            r.charts() == seq![ChartView { id: 1u32, symbol: "BTCUSDT"@, interval: "1d"@, ctx: ctx }],
            r.active() == 1,
            r.next_id() == 2,
    {
        let first = Chart { id: 1, symbol: "BTCUSDT".to_owned(), interval: "1d".to_owned(), ctx: ctx };
        let mut charts: Vec<Chart<C>> = Vec::new();
        charts.push(first);
        let r = ChartEngine { charts: charts, active_chart_id: 1, next_chart_id: 2 };
        assert(r.charts() =~= seq![ChartView { id: 1u32, symbol: "BTCUSDT"@, interval: "1d"@, ctx: ctx }]);
        assert(r.charts()[0].id == 1);
        r
    }

    /// Opens a new tab, which becomes active, and returns its identifier.
    pub fn create_tab(&mut self, symbol: String, interval: String, ctx: C) -> (r: u32)
        requires
            old(self).wf(),
            old(self).next_id() < u32::MAX,
        ensures
            final(self).wf(),
            r == old(self).next_id(),
            !old(self).has_chart(r),
            final(self).charts() == old(self).charts().push(
                ChartView { id: r, symbol: symbol@, interval: interval@, ctx: ctx },
            ),
            final(self).active() == r,
            final(self).next_id() == old(self).next_id() + 1,
    {
        let id = self.next_chart_id;
        self.next_chart_id = self.next_chart_id + 1;
        let ghost sym = symbol@;
        let ghost itv = interval@;
        self.charts.push(Chart { id: id, symbol: symbol, interval: interval, ctx: ctx });
        self.active_chart_id = id;
        assert(self.charts() =~= old(self).charts().push(
            ChartView { id: id, symbol: sym, interval: itv, ctx: ctx },
        ));
        assert(self.charts()[self.charts().len() - 1].id == id);
        assert(!old(self).has_chart(id)) by {
            if old(self).has_chart(id) {
                let k = chart_index(old(self).charts(), id);
                assert(old(self).charts()[k].id < old(self).next_id());
            }
        }
        id
    }

    /// Makes the tab `id` active if there is one; returns whether there is.
    pub fn switch_tab(&mut self, id: u32) -> (r: bool)
        requires
            old(self).wf(),
        ensures
            final(self).wf(),
            r == old(self).has_chart(id),
            final(self).charts() == old(self).charts(),
            final(self).next_id() == old(self).next_id(),
            final(self).active() == if r { id } else { old(self).active() },
    {
        match self.position(id) {
            Some(_) => {
                self.active_chart_id = id;
                true
            },
            None => false,
        }
    }

    /// Closes the tab `id`, unless it is the only tab. When the active tab is
    /// closed, the first remaining tab becomes active.
    pub fn close_tab(&mut self, id: u32)
        requires
            old(self).wf(),
        ensures
            final(self).wf(),
            final(self).next_id() == old(self).next_id(),
            old(self).charts().len() <= 1 || !old(self).has_chart(id) ==> final(self).charts()
                == old(self).charts() && final(self).active() == old(self).active(),
            old(self).charts().len() > 1 && old(self).has_chart(id) ==> {
                &&& final(self).charts() == old(self).charts().remove(chart_index(old(self).charts(), id))
                &&& final(self).active() == if old(self).active() == id {
                    final(self).charts()[0].id
                } else {
                    old(self).active()
                }
            },
    {
        if self.charts.len() <= 1 {
            return;
        }
        match self.position(id) {
            None => {},
            Some(i) => {
                let ghost old_charts = self.charts();
                self.charts.remove(i);
                assert(self.charts() =~= old_charts.remove(i as int));
                if self.active_chart_id == id {
                    self.active_chart_id = self.charts[0].id;
                    assert(self.charts()[0] == self.charts@[0].model());
                } else {
                    proof {
                        let a = chart_index(old_charts, self.active_chart_id);
                        assert(a != i);
                        if a < i {
                            assert(self.charts()[a] == old_charts[a]);
                        } else {
                            assert(self.charts()[a - 1] == old_charts[a]);
                        }
                    }
                }
            },
        }
    }

    /// Sets the interval of the tab `id`, if there is one.
    pub fn set_tab_interval(&mut self, id: u32, interval: String)
        requires
            old(self).wf(),
        ensures
            final(self).wf(),
            final(self).active() == old(self).active(),
            final(self).next_id() == old(self).next_id(),
            old(self).has_chart(id) ==> final(self).charts() == old(self).charts().update(
                chart_index(old(self).charts(), id),
                with_interval(old(self).charts()[chart_index(old(self).charts(), id)], interval@),
            ),
            !old(self).has_chart(id) ==> final(self).charts() == old(self).charts(),
    {
        match self.position(id) {
            None => {},
            Some(i) => {
                let ghost itv = interval@;
                self.charts[i].interval = interval;
                assert(self.charts() =~= old(self).charts().update(
                    i as int,
                    with_interval(old(self).charts()[i as int], itv),
                ));
                let ghost a = chart_index(old(self).charts(), self.active_chart_id);
                assert(self.charts()[a].id == old(self).charts()[a].id);
            },
        }
    }

    /// The tab list in the order of identifiers, marking the active tab.
    pub fn get_tabs_info(&self) -> (r: Vec<TabInfo>)
        requires
            self.wf(),
        ensures
            r@.len() == self.charts().len(),
            forall|i: int|
                0 <= i < r@.len() ==> {
                    &&& #[trigger] r@[i].id == self.charts()[i].id
                    &&& r@[i].symbol@ == self.charts()[i].symbol
                    &&& r@[i].interval@ == self.charts()[i].interval
                    &&& r@[i].is_active == (self.charts()[i].id == self.active())
                },
            forall|i: int, j: int| 0 <= i < j < r@.len() ==> r@[i].id < r@[j].id,
            exists|i: int| 0 <= i < r@.len() && r@[i].is_active,
            forall|i: int, j: int|
                0 <= i < r@.len() && 0 <= j < r@.len() && r@[i].is_active && r@[j].is_active ==> i == j,
    {
        let mut tabs: Vec<TabInfo> = Vec::new();
        let mut i: usize = 0;
        while i < self.charts.len()
            invariant
                i <= self.charts@.len(),
                self.charts().len() == self.charts@.len(),
                tabs@.len() == i,
                forall|k: int|
                    0 <= k < i ==> {
                        &&& #[trigger] tabs@[k].id == self.charts()[k].id
                        &&& tabs@[k].symbol@ == self.charts()[k].symbol
                        &&& tabs@[k].interval@ == self.charts()[k].interval
                        &&& tabs@[k].is_active == (self.charts()[k].id == self.active())
                    },
            decreases self.charts@.len() - i,
        {
            let c = &self.charts[i];
            assert(self.charts()[i as int] == c.model());
            let symbol = c.symbol.clone();
            let interval = c.interval.clone();
            assert(symbol@ == self.charts()[i as int].symbol);
            assert(interval@ == self.charts()[i as int].interval);
            let ghost before = tabs@;
            tabs.push(
                TabInfo {
                    id: c.id,
                    symbol: symbol,
                    interval: interval,
                    is_active: c.id == self.active_chart_id,
                },
            );
            assert(forall|k: int| 0 <= k < i ==> tabs@[k] == before[k]);
            i += 1;
        }
        proof {
            let a = self.active_index();
            assert(tabs@[a].id == self.charts()[a].id);
            assert(tabs@[a].is_active);
            assert forall|i: int, j: int| 0 <= i < j < tabs@.len() implies tabs@[i].id < tabs@[j].id by {
                assert(tabs@[i].id == self.charts()[i].id);
                assert(tabs@[j].id == self.charts()[j].id);
            }
            assert forall|i: int, j: int|
                0 <= i < tabs@.len() && 0 <= j < tabs@.len() && tabs@[i].is_active && tabs@[j].is_active implies i == j by {
                assert(tabs@[i].id == self.charts()[i].id);
                assert(tabs@[j].id == self.charts()[j].id);
                if i < j {
                    assert(self.charts()[i].id < self.charts()[j].id);
                } else if j < i {
                    assert(self.charts()[j].id < self.charts()[i].id);
                }
            }
        }
        tabs
    }

    /// The identifier of the active tab.
    pub fn active_chart_id(&self) -> (r: u32)
        ensures
            r == self.active(),
    {
        self.active_chart_id
    }

    /// The identifier that the next new tab gets.
    pub fn next_chart_id(&self) -> (r: u32)
        ensures
            r == self.next_id(),
    {
        self.next_chart_id
    }

    /// Whether there is a tab `id`.
    pub fn contains_key(&self, id: u32) -> (r: bool)
        requires
            self.wf(),
        ensures
            r == self.has_chart(id),
    {
        self.position(id).is_some()
    }

    /// The number of tabs.
    pub fn len(&self) -> (r: usize)
        ensures
            r == self.charts().len(),
    {
        self.charts.len()
    }

    /// The context of the active tab.
    pub fn ctx(&self) -> (r: &C)
        requires
            self.wf(),
        ensures
            *r == self.charts()[self.active_index()].ctx,
    {
        let i = self.position(self.active_chart_id).unwrap();
        assert(self.charts()[i as int] == self.charts@[i as int].model());
        &self.charts[i].ctx
    }

    fn ctx_at(&mut self, i: usize) -> (r: &mut C)
        requires
            old(self).wf(),
            i < old(self).charts().len(),
        ensures
            *r == old(self).charts()[i as int].ctx,
            final(self).charts() == old(self).charts().update(
                i as int,
                with_ctx(old(self).charts()[i as int], *final(r)),
            ),
            final(self).active() == old(self).active(),
            final(self).next_id() == old(self).next_id(),
            final(self).wf(),
    {
        assert(self.charts()[i as int] == self.charts@[i as int].model());
        proof {
            Self::lemma_ctx_update_keeps_wf(&*self, i as int);
        }
        &mut self.charts[i].ctx
    }

    /// The context of the active tab, for changing it.
    pub fn ctx_mut(&mut self) -> (r: &mut C)
        requires
            old(self).wf(),
        ensures
            *r == old(self).charts()[old(self).active_index()].ctx,
            final(self).charts() == old(self).charts().update(
                old(self).active_index(),
                with_ctx(old(self).charts()[old(self).active_index()], *final(r)),
            ),
            final(self).active() == old(self).active(),
            final(self).next_id() == old(self).next_id(),
            final(self).wf(),
    {
        let i = self.position(self.active_chart_id).unwrap();
        self.ctx_at(i)
    }

    /// The context of the tab `id`, if there is one.
    pub fn chart(&self, id: u32) -> (r: Option<&C>)
        requires
            self.wf(),
        ensures
            r is Some <==> self.has_chart(id),
            r is Some ==> *r->0 == self.charts()[chart_index(self.charts(), id)].ctx,
    {
        match self.position(id) {
            Some(i) => {
                assert(self.charts()[i as int] == self.charts@[i as int].model());
                Some(&self.charts[i].ctx)
            },
            None => None,
        }
    }

    /// The context of the tab `id`, if there is one, for changing it.
    pub fn chart_mut(&mut self, id: u32) -> (r: Option<&mut C>)
        requires
            old(self).wf(),
        ensures
            r is Some <==> old(self).has_chart(id),
            r is None ==> final(self).charts() == old(self).charts(),
            r is Some ==> *r->0 == old(self).charts()[chart_index(old(self).charts(), id)].ctx
                && final(self).charts() == old(self).charts().update(
                chart_index(old(self).charts(), id),
                with_ctx(old(self).charts()[chart_index(old(self).charts(), id)], *final(r->0)),
            ),
            final(self).active() == old(self).active(),
            final(self).next_id() == old(self).next_id(),
            final(self).wf(),
    {
        match self.position(id) {
            Some(i) => Some(self.ctx_at(i)),
            None => None,
        }
    }

    /// The interval of the tab `id`, if there is one.
    pub fn chart_interval(&self, id: u32) -> (r: Option<&String>)
        requires
            self.wf(),
        ensures
            r is Some <==> self.has_chart(id),
            r is Some ==> r->0@ == self.charts()[chart_index(self.charts(), id)].interval,
    {
        match self.position(id) {
            Some(i) => {
                assert(self.charts()[i as int] == self.charts@[i as int].model());
                Some(&self.charts[i].interval)
            },
            None => None,
        }
    }
}

/// Closing a tab right after creating it gives back the previous tab list.
pub proof fn lemma_close_undoes_create<C>(charts: Seq<ChartView<C>>, v: ChartView<C>)
    requires
        ids_increasing(charts),
        forall|i: int| 0 <= i < charts.len() ==> charts[i].id < v.id,
    ensures
        has_id(charts.push(v), v.id),
        charts.push(v).remove(chart_index(charts.push(v), v.id)) == charts,
{
    let c2 = charts.push(v);
    assert(ids_increasing(c2)) by {
        assert forall|i: int, j: int| 0 <= i < j < c2.len() implies c2[i].id < c2[j].id by {
            if j == charts.len() {
                assert(c2[i] == charts[i]);
            } else {
                assert(c2[i] == charts[i] && c2[j] == charts[j]);
            }
        }
    }
    lemma_index_unique(c2, v.id, charts.len() as int);
    assert(c2.remove(charts.len() as int) =~= charts);
}

/// Every well-formed engine has an active tab among its tabs.
pub proof fn lemma_active_tab_exists<C>(e: &ChartEngine<C>)
    requires
        e.wf(),
    ensures
        0 <= e.active_index() < e.charts().len(),
        e.charts()[e.active_index()].id == e.active(),
{
}

} // verus!
