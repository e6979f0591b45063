//! The dispatcher: owner of the registered panel list, the authoritative
//! mode and the deferred follow-up queue. Each frame cycle it drains a batch
//! of actions strictly in FIFO order, applies every action to every panel
//! exactly once, collects the follow-ups the panels hand back for the next
//! cycle, and then plans the drawing phase: every active panel, in
//! registration order, gets a disjoint horizontal band of the frame.
//!
//! The surrounding application owns the channel and the terminal; it hands
//! the dispatcher the drained batch and renders the returned plan.

use vstd::prelude::*;

use crate::action::Action;
use crate::components::{panel_follow_up, panel_mode, panel_step, Panel};
use crate::layout::{split_vertical_spec, Rect};
use crate::mode::{next_of, Mode};

verus! {

/// Where the dispatcher stands between cycles. The update and drawing
/// phases of a cycle are transient within one call and always run to
/// completion; shut-down, entered when a quit action is observed or the
/// channel reports end-of-stream, is terminal.
#[derive(Clone, Copy, Debug, PartialEq, Eq, Structural)]
pub enum Phase {
    Idle,
    ShutDown,
}

/// The dispatcher's mathematical image: the panel states, the authoritative
/// mode, the follow-ups deferred to the next cycle, and the phase.
pub ghost struct DispatchState {
    pub panels: Seq<Panel>,
    pub mode: Mode,
    pub pending: Seq<Action>,
    pub phase: Phase,
}

/// Whether a panel that reports `reported` as its mode identity is drawn
/// when the application mode is `current`: a mode-agnostic panel always,
/// every other panel exactly when its mode is the current one.
pub open spec fn is_active_mode(reported: Option<Mode>, current: Mode) -> bool {
    match reported {
        Option::None => true,
        Option::Some(pm) => pm == current,
    }
}

/// Whether the drawing phase visits `p` under mode `current`.
pub open spec fn is_active(p: Panel, current: Mode) -> bool {
    is_active_mode(panel_mode(p), current)
}

/// The authoritative mode after one action: only a switch moves it.
pub open spec fn mode_step(m: Mode, a: Action) -> Mode {
    if a == Action::Switch {
        next_of(m)
    } else {
        m
    }
}

/// The phase after one action: only a quit ends the run.
pub open spec fn phase_step(ph: Phase, a: Action) -> Phase {
    if a == Action::Quit {
        Phase::ShutDown
    } else {
        ph
    }
}

/// The follow-ups the panels hand back for one action, in panel order.
pub open spec fn follow_ups(ps: Seq<Panel>, a: Action) -> Seq<Action>
    decreases ps.len(),
{
    if ps.len() == 0 {
        Seq::empty()
    } else {
        follow_ups(ps.drop_last(), a) + match panel_follow_up(ps.last(), a) {
            Option::Some(f) => seq![f],
            Option::None => Seq::<Action>::empty(),
        }
    }
}

/// One dispatch step: every panel consumes `a`, in registration order; the
/// authoritative mode and the phase advance; the follow-ups are appended to
/// the pending queue for a later cycle.
pub open spec fn step(s: DispatchState, a: Action) -> DispatchState {
    DispatchState {
        panels: Seq::new(s.panels.len(), |i: int| panel_step(s.panels[i], a)),
        mode: mode_step(s.mode, a),
        pending: s.pending + follow_ups(s.panels, a),
        phase: phase_step(s.phase, a),
    }
}

/// The state after a whole batch, processed strictly first to last.
pub open spec fn run(s: DispatchState, batch: Seq<Action>) -> DispatchState
    decreases batch.len(),
{
    if batch.len() == 0 {
        s
    } else {
        step(run(s, batch.drop_last()), batch.last())
    }
}

/// `s` with its pending queue taken out: the start of a cycle, once the
/// queue has moved into the batch under way.
pub open spec fn drained(s: DispatchState) -> DispatchState {
    DispatchState { pending: Seq::empty(), ..s }
}

/// The registration positions of the panels the drawing phase visits under
/// mode `m`, in registration order.
pub open spec fn active_indices(ps: Seq<Panel>, m: Mode) -> Seq<int>
    decreases ps.len(),
{
    if ps.len() == 0 {
        Seq::empty()
    } else {
        active_indices(ps.drop_last(), m) + if is_active(ps.last(), m) {
            seq![ps.len() - 1]
        } else {
            Seq::<int>::empty()
        }
    }
}

/// The height every band but the last gets when a frame is cut into `k`
/// horizontal bands.
pub open spec fn band_height_of(frame: Rect, k: nat) -> u16 {
    if k == 0 || k >= frame.height {
        0
    } else {
        (frame.height as int / k as int) as u16
    }
}

/// `k` horizontal bands cut from `rest` top to bottom: each band but the
/// last takes `band_h` rows, the last takes the remainder.
pub open spec fn band_areas(rest: Rect, band_h: u16, k: nat) -> Seq<Rect>
    decreases k,
{
    if k == 0 {
        Seq::empty()
    } else if k == 1 {
        seq![rest]
    } else {
        let parts = split_vertical_spec(rest, band_h);
        seq![parts.0] + band_areas(parts.1, band_h, (k - 1) as nat)
    }
}

/// The bands of a frame cut for `k` active panels.
pub open spec fn frame_bands(frame: Rect, k: nat) -> Seq<Rect> {
    band_areas(frame, band_height_of(frame, k), k)
}

/// One entry of a frame plan: the panel at registration position `index`
/// draws into `area`.
#[derive(Clone, Copy, Debug, PartialEq, Eq, Structural)]
pub struct PanelSlot {
    pub index: usize,
    pub area: Rect,
}

/// The dispatcher.
pub struct Dispatcher {
    pub panels: Vec<Panel>,
    pub mode: Mode,
    pub pending: Vec<Action>,
    pub phase: Phase,
}

impl View for Dispatcher {
    type V = DispatchState;

    open spec fn view(&self) -> DispatchState {
        DispatchState {
            panels: self.panels@,
            mode: self.mode,
            pending: self.pending@,
            phase: self.phase,
        }
    }
}

impl Dispatcher {
    /// A fresh dispatcher with no panels, an empty queue, and the given
    /// starting mode.
    pub fn new(mode: Mode) -> (r: Dispatcher)
        ensures
            r@.panels == Seq::<Panel>::empty(),
            r@.mode == mode,
            r@.pending == Seq::<Action>::empty(),
            r@.phase == Phase::Idle,
    {
        Dispatcher { panels: Vec::new(), mode, pending: Vec::new(), phase: Phase::Idle }
    }

    /// Adds a panel at the end of the fixed drawing order.
    pub fn register(&mut self, panel: Panel)
        ensures
            final(self)@.panels == old(self)@.panels.push(panel),
            final(self)@.mode == old(self)@.mode,
            final(self)@.pending == old(self)@.pending,
            final(self)@.phase == old(self)@.phase,
    {
        self.panels.push(panel);
    }

    /// Applies one action to every panel in registration order, collects the
    /// follow-ups, and advances the authoritative mode and the phase.
    fn handle_action(&mut self, a: Action)
        ensures
            final(self)@ == step(old(self)@, a),
    {
        let ghost ps0 = self.panels@;
        let mut i: usize = 0;
        while i < self.panels.len()
            invariant
                i <= self.panels@.len(),
                self.panels@.len() == ps0.len(),
                forall|j: int| 0 <= j < i ==> self.panels@[j] == panel_step(ps0[j], a),
                forall|j: int| i <= j < ps0.len() ==> self.panels@[j] == ps0[j],
                self.pending@ == old(self)@.pending + follow_ups(ps0.take(i as int), a),
                self.mode == old(self)@.mode,
                self.phase == old(self)@.phase,
                ps0 == old(self)@.panels,
            decreases self.panels@.len() - i,
        {
            let p = &mut self.panels[i];
            let follow = match p.update(a) {
                Ok(f) => f,
                Err(_) => None,
            };
            match follow {
                Some(f) => self.pending.push(f),
                None => {},
            }
            proof {
                assert(ps0.take(i + 1).drop_last() =~= ps0.take(i as int));
                assert(ps0.take(i + 1).last() == ps0[i as int]);
                assert(self.pending@ =~= old(self)@.pending + follow_ups(ps0.take(i + 1), a));
            }
            i += 1;
        }
        if a == Action::Switch {
            self.mode.switch();
        }
        if a == Action::Quit {
            self.phase = Phase::ShutDown;
        }
        proof {
            assert(ps0.take(ps0.len() as int) =~= ps0);
            assert(self.panels@ =~= Seq::new(ps0.len(), |i: int| panel_step(ps0[i], a)));
        }
    }

    /// The update phase of one frame cycle. The batch it processes is fixed
    /// when the cycle starts: the follow-ups deferred by the last cycle,
    /// then the incoming actions, strictly in order. Every panel consumes
    /// every action of the batch exactly once; follow-ups produced now are
    /// deferred to a later cycle, never processed in this one. Once shut
    /// down, the dispatcher ignores further batches.
    pub fn update_phase(&mut self, incoming: Vec<Action>)
        ensures
            old(self)@.phase == Phase::ShutDown ==> *final(self) == *old(self),
            old(self)@.phase == Phase::Idle ==> final(self)@ == run(
                drained(old(self)@),
                old(self)@.pending + incoming@,
            ),
    {
        match self.phase {
            Phase::ShutDown => {
                return ;
            },
            Phase::Idle => {},
        }
        let mut batch: Vec<Action> = Vec::new();
        let mut i: usize = 0;
        while i < self.pending.len()
            invariant
                i <= self.pending@.len(),
                *self == *old(self),
                batch@ == old(self)@.pending.take(i as int),
            decreases self.pending@.len() - i,
        {
            batch.push(self.pending[i]);
            i += 1;
        }
        proof {
            assert(old(self)@.pending.take(old(self)@.pending.len() as int) =~= old(self)@.pending);
        }
        self.pending = Vec::new();
        let mut j: usize = 0;
        while j < incoming.len()
            invariant
                j <= incoming@.len(),
                self.panels@ == old(self)@.panels,
                self.mode == old(self)@.mode,
                self.phase == old(self)@.phase,
                self.pending@ == Seq::<Action>::empty(),
                batch@ == old(self)@.pending + incoming@.take(j as int),
            decreases incoming@.len() - j,
        {
            batch.push(incoming[j]);
            j += 1;
        }
        proof {
            assert(incoming@.take(incoming@.len() as int) =~= incoming@);
            assert(batch@ == old(self)@.pending + incoming@);
        }
        let ghost s0 = drained(old(self)@);
        let ghost b0 = batch@;
        proof {
            assert(self@ == run(s0, b0.take(0)));
        }
        let mut k: usize = 0;
        while k < batch.len()
            invariant
                k <= batch@.len(),
                batch@ == b0,
                self@ == run(s0, b0.take(k as int)),
            decreases batch@.len() - k,
        {
            let a = batch[k];
            self.handle_action(a);
            proof {
                assert(b0.take(k + 1).drop_last() =~= b0.take(k as int));
                assert(b0.take(k + 1).last() == b0[k as int]);
            }
            k += 1;
        }
        proof {
            assert(b0.take(b0.len() as int) =~= b0);
        }
    }

    /// The action channel reported end-of-stream: every producer is gone,
    /// so the dispatcher shuts down.
    pub fn channel_closed(&mut self)
        ensures
            final(self)@.phase == Phase::ShutDown,
            final(self)@.panels == old(self)@.panels,
            final(self)@.mode == old(self)@.mode,
            final(self)@.pending == old(self)@.pending,
    {
        self.phase = Phase::ShutDown;
    }

    /// The drawing phase's plan for one frame: every active panel under the
    /// current mode, in registration order, with the disjoint horizontal
    /// band of the frame it draws into.
    pub fn draw_plan(&self, frame: Rect) -> (r: Vec<PanelSlot>)
        requires
            frame.well_formed(),
        ensures
            r@.map_values(|s: PanelSlot| s.index as int) == active_indices(self@.panels, self@.mode),
            forall|i: int|
                0 <= i < r@.len() ==> #[trigger] r@[i].area == frame_bands(frame, r@.len() as nat)[i],
            forall|i: int|
                0 <= i < r@.len() ==> frame.contains(#[trigger] r@[i].area) && r@[
                    i
                ].area.well_formed(),
            forall|i: int, j: int|
                #![trigger r@[i].area, r@[j].area]
                0 <= i < j < r@.len() ==> r@[i].area.disjoint(r@[j].area),
    {
        let ghost m = self.mode;
        let mut idxs: Vec<usize> = Vec::new();
        let mut i: usize = 0;
        while i < self.panels.len()
            invariant
                i <= self.panels@.len(),
                m == self.mode,
                idxs@.map_values(|u: usize| u as int) == active_indices(
                    self.panels@.take(i as int),
                    m,
                ),
            decreases self.panels@.len() - i,
        {
            let p = &self.panels[i];
            let active = match p.mode() {
                Some(pm) => pm == self.mode,
                None => true,
            };
            let ghost idxs_before = idxs@;
            if active {
                idxs.push(i);
            }
            proof {
                assert(self.panels@.take(i + 1).drop_last() =~= self.panels@.take(i as int));
                assert(self.panels@.take(i + 1).last() == self.panels@[i as int]);
                if is_active(self.panels@[i as int], m) {
                    assert(idxs@.map_values(|u: usize| u as int) =~= idxs_before.map_values(
                        |u: usize| u as int,
                    ).push(i as int));
                } else {
                    assert(idxs@.map_values(|u: usize| u as int) =~= idxs_before.map_values(
                        |u: usize| u as int,
                    ));
                }
                assert(idxs@.map_values(|u: usize| u as int) =~= active_indices(
                    self.panels@.take(i + 1),
                    m,
                ));
            }
            i += 1;
        }
        proof {
            assert(self.panels@.take(self.panels@.len() as int) =~= self.panels@);
        }
        let k = idxs.len();
        let mut r: Vec<PanelSlot> = Vec::new();
        if k == 0 {
            proof {
                assert(r@.map_values(|s: PanelSlot| s.index as int) =~= active_indices(
                    self.panels@,
                    m,
                ));
            }
            return r;
        }
        let band_h: u16 = if (k as u64) >= (frame.height as u64) {
            0
        } else {
            frame.height / (k as u16)
        };
        proof {
            assert(band_h == band_height_of(frame, k as nat));
        }
        let mut rest = frame;
        let mut t: usize = 0;
        while t + 1 < k
            invariant
                t < k,
                k == idxs@.len(),
                r@.len() == t,
                rest.well_formed(),
                forall|q: int| 0 <= q < t ==> #[trigger] r@[q].index == idxs@[q],
                frame_bands(frame, k as nat) =~= r@.map_values(|s: PanelSlot| s.area)
                    + band_areas(rest, band_h, (k - t) as nat),
            decreases k - t,
        {
            let (band, rst) = rest.split_vertical(band_h);
            let ghost r_before = r@;
            r.push(PanelSlot { index: idxs[t], area: band });
            proof {
                assert(r@.map_values(|s: PanelSlot| s.area) =~= r_before.map_values(
                    |s: PanelSlot| s.area,
                ).push(band));
                assert(band_areas(rest, band_h, (k - t) as nat) == seq![band] + band_areas(
                    rst,
                    band_h,
                    (k - t - 1) as nat,
                ));
                assert(r_before.map_values(|s: PanelSlot| s.area).push(band) + band_areas(
                    rst,
                    band_h,
                    (k - t - 1) as nat,
                ) =~= r_before.map_values(|s: PanelSlot| s.area) + band_areas(
                    rest,
                    band_h,
                    (k - t) as nat,
                ));
            }
            rest = rst;
            t += 1;
        }
        let ghost r_before = r@;
        r.push(PanelSlot { index: idxs[k - 1], area: rest });
        proof {
            assert(band_areas(rest, band_h, 1) =~= seq![rest]);
            assert(r@.map_values(|s: PanelSlot| s.area) =~= r_before.map_values(
                |s: PanelSlot| s.area,
            ).push(rest));
            assert(r@.map_values(|s: PanelSlot| s.area) =~= frame_bands(frame, k as nat));
            assert(r@.map_values(|s: PanelSlot| s.index as int) =~= idxs@.map_values(
                |u: usize| u as int,
            ));
            lemma_band_areas_props(frame, band_h, k as nat);
            assert forall|q: int| 0 <= q < r@.len() implies #[trigger] r@[q].area == frame_bands(
                frame,
                r@.len() as nat,
            )[q] by {
                assert(r@[q].area == r@.map_values(|s: PanelSlot| s.area)[q]);
            }
        }
        r
    }
}

/// Whether a panel that reports `reported` as its mode identity is drawn
/// when the application mode is `current`.
pub fn active_for(reported: Option<Mode>, current: Mode) -> (r: bool)
    ensures
        r == is_active_mode(reported, current),
{
    match reported {
        Some(pm) => pm == current,
        None => true,
    }
}

/// Law: a panel without a mode identity is drawn on every frame; one whose
/// identity equals the current mode is drawn; one whose identity differs is
/// not drawn.
pub proof fn lemma_active_rule(p: Panel, m: Mode)
    ensures
        panel_mode(p) is None ==> is_active(p, m),
        panel_mode(p) == Some(m) ==> is_active(p, m),
        panel_mode(p) is Some && panel_mode(p) != Some(m) ==> !is_active(p, m),
{
}

/// Law: the drawing phase visits exactly the active panels, in registration
/// order: every listed position belongs to an active panel, every active
/// panel's position is listed, and the positions are strictly increasing.
pub proof fn lemma_active_indices_correct(ps: Seq<Panel>, m: Mode)
    ensures
        forall|t: int|
            0 <= t < active_indices(ps, m).len() ==> 0 <= #[trigger] active_indices(ps, m)[t]
                < ps.len(),
        forall|t: int|
            0 <= t < active_indices(ps, m).len() ==> is_active(
                ps[#[trigger] active_indices(ps, m)[t]],
                m,
            ),
        forall|i: int|
            0 <= i < ps.len() && is_active(#[trigger] ps[i], m) ==> active_indices(
                ps,
                m,
            ).contains(i),
        forall|t1: int, t2: int|
            #![trigger active_indices(ps, m)[t1], active_indices(ps, m)[t2]]
            0 <= t1 < t2 < active_indices(ps, m).len() ==> active_indices(ps, m)[t1]
                < active_indices(ps, m)[t2],
    decreases ps.len(),
{
    if ps.len() == 0 {
    } else {
        let prev = ps.drop_last();
        lemma_active_indices_correct(prev, m);
        assert forall|i: int|
            0 <= i < ps.len() && is_active(#[trigger] ps[i], m) implies active_indices(
            ps,
            m,
        ).contains(i) by {
            if i < ps.len() - 1 {
                assert(prev[i] == ps[i]);
                let t = choose|t: int|
                    0 <= t < active_indices(prev, m).len() && active_indices(prev, m)[t] == i;
                assert(active_indices(ps, m)[t] == i);
            } else {
                assert(active_indices(ps, m).last() == i);
            }
        }
    }
}

/// Law: a batch is processed strictly first to last: running a
/// concatenation equals running the first part and then the second.
pub proof fn lemma_run_append(s: DispatchState, xs: Seq<Action>, ys: Seq<Action>)
    ensures
        run(s, xs + ys) == run(run(s, xs), ys),
    decreases ys.len(),
{
    if ys.len() == 0 {
        assert(xs + ys =~= xs);
    } else {
        lemma_run_append(s, xs, ys.drop_last());
        assert((xs + ys).drop_last() =~= xs + ys.drop_last());
        assert((xs + ys).last() == ys.last());
    }
}

/// Law: a nonempty batch is processed first-in first-out: the state after
/// the whole batch is the state after its first action, then the rest.
pub proof fn lemma_run_fifo(s: DispatchState, batch: Seq<Action>)
    requires
        batch.len() > 0,
    ensures
        run(s, batch) == run(step(s, batch.first()), batch.drop_first()),
{
    assert(batch =~= seq![batch.first()] + batch.drop_first());
    lemma_run_append(s, seq![batch.first()], batch.drop_first());
    assert(seq![batch.first()].drop_last() =~= Seq::<Action>::empty());
    assert(run(s, Seq::<Action>::empty()) == s);
    assert(seq![batch.first()].last() == batch.first());
    assert(run(s, seq![batch.first()]) == step(s, batch.first()));
}

/// Law: a follow-up produced during one cycle is observed only in a later
/// cycle, never the one that produced it. The batch a cycle processes is
/// fixed when the cycle starts; the follow-ups it collects become the
/// pending queue, and the next cycle applies exactly that queue before
/// anything that arrives later.
pub proof fn lemma_follow_ups_deferred(s: DispatchState, incoming: Seq<Action>, later: Seq<Action>)
    ensures
        ({
            let after = run(drained(s), s.pending + incoming);
            run(drained(after), after.pending + later) == run(
                run(drained(after), after.pending),
                later,
            )
        }),
{
    let after = run(drained(s), s.pending + incoming);
    lemma_run_append(drained(after), after.pending, later);
}

/// The bands of a cut are inside the parent, representable, and stacked top
/// to bottom, so no two of them share a cell.
pub proof fn lemma_band_areas_props(rest: Rect, band_h: u16, k: nat)
    requires
        rest.well_formed(),
    ensures
        band_areas(rest, band_h, k).len() == k,
        forall|i: int|
            0 <= i < k ==> rest.contains(#[trigger] band_areas(rest, band_h, k)[i]) && band_areas(
                rest,
                band_h,
                k,
            )[i].well_formed(),
        forall|i: int, j: int|
            0 <= i < j < k ==> (#[trigger] band_areas(rest, band_h, k)[i]).bottom() <= (
            #[trigger] band_areas(rest, band_h, k)[j]).y,
        forall|i: int, j: int|
            #![trigger band_areas(rest, band_h, k)[i], band_areas(rest, band_h, k)[j]]
            0 <= i < j < k ==> band_areas(rest, band_h, k)[i].disjoint(
                band_areas(rest, band_h, k)[j],
            ),
    decreases k,
{
    if k <= 1 {
    } else {
        let parts = split_vertical_spec(rest, band_h);
        lemma_band_areas_props(parts.1, band_h, (k - 1) as nat);
        assert forall|i: int| 0 <= i < k implies rest.contains(
            #[trigger] band_areas(rest, band_h, k)[i],
        ) && band_areas(rest, band_h, k)[i].well_formed() by {
            if i > 0 {
                assert(band_areas(rest, band_h, k)[i] == band_areas(
                    parts.1,
                    band_h,
                    (k - 1) as nat,
                )[i - 1]);
            }
        }
        assert forall|i: int, j: int| 0 <= i < j < k implies (
        #[trigger] band_areas(rest, band_h, k)[i]).bottom() <= (#[trigger] band_areas(
            rest,
            band_h,
            k,
        )[j]).y by {
            if i > 0 {
                assert(band_areas(rest, band_h, k)[i] == band_areas(
                    parts.1,
                    band_h,
                    (k - 1) as nat,
                )[i - 1]);
            }
            assert(band_areas(rest, band_h, k)[j] == band_areas(
                parts.1,
                band_h,
                (k - 1) as nat,
            )[j - 1]);
            if i == 0 {
                assert(parts.1.contains(band_areas(parts.1, band_h, (k - 1) as nat)[j - 1]));
            }
        }
    }
}

} // verus!
