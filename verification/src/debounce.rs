//! The debounce cell: one optional timestamp, overwritten by every relevant
//! filesystem event and cleared by the first poll that finds the quiet period
//! over. Times are nanoseconds on one clock whose readings never go back.

use vstd::prelude::*;

verus! {

/// Length of the quiet period: 200 milliseconds, in nanoseconds.
pub const QUIET_PERIOD_NS: u64 = 200_000_000;

/// What kind of change the filesystem observer reported.
#[derive(Clone, Copy, Debug, PartialEq, Eq, Structural)]
pub enum WatchKind {
    Any,
    Access,
    Create,
    Modify,
    Remove,
    Other,
}

impl WatchKind {
    /// A change restarts the debounce window when it creates or modifies.
    pub open spec fn relevant(self) -> bool {
        self == WatchKind::Create || self == WatchKind::Modify
    }

    pub fn is_relevant(self) -> (r: bool)
        ensures
            r == self.relevant(),
    {
        match self {
            WatchKind::Create => true,
            WatchKind::Modify => true,
            _ => false,
        }
    }
}

#[verifier::external_type_specification]
#[verifier::external_body]
pub struct ExEventKind(notify::EventKind);

/// Which of its six variants a `notify::EventKind` is.
pub uninterp spec fn watch_kind(kind: notify::EventKind) -> WatchKind;

/// Tells the variants of `notify::EventKind` apart, one for one; the details
/// that a variant carries are dropped. The variant depends on the value
/// alone, so it is named by `watch_kind`.
#[verifier::external_body]
fn classify(kind: &notify::EventKind) -> (r: WatchKind)
    ensures
        r == watch_kind(*kind),
{
    match kind {
        notify::EventKind::Any => WatchKind::Any,
        notify::EventKind::Access(_) => WatchKind::Access,
        notify::EventKind::Create(_) => WatchKind::Create,
        notify::EventKind::Modify(_) => WatchKind::Modify,
        notify::EventKind::Remove(_) => WatchKind::Remove,
        notify::EventKind::Other => WatchKind::Other,
    }
}

/// Whether a cell holding `pending` is due at `now`: it holds a stamp, and at
/// least the quiet period lies between the stamp and `now`.
pub open spec fn due_at(pending: Option<u64>, now: u64) -> bool {
    match pending {
        Some(stamp) => now - stamp >= QUIET_PERIOD_NS,
        None => false,
    }
}

/// The cell after a change of kind `kind` observed at `now`.
pub open spec fn after_change(pending: Option<u64>, kind: WatchKind, now: u64) -> Option<u64> {
    if kind.relevant() {
        Some(now)
    } else {
        pending
    }
}

/// The cell after a poll at `now`.
pub open spec fn after_poll(pending: Option<u64>, now: u64) -> Option<u64> {
    if due_at(pending, now) {
        None
    } else {
        pending
    }
}

/// The timestamp cell shared by the filesystem observer and the render loop.
#[derive(Debug)]
pub struct DebounceCell {
    pending: Option<u64>,
}

impl View for DebounceCell {
    type V = Option<u64>;

    closed spec fn view(&self) -> Option<u64> {
        self.pending
    }
}

impl DebounceCell {
    /// An idle cell.
    pub fn new() -> (cell: Self)
        ensures
            cell@ == None::<u64>,
    {
        DebounceCell { pending: None }
    }

    /// The pending stamp, if any.
    pub fn pending(&self) -> (p: Option<u64>)
        ensures
            p == self@,
    {
        self.pending
    }

    pub fn is_pending(&self) -> (b: bool)
        ensures
            b == self@.is_some(),
    {
        self.pending.is_some()
    }

    /// Stamps the cell with `now`, whatever it held.
    pub fn signal(&mut self, now: u64)
        ensures
            final(self)@ == Some(now),
    {
        self.pending = Some(now);
    }

    /// Records a change of kind `kind` observed at `now`.
    pub fn record(&mut self, kind: WatchKind, now: u64)
        ensures
            final(self)@ == after_change(old(self)@, kind, now),
    {
        if kind.is_relevant() {
            self.signal(now);
        }
    }

    /// Records a change as the observer reports it: the cell is stamped
    /// where the report is of a creation or a modification, and left as it
    /// was for every other.
    pub fn observe(&mut self, kind: &notify::EventKind, now: u64)
        ensures
            final(self)@ == after_change(old(self)@, watch_kind(*kind), now),
    {
        let k = classify(kind);
        self.record(k, now);
    }

    /// Whether a reload is due at `now`; a due cell is cleared, any other is
    /// left alone.
    pub fn poll(&mut self, now: u64) -> (due: bool)
        ensures
            due == due_at(old(self)@, now),
            final(self)@ == after_poll(old(self)@, now),
    {
        match self.pending {
            Some(stamp) => {
                if now >= stamp && now - stamp >= QUIET_PERIOD_NS {
                    self.pending = None;
                    true
                } else {
                    false
                }
            },
            None => false,
        }
    }
}

/// One thing that happens to the cell: the observer stamps it, or the render
/// loop polls it.
pub enum CellEvent {
    Change(u64),
    Poll(u64),
}

impl CellEvent {
    pub open spec fn time(self) -> u64 {
        match self {
            CellEvent::Change(t) => t,
            CellEvent::Poll(t) => t,
        }
    }
}

/// The cell after `trace`, starting from `pending`.
pub open spec fn cell_after(pending: Option<u64>, trace: Seq<CellEvent>) -> Option<u64>
    decreases trace.len(),
{
    if trace.len() == 0 {
        pending
    } else {
        let before = cell_after(pending, trace.drop_last());
        match trace.last() {
            CellEvent::Change(t) => Some(t),
            CellEvent::Poll(t) => after_poll(before, t),
        }
    }
}

/// How many polls of `trace` were due, starting from `pending`.
pub open spec fn reloads(pending: Option<u64>, trace: Seq<CellEvent>) -> nat
    decreases trace.len(),
{
    if trace.len() == 0 {
        0
    } else {
        let before = cell_after(pending, trace.drop_last());
        let earlier = reloads(pending, trace.drop_last());
        match trace.last() {
            CellEvent::Change(_) => earlier,
            CellEvent::Poll(t) => if due_at(before, t) {
                earlier + 1
            } else {
                earlier
            },
        }
    }
}

/// The time of the last change in `trace`.
pub open spec fn last_change(trace: Seq<CellEvent>) -> Option<u64>
    decreases trace.len(),
{
    if trace.len() == 0 {
        None
    } else {
        match trace.last() {
            CellEvent::Change(t) => Some(t),
            CellEvent::Poll(_) => last_change(trace.drop_last()),
        }
    }
}

/// Whether some poll of `trace` comes after its last change, at least a quiet
/// period later.
pub open spec fn polled_after_quiet(trace: Seq<CellEvent>) -> bool
    decreases trace.len(),
{
    if trace.len() == 0 {
        false
    } else {
        match trace.last() {
            CellEvent::Change(_) => false,
            CellEvent::Poll(t) => due_at(last_change(trace.drop_last()), t) || polled_after_quiet(
                trace.drop_last(),
            ),
        }
    }
}

/// Times never go back along `trace`.
pub open spec fn in_time_order(trace: Seq<CellEvent>) -> bool {
    forall|i: int, j: int| 0 <= i <= j < trace.len() ==> trace[i].time() <= trace[j].time()
}

/// Every change of `trace` but the first comes less than a quiet period after
/// the change before it.
pub open spec fn is_burst(trace: Seq<CellEvent>) -> bool
    decreases trace.len(),
{
    if trace.len() == 0 {
        true
    } else {
        is_burst(trace.drop_last()) && match (trace.last(), last_change(trace.drop_last())) {
            (CellEvent::Change(t), Some(s)) => t - s < QUIET_PERIOD_NS,
            _ => true,
        }
    }
}

/// A later change replaces an earlier one: of two stamps only the second is
/// kept.
pub proof fn lemma_last_change_wins(pending: Option<u64>, trace: Seq<CellEvent>, t: u64)
    ensures
        cell_after(pending, trace.push(CellEvent::Change(t))) == Some(t),
        reloads(pending, trace.push(CellEvent::Change(t))) == reloads(pending, trace),
{
    let longer = trace.push(CellEvent::Change(t));
    assert(longer.drop_last() =~= trace);
}

/// A trace in time order is still so without its last event.
proof fn lemma_prefix_in_time_order(trace: Seq<CellEvent>)
    requires
        trace.len() > 0,
        in_time_order(trace),
    ensures
        in_time_order(trace.drop_last()),
{
    let init = trace.drop_last();
    assert forall|i: int, j: int| 0 <= i <= j < init.len() implies init[i].time()
        <= init[j].time() by {
        assert(init[i] == trace[i] && init[j] == trace[j]);
    }
}

/// A poll found due after the last change lies a quiet period after it.
proof fn lemma_quiet_poll_is_late(trace: Seq<CellEvent>)
    requires
        in_time_order(trace),
        polled_after_quiet(trace),
    ensures
        last_change(trace).is_some(),
        trace.len() > 0,
        trace.last().time() - last_change(trace).unwrap() >= QUIET_PERIOD_NS,
    decreases trace.len(),
{
    let init = trace.drop_last();
    match trace.last() {
        CellEvent::Change(_) => {},
        CellEvent::Poll(t) => {
            if !due_at(last_change(init), t) {
                lemma_prefix_in_time_order(trace);
                lemma_quiet_poll_is_late(init);
                assert(init.last() == trace[init.len() - 1]);
                assert(trace[init.len() - 1].time() <= trace[trace.len() - 1].time());
            }
        },
    }
}

/// Coalescing. Start from an idle cell and let changes and polls come in time
/// order, each change less than a quiet period after the change before it.
/// Then no poll is due before one comes a quiet period after the last change;
/// that poll is due and clears the cell, and no later one is due. So the
/// burst gives one reload if such a poll is among them, and none otherwise.
pub proof fn lemma_burst_gives_one_reload(trace: Seq<CellEvent>)
    requires
        in_time_order(trace),
        is_burst(trace),
    ensures
        reloads(None, trace) == if polled_after_quiet(trace) {
            1nat
        } else {
            0nat
        },
        cell_after(None, trace) == if polled_after_quiet(trace) {
            None
        } else {
            last_change(trace)
        },
    decreases trace.len(),
{
    if trace.len() > 0 {
        let init = trace.drop_last();
        lemma_prefix_in_time_order(trace);
        lemma_burst_gives_one_reload(init);
        match trace.last() {
            CellEvent::Change(t) => {
                if polled_after_quiet(init) {
                    lemma_quiet_poll_is_late(init);
                    assert(init.last() == trace[init.len() - 1]);
                    assert(trace[init.len() - 1].time() <= trace[trace.len() - 1].time());
                }
            },
            CellEvent::Poll(t) => {},
        }
    }
}

} // verus!
