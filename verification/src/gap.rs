//! Intervals in which the process has no NCCL activity in flight.
use crate::attributes::{int_attr, key_values_of, text_attr, Attr, AttrView, AttributeSet};
use crate::instruments::{
    build_histogram, histogram_record, histogram_sent, requested, InstrumentSpec, Measurement,
};
use opentelemetry::metrics::Histogram;
use vstd::prelude::*;

verus! {

const GAP_IDLE_NEVER: u64 = 0;

const GAP_IN_FLIGHT_MASK: u64 = 0xffff_ffff;

const GAP_BEGIN: u64 = 0x1_0000_0001;

/// The counters of a [`GapTracker`].
#[derive(Debug, Clone, Copy)]
pub struct GapState {
    /// Low 32 bits: activity windows in flight. High 32 bits: all windows
    /// ever begun, so that a leaked window can be told from a busy process.
    pub state: u64,
    /// The latest end of an activity window, or zero before the first.
    pub idle_since_ns: u64,
    /// `state` at the last check for leaked windows.
    pub last_state: u64,
    /// A leaked window was reported.
    pub stall_logged: bool,
}

/// `a - b`, or zero where `b` is larger.
pub open spec fn minus(a: u64, b: u64) -> u64 {
    if a < b {
        0
    } else {
        (a - b) as u64
    }
}

impl GapState {
    /// The counters before any activity.
    pub open spec fn initial() -> GapState {
        GapState { state: 0, idle_since_ns: 0, last_state: 0, stall_logged: false }
    }

    /// How many activity windows are in flight.
    pub open spec fn in_flight(self) -> int {
        self.state as int % 0x1_0000_0000
    }

    /// How many activity windows were begun, modulo 2^32.
    pub open spec fn begins(self) -> int {
        self.state as int / 0x1_0000_0000
    }

    /// After a window begins.
    pub open spec fn begin(self) -> GapState {
        GapState { state: self.state.wrapping_add(0x1_0000_0001), ..self }
    }

    /// A window that begins now ends an idle interval whose start is known.
    pub open spec fn observes_gap(self) -> bool {
        self.in_flight() == 0 && self.idle_since_ns != 0
    }

    /// The end of a window is noted.
    pub open spec fn stamp(self, now_ns: u64) -> GapState {
        GapState {
            idle_since_ns: if now_ns > self.idle_since_ns {
                now_ns
            } else {
                self.idle_since_ns
            },
            ..self
        }
    }

    /// A window leaves the count.
    pub open spec fn leave(self) -> GapState {
        GapState { state: self.state.wrapping_sub(1), ..self }
    }

    /// After a window ends: its end is noted before it leaves the count.
    pub open spec fn end(self, now_ns: u64) -> GapState {
        self.stamp(now_ns).leave()
    }

    /// Windows are in flight, and none began or ended since the last check.
    pub open spec fn is_quiet(self) -> bool {
        self.in_flight() != 0 && self.state == self.last_state
    }

    /// A check now reports a leaked window.
    pub open spec fn stalls(self) -> bool {
        self.is_quiet() && !self.stall_logged
    }

    /// After a check for leaked windows.
    pub open spec fn checked(self) -> GapState {
        GapState {
            last_state: self.state,
            stall_logged: self.stall_logged || self.is_quiet(),
            ..self
        }
    }
}

/// What a check for leaked windows does: it reports where windows are in flight,
/// none began or ended since the last check, and no leak was reported before.
pub open spec fn stall_checked(before: GapState, after: GapState, reported: bool) -> bool {
    &&& reported == before.stalls()
    &&& after == before.checked()
}

/// The attributes of a recorded gap: the process that was idle.
pub open spec fn gap_attributes(hostname: Seq<char>, pid: i32) -> Seq<AttrView> {
    seq![text_attr("nccl.hostname"@, hostname), int_attr("nccl.pid"@, pid as i64)]
}

/// What opening the instrument of a tracker does: nothing where it is open.
pub open spec fn instrument_opened(before: GapTracker, after: GapTracker) -> bool {
    &&& after.counters() == before.counters()
    &&& after.attrs() == before.attrs()
    &&& before.instrument() is Some ==> after.instrument() == before.instrument()
    &&& before.instrument() is None ==> {
        &&& after.instrument() matches Some(histogram)
        &&& requested(histogram) == (InstrumentSpec {
            scope: "CoMMA"@,
            name: "nccl.collective.gap"@,
            unit: "ns"@,
        })
        &&& histogram_sent(histogram) == Seq::<Measurement<u64>>::empty()
    }
}

/// Tracks intervals where this process has no NCCL activity in flight.
///
/// An activity window is an operation being enqueued, a proxy operation or a
/// kernel channel. The union of these windows spans each operation from its
/// API call to the end of its network and kernel work, so the recorded gaps
/// are the complement of NCCL engagement.
#[derive(Debug)]
pub struct GapTracker {
    core: GapState,
    histogram: Option<Histogram<u64>>,
    attributes: AttributeSet,
}

impl GapTracker {
    /// The counters.
    pub closed spec fn counters(&self) -> GapState {
        self.core
    }

    /// The instrument that gaps are recorded to, once there is one.
    pub closed spec fn instrument(&self) -> Option<Histogram<u64>> {
        self.histogram
    }

    /// The attributes of recorded gaps.
    pub closed spec fn attrs(&self) -> Seq<AttrView> {
        self.attributes@
    }

    /// A tracker of the process `pid` on the host `hostname`.
    pub fn new(hostname: String, pid: i32) -> (r: Self)
        ensures
            r.counters() == GapState::initial(),
            r.instrument() is None,
            r.attrs() == gap_attributes(hostname@, pid),
    {
        let mut attrs: Vec<Attr> = Vec::new();
        attrs.push(Attr::of_text("nccl.hostname", hostname));
        attrs.push(Attr::of_int("nccl.pid", pid as i64));
        let attributes = AttributeSet::new(attrs);
        assert(attributes@ =~= gap_attributes(hostname@, pid));
        GapTracker {
            core: GapState {
                state: 0,
                idle_since_ns: GAP_IDLE_NEVER,
                last_state: 0,
                stall_logged: false,
            },
            histogram: None,
            attributes,
        }
    }

    /// Opens the instrument, the first time. To be called after the meter
    /// provider is installed; before that, activity only maintains the
    /// counters.
    pub fn init_instrument(&mut self)
        ensures
            instrument_opened(*old(self), *final(self)),
    {
        if self.histogram.is_none() {
            self.histogram = Some(build_histogram("CoMMA", "nccl.collective.gap", "ns"));
        }
    }

    /// A window begins: the gap that it ends is recorded, if there is one and
    /// the instrument is open. The clock is read only to measure a gap.
    pub fn activity_begin<T>(&mut self, now_ns: T) where T: FnOnce() -> u64
        requires
            old(self).counters().observes_gap() ==> now_ns.requires(()),
        ensures
            final(self).counters() == old(self).counters().begin(),
            final(self).attrs() == old(self).attrs(),
            old(self).instrument() is None ==> final(self).instrument() is None,
            old(self).instrument() matches Some(before) ==> {
                &&& final(self).instrument() matches Some(after)
                &&& requested(after) == requested(before)
                &&& if old(self).counters().observes_gap() {
                    exists|now: u64| #[trigger]
                        now_ns.ensures((), now) && histogram_sent(after) == histogram_sent(
                            before,
                        ).push(
                            Measurement {
                                value: minus(now, old(self).counters().idle_since_ns),
                                attributes: key_values_of(old(self).attrs()),
                            },
                        )
                } else {
                    after == before
                }
            },
    {
        let gap = self.begin_transition(now_ns);
        if let Some(gap_ns) = gap {
            if let Some(histogram) = &mut self.histogram {
                histogram_record(histogram, gap_ns, self.attributes.key_values());
            }
        }
    }

    /// A window ends.
    pub fn activity_end(&mut self, now_ns: u64)
        ensures
            final(self).counters() == old(self).counters().end(now_ns),
            final(self).attrs() == old(self).attrs(),
            final(self).instrument() == old(self).instrument(),
    {
        if now_ns > self.core.idle_since_ns {
            self.core.idle_since_ns = now_ns;
        }
        self.core.state = self.core.state.wrapping_sub(1);
    }

    /// A window begins: the length of the gap that it ends, if its start is
    /// known. The clock is read only to measure a gap.
    pub fn begin_transition<T>(&mut self, now_ns: T) -> (r: Option<u64>) where T: FnOnce() -> u64
        requires
            old(self).counters().observes_gap() ==> now_ns.requires(()),
        ensures
            final(self).counters() == old(self).counters().begin(),
            final(self).attrs() == old(self).attrs(),
            final(self).instrument() == old(self).instrument(),
            r is Some <==> old(self).counters().observes_gap(),
            r matches Some(gap_ns) ==> exists|now: u64| #[trigger]
                now_ns.ensures((), now) && gap_ns == minus(
                    now,
                    old(self).counters().idle_since_ns,
                ),
    {
        let prev: u64 = self.core.state;
        self.core.state = prev.wrapping_add(GAP_BEGIN);
        assert(prev & 0xffff_ffff == prev % 0x1_0000_0000) by (bit_vector);
        if prev & GAP_IN_FLIGHT_MASK != 0 {
            return None;
        }
        let idle_since: u64 = self.core.idle_since_ns;
        if idle_since == GAP_IDLE_NEVER {
            return None;
        }
        let now: u64 = now_ns();
        Some(now.saturating_sub(idle_since))
    }

    /// Called periodically. If NCCL abandons a started event, the count in
    /// flight never returns to zero and no gap is recorded any more: this
    /// reports, once, that windows stayed in flight with no begin or end for
    /// a whole check interval.
    pub fn check_stalled(&mut self) -> (r: bool)
        ensures
            stall_checked(old(self).counters(), final(self).counters(), r),
            final(self).attrs() == old(self).attrs(),
            final(self).instrument() == old(self).instrument(),
    {
        let state: u64 = self.core.state;
        let prev: u64 = self.core.last_state;
        self.core.last_state = state;
        assert(state & 0xffff_ffff == state % 0x1_0000_0000) by (bit_vector);
        if state & GAP_IN_FLIGHT_MASK != 0 && state == prev {
            let logged = self.core.stall_logged;
            self.core.stall_logged = true;
            !logged
        } else {
            false
        }
    }

    /// How many windows are in flight.
    pub fn in_flight(&self) -> (r: usize)
        ensures
            r == self.counters().in_flight(),
    {
        let state: u64 = self.core.state;
        assert(state & 0xffff_ffff == state % 0x1_0000_0000) by (bit_vector);
        (state & GAP_IN_FLIGHT_MASK) as usize
    }
}

} // verus!
