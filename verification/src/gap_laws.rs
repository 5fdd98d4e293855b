//! What holds of gap tracking over whole histories.
use crate::gap::{minus, stall_checked, GapState};
use vstd::prelude::*;

verus! {

/// One atomic step of gap tracking. A window that begins is one `Enter`; a
/// window that ends is a `Stamp` and then a `Leave`, and steps of other
/// windows may come between the two.
pub enum GapStep {
    Enter,
    Stamp(u64),
    Leave,
}

/// The counters after one step.
pub open spec fn after_step(s: GapState, step: GapStep) -> GapState {
    match step {
        GapStep::Enter => s.begin(),
        GapStep::Stamp(now_ns) => s.stamp(now_ns),
        GapStep::Leave => s.leave(),
    }
}

/// The counters after all of `steps`.
pub open spec fn after_steps(s: GapState, steps: Seq<GapStep>) -> GapState
    decreases steps.len(),
{
    if steps.len() == 0 {
        s
    } else {
        after_step(after_steps(s, steps.drop_last()), steps.last())
    }
}

/// How often `Enter` occurs.
pub open spec fn enters(steps: Seq<GapStep>) -> int
    decreases steps.len(),
{
    if steps.len() == 0 {
        0
    } else {
        enters(steps.drop_last()) + if steps.last() is Enter {
            1int
        } else {
            0int
        }
    }
}

/// How often `Stamp` occurs.
pub open spec fn stamps(steps: Seq<GapStep>) -> int
    decreases steps.len(),
{
    if steps.len() == 0 {
        0
    } else {
        stamps(steps.drop_last()) + if steps.last() is Stamp {
            1int
        } else {
            0int
        }
    }
}

/// How often `Leave` occurs.
pub open spec fn leaves(steps: Seq<GapStep>) -> int
    decreases steps.len(),
{
    if steps.len() == 0 {
        0
    } else {
        leaves(steps.drop_last()) + if steps.last() is Leave {
            1int
        } else {
            0int
        }
    }
}

/// Every window begins before it ends and is stamped before it leaves, and
/// fewer than 2^32 windows are in flight at any time.
pub open spec fn disciplined(steps: Seq<GapStep>) -> bool
    decreases steps.len(),
{
    &&& leaves(steps) <= stamps(steps) <= enters(steps)
    &&& enters(steps) - leaves(steps) < 0x1_0000_0000
    &&& steps.len() > 0 ==> disciplined(steps.drop_last())
}

/// `t` is the latest end that was noted.
pub open spec fn is_latest_end(steps: Seq<GapStep>, t: u64) -> bool {
    &&& forall|i: int|
        0 <= i < steps.len() ==> (#[trigger] steps[i] matches GapStep::Stamp(now_ns) ==> now_ns
            <= t)
    &&& t == 0 || exists|i: int|
        0 <= i < steps.len() && #[trigger] steps[i] == GapStep::Stamp(t)
}

proof fn lemma_after_steps(steps: Seq<GapStep>)
    requires
        disciplined(steps),
    ensures
        leaves(steps) >= 0,
        after_steps(GapState::initial(), steps).in_flight() == enters(steps) - leaves(steps),
        after_steps(GapState::initial(), steps).begins() == enters(steps) % 0x1_0000_0000,
        is_latest_end(steps, after_steps(GapState::initial(), steps).idle_since_ns),
    decreases steps.len(),
{
    if steps.len() > 0 {
        let rest = steps.drop_last();
        lemma_after_steps(rest);
        let before = after_steps(GapState::initial(), rest);
        law_begin_and_end_balance(before, 0);
        let after = after_steps(GapState::initial(), steps);
        assert forall|i: int| 0 <= i < steps.len() implies (#[trigger] steps[i] matches GapStep::Stamp(
            now_ns,
        ) ==> now_ns <= after.idle_since_ns) by {
            if i < rest.len() {
                assert(rest[i] == steps[i]);
            }
        }
        if after.idle_since_ns != 0 {
            if after.idle_since_ns == before.idle_since_ns {
                let i = choose|i: int|
                    0 <= i < rest.len() && #[trigger] rest[i] == GapStep::Stamp(
                        before.idle_since_ns,
                    );
                assert(steps[i] == GapStep::Stamp(after.idle_since_ns));
            } else {
                assert(steps[steps.len() - 1] == GapStep::Stamp(after.idle_since_ns));
            }
        }
    }
}

/// However the steps of concurrent windows interleave, the count in flight is
/// the number of windows that began and did not leave yet, and the windows
/// ever begun are counted modulo 2^32.
pub proof fn law_in_flight_is_exact(steps: Seq<GapStep>)
    requires
        disciplined(steps),
    ensures
        after_steps(GapState::initial(), steps).in_flight() == enters(steps) - leaves(steps),
        after_steps(GapState::initial(), steps).begins() == enters(steps) % 0x1_0000_0000,
{
    lemma_after_steps(steps);
}

/// However the steps of concurrent windows interleave, whenever nothing is in
/// flight every window that began has noted its end, and the idle interval
/// starts at the latest of these ends.
pub proof fn law_idle_starts_at_latest_end(steps: Seq<GapStep>)
    requires
        disciplined(steps),
        after_steps(GapState::initial(), steps).in_flight() == 0,
    ensures
        stamps(steps) == enters(steps),
        is_latest_end(steps, after_steps(GapState::initial(), steps).idle_since_ns),
{
    lemma_after_steps(steps);
}

proof fn lemma_idle_start_grows(s: GapState, steps: Seq<GapStep>)
    ensures
        after_steps(s, steps).idle_since_ns >= s.idle_since_ns,
    decreases steps.len(),
{
    if steps.len() > 0 {
        lemma_idle_start_grows(s, steps.drop_last());
    }
}

/// A window that ends an idle interval never reads a start from a previous
/// idle period: whatever steps come between its `Enter`, which found nothing
/// in flight, and its reading of the idle start, the value read is not before
/// any end noted until its `Enter`.
pub proof fn law_idle_start_is_never_stale(before: Seq<GapStep>, between: Seq<GapStep>, i: int)
    requires
        disciplined(before),
        after_steps(GapState::initial(), before).in_flight() == 0,
        0 <= i < before.len(),
    ensures
        before[i] matches GapStep::Stamp(now_ns) ==> after_steps(
            after_steps(GapState::initial(), before).begin(),
            between,
        ).idle_since_ns >= now_ns,
{
    law_idle_starts_at_latest_end(before);
    lemma_idle_start_grows(after_steps(GapState::initial(), before).begin(), between);
}

/// Begin adds one window in flight and one begun; end takes one out of flight
/// again.
pub proof fn law_begin_and_end_balance(s: GapState, now_ns: u64)
    ensures
        s.in_flight() < 0xffff_ffff ==> s.begin().in_flight() == s.in_flight() + 1
            && s.begin().begins() == (s.begins() + 1) % 0x1_0000_0000,
        s.in_flight() > 0 ==> s.end(now_ns).in_flight() == s.in_flight() - 1 && s.end(
            now_ns,
        ).begins() == s.begins(),
        s.begin().end(now_ns).in_flight() == s.in_flight(),
{
}

/// An idle interval is reported at most once: after the window that ends it
/// began, no other window reports a gap until nothing is in flight again.
pub proof fn law_one_gap_per_idle_interval(s: GapState)
    requires
        s.observes_gap(),
    ensures
        !s.begin().observes_gap(),
{
}

/// What callers do with a gap tracker.
pub enum GapOp {
    Begin,
    End(u64),
    Check,
}

/// The counters after one operation.
pub open spec fn after_op(s: GapState, op: GapOp) -> GapState {
    match op {
        GapOp::Begin => s.begin(),
        GapOp::End(now_ns) => s.end(now_ns),
        GapOp::Check => s.checked(),
    }
}

/// The counters after all of `ops`.
pub open spec fn after_ops(s: GapState, ops: Seq<GapOp>) -> GapState
    decreases ops.len(),
{
    if ops.len() == 0 {
        s
    } else {
        after_op(after_ops(s, ops.drop_last()), ops.last())
    }
}

/// A leaked window is reported once: after a check that reports, no check
/// reports again, whatever happens.
pub proof fn law_stall_is_reported_once(s: GapState, ops: Seq<GapOp>)
    requires
        s.stalls(),
    ensures
        !after_ops(s.checked(), ops).stalls(),
{
    lemma_report_is_remembered(s.checked(), ops);
}

proof fn lemma_report_is_remembered(s: GapState, ops: Seq<GapOp>)
    requires
        s.stall_logged,
    ensures
        after_ops(s, ops).stall_logged,
    decreases ops.len(),
{
    if ops.len() > 0 {
        lemma_report_is_remembered(s, ops.drop_last());
    }
}

/// A leaked window is reported, unless one was before: with windows in flight
/// and nothing happening between two checks, the second reports.
pub proof fn law_leak_is_reported(s: GapState)
    requires
        s.in_flight() != 0,
        !s.checked().stall_logged,
    ensures
        s.checked().stalls(),
{
}

/// A check reports exactly where windows are in flight, the counters stand as
/// they stood at the last check, and no leak was reported before. It touches
/// neither the windows nor the idle start.
pub proof fn law_checks_report_leaks(before: GapState, after: GapState, reported: bool)
    requires
        stall_checked(before, after, reported),
    ensures
        reported <==> before.in_flight() > 0 && before.state == before.last_state
            && !before.stall_logged,
        after.state == before.state,
        after.idle_since_ns == before.idle_since_ns,
        after.last_state == before.state,
        reported ==> after.stall_logged,
        before.stall_logged ==> after.stall_logged,
        !reported && !before.stall_logged ==> !after.stall_logged,
{
}

/// Of two checks with nothing between them, where windows are in flight, the
/// first or the second reports unless one did before, and never both.
pub proof fn law_two_checks_report_once(
    s0: GapState,
    s1: GapState,
    s2: GapState,
    first: bool,
    second: bool,
)
    requires
        stall_checked(s0, s1, first),
        stall_checked(s1, s2, second),
    ensures
        !(first && second),
        s0.in_flight() > 0 && !s0.stall_logged ==> first || second,
        s0.in_flight() == 0 ==> !first && !second,
{
}

/// How many windows begin in `ops`.
pub open spec fn begun(ops: Seq<GapOp>) -> int
    decreases ops.len(),
{
    if ops.len() == 0 {
        0
    } else {
        begun(ops.drop_last()) + if ops.last() is Begin {
            1int
        } else {
            0int
        }
    }
}

/// How many windows end in `ops`.
pub open spec fn ended(ops: Seq<GapOp>) -> int
    decreases ops.len(),
{
    if ops.len() == 0 {
        0
    } else {
        ended(ops.drop_last()) + if ops.last() is End {
            1int
        } else {
            0int
        }
    }
}

/// `ops` are begins and ends of windows, starting from `n` windows in flight:
/// no window ends that did not begin, and fewer than 2^32 windows are in
/// flight at any time.
pub open spec fn plain_activity(n: int, ops: Seq<GapOp>) -> bool
    decreases ops.len(),
{
    &&& 0 <= n + begun(ops) - ended(ops) < 0x1_0000_0000
    &&& ops.len() > 0 ==> !(ops.last() is Check) && plain_activity(n, ops.drop_last())
}

proof fn lemma_after_ops(s: GapState, ops: Seq<GapOp>)
    requires
        plain_activity(s.in_flight(), ops),
    ensures
        begun(ops) >= 0,
        ended(ops) >= 0,
        begun(ops) + ended(ops) == ops.len(),
        after_ops(s, ops).in_flight() == s.in_flight() + begun(ops) - ended(ops),
        after_ops(s, ops).begins() == (s.begins() + begun(ops)) % 0x1_0000_0000,
        after_ops(s, ops).last_state == s.last_state,
        after_ops(s, ops).stall_logged == s.stall_logged,
    decreases ops.len(),
{
    if ops.len() > 0 {
        let rest = ops.drop_last();
        lemma_after_ops(s, rest);
        let mid = after_ops(s, rest);
        match ops.last() {
            GapOp::Begin => {
                law_begin_and_end_balance(mid, 0);
            },
            GapOp::End(now_ns) => {
                law_begin_and_end_balance(mid, now_ns);
            },
            GapOp::Check => {},
        }
    }
}

/// Ongoing activity is never mistaken for a leaked window: where fewer than
/// 2^32 windows began since the last check, and at least one began or ended,
/// the next check does not report. In general a check reports exactly where
/// windows are in flight, none was reported before, and a multiple of 2^32
/// windows, or none, began and as many ended.
pub proof fn law_activity_is_no_stall(s: GapState, ops: Seq<GapOp>)
    requires
        plain_activity(s.in_flight(), ops),
    ensures
        after_ops(s.checked(), ops).stalls() <==> {
            &&& s.in_flight() != 0
            &&& !s.checked().stall_logged
            &&& begun(ops) == ended(ops)
            &&& begun(ops) % 0x1_0000_0000 == 0
        },
        ops.len() > 0 && begun(ops) < 0x1_0000_0000 ==> !after_ops(s.checked(), ops).stalls(),
{
    lemma_after_ops(s.checked(), ops);
}

/// A window begins or ends at a point in time.
pub struct TimedOp {
    pub begins: bool,
    pub time: u64,
}

/// The counters after all of `ops`.
pub open spec fn after_timed(ops: Seq<TimedOp>) -> GapState
    decreases ops.len(),
{
    if ops.len() == 0 {
        GapState::initial()
    } else {
        let s = after_timed(ops.drop_last());
        if ops.last().begins {
            s.begin()
        } else {
            s.end(ops.last().time)
        }
    }
}

/// The sum of the gaps that are reported during `ops`.
pub open spec fn reported_gaps(ops: Seq<TimedOp>) -> int
    decreases ops.len(),
{
    if ops.len() == 0 {
        0
    } else {
        let s = after_timed(ops.drop_last());
        reported_gaps(ops.drop_last()) + if ops.last().begins && s.observes_gap() {
            minus(ops.last().time, s.idle_since_ns) as int
        } else {
            0
        }
    }
}

/// How many windows began.
pub open spec fn timed_begins(ops: Seq<TimedOp>) -> int
    decreases ops.len(),
{
    if ops.len() == 0 {
        0
    } else {
        timed_begins(ops.drop_last()) + if ops.last().begins {
            1int
        } else {
            0int
        }
    }
}

/// How many windows began and did not end yet.
pub open spec fn open_windows(ops: Seq<TimedOp>) -> int {
    2 * timed_begins(ops) - ops.len()
}

/// How long no window was open, from the first of `ops` to the last.
pub open spec fn idle_time(ops: Seq<TimedOp>) -> int
    decreases ops.len(),
{
    if ops.len() <= 1 {
        0
    } else {
        idle_time(ops.drop_last()) + if open_windows(ops.drop_last()) == 0 {
            ops.last().time - ops.drop_last().last().time
        } else {
            0
        }
    }
}

/// Time does not run backwards, no window ends at zero or without having
/// begun, and fewer than 2^32 windows are open at any time.
pub open spec fn well_timed(ops: Seq<TimedOp>) -> bool
    decreases ops.len(),
{
    ops.len() > 0 ==> {
        &&& well_timed(ops.drop_last())
        &&& !ops.last().begins ==> 0 < ops.last().time
        &&& ops.len() > 1 ==> ops.drop_last().last().time <= ops.last().time
        &&& 0 <= open_windows(ops) < 0x1_0000_0000
    }
}

proof fn lemma_after_timed(ops: Seq<TimedOp>)
    requires
        well_timed(ops),
    ensures
        0 <= timed_begins(ops) <= ops.len(),
        0 <= open_windows(ops),
        after_timed(ops).in_flight() == open_windows(ops),
        ops.len() == 0 ==> after_timed(ops).idle_since_ns == 0,
        ops.len() == 1 ==> after_timed(ops).idle_since_ns == 0 && open_windows(ops) == 1,
        ops.len() > 0 ==> after_timed(ops).idle_since_ns <= ops.last().time,
        ops.len() > 0 && open_windows(ops) == 0 ==> !ops.last().begins && after_timed(
            ops,
        ).idle_since_ns == ops.last().time,
    decreases ops.len(),
{
    if ops.len() > 0 {
        let rest = ops.drop_last();
        lemma_after_timed(rest);
        law_begin_and_end_balance(after_timed(rest), ops.last().time);
    }
}

/// The gaps are the complement of NCCL engagement: however windows overlap,
/// the reported gaps add up to the time in which no window was open, from the
/// first begin on.
pub proof fn law_gaps_are_the_idle_time(ops: Seq<TimedOp>)
    requires
        well_timed(ops),
    ensures
        reported_gaps(ops) == idle_time(ops),
    decreases ops.len(),
{
    if ops.len() > 0 {
        let rest = ops.drop_last();
        law_gaps_are_the_idle_time(rest);
        lemma_after_timed(rest);
        assert(rest.len() > 0 && !rest.last().begins ==> rest.last().time > 0) by {
            reveal_with_fuel(well_timed, 2);
        }
    }
}

} // verus!
