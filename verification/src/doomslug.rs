use vstd::prelude::*;
use crate::block::{spec_approval, Approval};
use crate::clock::Clock;
use crate::crypto::CryptoHash;
use crate::types::{BlockHeight, BlockHeightDelta, DurationMs, TimeMs};

verus! {

/// Cap on iterations of one timer pass, instead of an unbounded loop, so a
/// late call services at most this many overdue deadlines and leaves the rest
/// to the next call.
pub const MAX_TIMER_ITERS: usize = 20;

/// `a + b`, saturating at `u64::MAX`.
pub open spec fn sat_add(a: u64, b: u64) -> u64 {
    if a + b > u64::MAX {
        u64::MAX
    } else {
        (a + b) as u64
    }
}

/// `a - b`, saturating at 0.
pub open spec fn sat_sub(a: u64, b: u64) -> u64 {
    if a >= b {
        (a - b) as u64
    } else {
        0u64
    }
}

/// Tracks one scheduling epoch: when it started, when the last endorsement
/// deadline was serviced, the height being timed, and the four configured
/// delays.
pub struct DoomslugTimer {
    pub started: TimeMs,
    pub last_endorsement_sent: TimeMs,
    pub height: BlockHeight,
    pub endorsement_delay: DurationMs,
    pub min_delay: DurationMs,
    pub delay_step: DurationMs,
    pub max_delay: DurationMs,
}

/// How many whole delay steps a stall of `n` heights adds to the skip delay:
/// the first two heights are free, and the count is clamped to what fits in a
/// `u32` before it is multiplied.
pub open spec fn spec_delay_steps(n: BlockHeightDelta) -> int {
    let clamped: int = if n > u32::MAX as u64 {
        u32::MAX as int
    } else {
        n as int
    };
    if clamped >= 2 {
        clamped - 2
    } else {
        0
    }
}

/// The skip delay after a stall of `n` heights:
/// `min(max_delay, min_delay + delay_step * max(min(n, u32::MAX) - 2, 0))`.
pub open spec fn spec_delay(timer: DoomslugTimer, n: BlockHeightDelta) -> DurationMs {
    let raw: int = timer.min_delay + timer.delay_step * spec_delay_steps(n);
    if raw <= timer.max_delay {
        raw as u64
    } else {
        timer.max_delay
    }
}

impl DoomslugTimer {
    /// Computes the delay to wait before a skip fires, given `n`, the number
    /// of heights since the last block known to be final: the flat
    /// `min_delay` for the first two heights of a stall, then growing by one
    /// `delay_step` per height, capped at `max_delay`.
    pub fn get_delay(&self, n: BlockHeightDelta) -> (d: DurationMs)
        ensures
            d == spec_delay(*self, n),
    {
        let n32: u32 = match u32::try_from(n) {
            Ok(v) => v,
            Err(_) => u32::MAX,
        };
        let steps: u32 = n32.saturating_sub(2);
        proof {
            assert((self.delay_step as int) * (steps as int) <= (u64::MAX as int) * (u32::MAX as int))
                by (nonlinear_arith)
                requires
                    self.delay_step <= u64::MAX,
                    steps <= u32::MAX,
            ;
        }
        let raw: u128 = (self.min_delay as u128) + (self.delay_step as u128) * (steps as u128);
        if raw <= self.max_delay as u128 {
            raw as u64
        } else {
            self.max_delay
        }
    }
}

/// The orchestrator's view of the chain head. Replaced wholesale on every tip
/// update, never mutated in place.
pub struct DoomslugTip {
    pub block_hash: CryptoHash,
    pub height: BlockHeight,
}

/// The orchestrator: holds the tip, target-height bookkeeping and the timer;
/// produces approvals on tip updates and timer passes.
pub struct Doomslug {
    pub clock: Clock,
    /// Largest target height for which we issued an approval.
    pub largest_target_height: BlockHeight,
    /// Largest height for which we saw a block containing enough endorsements.
    pub largest_final_height: BlockHeight,
    /// Information Doomslug tracks about the chain tip.
    pub tip: DoomslugTip,
    /// Whether an endorsement is owed since the tip was last updated.
    pub endorsement_pending: bool,
    /// Information to track the timer.
    pub timer: DoomslugTimer,
}

/// The orchestrator's scheduling state: everything but the clock handle.
pub ghost struct DsView {
    pub largest_target_height: BlockHeight,
    pub largest_final_height: BlockHeight,
    pub tip: DoomslugTip,
    pub endorsement_pending: bool,
    pub timer: DoomslugTimer,
}

impl View for Doomslug {
    type V = DsView;

    open spec fn view(&self) -> DsView {
        DsView {
            largest_target_height: self.largest_target_height,
            largest_final_height: self.largest_final_height,
            tip: self.tip,
            endorsement_pending: self.endorsement_pending,
            timer: self.timer,
        }
    }
}

/// Well-formedness: the tip height leaves room for a height directly above
/// it, so an endorsement target always exists.
pub open spec fn view_wf(s: DsView) -> bool {
    s.tip.height < BlockHeight::MAX
}

/// The instant at which the pending endorsement (if any) is due.
pub open spec fn endorsement_deadline(s: DsView) -> TimeMs {
    sat_add(s.timer.last_endorsement_sent, s.timer.endorsement_delay)
}

/// The skip delay of the current epoch: the delay for the number of heights
/// the timed height has drifted past the last final height.
pub open spec fn spec_skip_delay(s: DsView) -> DurationMs {
    spec_delay(s.timer, sat_sub(s.timer.height, s.largest_final_height))
}

/// The instant at which the current epoch's skip is due.
pub open spec fn skip_deadline(s: DsView) -> TimeMs {
    sat_add(s.timer.started, spec_skip_delay(s))
}

/// Servicing the endorsement deadline at `now`: if an endorsement is pending
/// and due, the deadline is marked serviced, and when the tip has not been
/// approved yet, the endorsement for the height directly above it is emitted.
pub open spec fn spec_endorse(s: DsView, now: TimeMs) -> (DsView, Seq<Approval>) {
    if s.endorsement_pending && now >= endorsement_deadline(s) {
        let serviced = DsView {
            endorsement_pending: false,
            timer: DoomslugTimer { last_endorsement_sent: now, ..s.timer },
            ..s
        };
        if s.tip.height >= s.largest_target_height {
            let target = sat_add(s.tip.height, 1);
            (
                DsView { largest_target_height: target, ..serviced },
                seq![spec_approval(s.tip.block_hash, s.tip.height, target)],
            )
        } else {
            (serviced, Seq::empty())
        }
    } else {
        (s, Seq::empty())
    }
}

/// Firing one skip: the approval for the height directly above the timed
/// height is emitted, the timed height advances by one, and the epoch start
/// advances by the epoch's skip delay — not to `now`, so overdue skips fire
/// at their originally scheduled virtual instants.
pub open spec fn spec_skip(s: DsView) -> (DsView, Approval) {
    let target = sat_add(s.timer.height, 1);
    let bumped = if target >= s.largest_target_height {
        target
    } else {
        s.largest_target_height
    };
    (
        DsView {
            largest_target_height: bumped,
            timer: DoomslugTimer {
                started: sat_add(s.timer.started, spec_skip_delay(s)),
                height: sat_add(s.timer.height, 1),
                ..s.timer
            },
            ..s
        },
        spec_approval(s.tip.block_hash, s.tip.height, target),
    )
}

/// One timer pass at instant `now` with `fuel` iterations left: service the
/// endorsement deadline, then fire overdue skips one epoch at a time until
/// the next skip deadline lies in the future or the fuel runs out.
pub open spec fn spec_ticks(s: DsView, now: TimeMs, fuel: nat) -> (DsView, Seq<Approval>)
    decreases fuel,
{
    if fuel == 0 {
        (s, Seq::empty())
    } else {
        let (s1, first) = spec_endorse(s, now);
        if now >= skip_deadline(s1) {
            let (s2, skip) = spec_skip(s1);
            let (s3, rest) = spec_ticks(s2, now, (fuel - 1) as nat);
            (s3, first + seq![skip] + rest)
        } else {
            (s1, first)
        }
    }
}

/// Whether an approval is an endorsement.
pub open spec fn is_endorsement(a: Approval) -> bool {
    a.inner is Endorsement
}

/// Whether an approval is a skip.
pub open spec fn is_skip(a: Approval) -> bool {
    a.inner is Skip
}

/// How many approvals of a sequence are endorsements.
pub open spec fn endorsement_count(s: Seq<Approval>) -> nat
    decreases s.len(),
{
    if s.len() == 0 {
        0nat
    } else {
        endorsement_count(s.drop_last()) + if is_endorsement(s.last()) {
            1nat
        } else {
            0nat
        }
    }
}

/// How many approvals of a sequence are skips.
pub open spec fn skip_count(s: Seq<Approval>) -> nat
    decreases s.len(),
{
    if s.len() == 0 {
        0nat
    } else {
        skip_count(s.drop_last()) + if is_skip(s.last()) {
            1nat
        } else {
            0nat
        }
    }
}

proof fn lemma_endorsement_count_add(a: Seq<Approval>, b: Seq<Approval>)
    ensures
        endorsement_count(a + b) == endorsement_count(a) + endorsement_count(b),
    decreases b.len(),
{
    if b.len() == 0 {
        assert(a + b =~= a);
    } else {
        lemma_endorsement_count_add(a, b.drop_last());
        assert((a + b).drop_last() =~= a + b.drop_last());
        assert((a + b).last() == b.last());
    }
}

proof fn lemma_skip_count_add(a: Seq<Approval>, b: Seq<Approval>)
    ensures
        skip_count(a + b) == skip_count(a) + skip_count(b),
    decreases b.len(),
{
    if b.len() == 0 {
        assert(a + b =~= a);
    } else {
        lemma_skip_count_add(a, b.drop_last());
        assert((a + b).drop_last() =~= a + b.drop_last());
        assert((a + b).last() == b.last());
    }
}

proof fn lemma_count_singleton(a: Approval)
    ensures
        endorsement_count(seq![a]) == if is_endorsement(a) {
            1nat
        } else {
            0nat
        },
        skip_count(seq![a]) == if is_skip(a) {
            1nat
        } else {
            0nat
        },
{
    assert(endorsement_count(Seq::<Approval>::empty()) == 0);
    assert(skip_count(Seq::<Approval>::empty()) == 0);
    assert(seq![a].drop_last() =~= Seq::<Approval>::empty());
    assert(seq![a].last() == a);
}

/// Every approval is an endorsement or a skip, so a sequence's length is the
/// sum of its two counts.
proof fn lemma_len_is_counts(s: Seq<Approval>)
    ensures
        s.len() == endorsement_count(s) + skip_count(s),
    decreases s.len(),
{
    if s.len() > 0 {
        lemma_len_is_counts(s.drop_last());
    }
}

/// The delay schedule's laws: the delay never exceeds `max_delay`; it is
/// non-decreasing in the stall length; and (whenever the cap is no shorter
/// than the floor) the first two heights of a stall get the flat `min_delay`.
pub proof fn lemma_delay_schedule(timer: DoomslugTimer, a: BlockHeightDelta, b: BlockHeightDelta)
    ensures
        spec_delay(timer, a) <= timer.max_delay,
        a <= b ==> spec_delay(timer, a) <= spec_delay(timer, b),
        timer.min_delay <= timer.max_delay && a <= 2 ==> spec_delay(timer, a) == timer.min_delay,
{
    assert(timer.delay_step * spec_delay_steps(a) >= 0 && timer.delay_step * spec_delay_steps(b)
        >= 0 && (spec_delay_steps(a) == 0 ==> timer.delay_step * spec_delay_steps(a) == 0) && (
    spec_delay_steps(a) <= spec_delay_steps(b) ==> timer.delay_step * spec_delay_steps(a)
        <= timer.delay_step * spec_delay_steps(b))) by (nonlinear_arith)
        requires
            timer.delay_step >= 0,
            spec_delay_steps(a) >= 0,
            spec_delay_steps(b) >= 0,
    ;
}

/// A timer pass never lowers the largest approved target height, whatever
/// instant it runs at.
pub proof fn lemma_target_height_monotone(s: DsView, now: TimeMs, fuel: nat)
    ensures
        spec_ticks(s, now, fuel).0.largest_target_height >= s.largest_target_height,
    decreases fuel,
{
    if fuel > 0 {
        let (s1, first) = spec_endorse(s, now);
        if now >= skip_deadline(s1) {
            let (s2, skip) = spec_skip(s1);
            lemma_target_height_monotone(s2, now, (fuel - 1) as nat);
        }
    }
}

/// A fired skip advances the timed height by exactly one, schedules the next
/// epoch at the old epoch's start plus its skip delay — `spec_skip` does not
/// read the instant the pass ran at — and targets the height directly above
/// the old timed height.
pub proof fn lemma_skip_schedule(s: DsView)
    requires
        s.timer.height < BlockHeight::MAX,
    ensures
        spec_skip(s).0.timer.height == s.timer.height + 1,
        spec_skip(s).0.timer.started == sat_add(s.timer.started, spec_skip_delay(s)),
        spec_skip(s).1.target_height == s.timer.height + 1,
{
}

/// A timer pass of `fuel` iterations emits at most `fuel` skip approvals: a
/// pass of the full `MAX_TIMER_ITERS` fuel can never return more than
/// `MAX_TIMER_ITERS` skips, however far the clock has run ahead.
pub proof fn lemma_skip_cap(s: DsView, now: TimeMs, fuel: nat)
    requires
        view_wf(s),
    ensures
        skip_count(spec_ticks(s, now, fuel).1) <= fuel,
    decreases fuel,
{
    if fuel > 0 {
        let (s1, first) = spec_endorse(s, now);
        assert(skip_count(first) == 0) by {
            assert(skip_count(Seq::<Approval>::empty()) == 0);
            if first.len() > 0 {
                assert(first =~= seq![first[0]]);
                lemma_count_singleton(first[0]);
            }
        }
        if now >= skip_deadline(s1) {
            let (s2, skip) = spec_skip(s1);
            let (s3, rest) = spec_ticks(s2, now, (fuel - 1) as nat);
            lemma_skip_cap(s2, now, (fuel - 1) as nat);
            lemma_count_singleton(skip);
            lemma_skip_count_add(first, seq![skip]);
            lemma_skip_count_add(first + seq![skip], rest);
        }
    }
}

/// A timer pass of `fuel` iterations returns at most `fuel + 1` approvals in
/// all: its skips, and at most one endorsement.
pub proof fn lemma_tick_output_bound(s: DsView, now: TimeMs, fuel: nat)
    requires
        view_wf(s),
        s.tip.height < s.timer.height,
        s.timer.height + fuel <= BlockHeight::MAX,
    ensures
        spec_ticks(s, now, fuel).1.len() <= fuel + 1,
    decreases fuel,
{
    let out = spec_ticks(s, now, fuel).1;
    lemma_len_is_counts(out);
    lemma_skip_cap(s, now, fuel);
    lemma_endorsement_exactly_once(s, now, fuel);
}

/// The endorsement law for one timer pass over a state whose timed height
/// lies above the tip (as it does from every tip update on): the pass emits
/// exactly one endorsement — for the height directly above the tip, first in
/// the returned sequence — when one is pending, due, and the tip is not yet
/// approved; otherwise none. The pending flag survives the pass exactly when
/// the deadline has not been reached (so the pass never re-arms it), and once
/// it is cleared, no later pass without an intervening tip update emits an
/// endorsement.
pub proof fn lemma_endorsement_exactly_once(s: DsView, now: TimeMs, fuel: nat)
    requires
        view_wf(s),
        s.tip.height < s.timer.height,
        s.timer.height + fuel <= BlockHeight::MAX,
    ensures
        ({
            let (s_end, out) = spec_ticks(s, now, fuel);
            let due = fuel > 0 && s.endorsement_pending && now >= endorsement_deadline(s)
                && s.tip.height >= s.largest_target_height;
            &&& endorsement_count(out) == if due {
                1nat
            } else {
                0nat
            }
            &&& (due ==> out.len() >= 1 && out[0] == spec_approval(
                s.tip.block_hash,
                s.tip.height,
                sat_add(s.tip.height, 1),
            ))
            &&& s_end.endorsement_pending == (s.endorsement_pending && (fuel == 0 || now
                < endorsement_deadline(s)))
        }),
    decreases fuel,
{
    if fuel > 0 {
        let (s1, first) = spec_endorse(s, now);
        assert(endorsement_count(first) == if first.len() > 0 {
            1nat
        } else {
            0nat
        }) by {
            if first.len() > 0 {
                lemma_count_singleton(first[0]);
                assert(first =~= seq![first[0]]);
            }
        }
        if now >= skip_deadline(s1) {
            let (s2, skip) = spec_skip(s1);
            let (s3, rest) = spec_ticks(s2, now, (fuel - 1) as nat);
            lemma_endorsement_exactly_once(s2, now, (fuel - 1) as nat);
            lemma_count_singleton(skip);
            assert(!is_endorsement(skip));
            lemma_endorsement_count_add(first, seq![skip]);
            lemma_endorsement_count_add(first + seq![skip], rest);
        }
    }
}

/// A timer pass never touches the tip, the last final height or the
/// configured delays, and advances the timed height by at most one per unit
/// of fuel, never lowering it.
pub proof fn lemma_tick_frame(s: DsView, now: TimeMs, fuel: nat)
    ensures
        spec_ticks(s, now, fuel).0.tip == s.tip,
        spec_ticks(s, now, fuel).0.largest_final_height == s.largest_final_height,
        spec_ticks(s, now, fuel).0.timer.endorsement_delay == s.timer.endorsement_delay,
        spec_ticks(s, now, fuel).0.timer.min_delay == s.timer.min_delay,
        spec_ticks(s, now, fuel).0.timer.delay_step == s.timer.delay_step,
        spec_ticks(s, now, fuel).0.timer.max_delay == s.timer.max_delay,
        s.timer.height <= spec_ticks(s, now, fuel).0.timer.height,
        spec_ticks(s, now, fuel).0.timer.height <= s.timer.height + fuel,
    decreases fuel,
{
    if fuel > 0 {
        let (s1, first) = spec_endorse(s, now);
        if now >= skip_deadline(s1) {
            let (s2, skip) = spec_skip(s1);
            lemma_tick_frame(s2, now, (fuel - 1) as nat);
        }
    }
}

/// Without an intervening tip update, two successive timer passes emit at
/// most one endorsement between them: whichever pass services the pending
/// deadline clears it, and no pass re-arms it.
pub proof fn lemma_endorsement_never_twice(s: DsView, now1: TimeMs, now2: TimeMs)
    requires
        view_wf(s),
        s.tip.height < s.timer.height,
        s.timer.height + 2 * MAX_TIMER_ITERS <= BlockHeight::MAX,
    ensures
        ({
            let (mid, out1) = spec_ticks(s, now1, MAX_TIMER_ITERS as nat);
            let out2 = spec_ticks(mid, now2, MAX_TIMER_ITERS as nat).1;
            endorsement_count(out1) + endorsement_count(out2) <= 1
        }),
{
    let (mid, out1) = spec_ticks(s, now1, MAX_TIMER_ITERS as nat);
    lemma_endorsement_exactly_once(s, now1, MAX_TIMER_ITERS as nat);
    lemma_tick_frame(s, now1, MAX_TIMER_ITERS as nat);
    lemma_endorsement_exactly_once(mid, now2, MAX_TIMER_ITERS as nat);
}

/// Refused configuration: the endorsement schedule would collide with the
/// skip schedule.
#[derive(Debug, Clone, Copy, PartialEq, Eq)]
pub enum ConfigError {
    /// `min_delay` is shorter than twice `endorsement_delay`.
    MinDelayTooShort,
}

impl Doomslug {
    pub open spec fn wf(&self) -> bool {
        view_wf(self@)
    }

    /// Constructs an orchestrator with the given time source, the largest
    /// target height approved so far, and the four delays. Refuses a
    /// configuration whose `min_delay` is shorter than twice
    /// `endorsement_delay`: with such delays the skip schedule and the
    /// endorsement schedule could collide.
    pub fn new(
        clock: Clock,
        largest_target_height: BlockHeight,
        endorsement_delay: DurationMs,
        min_delay: DurationMs,
        delay_step: DurationMs,
        max_delay: DurationMs,
    ) -> (r: Result<Doomslug, ConfigError>)
        ensures
            r is Ok <==> 2 * endorsement_delay <= min_delay,
            r matches Ok(d) ==> {
                &&& d@.largest_target_height == largest_target_height
                &&& d@.largest_final_height == 0
                &&& d@.tip.height == 0
                &&& (forall|i: int| 0 <= i < 32 ==> d@.tip.block_hash.0@[i] == 0u8)
                &&& !d@.endorsement_pending
                &&& d@.timer.height == 0
                &&& d@.timer.started == d@.timer.last_endorsement_sent
                &&& d@.timer.endorsement_delay == endorsement_delay
                &&& d@.timer.min_delay == min_delay
                &&& d@.timer.delay_step == delay_step
                &&& d@.timer.max_delay == max_delay
                &&& d.wf()
            },
    {
        if endorsement_delay > min_delay / 2 {
            return Err(ConfigError::MinDelayTooShort);
        }
        let now = clock.now();
        Ok(Doomslug {
            clock,
            largest_target_height,
            largest_final_height: 0,
            tip: DoomslugTip { block_hash: CryptoHash::default(), height: 0 },
            endorsement_pending: false,
            timer: DoomslugTimer {
                started: now,
                last_endorsement_sent: now,
                height: 0,
                endorsement_delay,
                min_delay,
                delay_step,
                max_delay,
            },
        })
    }

    /// Updates the current tip of the chain and restarts the timer: the timed
    /// height becomes the height directly above the tip, the epoch starts
    /// now, and an endorsement becomes pending — whatever the prior state.
    /// The heights are not validated: the caller must supply a tip at least
    /// as high as the previous one.
    pub fn set_tip(
        &mut self,
        block_hash: CryptoHash,
        height: BlockHeight,
        last_final_height: BlockHeight,
    )
        requires
            height < BlockHeight::MAX,
        ensures
            final(self)@.tip.block_hash == block_hash,
            final(self)@.tip.height == height,
            final(self)@.largest_final_height == last_final_height,
            final(self)@.timer.height == height + 1,
            final(self)@.endorsement_pending,
            final(self)@.largest_target_height == old(self)@.largest_target_height,
            final(self)@.timer.last_endorsement_sent == old(self)@.timer.last_endorsement_sent,
            final(self)@.timer.endorsement_delay == old(self)@.timer.endorsement_delay,
            final(self)@.timer.min_delay == old(self)@.timer.min_delay,
            final(self)@.timer.delay_step == old(self)@.timer.delay_step,
            final(self)@.timer.max_delay == old(self)@.timer.max_delay,
            final(self).clock == old(self).clock,
            final(self).wf(),
    {
        self.tip = DoomslugTip { block_hash, height };
        self.largest_final_height = last_final_height;
        self.timer.height = height + 1;
        let now = self.clock.now();
        self.timer.started = now;
        self.endorsement_pending = true;
    }

    /// The approval for `target_height` built on the current tip.
    pub fn create_approval(&self, target_height: BlockHeight) -> (r: Option<Approval>)
        requires
            self.wf(),
        ensures
            r == Some(spec_approval(self.tip.block_hash, self.tip.height, target_height)),
    {
        Some(Approval::new(self.tip.block_hash, self.tip.height, target_height))
    }

    /// One timer pass at the caller-supplied instant `now`: exactly the
    /// bounded catch-up loop of [`spec_ticks`], returning the approvals it
    /// emits in order.
    pub fn process_timer_at(&mut self, now: TimeMs) -> (approvals: Vec<Approval>)
        requires
            old(self).wf(),
        ensures
            final(self)@ == spec_ticks(old(self)@, now, MAX_TIMER_ITERS as nat).0,
            approvals@ == spec_ticks(old(self)@, now, MAX_TIMER_ITERS as nat).1,
            final(self).clock == old(self).clock,
            final(self).wf(),
    {
        let mut approvals: Vec<Approval> = Vec::new();
        let mut i: usize = 0;
        loop
            invariant_except_break
                i <= MAX_TIMER_ITERS,
                self.wf(),
                self.clock == old(self).clock,
                spec_ticks(old(self)@, now, MAX_TIMER_ITERS as nat).0 == spec_ticks(
                    self@,
                    now,
                    (MAX_TIMER_ITERS - i) as nat,
                ).0,
                spec_ticks(old(self)@, now, MAX_TIMER_ITERS as nat).1 == approvals@ + spec_ticks(
                    self@,
                    now,
                    (MAX_TIMER_ITERS - i) as nat,
                ).1,
            ensures
                self.wf(),
                self.clock == old(self).clock,
                spec_ticks(old(self)@, now, MAX_TIMER_ITERS as nat).0 == self@,
                spec_ticks(old(self)@, now, MAX_TIMER_ITERS as nat).1 == approvals@,
            decreases MAX_TIMER_ITERS - i,
        {
            if i >= MAX_TIMER_ITERS {
                proof {
                    assert(approvals@ + Seq::<Approval>::empty() =~= approvals@);
                }
                break;
            }
            let ghost pre = self@;
            let ghost fuel = (MAX_TIMER_ITERS - i) as nat;
            let ghost acc0 = approvals@;

            let skip_delay = self.timer.get_delay(
                self.timer.height.saturating_sub(self.largest_final_height),
            );

            let tip_height = self.tip.height;
            if self.endorsement_pending
                && now >= self.timer.last_endorsement_sent.saturating_add(
                    self.timer.endorsement_delay,
                )
            {
                if tip_height >= self.largest_target_height {
                    self.largest_target_height = tip_height + 1;
                    if let Some(approval) = self.create_approval(tip_height + 1) {
                        approvals.push(approval);
                    }
                }
                self.timer.last_endorsement_sent = now;
                self.endorsement_pending = false;
            }
            proof {
                assert(self@ == spec_endorse(pre, now).0);
                assert(acc0 + spec_endorse(pre, now).1 =~= approvals@);
            }

            if now >= self.timer.started.saturating_add(skip_delay) {
                let ghost s1 = self@;
                let ghost acc1 = approvals@;
                let target = self.timer.height.saturating_add(1);
                if target >= self.largest_target_height {
                    self.largest_target_height = target;
                }
                if let Some(approval) = self.create_approval(target) {
                    approvals.push(approval);
                }
                self.timer.started = self.timer.started.saturating_add(skip_delay);
                self.timer.height = self.timer.height.saturating_add(1);
                i += 1;
                proof {
                    assert(skip_delay == spec_skip_delay(s1));
                    assert(now >= skip_deadline(s1));
                    assert(self@ == spec_skip(s1).0);
                    assert(approvals@ =~= acc1 + seq![spec_skip(s1).1]);
                    assert(acc0 + (spec_endorse(pre, now).1 + seq![spec_skip(s1).1]) =~= approvals@);
                    assert(spec_ticks(pre, now, fuel).0 == spec_ticks(self@, now, (fuel - 1) as nat).0);
                    assert(spec_ticks(pre, now, fuel).1 == spec_endorse(pre, now).1 + seq![
                        spec_skip(s1).1,
                    ] + spec_ticks(self@, now, (fuel - 1) as nat).1);
                    assert(acc0 + spec_ticks(pre, now, fuel).1 =~= approvals@ + spec_ticks(
                        self@,
                        now,
                        (fuel - 1) as nat,
                    ).1);
                }
            } else {
                proof {
                    assert(spec_ticks(pre, now, fuel).0 == self@);
                    assert(spec_ticks(pre, now, fuel).1 == spec_endorse(pre, now).1);
                }
                break;
            }
        }
        approvals
    }

    /// Reads the time source once and runs one timer pass at that instant.
    /// Which instant the clock hands back is outside this library's control;
    /// whatever it was, the pass is exactly [`spec_ticks`] at it.
    pub fn process_timer(&mut self) -> (approvals: Vec<Approval>)
        requires
            old(self).wf(),
        ensures
            exists|now: TimeMs|
                final(self)@ == #[trigger] spec_ticks(old(self)@, now, MAX_TIMER_ITERS as nat).0
                    && approvals@ == spec_ticks(old(self)@, now, MAX_TIMER_ITERS as nat).1,
            final(self).clock == old(self).clock,
            final(self).wf(),
    {
        let now = self.clock.now();
        let approvals = self.process_timer_at(now);
        proof {
            assert(self@ == spec_ticks(old(self)@, now, MAX_TIMER_ITERS as nat).0
                && approvals@ == spec_ticks(old(self)@, now, MAX_TIMER_ITERS as nat).1);
        }
        approvals
    }
}

} // verus!
