//! Timer and message pump of the main thread.
//!
//! Clock readings are nanoseconds of a monotonic clock, counted from a moment
//! that the embedding application picks. The application reads the clock and
//! passes the reading in.

use crate::external_message_pump::{
    ExternalMessagePump, ExternalMessagePumpHost, PumpStep,
};
use vstd::prelude::*;

verus! {

/// Nanoseconds in a millisecond.
pub const NANOS_PER_MILLI: u128 = 1000000;

/// A moment on the monotonic clock at which a timer fires, in nanoseconds.
#[derive(Debug, Clone, Copy, PartialEq, Eq, Structural)]
pub struct Deadline {
    pub nanos: u128,
}

/// A pending timer.
#[derive(Debug, Clone, Copy)]
pub struct ArmedTimer {
    /// The clock reading at which the timer was armed.
    pub set_at: u64,
    /// The delay that it was armed with.
    pub delay_ms: u64,
}

/// The moment at which a timer armed at `set_at` with `delay_ms` fires.
pub open spec fn fires_at(set_at: u64, delay_ms: u64) -> Deadline {
    Deadline { nanos: (set_at + delay_ms * NANOS_PER_MILLI) as u128 }
}

/// The single timer of the main thread.
#[derive(Debug)]
pub struct TimerHost {
    /// The latest clock reading that the host was told.
    pub clock: u64,
    /// The pending timer.
    pub pending: Option<ArmedTimer>,
}

impl TimerHost {
    /// The moment at which the pending timer fires.
    pub open spec fn due_at(&self) -> Option<Deadline> {
        match self.pending {
            Some(timer) => Some(fires_at(timer.set_at, timer.delay_ms)),
            None => None,
        }
    }

    /// A host with no timer pending.
    pub fn new() -> (host: Self)
        ensures
            host.pending is None,
            host.clock == 0,
    {
        TimerHost { clock: 0, pending: None }
    }

    /// Tells the host what the clock reads now.
    pub fn set_clock(&mut self, now: u64)
        ensures
            *final(self) == (TimerHost { clock: now, ..*old(self) }),
    {
        self.clock = now;
    }

    /// The moment at which the pending timer fires, if one is pending.
    pub fn deadline(&self) -> (deadline: Option<Deadline>)
        ensures
            deadline == self.due_at(),
    {
        match self.pending {
            Some(timer) => {
                let nanos: u128 = timer.set_at as u128 + timer.delay_ms as u128 * NANOS_PER_MILLI;
                Some(Deadline { nanos })
            },
            None => None,
        }
    }

    /// Tells whether the pending timer has fired by `now`.
    pub fn is_due(&self, now: u64) -> (due: bool)
        ensures
            due == (self.due_at() matches Some(deadline) && now >= deadline.nanos),
    {
        match self.deadline() {
            Some(deadline) => now as u128 >= deadline.nanos,
            None => false,
        }
    }
}

impl Default for TimerHost {
    fn default() -> (host: Self)
        ensures
            host.pending is None,
            host.clock == 0,
    {
        TimerHost { clock: 0, pending: None }
    }
}

impl ExternalMessagePumpHost for TimerHost {
    open spec fn timer(&self) -> Option<u64> {
        match self.pending {
            Some(timer) => Some(timer.delay_ms),
            None => None,
        }
    }

    open spec fn armed(before: Self, after: Self, delay_ms: u64) -> bool {
        &&& after.clock == before.clock
        &&& after.pending == Some(ArmedTimer { set_at: before.clock, delay_ms })
    }

    open spec fn disarmed(before: Self, after: Self) -> bool {
        &&& after.clock == before.clock
        &&& after.pending is None
    }

    fn set_timer(&mut self, delay_ms: u64) {
        self.pending = Some(ArmedTimer { set_at: self.clock, delay_ms });
    }

    fn kill_timer(&mut self) {
        self.pending = None;
    }

    fn is_timer_pending(&self) -> (pending: bool) {
        self.pending.is_some()
    }
}

/// The message pump of the main thread, with its timer.
#[derive(Debug)]
pub struct RuntimePump {
    pub pump: ExternalMessagePump,
    pub host: TimerHost,
}

impl Default for RuntimePump {
    fn default() -> (pump: Self)
        ensures
            pump.is_fresh(),
    {
        RuntimePump { pump: ExternalMessagePump::new(), host: TimerHost::new() }
    }
}

impl RuntimePump {
    /// Nothing was scheduled yet and no message loop iteration is running.
    pub open spec fn is_fresh(&self) -> bool {
        &&& !self.pump@.is_active
        &&& !self.pump@.reentrancy_detected
        &&& self.host.pending is None
    }

    /// The pump at clock reading `now`.
    pub open spec fn at(self, now: u64) -> RuntimePump {
        RuntimePump { pump: self.pump, host: TimerHost { clock: now, ..self.host } }
    }

    /// A pump with nothing scheduled.
    pub fn new() -> (pump: Self)
        ensures
            pump.is_fresh(),
    {
        RuntimePump { pump: ExternalMessagePump::new(), host: TimerHost::new() }
    }

    /// Handles CEF's request for work in `delay_ms` milliseconds, made at `now`.
    #[must_use]
    pub fn schedule_work(&mut self, delay_ms: i64, now: u64) -> (step: PumpStep)
        ensures
            crate::external_message_pump::work_scheduled(
                old(self).pump@,
                old(self).at(now).host,
                delay_ms as int,
                final(self).pump@,
                final(self).host,
                step,
            ),
    {
        self.host.set_clock(now);
        self.pump.on_schedule_message_pump_work(&mut self.host, delay_ms)
    }

    /// Starts a message loop iteration if the timer has fired by `now`.
    #[must_use]
    pub fn process_due_work(&mut self, now: u64) -> (step: PumpStep)
        ensures
            if old(self).host.due_at() matches Some(deadline) && now >= deadline.nanos {
                crate::external_message_pump::work_requested_now(
                    old(self).pump@,
                    old(self).at(now).host,
                    final(self).pump@,
                    final(self).host,
                    step,
                )
            } else {
                *final(self) == *old(self) && step == PumpStep::Idle
            },
    {
        if self.host.is_due(now) {
            self.host.set_clock(now);
            self.pump.on_timer(&mut self.host)
        } else {
            PumpStep::Idle
        }
    }

    /// Reports, at `now`, that the message loop iteration that was asked for has
    /// returned.
    #[must_use]
    pub fn message_loop_work_done(&mut self, now: u64) -> (step: PumpStep)
        requires
            old(self).pump@.is_active,
        ensures
            crate::external_message_pump::work_finished(
                old(self).pump@,
                old(self).at(now).host,
                final(self).pump@,
                final(self).host,
                step,
            ),
    {
        self.host.set_clock(now);
        self.pump.message_loop_work_done(&mut self.host)
    }

    /// The moment at which the timer fires, if one is pending.
    pub fn next_deadline(&self) -> (deadline: Option<Deadline>)
        ensures
            deadline == self.host.due_at(),
    {
        self.host.deadline()
    }
}

/// Scheduling work for a positive delay sets a deadline that lies at most one idle tick
/// ahead, in place of a pending one. Only an idle tick leaves a pending one as it is.
pub proof fn lemma_positive_delay_sets_deadline(
    before: RuntimePump,
    delay_ms: i64,
    now: u64,
    after: RuntimePump,
    step: PumpStep,
)
    requires
        delay_ms > 0,
        delay_ms != crate::external_message_pump::TIMER_DELAY_PLACEHOLDER_MS
            || before.host.pending is None,
        crate::external_message_pump::work_scheduled(
            before.pump@,
            before.at(now).host,
            delay_ms as int,
            after.pump@,
            after.host,
            step,
        ),
    ensures
        step == PumpStep::Idle,
        after.host.due_at() == Some(
            fires_at(
                now,
                crate::external_message_pump::normalized_delay(delay_ms as int) as u64,
            ),
        ),
        now < after.host.due_at()->0.nanos <= now
            + crate::external_message_pump::MAX_TIMER_DELAY_MS * NANOS_PER_MILLI,
{
}

/// A request for a later moment arms the timer from now on, with its delay up to the idle
/// tick, in place of a pending one; only a request for an idle tick leaves a pending timer. A
/// request for work at once starts an iteration of the message loop, without a timer, or, while
/// one runs, is kept until it ends, with an idle tick.
pub proof fn lemma_requests_are_scheduled(delay_ms: i64, now: u64, step: PumpStep)
    ensures
        forall|pump: &mut RuntimePump| #[trigger]
            call_ensures(RuntimePump::schedule_work, (pump, delay_ms, now), step) ==> {
                let (before, after) = (*pump, *final(pump));
                let idle_tick_pends = delay_ms == 2147483647 && before.host.pending is Some;
                &&& idle_tick_pends ==> {
                    &&& step == PumpStep::Idle
                    &&& after.pump@ == before.pump@
                    &&& after.host.pending == before.host.pending
                }
                &&& delay_ms > 0 && !idle_tick_pends ==> {
                    &&& step == PumpStep::Idle
                    &&& after.pump@ == before.pump@
                    &&& after.host.pending is Some
                    &&& after.host.pending->Some_0.set_at == now
                    &&& delay_ms <= 33 ==> after.host.pending->Some_0.delay_ms == delay_ms
                    &&& delay_ms > 33 ==> after.host.pending->Some_0.delay_ms == 33
                }
                &&& delay_ms <= 0 && !before.pump@.is_active ==> {
                    &&& step == PumpStep::RunMessageLoopWork
                    &&& after.pump@.is_active && !after.pump@.reentrancy_detected
                    &&& after.host.pending is None
                }
                &&& delay_ms <= 0 && before.pump@.is_active ==> {
                    &&& step == PumpStep::Idle
                    &&& after.pump@.is_active && after.pump@.reentrancy_detected
                    &&& after.host.pending == Some(ArmedTimer { set_at: now, delay_ms: 33 })
                }
            },
{
}

/// A timer fires once as many milliseconds have passed as it was armed with, and not before.
/// Then an iteration of the message loop is started, or asked for again while one runs.
pub proof fn lemma_fired_timers_start_work(now: u64, step: PumpStep)
    ensures
        forall|pump: &mut RuntimePump| #[trigger]
            call_ensures(RuntimePump::process_due_work, (pump, now), step) ==> {
                let (before, after) = (*pump, *final(pump));
                let fired = before.host.pending is Some && now
                    >= before.host.pending->Some_0.set_at + 1000000
                    * before.host.pending->Some_0.delay_ms;
                &&& !fired ==> step == PumpStep::Idle && after == before
                &&& fired && !before.pump@.is_active ==> {
                    &&& step == PumpStep::RunMessageLoopWork
                    &&& after.pump@.is_active && !after.pump@.reentrancy_detected
                    &&& after.host.pending is None
                }
                &&& fired && before.pump@.is_active ==> {
                    &&& step == PumpStep::Idle
                    &&& after.pump@.is_active && after.pump@.reentrancy_detected
                    &&& after.host.pending == Some(ArmedTimer { set_at: now, delay_ms: 33 })
                }
            },
{
}

/// At the end of an iteration another one starts if it was asked for meanwhile. Otherwise none
/// runs, and the pending timer stays, or an idle tick is armed from now on.
pub proof fn lemma_work_ends_or_goes_on(now: u64, step: PumpStep)
    ensures
        forall|pump: &mut RuntimePump|
            (*pump).pump@.is_active && #[trigger] call_ensures(
                RuntimePump::message_loop_work_done,
                (pump, now),
                step,
            ) ==> {
                let (before, after) = (*pump, *final(pump));
                &&& before.pump@.reentrancy_detected ==> {
                    &&& step == PumpStep::RunMessageLoopWork
                    &&& after.pump@.is_active && !after.pump@.reentrancy_detected
                    &&& after.host.pending is None
                }
                &&& !before.pump@.reentrancy_detected ==> {
                    &&& step == PumpStep::Idle
                    &&& !after.pump@.is_active
                    &&& before.host.pending is Some ==> after.host.pending == before.host.pending
                    &&& before.host.pending is None ==> after.host.pending == Some(
                        ArmedTimer { set_at: now, delay_ms: 33 },
                    )
                }
            },
{
}

/// The deadline of a pump lies as many milliseconds after the moment at which its timer was
/// armed as it was armed with.
pub proof fn lemma_deadline_is_when_the_timer_fires(
    pump: &RuntimePump,
    deadline: Option<Deadline>,
    now: u64,
    due: bool,
)
    requires
        call_ensures(RuntimePump::next_deadline, (pump,), deadline),
        call_ensures(TimerHost::is_due, (&pump.host, now), due),
    ensures
        deadline is Some <==> pump.host.pending is Some,
        deadline matches Some(deadline) ==> {
            &&& deadline.nanos == pump.host.pending->Some_0.set_at + 1000000
                * pump.host.pending->Some_0.delay_ms
            &&& due <==> now >= deadline.nanos
        },
        deadline is None ==> !due,
{
}

} // verus!
