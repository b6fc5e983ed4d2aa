//! Integration of CEF's external message pump into a host event loop.

use vstd::prelude::*;

verus! {

/// Special delay that hosts treat as "schedule a bounded idle tick".
pub const TIMER_DELAY_PLACEHOLDER_MS: i64 = 2147483647;

/// Longest delay between two message pump ticks while CEF is idle, in
/// milliseconds (roughly 30 ticks per second).
pub const MAX_TIMER_DELAY_MS: i64 = 33;

/// The delay that a scheduling request for `delay_ms` stands for: nothing below
/// zero and nothing above the idle tick.
pub open spec fn normalized_delay(delay_ms: int) -> int {
    if delay_ms <= 0 {
        0
    } else if delay_ms <= MAX_TIMER_DELAY_MS {
        delay_ms
    } else {
        MAX_TIMER_DELAY_MS as int
    }
}

/// Brings a requested delay into the range that the pump works with.
pub fn normalize_delay_ms(delay_ms: i64) -> (normalized: i64)
    ensures
        normalized == normalized_delay(delay_ms as int),
{
    if delay_ms <= 0 {
        0
    } else {
        delay_ms.min(MAX_TIMER_DELAY_MS)
    }
}

/// Coalescer for CEF's `on_schedule_message_pump_work` callbacks.
///
/// Host runtimes that forward scheduling requests from arbitrary threads to the
/// main thread keep one queue behind a lock: requests are merged into the
/// earliest one, and only a request that moves the earliest delay forward has to
/// wake the main thread.
#[derive(Debug)]
pub struct ExternalMessagePumpScheduleQueue {
    next_delay_ms: Option<i64>,
}

/// The earliest delay after a request for `delay_ms` joins `queued`.
pub open spec fn coalesced(queued: Option<int>, delay_ms: int) -> int {
    match queued {
        Some(current) if current <= normalized_delay(delay_ms) => current,
        _ => normalized_delay(delay_ms),
    }
}

/// What the queue holds once each request of `requests` was pushed in turn onto
/// a queue that held `queued`.
pub open spec fn queued_after(queued: Option<int>, requests: Seq<i64>) -> Option<int>
    decreases requests.len(),
{
    if requests.len() == 0 {
        queued
    } else {
        Some(coalesced(queued_after(queued, requests.drop_last()), requests.last() as int))
    }
}

impl View for ExternalMessagePumpScheduleQueue {
    type V = Option<int>;

    /// The earliest queued delay, if a request is waiting.
    closed spec fn view(&self) -> Option<int> {
        match self.next_delay_ms {
            Some(delay_ms) => Some(delay_ms as int),
            None => None,
        }
    }
}

impl Default for ExternalMessagePumpScheduleQueue {
    fn default() -> (queue: Self)
        ensures
            queue@ is None,
    {
        ExternalMessagePumpScheduleQueue { next_delay_ms: None }
    }
}

impl ExternalMessagePumpScheduleQueue {
    /// An empty queue.
    pub fn new() -> (queue: Self)
        ensures
            queue@ is None,
    {
        ExternalMessagePumpScheduleQueue { next_delay_ms: None }
    }

    /// Queues a scheduling request.
    ///
    /// Returns `true` when the request should wake the main thread.
    pub fn push(&mut self, delay_ms: i64) -> (should_wake: bool)
        ensures
            final(self)@ == Some(coalesced(old(self)@, delay_ms as int)),
            should_wake == (final(self)@ != old(self)@),
    {
        let normalized = normalize_delay_ms(delay_ms);
        match self.next_delay_ms {
            Some(current) => {
                let earliest: i64 = current.min(normalized);
                let should_wake = earliest != current;
                self.next_delay_ms = Some(earliest);
                should_wake
            },
            None => {
                self.next_delay_ms = Some(normalized);
                true
            },
        }
    }

    /// Drains the earliest queued delay for main-thread processing.
    pub fn pop(&mut self) -> (earliest: Option<i64>)
        ensures
            final(self)@ is None,
            earliest is Some == old(self)@ is Some,
            earliest matches Some(delay_ms) ==> old(self)@ == Some(delay_ms as int),
    {
        self.next_delay_ms.take()
    }
}

/// Requests pushed onto an empty queue coalesce to the earliest of their
/// normalized delays: no request is earlier, and one of them asked for it.
pub proof fn lemma_queue_coalesces_to_earliest(requests: Seq<i64>)
    requires
        requests.len() > 0,
    ensures
        queued_after(None, requests) is Some,
        forall|i: int| 0 <= i < requests.len() ==> queued_after(None, requests)->0
            <= normalized_delay(#[trigger] requests[i] as int),
        exists|i: int| 0 <= i < requests.len() && queued_after(None, requests)->0
            == normalized_delay(#[trigger] requests[i] as int),
    decreases requests.len(),
{
    let last = requests.len() - 1;
    let front = requests.drop_last();
    if front.len() == 0 {
        assert(queued_after(None, front) is None);
        assert(queued_after(None, requests)->0 == normalized_delay(requests[last] as int));
    } else {
        lemma_queue_coalesces_to_earliest(front);
        assert forall|i: int| 0 <= i < requests.len() implies queued_after(None, requests)->0
            <= normalized_delay(#[trigger] requests[i] as int) by {
            if i < last {
                assert(front[i] == requests[i]);
            }
        }
        let witness = choose|i: int| 0 <= i < front.len() && queued_after(None, front)->0
            == normalized_delay(#[trigger] front[i] as int);
        assert(front[witness] == requests[witness]);
        if queued_after(None, front)->0 <= normalized_delay(requests[last] as int) {
            assert(queued_after(None, requests)->0 == normalized_delay(requests[witness] as int));
        } else {
            assert(queued_after(None, requests)->0 == normalized_delay(requests[last] as int));
        }
    }
}

/// A queued delay is never negative and never beyond the idle tick, whatever was
/// requested.
pub proof fn lemma_queue_normalizes_delay_bounds(requests: Seq<i64>)
    ensures
        queued_after(None, requests) matches Some(delay_ms) ==> 0 <= delay_ms
            <= MAX_TIMER_DELAY_MS,
    decreases requests.len(),
{
    if requests.len() > 0 {
        lemma_queue_normalizes_delay_bounds(requests.drop_last());
    }
}

/// Platform timer operations required by [`ExternalMessagePump`].
///
/// A host owns at most one timer.
pub trait ExternalMessagePumpHost: Sized {
    /// The delay in milliseconds that the pending timer was armed with, or `None`
    /// while no timer is pending.
    spec fn timer(&self) -> Option<u64>;

    /// How arming a timer takes the host from `before` to `after`.
    spec fn armed(before: Self, after: Self, delay_ms: u64) -> bool;

    /// How cancelling the timer takes the host from `before` to `after`.
    spec fn disarmed(before: Self, after: Self) -> bool;

    /// Arms the timer, in place of a pending one.
    fn set_timer(&mut self, delay_ms: u64)
        ensures
            final(self).timer() == Some(delay_ms),
            Self::armed(*old(self), *final(self), delay_ms),
    ;

    /// Cancels the timer.
    fn kill_timer(&mut self)
        ensures
            final(self).timer() is None,
            Self::disarmed(*old(self), *final(self)),
    ;

    /// Tells whether a timer is pending.
    fn is_timer_pending(&self) -> (pending: bool)
        ensures
            pending == (self.timer() is Some),
    ;
}

/// What the host event loop has to do next on behalf of the pump.
#[derive(Debug, Clone, Copy, PartialEq, Eq, Structural)]
pub enum PumpStep {
    /// Nothing: the pending timer will call back.
    Idle,
    /// Run one CEF message loop iteration, then report it with
    /// [`ExternalMessagePump::message_loop_work_done`].
    RunMessageLoopWork,
}

/// Main-thread state machine that drives CEF's message loop from a host event
/// loop.
///
/// The pump decides when a CEF message loop iteration runs; the host event loop
/// runs it. Requests that arrive while an iteration is running are reentrant:
/// they make the pump run another iteration as soon as the current one ends.
#[derive(Debug)]
pub struct ExternalMessagePump {
    is_active: bool,
    reentrancy_detected: bool,
}

/// The state of an [`ExternalMessagePump`].
pub struct PumpState {
    /// A message loop iteration is running.
    pub is_active: bool,
    /// An iteration was asked for while one was running.
    pub reentrancy_detected: bool,
}

/// The host was disarmed and armed again with a timer of `delay_ms`.
pub open spec fn rearmed<H: ExternalMessagePumpHost>(before: H, after: H, delay_ms: u64) -> bool {
    exists|mid: H|
        {
            &&& #[trigger] H::disarmed(before, mid)
            &&& mid.timer() is None
            &&& H::armed(mid, after, delay_ms)
            &&& after.timer() == Some(delay_ms)
        }
}

/// The host was left with a pending timer: its own, or else a bounded idle tick.
pub open spec fn kept_ticking<H: ExternalMessagePumpHost>(before: H, after: H) -> bool {
    if before.timer() is Some {
        after == before
    } else {
        rearmed(before, after, MAX_TIMER_DELAY_MS as u64)
    }
}

/// An iteration of the CEF message loop is asked for.
///
/// With no iteration running, one is started. Otherwise the running one is
/// marked as reentered, and the host is kept ticking.
pub open spec fn work_requested<H: ExternalMessagePumpHost>(
    before: PumpState,
    host_before: H,
    after: PumpState,
    host_after: H,
    step: PumpStep,
) -> bool {
    if before.is_active {
        &&& after == (PumpState { is_active: true, reentrancy_detected: true })
        &&& kept_ticking(host_before, host_after)
        &&& step == PumpStep::Idle
    } else {
        &&& after == (PumpState { is_active: true, reentrancy_detected: false })
        &&& host_after == host_before
        &&& step == PumpStep::RunMessageLoopWork
    }
}

/// As [`work_requested`], after the host's timer was cancelled.
pub open spec fn work_requested_now<H: ExternalMessagePumpHost>(
    before: PumpState,
    host_before: H,
    after: PumpState,
    host_after: H,
    step: PumpStep,
) -> bool {
    exists|mid: H|
        {
            &&& #[trigger] H::disarmed(host_before, mid)
            &&& mid.timer() is None
            &&& work_requested(before, mid, after, host_after, step)
        }
}

/// CEF asked for work in `delay_ms` milliseconds.
pub open spec fn work_scheduled<H: ExternalMessagePumpHost>(
    before: PumpState,
    host_before: H,
    delay_ms: int,
    after: PumpState,
    host_after: H,
    step: PumpStep,
) -> bool {
    if delay_ms == TIMER_DELAY_PLACEHOLDER_MS && host_before.timer() is Some {
        // The pending timer already guarantees a tick.
        &&& after == before
        &&& host_after == host_before
        &&& step == PumpStep::Idle
    } else if delay_ms > 0 {
        &&& after == before
        &&& rearmed(host_before, host_after, normalized_delay(delay_ms) as u64)
        &&& step == PumpStep::Idle
    } else {
        work_requested_now(before, host_before, after, host_after, step)
    }
}

/// The running iteration of the CEF message loop ended.
///
/// A reentered iteration is followed by another one at once. Otherwise the pump
/// rests, with a timer pending.
pub open spec fn work_finished<H: ExternalMessagePumpHost>(
    before: PumpState,
    host_before: H,
    after: PumpState,
    host_after: H,
    step: PumpStep,
) -> bool {
    let resting = PumpState { is_active: false, ..before };
    if before.reentrancy_detected {
        work_requested_now(resting, host_before, after, host_after, step)
    } else {
        &&& after == resting
        &&& kept_ticking(host_before, host_after)
        &&& step == PumpStep::Idle
    }
}

impl View for ExternalMessagePump {
    type V = PumpState;

    closed spec fn view(&self) -> PumpState {
        PumpState { is_active: self.is_active, reentrancy_detected: self.reentrancy_detected }
    }
}

impl Default for ExternalMessagePump {
    fn default() -> (pump: Self)
        ensures
            pump@ == (PumpState { is_active: false, reentrancy_detected: false }),
    {
        ExternalMessagePump { is_active: false, reentrancy_detected: false }
    }
}

impl ExternalMessagePump {
    /// A pump with no iteration running.
    pub fn new() -> (pump: Self)
        ensures
            pump@ == (PumpState { is_active: false, reentrancy_detected: false }),
    {
        ExternalMessagePump { is_active: false, reentrancy_detected: false }
    }

    /// Tells whether a message loop iteration is running.
    pub fn is_active(&self) -> (active: bool)
        ensures
            active == self@.is_active,
    {
        self.is_active
    }

    /// Entry point for CEF's scheduling callbacks, forwarded to the main thread.
    #[must_use]
    pub fn on_schedule_message_pump_work<H: ExternalMessagePumpHost>(
        &mut self,
        host: &mut H,
        delay_ms: i64,
    ) -> (step: PumpStep)
        ensures
            work_scheduled(
                old(self)@,
                *old(host),
                delay_ms as int,
                final(self)@,
                *final(host),
                step,
            ),
    {
        if delay_ms == TIMER_DELAY_PLACEHOLDER_MS && host.is_timer_pending() {
            return PumpStep::Idle;
        }
        host.kill_timer();
        if delay_ms <= 0 {
            self.do_work(host)
        } else {
            host.set_timer(normalize_delay_ms(delay_ms) as u64);
            PumpStep::Idle
        }
    }

    /// To be called when the host timer fires.
    #[must_use]
    pub fn on_timer<H: ExternalMessagePumpHost>(&mut self, host: &mut H) -> (step: PumpStep)
        ensures
            work_requested_now(old(self)@, *old(host), final(self)@, *final(host), step),
    {
        host.kill_timer();
        self.do_work(host)
    }

    /// Asks for one CEF message loop iteration.
    #[must_use]
    pub fn do_message_loop_work<H: ExternalMessagePumpHost>(&mut self, host: &mut H) -> (step:
        PumpStep)
        ensures
            work_requested(old(self)@, *old(host), final(self)@, *final(host), step),
    {
        self.do_work(host)
    }

    fn do_work<H: ExternalMessagePumpHost>(&mut self, host: &mut H) -> (step: PumpStep)
        ensures
            work_requested(old(self)@, *old(host), final(self)@, *final(host), step),
    {
        if self.is_active {
            self.reentrancy_detected = true;
            keep_ticking(host);
            return PumpStep::Idle;
        }
        self.reentrancy_detected = false;
        self.is_active = true;
        PumpStep::RunMessageLoopWork
    }

    /// To be called when the CEF message loop iteration that a
    /// [`PumpStep::RunMessageLoopWork`] asked for has returned.
    #[must_use]
    pub fn message_loop_work_done<H: ExternalMessagePumpHost>(&mut self, host: &mut H) -> (step:
        PumpStep)
        requires
            old(self)@.is_active,
        ensures
            work_finished(old(self)@, *old(host), final(self)@, *final(host), step),
    {
        self.is_active = false;
        if self.reentrancy_detected {
            self.on_schedule_message_pump_work(host, 0)
        } else {
            keep_ticking(host);
            PumpStep::Idle
        }
    }
}

/// Arms a bounded idle tick unless a timer is pending.
fn keep_ticking<H: ExternalMessagePumpHost>(host: &mut H)
    ensures
        kept_ticking(*old(host), *final(host)),
{
    if !host.is_timer_pending() {
        host.kill_timer();
        host.set_timer(normalize_delay_ms(TIMER_DELAY_PLACEHOLDER_MS) as u64);
    }
}

/// After a scheduling request the pump is alive: an iteration of the message loop
/// is running, or a timer is pending.
pub proof fn lemma_scheduling_never_stalls<H: ExternalMessagePumpHost>(
    before: PumpState,
    host_before: H,
    delay_ms: i64,
    after: PumpState,
    host_after: H,
    step: PumpStep,
)
    requires
        work_scheduled(before, host_before, delay_ms as int, after, host_after, step),
    ensures
        step == PumpStep::RunMessageLoopWork ==> after.is_active,
        step == PumpStep::Idle ==> host_after.timer() is Some,
{
}

/// When an iteration ends, either the next one starts or a timer is pending: the
/// pump never stops by itself.
pub proof fn lemma_finished_work_never_stalls<H: ExternalMessagePumpHost>(
    before: PumpState,
    host_before: H,
    after: PumpState,
    host_after: H,
    step: PumpStep,
)
    requires
        work_finished(before, host_before, after, host_after, step),
    ensures
        step == PumpStep::RunMessageLoopWork ==> after.is_active,
        step == PumpStep::Idle ==> host_after.timer() is Some && !after.is_active,
{
}

/// A timer that a scheduling request arms fires after a millisecond at the earliest and
/// within the idle tick, and a request for a positive delay never fires later than it asked
/// for. The one request that arms no timer and leaves one is that for an idle tick beside a
/// pending timer.
pub proof fn lemma_timers_are_bounded<H: ExternalMessagePumpHost>(
    before: PumpState,
    host_before: H,
    delay_ms: i64,
    after: PumpState,
    host_after: H,
    step: PumpStep,
)
    requires
        work_scheduled(before, host_before, delay_ms as int, after, host_after, step),
        delay_ms != TIMER_DELAY_PLACEHOLDER_MS || host_before.timer() is None,
        host_after.timer() is Some,
    ensures
        1 <= host_after.timer()->0 <= MAX_TIMER_DELAY_MS,
        delay_ms > 0 ==> host_after.timer()->0 <= delay_ms,
{
}

/// A timer that the end of an iteration arms is an idle tick.
pub proof fn lemma_finished_work_arms_idle_ticks<H: ExternalMessagePumpHost>(
    before: PumpState,
    host_before: H,
    after: PumpState,
    host_after: H,
    step: PumpStep,
)
    requires
        work_finished(before, host_before, after, host_after, step),
        step == PumpStep::Idle,
    ensures
        host_after.timer() == match host_before.timer() {
            Some(delay_ms) => Some(delay_ms),
            None => Some(MAX_TIMER_DELAY_MS as u64),
        },
{
}

/// A request that arrives while an iteration runs is not lost: when the iteration
/// ends, another one starts.
pub proof fn lemma_reentrant_requests_run<H: ExternalMessagePumpHost>(
    running: PumpState,
    host_running: H,
    reentered: PumpState,
    host_reentered: H,
    first: PumpStep,
    after: PumpState,
    host_after: H,
    second: PumpStep,
)
    requires
        running.is_active,
        work_requested_now(running, host_running, reentered, host_reentered, first),
        work_finished(reentered, host_reentered, after, host_after, second),
    ensures
        first == PumpStep::Idle,
        second == PumpStep::RunMessageLoopWork,
        after == (PumpState { is_active: true, reentrancy_detected: false }),
{
}

/// Delays up to the idle tick are kept, longer ones are cut to it, and there are none below
/// zero.
pub proof fn lemma_delays_are_cut(delay_ms: i64, normalized: i64)
    requires
        call_ensures(normalize_delay_ms, (delay_ms,), normalized),
    ensures
        0 <= delay_ms <= 33 ==> normalized == delay_ms,
        delay_ms < 0 ==> normalized == 0,
        delay_ms > 33 ==> normalized == 33,
{
}

/// A queue holds the earlier of what it held and what was requested. It wakes the main thread
/// exactly if it was empty or the request is the earlier one. What is taken out of it was in
/// it, and leaves it empty.
pub proof fn lemma_queue_holds_the_earliest(
    delay_ms: i64,
    normalized: i64,
    should_wake: bool,
    earliest: Option<i64>,
)
    requires
        call_ensures(normalize_delay_ms, (delay_ms,), normalized),
    ensures
        forall|queue: &mut ExternalMessagePumpScheduleQueue| #[trigger]
            call_ensures(ExternalMessagePumpScheduleQueue::push, (queue, delay_ms), should_wake)
                ==> {
                let before = (*queue)@;
                let after = (*final(queue))@;
                &&& after is Some
                &&& before is None ==> after->Some_0 == normalized && should_wake
                &&& before matches Some(held) ==> {
                    &&& after->Some_0 <= held && after->Some_0 <= normalized
                    &&& after->Some_0 == held || after->Some_0 == normalized
                    &&& should_wake <==> normalized < held
                }
            },
        forall|queue: &mut ExternalMessagePumpScheduleQueue| #[trigger]
            call_ensures(ExternalMessagePumpScheduleQueue::pop, (queue,), earliest) ==> {
                &&& (*final(queue))@ is None
                &&& earliest is None <==> (*queue)@ is None
                &&& earliest matches Some(delay_ms) ==> (*queue)@ == Some(delay_ms as int)
            },
{
}

} // verus!
