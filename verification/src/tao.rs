//! Message pump for tao event loops.

use crate::external_message_pump;
use crate::external_message_pump::{ExternalMessagePumpScheduleQueue, PumpStep};
use crate::pump::{Deadline, RuntimePump};
use vstd::prelude::*;

verus! {

/// Event by which the pump wakes the event loop.
#[derive(Debug, Clone, Copy, PartialEq, Eq, Structural)]
pub enum CefPumpEvent {
    ScheduleWork,
}

/// The tao event loop is closed.
#[derive(Debug, Clone, Copy, PartialEq, Eq, Structural)]
pub struct EventLoopClosed;

impl EventLoopClosed {
    /// The message shown for this error.
    pub fn message(&self) -> (text: String)
        ensures
            text@ == "tao event loop is closed"@,
    {
        "tao event loop is closed".to_string()
    }
}

/// Sender of user events to an event loop.
///
/// Events are collected in the order in which they were sent, for the
/// application to hand them to the event loop. An event loop that is gone accepts
/// none.
#[derive(Debug)]
pub struct EventLoopProxy<T> {
    pub closed: bool,
    pub sent: Vec<T>,
}

impl<T> EventLoopProxy<T> {
    /// A proxy of a running event loop.
    pub fn new() -> (proxy: Self)
        ensures
            !proxy.closed,
            proxy.sent@ == Seq::<T>::empty(),
    {
        EventLoopProxy { closed: false, sent: Vec::new() }
    }

    /// Sends an event to the event loop.
    pub fn send_event(&mut self, event: T) -> (result: Result<(), EventLoopClosed>)
        ensures
            final(self).closed == old(self).closed,
            result is Err <==> old(self).closed,
            final(self).sent@ == if old(self).closed {
                old(self).sent@
            } else {
                old(self).sent@.push(event)
            },
    {
        if self.closed {
            Err(EventLoopClosed)
        } else {
            self.sent.push(event);
            Ok(())
        }
    }
}

/// What a tao event loop reports, as far as the pump is concerned.
#[derive(Debug)]
pub enum PumpLoopEvent {
    UserEvent(CefPumpEvent),
    MainEventsCleared,
    Other,
}

/// How the event loop waits for its next event, or that it ends.
#[derive(Debug, Clone, Copy, PartialEq, Eq, Structural)]
pub enum ControlFlow {
    Poll,
    Wait,
    WaitUntil(Deadline),
    ExitWithCode(i32),
}

/// Sender of scheduling requests to the pump of an event loop.
#[derive(Debug)]
pub struct TaoExternalPumpHandle {
    pub proxy: EventLoopProxy<CefPumpEvent>,
}

impl TaoExternalPumpHandle {
    /// Queues a request for work in `delay_ms` milliseconds and wakes the event
    /// loop if the request moved the earliest delay forward.
    pub fn schedule_work(
        &mut self,
        queue: &mut ExternalMessagePumpScheduleQueue,
        delay_ms: i64,
    ) -> (result: Result<(), EventLoopClosed>)
        ensures
            final(queue)@ == Some(external_message_pump::coalesced(old(queue)@, delay_ms as int)),
            final(self).proxy.closed == old(self).proxy.closed,
            result is Err <==> final(queue)@ != old(queue)@ && old(self).proxy.closed,
            final(self).proxy.sent@ == if final(queue)@ != old(queue)@ && !old(self).proxy.closed {
                old(self).proxy.sent@.push(CefPumpEvent::ScheduleWork)
            } else {
                old(self).proxy.sent@
            },
    {
        if queue.push(delay_ms) {
            self.proxy.send_event(CefPumpEvent::ScheduleWork)
        } else {
            Ok(())
        }
    }
}

/// Message pump fed by a queue of scheduling requests.
#[derive(Debug)]
pub struct TaoExternalPump {
    pub queue: ExternalMessagePumpScheduleQueue,
    pub pump: RuntimePump,
    /// The running iteration of the message loop was started by a queued request. When it
    /// ends, the requests that came in meanwhile are handled too. One that a tick started
    /// leaves them for their own event.
    pub is_draining: bool,
}

impl Default for TaoExternalPump {
    fn default() -> (pump: Self)
        ensures
            pump.queue@ is None,
            pump.pump.is_fresh(),
            !pump.is_draining,
    {
        TaoExternalPump {
            queue: ExternalMessagePumpScheduleQueue::new(),
            pump: RuntimePump::new(),
            is_draining: false,
        }
    }
}

/// The queued request, if there is one, was taken out and handled at `now`.
pub open spec fn drained(
    before: TaoExternalPump,
    now: u64,
    after: TaoExternalPump,
    step: PumpStep,
) -> bool {
    &&& after.queue@ is None
    &&& after.is_draining == (before.is_draining || step == PumpStep::RunMessageLoopWork)
    &&& match before.queue@ {
        Some(delay_ms) => external_message_pump::work_scheduled(
            before.pump.pump@,
            before.pump.at(now).host,
            delay_ms,
            after.pump.pump@,
            after.pump.host,
            step,
        ),
        None => after.pump == before.pump && step == PumpStep::Idle,
    }
}

/// The event loop has handled its events: if the timer has fired by `now`, an iteration of
/// the message loop is started. Queued requests stay where they are.
pub open spec fn ticked(
    before: TaoExternalPump,
    now: u64,
    after: TaoExternalPump,
    step: PumpStep,
) -> bool {
    &&& after.queue@ == before.queue@
    &&& after.is_draining == (before.is_draining && step != PumpStep::RunMessageLoopWork)
    &&& if before.pump.host.due_at() matches Some(deadline) && now >= deadline.nanos {
        external_message_pump::work_requested_now(
            before.pump.pump@,
            before.pump.at(now).host,
            after.pump.pump@,
            after.pump.host,
            step,
        )
    } else {
        after.pump == before.pump && step == PumpStep::Idle
    }
}

/// The running iteration of the message loop has returned at `now`, and queued requests
/// stay where they are.
pub open spec fn returned(
    before: TaoExternalPump,
    now: u64,
    after: TaoExternalPump,
    step: PumpStep,
) -> bool {
    &&& after.queue@ == before.queue@
    &&& after.is_draining == before.is_draining
    &&& external_message_pump::work_finished(
        before.pump.pump@,
        before.pump.at(now).host,
        after.pump.pump@,
        after.pump.host,
        step,
    )
}

/// The running iteration of the message loop has returned at `now`. If a queued request
/// had started it, the request that came in meanwhile is handled too.
pub open spec fn finished(
    before: TaoExternalPump,
    now: u64,
    after: TaoExternalPump,
    step: PumpStep,
) -> bool {
    if before.is_draining {
        exists|mid: TaoExternalPump, first: PumpStep|
            {
                &&& #[trigger] returned(before, now, mid, first)
                &&& if first == PumpStep::RunMessageLoopWork {
                    after == mid && step == first
                } else {
                    drained(mid, now, after, step)
                }
            }
    } else {
        returned(before, now, after, step)
    }
}

impl TaoExternalPump {
    /// A pump for the event loop behind `proxy`, and the handle that feeds it.
    pub fn new(proxy: EventLoopProxy<CefPumpEvent>) -> (pair: (Self, TaoExternalPumpHandle))
        ensures
            pair.0.queue@ is None,
            pair.0.pump.is_fresh(),
            !pair.0.is_draining,
            pair.1.proxy == proxy,
    {
        let handle = TaoExternalPumpHandle { proxy };
        let pump = TaoExternalPump {
            queue: ExternalMessagePumpScheduleQueue::new(),
            pump: RuntimePump::new(),
            is_draining: false,
        };
        (pump, handle)
    }

    /// Handles a pump event at `now`: takes the queued request and schedules it.
    #[must_use]
    pub fn on_event(&mut self, event: CefPumpEvent, now: u64) -> (step: PumpStep)
        ensures
            drained(*old(self), now, *final(self), step),
    {
        match event {
            CefPumpEvent::ScheduleWork => self.drain(now),
        }
    }

    fn drain(&mut self, now: u64) -> (step: PumpStep)
        ensures
            drained(*old(self), now, *final(self), step),
    {
        let step = match self.queue.pop() {
            Some(delay_ms) => self.pump.schedule_work(delay_ms, now),
            None => PumpStep::Idle,
        };
        if step == PumpStep::RunMessageLoopWork {
            self.is_draining = true;
        }
        step
    }

    /// Handles the end of a batch of event loop events at `now`: starts an
    /// iteration of the CEF message loop if the timer has fired.
    #[must_use]
    pub fn on_event_loop_tick(&mut self, now: u64) -> (step: PumpStep)
        ensures
            ticked(*old(self), now, *final(self), step),
    {
        let step = self.pump.process_due_work(now);
        if step == PumpStep::RunMessageLoopWork {
            self.is_draining = false;
        }
        step
    }

    /// Reports, at `now`, that the message loop iteration that was asked for has
    /// returned. Requests that came in meanwhile are handled at once if a request had
    /// started it, and wait for their own event if a tick had.
    #[must_use]
    pub fn message_loop_work_done(&mut self, now: u64) -> (step: PumpStep)
        requires
            old(self).pump.pump@.is_active,
        ensures
            finished(*old(self), now, *final(self), step),
    {
        let first = self.pump.message_loop_work_done(now);
        let ghost mid = *self;
        assert(returned(*old(self), now, mid, first));
        match first {
            PumpStep::RunMessageLoopWork => first,
            PumpStep::Idle => if self.is_draining {
                self.drain(now)
            } else {
                first
            },
        }
    }

    /// The moment at which the timer fires, if one is pending.
    pub fn next_deadline(&self) -> (deadline: Option<Deadline>)
        ensures
            deadline == self.pump.host.due_at(),
    {
        self.pump.next_deadline()
    }
}

/// Drives a pump from the events of a tao event loop.
#[derive(Debug)]
pub struct TaoPumpDriver {
    pub pump: TaoExternalPump,
}

/// How an event loop waits for `deadline`.
pub open spec fn wait_for(deadline: Option<Deadline>) -> ControlFlow {
    match deadline {
        Some(deadline) => ControlFlow::WaitUntil(deadline),
        None => ControlFlow::Wait,
    }
}

impl TaoPumpDriver {
    /// A driver for the event loop behind `proxy`, and the handle that feeds it.
    pub fn new(proxy: EventLoopProxy<CefPumpEvent>) -> (pair: (Self, TaoExternalPumpHandle))
        ensures
            pair.0.pump.queue@ is None,
            pair.0.pump.pump.is_fresh(),
            !pair.0.pump.is_draining,
            pair.1.proxy == proxy,
    {
        let (pump, handle) = TaoExternalPump::new(proxy);
        (TaoPumpDriver { pump }, handle)
    }

    /// How the event loop is to wait: for the timer if one is pending.
    pub fn control_flow(&self) -> (flow: ControlFlow)
        ensures
            flow == wait_for(self.pump.pump.host.due_at()),
    {
        match self.pump.next_deadline() {
            Some(deadline) => ControlFlow::WaitUntil(deadline),
            None => ControlFlow::Wait,
        }
    }

    /// Handles an event of the event loop at `now`.
    #[must_use]
    pub fn on_event(&mut self, event: &PumpLoopEvent, now: u64) -> (step: PumpStep)
        ensures
            match event {
                PumpLoopEvent::UserEvent(_) => drained(
                    old(self).pump,
                    now,
                    final(self).pump,
                    step,
                ),
                PumpLoopEvent::MainEventsCleared => ticked(
                    old(self).pump,
                    now,
                    final(self).pump,
                    step,
                ),
                PumpLoopEvent::Other => *final(self) == *old(self) && step == PumpStep::Idle,
            },
    {
        match event {
            PumpLoopEvent::UserEvent(event) => self.pump.on_event(*event, now),
            PumpLoopEvent::MainEventsCleared => self.pump.on_event_loop_tick(now),
            PumpLoopEvent::Other => PumpStep::Idle,
        }
    }

    /// Reports, at `now`, that the message loop iteration that was asked for has
    /// returned.
    #[must_use]
    pub fn message_loop_work_done(&mut self, now: u64) -> (step: PumpStep)
        requires
            old(self).pump.pump.pump@.is_active,
        ensures
            finished(old(self).pump, now, final(self).pump, step),
    {
        self.pump.message_loop_work_done(now)
    }
}

/// A request with a positive delay that reaches a driver makes the event loop wait until
/// a deadline, whatever it waited for before.
pub proof fn lemma_schedule_switches_to_wait_until(
    before: TaoPumpDriver,
    delay_ms: i64,
    now: u64,
    after: TaoPumpDriver,
    step: PumpStep,
)
    requires
        delay_ms > 0,
        before.pump.queue@ == Some(
            external_message_pump::coalesced(None, delay_ms as int),
        ),
        drained(before.pump, now, after.pump, step),
    ensures
        wait_for(after.pump.pump.host.due_at()) is WaitUntil,
{
}

/// A tick returns to the event loop: a request that comes in while the iteration of the
/// message loop runs that the tick started stays queued, and does not start another one.
pub proof fn lemma_ticks_leave_requests_queued(
    before: TaoExternalPump,
    tick: u64,
    running: TaoExternalPump,
    first: PumpStep,
    fed: TaoExternalPump,
    end: u64,
    after: TaoExternalPump,
    second: PumpStep,
)
    requires
        ticked(before, tick, running, first),
        first == PumpStep::RunMessageLoopWork,
        fed.pump == running.pump,
        fed.is_draining == running.is_draining,
        finished(fed, end, after, second),
    ensures
        after.queue@ == fed.queue@,
        second == PumpStep::Idle,
        after.pump.host.pending is Some,
{
}

/// A request wakes the event loop exactly if it is earlier than what is queued or nothing is,
/// and it fails only where it should have woken an event loop that is gone.
pub proof fn lemma_earlier_requests_wake_the_loop(
    delay_ms: i64,
    normalized: i64,
    result: Result<(), EventLoopClosed>,
)
    requires
        call_ensures(external_message_pump::normalize_delay_ms, (delay_ms,), normalized),
    ensures
        forall|handle: &mut TaoExternalPumpHandle, queue: &mut ExternalMessagePumpScheduleQueue|
         #[trigger]
            call_ensures(TaoExternalPumpHandle::schedule_work, (handle, queue, delay_ms), result)
                ==> {
                let held = (*queue)@;
                let wakes = held is None || normalized < held->Some_0;
                let sent = (*handle).proxy.sent@;
                let sent_after = (*final(handle)).proxy.sent@;
                &&& wakes ==> (*final(queue))@ == Some(normalized as int)
                &&& !wakes ==> (*final(queue))@ == held
                &&& result is Err <==> wakes && (*handle).proxy.closed
                &&& wakes && result is Ok ==> sent_after == sent.push(CefPumpEvent::ScheduleWork)
                &&& !wakes || result is Err ==> sent_after == sent
            },
{
}

/// An event that is sent is behind all that were sent before, unless the event loop is gone.
pub proof fn lemma_events_are_sent_in_order<T>(event: T, result: Result<(), EventLoopClosed>)
    ensures
        forall|proxy: &mut EventLoopProxy<T>| #[trigger]
            call_ensures(EventLoopProxy::<T>::send_event, (proxy, event), result) ==> {
                let (before, after) = ((*proxy).sent@, (*final(proxy)).sent@);
                &&& result is Ok <==> !(*proxy).closed
                &&& result is Ok ==> {
                    &&& after.len() == before.len() + 1
                    &&& after.take(before.len() as int) == before
                    &&& after.last() == event
                }
                &&& result is Err ==> after == before
            },
{
    assert forall|proxy: &mut EventLoopProxy<T>| #[trigger]
        call_ensures(EventLoopProxy::<T>::send_event, (proxy, event), result) && result is Ok
        implies (*final(proxy)).sent@.take((*proxy).sent@.len() as int) == (*proxy).sent@ by {
        assert((*final(proxy)).sent@.take((*proxy).sent@.len() as int) =~= (*proxy).sent@);
    }
}

/// An event of the pump takes the request out of the queue and schedules it. One for work at
/// once starts an iteration if none runs; a later one arms the timer. Without a request nothing
/// happens.
pub proof fn lemma_pump_events_schedule_requests(event: CefPumpEvent, now: u64, step: PumpStep)
    ensures
        forall|driver: &mut TaoPumpDriver| #[trigger]
            call_ensures(
                TaoPumpDriver::on_event,
                (driver, &PumpLoopEvent::UserEvent(event), now),
                step,
            ) ==> {
                let (before, after) = ((*driver).pump, (*final(driver)).pump);
                let active = before.pump.pump@.is_active;
                &&& after.queue@ is None
                &&& before.queue@ is None ==> step == PumpStep::Idle && after.pump == before.pump
                &&& before.queue@ matches Some(delay) ==> {
                    &&& delay <= 0 && !active ==> step == PumpStep::RunMessageLoopWork
                        && after.is_draining && after.pump.pump@.is_active
                    &&& delay <= 0 && active ==> step == PumpStep::Idle
                        && after.pump.pump@.reentrancy_detected
                    &&& 0 < delay <= 33 ==> {
                        &&& step == PumpStep::Idle
                        &&& after.pump.host.pending is Some
                        &&& after.pump.host.pending->Some_0.set_at == now
                        &&& after.pump.host.pending->Some_0.delay_ms == delay
                    }
                }
                &&& step == PumpStep::Idle ==> after.is_draining == before.is_draining
            },
{
}

/// Once the events of a batch are handled an iteration starts if the timer has fired, and
/// queued requests are left for their event. Other events do nothing.
pub proof fn lemma_batches_end_with_a_tick(now: u64, step: PumpStep)
    ensures
        forall|driver: &mut TaoPumpDriver| #[trigger]
            call_ensures(
                TaoPumpDriver::on_event,
                (driver, &PumpLoopEvent::MainEventsCleared, now),
                step,
            ) ==> {
                let (before, after) = ((*driver).pump, (*final(driver)).pump);
                let pending = before.pump.host.pending;
                let fired = pending is Some && now >= pending->Some_0.set_at + 1000000
                    * pending->Some_0.delay_ms;
                &&& after.queue@ == before.queue@
                &&& step == PumpStep::RunMessageLoopWork <==> fired
                    && !before.pump.pump@.is_active
                &&& step == PumpStep::RunMessageLoopWork ==> !after.is_draining
                &&& !fired ==> after.pump == before.pump
            },
        forall|driver: &mut TaoPumpDriver| #[trigger]
            call_ensures(TaoPumpDriver::on_event, (driver, &PumpLoopEvent::Other, now), step) ==> {
                &&& step == PumpStep::Idle
                &&& *final(driver) == *driver
            },
{
}

/// An event loop waits until the timer fires, and without a timer for any event.
pub proof fn lemma_loop_waits_for_the_timer(driver: &TaoPumpDriver, flow: ControlFlow)
    requires
        call_ensures(TaoPumpDriver::control_flow, (driver,), flow),
    ensures
        driver.pump.pump.host.pending is None <==> flow == ControlFlow::Wait,
        driver.pump.pump.host.pending matches Some(timer) ==> {
            &&& flow matches ControlFlow::WaitUntil(deadline)
            &&& deadline.nanos == timer.set_at + 1000000 * timer.delay_ms
        },
{
}

/// At the end of an iteration another one starts if it was asked for meanwhile. Otherwise the
/// request that came in is scheduled if a request had started the iteration, and stays queued if
/// a tick had.
pub proof fn lemma_iterations_end_with_what_came_in(now: u64, step: PumpStep)
    ensures
        forall|driver: &mut TaoPumpDriver|
            (*driver).pump.pump.pump@.is_active && #[trigger] call_ensures(
                TaoPumpDriver::message_loop_work_done,
                (driver, now),
                step,
            ) ==> work_ended((*driver).pump, now, (*final(driver)).pump, step),
        forall|pump: &mut TaoExternalPump|
            (*pump).pump.pump@.is_active && #[trigger] call_ensures(
                TaoExternalPump::message_loop_work_done,
                (pump, now),
                step,
            ) ==> work_ended(*pump, now, *final(pump), step),
{
    assert forall|driver: &mut TaoPumpDriver|
        (*driver).pump.pump.pump@.is_active && #[trigger] call_ensures(
            TaoPumpDriver::message_loop_work_done,
            (driver, now),
            step,
        ) implies work_ended((*driver).pump, now, (*final(driver)).pump, step) by {
        lemma_finished_is_ended((*driver).pump, now, (*final(driver)).pump, step);
    }
    assert forall|pump: &mut TaoExternalPump|
        (*pump).pump.pump@.is_active && #[trigger] call_ensures(
            TaoExternalPump::message_loop_work_done,
            (pump, now),
            step,
        ) implies work_ended(*pump, now, *final(pump), step) by {
        lemma_finished_is_ended(*pump, now, *final(pump), step);
    }
}

/// What the end of an iteration leaves: the next iteration, or a request that was scheduled or
/// stays queued.
pub open spec fn work_ended(
    before: TaoExternalPump,
    now: u64,
    after: TaoExternalPump,
    step: PumpStep,
) -> bool {
    let again = before.pump.pump@.reentrancy_detected;
    let timer = after.pump.host.pending;
    &&& again ==> {
        &&& step == PumpStep::RunMessageLoopWork
        &&& after.pump.pump@.is_active && !after.pump.pump@.reentrancy_detected
        &&& after.queue@ == before.queue@
    }
    &&& !again && !before.is_draining ==> {
        &&& step == PumpStep::Idle
        &&& after.queue@ == before.queue@
        &&& timer is Some && !after.pump.pump@.is_active
    }
    &&& !again && before.is_draining ==> {
        &&& after.queue@ is None
        &&& before.queue@ is None ==> step == PumpStep::Idle && timer is Some
        &&& before.queue@ matches Some(delay) ==> {
            &&& delay <= 0 ==> step == PumpStep::RunMessageLoopWork && after.pump.pump@.is_active
            &&& 0 < delay <= 33 ==> {
                &&& step == PumpStep::Idle && !after.pump.pump@.is_active
                &&& timer is Some
                &&& timer->Some_0.set_at == now && timer->Some_0.delay_ms == delay
            }
        }
    }
}

proof fn lemma_finished_is_ended(
    before: TaoExternalPump,
    now: u64,
    after: TaoExternalPump,
    step: PumpStep,
)
    requires
        before.pump.pump@.is_active,
        finished(before, now, after, step),
    ensures
        work_ended(before, now, after, step),
{
    if before.is_draining {
        let (mid, first) = choose|mid: TaoExternalPump, first: PumpStep|
            {
                &&& #[trigger] returned(before, now, mid, first)
                &&& if first == PumpStep::RunMessageLoopWork {
                    after == mid && step == first
                } else {
                    drained(mid, now, after, step)
                }
            };
        assert(returned(before, now, mid, first));
    }
}

} // verus!
