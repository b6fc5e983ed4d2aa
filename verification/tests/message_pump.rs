use tauri_runtime_cef::external_message_pump::{
    normalize_delay_ms, ExternalMessagePump, ExternalMessagePumpHost,
    ExternalMessagePumpScheduleQueue, PumpStep, MAX_TIMER_DELAY_MS, TIMER_DELAY_PLACEHOLDER_MS,
};
use tauri_runtime_cef::pump::{Deadline, RuntimePump, TimerHost};
use tauri_runtime_cef::tao::{
    CefPumpEvent, ControlFlow, EventLoopClosed, EventLoopProxy, PumpLoopEvent, TaoExternalPump,
    TaoPumpDriver,
};

#[derive(Default)]
struct MockHost {
    timer_pending: bool,
    set_timer_calls: usize,
    kill_timer_calls: usize,
    last_delay: Option<u64>,
}

impl ExternalMessagePumpHost for MockHost {
    fn timer(&self) -> Option<u64> {
        unreachable!()
    }

    fn armed(_: Self, _: Self, _: u64) -> bool {
        unreachable!()
    }

    fn disarmed(_: Self, _: Self) -> bool {
        unreachable!()
    }

    fn set_timer(&mut self, delay_ms: u64) {
        self.timer_pending = true;
        self.set_timer_calls += 1;
        self.last_delay = Some(delay_ms);
    }

    fn kill_timer(&mut self) {
        self.timer_pending = false;
        self.kill_timer_calls += 1;
    }

    fn is_timer_pending(&self) -> bool {
        self.timer_pending
    }
}

#[test]
fn bounds_large_delays() {
    let mut pump = ExternalMessagePump::new();
    let mut host = MockHost::default();

    let step = pump.on_schedule_message_pump_work(&mut host, 5_000);

    assert_eq!(step, PumpStep::Idle);
    assert_eq!(host.set_timer_calls, 1);
    assert_eq!(host.last_delay, Some(MAX_TIMER_DELAY_MS as u64));
}

#[test]
fn placeholder_delay_is_ignored_when_timer_exists() {
    let mut pump = ExternalMessagePump::new();
    let mut host = MockHost {
        timer_pending: true,
        ..Default::default()
    };

    let step = pump.on_schedule_message_pump_work(&mut host, TIMER_DELAY_PLACEHOLDER_MS);

    assert_eq!(step, PumpStep::Idle);
    assert_eq!(host.kill_timer_calls, 0);
    assert_eq!(host.set_timer_calls, 0);
}

#[test]
fn queue_coalesces_to_earliest_delay() {
    let mut queue = ExternalMessagePumpScheduleQueue::new();
    assert!(queue.push(40));
    assert!(!queue.push(100));
    assert!(queue.push(5));
    assert_eq!(queue.pop(), Some(5));
    assert_eq!(queue.pop(), None);
}

#[test]
fn queue_normalizes_delay_bounds() {
    let mut queue = ExternalMessagePumpScheduleQueue::new();
    assert!(queue.push(-1));
    assert_eq!(queue.pop(), Some(0));

    assert!(queue.push(10_000));
    assert_eq!(queue.pop(), Some(MAX_TIMER_DELAY_MS));
}

#[test]
fn schedule_positive_delay_sets_deadline() {
    let mut pump = RuntimePump::new();
    let _ = pump.schedule_work(10_000, 0);
    assert!(pump.next_deadline().is_some());
}

#[test]
fn due_processing_keeps_timer_for_future_deadline() {
    let mut pump = RuntimePump::new();
    let _ = pump.schedule_work(10_000, 5);
    let before_deadline = 5;
    let _ = pump.process_due_work(before_deadline);
    assert!(pump.next_deadline().is_some());
}

#[test]
fn driver_switches_to_wait_until_after_schedule() {
    let (mut driver, mut handle) = TaoPumpDriver::new(EventLoopProxy::new());

    handle
        .schedule_work(&mut driver.pump.queue, 10)
        .expect("failed to schedule work");
    let _ = driver.on_event(&PumpLoopEvent::UserEvent(CefPumpEvent::ScheduleWork), 0);

    assert!(matches!(driver.control_flow(), ControlFlow::WaitUntil(_)));
}

#[test]
fn delays_are_kept_within_their_bounds() {
    assert_eq!(normalize_delay_ms(-7), 0);
    assert_eq!(normalize_delay_ms(0), 0);
    assert_eq!(normalize_delay_ms(MAX_TIMER_DELAY_MS), MAX_TIMER_DELAY_MS);
    assert_eq!(normalize_delay_ms(MAX_TIMER_DELAY_MS + 1), MAX_TIMER_DELAY_MS);
    assert_eq!(normalize_delay_ms(i64::MAX), MAX_TIMER_DELAY_MS);
}

#[test]
fn work_without_delay_runs_at_once_and_leaves_a_timer() {
    let mut pump = ExternalMessagePump::new();
    let mut host = MockHost::default();
    let step = pump.on_schedule_message_pump_work(&mut host, 0);
    assert_eq!(step, PumpStep::RunMessageLoopWork);
    assert!(pump.is_active());
    let step = pump.message_loop_work_done(&mut host);
    assert_eq!(step, PumpStep::Idle);
    assert!(!pump.is_active());
    assert!(host.timer_pending);
    assert_eq!(host.last_delay, Some(MAX_TIMER_DELAY_MS as u64));
}

#[test]
fn reentrant_requests_run_after_the_current_iteration() {
    let mut pump = RuntimePump::new();
    assert_eq!(pump.schedule_work(0, 0), PumpStep::RunMessageLoopWork);
    // CEF asks for more work while its message loop runs.
    assert_eq!(pump.schedule_work(0, 1), PumpStep::Idle);
    assert_eq!(pump.message_loop_work_done(2), PumpStep::RunMessageLoopWork);
    assert_eq!(pump.message_loop_work_done(3), PumpStep::Idle);
    assert!(pump.next_deadline().is_some());
}

#[test]
fn a_timer_fires_at_its_deadline_and_not_before() {
    let mut pump = RuntimePump::new();
    assert_eq!(pump.schedule_work(5, 1_000), PumpStep::Idle);
    assert_eq!(pump.next_deadline(), Some(Deadline { nanos: 5_001_000 }));
    assert_eq!(pump.process_due_work(5_000_999), PumpStep::Idle);
    assert_eq!(pump.process_due_work(5_001_000), PumpStep::RunMessageLoopWork);
}

#[test]
fn a_host_without_a_timer_is_never_due() {
    let mut host = TimerHost::new();
    assert!(!host.is_due(u64::MAX));
    assert_eq!(host.deadline(), None);
    host.set_clock(7);
    host.set_timer(3);
    assert!(host.is_timer_pending());
    assert_eq!(host.deadline(), Some(Deadline { nanos: 3_000_007 }));
    assert!(host.is_due(3_000_007));
    host.kill_timer();
    assert!(!host.is_timer_pending());
}

#[test]
fn the_event_loop_is_woken_only_for_earlier_work() {
    let (mut pump, mut handle) = TaoExternalPump::new(EventLoopProxy::new());
    assert_eq!(handle.schedule_work(&mut pump.queue, 20), Ok(()));
    assert_eq!(handle.schedule_work(&mut pump.queue, 25), Ok(()));
    assert_eq!(handle.schedule_work(&mut pump.queue, 3), Ok(()));
    assert_eq!(handle.proxy.sent.len(), 2);
    assert_eq!(pump.on_event(CefPumpEvent::ScheduleWork, 0), PumpStep::Idle);
    assert_eq!(pump.next_deadline(), Some(Deadline { nanos: 3_000_000 }));
    assert_eq!(pump.on_event_loop_tick(2_999_999), PumpStep::Idle);
    assert_eq!(pump.on_event_loop_tick(3_000_000), PumpStep::RunMessageLoopWork);
}

#[test]
fn requests_that_came_in_meanwhile_are_handled_at_once() {
    let (mut pump, mut handle) = TaoExternalPump::new(EventLoopProxy::new());
    assert_eq!(handle.schedule_work(&mut pump.queue, 0), Ok(()));
    let step = pump.on_event(CefPumpEvent::ScheduleWork, 0);
    assert_eq!(step, PumpStep::RunMessageLoopWork);
    assert_eq!(handle.schedule_work(&mut pump.queue, 0), Ok(()));
    assert_eq!(pump.message_loop_work_done(1), PumpStep::RunMessageLoopWork);
    assert_eq!(pump.message_loop_work_done(2), PumpStep::Idle);
}

#[test]
fn requests_that_came_in_during_a_tick_wait_for_their_event() {
    let (mut driver, mut handle) = TaoPumpDriver::new(EventLoopProxy::new());
    let event = PumpLoopEvent::UserEvent(CefPumpEvent::ScheduleWork);
    assert_eq!(handle.schedule_work(&mut driver.pump.queue, 1), Ok(()));
    assert_eq!(driver.on_event(&event, 0), PumpStep::Idle);
    let step = driver.on_event(&PumpLoopEvent::MainEventsCleared, 1_000_000);
    assert_eq!(step, PumpStep::RunMessageLoopWork);
    assert_eq!(handle.schedule_work(&mut driver.pump.queue, 0), Ok(()));
    assert_eq!(driver.message_loop_work_done(1_000_001), PumpStep::Idle);
    assert_eq!(driver.pump.next_deadline(), Some(Deadline { nanos: 34_000_001 }));
    assert_eq!(driver.on_event(&event, 1_000_002), PumpStep::RunMessageLoopWork);
    assert_eq!(driver.message_loop_work_done(1_000_003), PumpStep::Idle);
}

#[test]
fn a_closed_event_loop_takes_no_requests() {
    let mut proxy = EventLoopProxy::new();
    proxy.closed = true;
    let (mut pump, mut handle) = TaoExternalPump::new(proxy);
    assert_eq!(handle.schedule_work(&mut pump.queue, 20), Err(EventLoopClosed));
    assert_eq!(EventLoopClosed.message(), "tao event loop is closed");
    // The request is queued all the same, so that a later one does not wake the loop.
    assert_eq!(handle.schedule_work(&mut pump.queue, 30), Ok(()));
}

#[test]
fn other_events_leave_the_driver_alone() {
    let (mut driver, _) = TaoPumpDriver::new(EventLoopProxy::new());
    assert_eq!(driver.on_event(&PumpLoopEvent::Other, 9), PumpStep::Idle);
    assert_eq!(driver.on_event(&PumpLoopEvent::MainEventsCleared, 9), PumpStep::Idle);
    assert_eq!(driver.control_flow(), ControlFlow::Wait);
}
