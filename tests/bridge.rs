use async_tcl::mask::{
    observed, serves_file_events, wants, Observation, Probe, EXCEPTION, READABLE, WRITABLE,
};
use async_tcl::registry::{EventRecord, HandlerRef, RegisterOutcome, Registry, WatchStep};
use async_tcl::time::{
    plan_timer, plan_wait, progressed, request_converts, Span, Tcl_Time, TimerSlot, TimerStep, WaitPlan,
};

type Reg = Registry<&'static str, u32, u32>;

fn created(r: RegisterOutcome<u32>) -> HandlerRef {
    match r {
        RegisterOutcome::Created(h) => h,
        RegisterOutcome::Updated(_) => panic!("expected a new handler"),
    }
}

fn updated(r: RegisterOutcome<u32>) -> Option<u32> {
    match r {
        RegisterOutcome::Updated(w) => w,
        RegisterOutcome::Created(_) => panic!("expected an update"),
    }
}

fn readable() -> Observation {
    Observation::Polled { readable: Some(Probe::Ready), writable: None }
}

#[test]
fn register_creates_handler_with_empty_ready_mask() {
    let mut reg: Reg = Registry::new();
    assert!(!reg.is_registered(5));
    let h = created(reg.register_interest(5, READABLE, "cb"));
    assert_eq!(h.fd, 5);
    assert!(reg.is_registered(5));
    assert_eq!(reg.interest(h), Some(READABLE));
    assert_eq!(reg.readiness(h), Some(0));
    assert_eq!(reg.attach_watcher(h, 77), None);
    let g = created(reg.register_interest(6, WRITABLE, "other"));
    assert_ne!(g.id, h.id);
}

#[test]
fn readable_descriptor_is_delivered_once() {
    let mut reg: Reg = Registry::new();
    let h = created(reg.register_interest(3, READABLE, "cb"));
    assert_eq!(reg.observe(h, 1, Observation::Polled { readable: Some(Probe::Pending), writable: None }), WatchStep::Idle);
    let step = reg.observe(h, 2, readable());
    assert_eq!(step, WatchStep::Deliver(EventRecord { target: h }));
    let rec = EventRecord { target: h };
    let delivery = reg.begin_fire(rec);
    assert_eq!(delivery, Some(("cb", READABLE)));
    assert_eq!(reg.finish_fire(rec), Some(2));
    assert_eq!(reg.readiness(h), Some(0));
    // the same record again delivers nothing
    assert_eq!(reg.begin_fire(rec), None);
}

#[test]
fn ready_mask_stays_within_interest() {
    let mut reg: Reg = Registry::new();
    let h = created(reg.register_interest(4, READABLE, "cb"));
    let failed = Observation::Polled { readable: Some(Probe::Failed), writable: Some(Probe::Ready) };
    assert_eq!(reg.observe(h, 1, failed), WatchStep::Idle);
    assert_eq!(reg.readiness(h), Some(0));
    assert_eq!(reg.observe(h, 1, Observation::Unpollable), WatchStep::Deliver(EventRecord { target: h }));
    assert_eq!(reg.readiness(h), Some(READABLE));
    updated(reg.register_interest(4, READABLE | EXCEPTION, "cb"));
    assert_eq!(reg.observe(h, 1, failed), WatchStep::Deliver(EventRecord { target: h }));
    assert_eq!(reg.readiness(h), Some(EXCEPTION));
}

#[test]
fn reregistering_same_mask_keeps_ready_and_does_not_wake() {
    let mut reg: Reg = Registry::new();
    let h = created(reg.register_interest(9, READABLE, "cb"));
    reg.observe(h, 42, readable());
    assert_eq!(updated(reg.register_interest(9, READABLE, "cb")), None);
    assert_eq!(reg.readiness(h), Some(READABLE));
    assert_eq!(reg.begin_fire(EventRecord { target: h }), Some(("cb", READABLE)));
}

#[test]
fn reregistering_changed_mask_resets_and_wakes() {
    let mut reg: Reg = Registry::new();
    let h = created(reg.register_interest(9, READABLE, "cb"));
    reg.observe(h, 42, readable());
    assert_eq!(updated(reg.register_interest(9, READABLE | WRITABLE, "new")), Some(42));
    assert_eq!(reg.readiness(h), Some(0));
    assert_eq!(reg.interest(h), Some(READABLE | WRITABLE));
    // the callback is kept
    reg.observe(h, 43, readable());
    assert_eq!(reg.begin_fire(EventRecord { target: h }), Some(("cb", READABLE)));
}

#[test]
fn unregistered_descriptor_never_fires() {
    let mut reg: Reg = Registry::new();
    let h = created(reg.register_interest(7, READABLE, "cb"));
    assert_eq!(reg.attach_watcher(h, 100), None);
    assert_eq!(reg.unregister_interest(7), Some(100));
    assert!(!reg.is_registered(7));
    assert_eq!(reg.observe(h, 1, readable()), WatchStep::Detached);
    assert_eq!(reg.begin_fire(EventRecord { target: h }), None);
    assert_eq!(reg.finish_fire(EventRecord { target: h }), None);
    assert_eq!(reg.unregister_interest(7), None);
}

#[test]
fn stale_record_does_not_reach_new_handler() {
    let mut reg: Reg = Registry::new();
    let h = created(reg.register_interest(7, READABLE, "old"));
    reg.observe(h, 1, readable());
    let rec = EventRecord { target: h };
    reg.unregister_interest(7);
    let g = created(reg.register_interest(7, READABLE, "new"));
    assert_ne!(g, h);
    reg.observe(g, 2, readable());
    assert_eq!(reg.begin_fire(rec), None);
    assert_eq!(reg.finish_fire(rec), None);
    assert_eq!(reg.readiness(g), Some(READABLE));
    assert_eq!(reg.attach_watcher(h, 5), Some(5));
    assert_eq!(reg.begin_fire(EventRecord { target: g }), Some(("new", READABLE)));
}

#[test]
fn observation_bits() {
    assert_eq!(observed(Observation::Unpollable), READABLE | WRITABLE);
    assert_eq!(observed(Observation::Polled { readable: None, writable: None }), 0);
    assert_eq!(observed(Observation::Polled { readable: Some(Probe::Ready), writable: Some(Probe::Pending) }), READABLE);
    assert_eq!(observed(Observation::Polled { readable: Some(Probe::Pending), writable: Some(Probe::Failed) }), EXCEPTION);
    assert!(wants(READABLE | WRITABLE, WRITABLE));
    assert!(!wants(READABLE, WRITABLE));
    assert!(serves_file_events(8));
    assert!(!serves_file_events(2 | 4 | 16));
}

#[test]
fn span_from_host_time() {
    assert_eq!(Span::from_time(Tcl_Time { sec: 1, usec: 500000 }), Span { secs: 1, micros: 500000 });
    assert_eq!(Span::from_time(Tcl_Time { sec: 0, usec: 2500000 }), Span { secs: 2, micros: 500000 });
    assert_eq!(Span::from_time(Tcl_Time { sec: 0, usec: 10000 }), Span { secs: 0, micros: 10000 });
}

#[test]
fn zero_timer_services_now() {
    assert_eq!(plan_timer(Some(Tcl_Time { sec: 0, usec: 0 })), TimerStep::ServiceNow);
    assert_eq!(plan_timer(Some(Tcl_Time { sec: -1, usec: 0 })), TimerStep::ServiceNow);
    assert_eq!(plan_timer(None), TimerStep::Nothing);
}

#[test]
fn rearming_cancels_previous_timer() {
    let mut slot: TimerSlot<u32> = TimerSlot::new();
    let (cancel, step) = slot.arm_timer(Some(Tcl_Time { sec: 0, usec: 10000 }));
    assert_eq!(cancel, None);
    assert_eq!(step, TimerStep::Schedule(Span { secs: 0, micros: 10000 }));
    assert_eq!(slot.install(1), None);
    let (cancel, step) = slot.arm_timer(Some(Tcl_Time { sec: 2, usec: 0 }));
    assert_eq!(cancel, Some(1));
    assert_eq!(step, TimerStep::Schedule(Span { secs: 2, micros: 0 }));
    assert_eq!(slot.current, None);
    assert_eq!(slot.install(2), None);
    let (cancel, step) = slot.arm_timer(None);
    assert_eq!(cancel, Some(2));
    assert_eq!(step, TimerStep::Nothing);
    assert_eq!(slot.install(3), None);
    assert_eq!(slot.install(4), Some(3));
}

#[test]
fn wait_plans_and_progress() {
    assert_eq!(plan_wait(None), WaitPlan::Block);
    assert!(progressed(WaitPlan::Block, false));
    let race = plan_wait(Some(Tcl_Time { sec: 0, usec: 250 }));
    assert_eq!(race, WaitPlan::Race(Span { secs: 0, micros: 250 }));
    assert!(!progressed(race, false));
    assert!(progressed(race, true));
    assert_eq!(plan_wait(Some(Tcl_Time { sec: 0, usec: 0 })), WaitPlan::Poll);
    assert!(!progressed(WaitPlan::Poll, false));
    assert!(progressed(WaitPlan::Poll, true));
}

#[test]
fn ten_ms_timer_with_no_descriptors() {
    let mut slot: TimerSlot<u32> = TimerSlot::new();
    let (cancel, step) = slot.arm_timer(Some(Tcl_Time { sec: 0, usec: 10000 }));
    assert_eq!(cancel, None);
    assert_eq!(step, TimerStep::Schedule(Span { secs: 0, micros: 10000 }));
    let plan = plan_wait(None);
    assert_eq!(plan, WaitPlan::Block);
    assert!(progressed(plan, true));
}

#[test]
fn request_conversion_limits() {
    assert!(request_converts(None));
    assert!(request_converts(Some(Tcl_Time { sec: 0, usec: 0 })));
    assert!(request_converts(Some(Tcl_Time { sec: i64::MAX, usec: i64::MAX })));
    assert!(request_converts(Some(Tcl_Time { sec: -1, usec: 999999 })));
    assert!(!request_converts(Some(Tcl_Time { sec: -1, usec: 1000000 })));
    let reg: Reg = Registry::new();
    assert!(reg.can_register());
}
