//! The host's time records, and what the timed hooks decide from them.
use vstd::prelude::*;

verus! {

/// Microseconds in one second.
pub const MICROS_PER_SEC: u64 = 1000000;

/// A duration as the host hands it over: seconds and microseconds.
#[allow(non_camel_case_types)]
#[derive(Clone, Copy, Debug, PartialEq, Eq, Structural)]
pub struct Tcl_Time {
    pub sec: i64,
    pub usec: i64,
}

/// A non-negative span of time; the spans this library makes are normal:
/// `micros` is below one second.
#[derive(Clone, Copy, Debug, PartialEq, Eq, Structural)]
pub struct Span {
    pub secs: u64,
    pub micros: u64,
}

impl Tcl_Time {
    /// The record asks for some time to pass: either field is positive.
    pub open spec fn is_positive(self) -> bool {
        self.sec > 0 || self.usec > 0
    }

    /// Both fields are read as unsigned counts, seconds and microseconds.
    pub open spec fn total_micros(self) -> int {
        (self.sec as u64) * MICROS_PER_SEC + (self.usec as u64)
    }

    /// The whole seconds of the span fit in 64 bits.
    pub open spec fn fits(self) -> bool {
        (self.sec as u64) + (self.usec as u64) / MICROS_PER_SEC <= u64::MAX
    }
}

/// The span a host record stands for: the microseconds beyond a second carried into the seconds.
pub open spec fn span_of(t: Tcl_Time) -> Span {
    Span {
        secs: ((t.sec as u64) + (t.usec as u64) / MICROS_PER_SEC) as u64,
        micros: (t.usec as u64) % MICROS_PER_SEC,
    }
}

impl Span {
    pub open spec fn total_micros(self) -> int {
        self.secs * MICROS_PER_SEC + self.micros
    }

    pub open spec fn is_normal(self) -> bool {
        self.micros < MICROS_PER_SEC
    }

    /// The span that a host time record stands for.
    pub fn from_time(t: Tcl_Time) -> (r: Span)
        requires
            t.fits(),
        ensures
            r == span_of(t),
            r.is_normal(),
            r.total_micros() == t.total_micros(),
    {
        let secs = t.sec as u64;
        let usec = t.usec as u64;
        let r = Span { secs: secs + usec / MICROS_PER_SEC, micros: usec % MICROS_PER_SEC };
        assert(r.total_micros() == t.total_micros()) by (nonlinear_arith)
            requires
                r.secs == secs + usec / MICROS_PER_SEC,
                r.micros == usec % MICROS_PER_SEC,
                secs == t.sec as u64,
                usec == t.usec as u64,
                MICROS_PER_SEC > 0,
        ;
        r
    }
}

/// A request reaches the conversion only when it asks for time to pass.
pub open spec fn request_fits(request: Option<Tcl_Time>) -> bool {
    match request {
        Some(t) => t.is_positive() ==> t.fits(),
        None => true,
    }
}

/// Whether a request can be converted: a positive one whose seconds, with its
/// microseconds carried in, still fit in 64 bits.
pub fn request_converts(request: Option<Tcl_Time>) -> (r: bool)
    ensures
        r == request_fits(request),
{
    match request {
        None => true,
        Some(t) => if t.sec > 0 || t.usec > 0 {
            let secs = t.sec as u64;
            let carried = (t.usec as u64) / MICROS_PER_SEC;
            secs <= u64::MAX - carried
        } else {
            true
        },
    }
}

/// What arming the timer does once the current deadline is cancelled.
#[derive(Clone, Copy, Debug, PartialEq, Eq, Structural)]
pub enum TimerStep {
    /// No request: only the cancellation.
    Nothing,
    /// A zero request: service the host's pending events now, without suspending.
    ServiceNow,
    /// A positive request: start a deadline that services events after the span.
    Schedule(Span),
}

/// What the arm-timer hook does with a request.
pub open spec fn timer_step(request: Option<Tcl_Time>) -> TimerStep {
    match request {
        None => TimerStep::Nothing,
        Some(t) => if t.is_positive() {
            TimerStep::Schedule(span_of(t))
        } else {
            TimerStep::ServiceNow
        },
    }
}

/// Decide what the arm-timer hook does after cancelling the current deadline.
pub fn plan_timer(request: Option<Tcl_Time>) -> (r: TimerStep)
    requires
        request_fits(request),
    ensures
        r == timer_step(request),
        match r {
            TimerStep::Schedule(s) => s.is_normal() && s.total_micros()
                == request.unwrap().total_micros(),
            _ => true,
        },
{
    match request {
        None => TimerStep::Nothing,
        Some(t) => if t.sec > 0 || t.usec > 0 {
            TimerStep::Schedule(Span::from_time(t))
        } else {
            TimerStep::ServiceNow
        },
    }
}

/// How the wait-for-event hook waits.
#[derive(Clone, Copy, Debug, PartialEq, Eq, Structural)]
pub enum WaitPlan {
    /// No limit: block until one executor step completes.
    Block,
    /// Block until one executor step completes or the span elapses, whichever is first.
    Race(Span),
    /// Zero: try one step without blocking.
    Poll,
}

/// How the wait-for-event hook waits for a request.
pub open spec fn wait_plan(request: Option<Tcl_Time>) -> WaitPlan {
    match request {
        None => WaitPlan::Block,
        Some(t) => if t.is_positive() {
            WaitPlan::Race(span_of(t))
        } else {
            WaitPlan::Poll
        },
    }
}

/// Decide how the wait-for-event hook waits for a request.
pub fn plan_wait(request: Option<Tcl_Time>) -> (r: WaitPlan)
    requires
        request_fits(request),
    ensures
        r == wait_plan(request),
        match r {
            WaitPlan::Race(s) => s.is_normal() && s.total_micros()
                == request.unwrap().total_micros(),
            _ => true,
        },
{
    match request {
        None => WaitPlan::Block,
        Some(t) => if t.sec > 0 || t.usec > 0 {
            WaitPlan::Race(Span::from_time(t))
        } else {
            WaitPlan::Poll
        },
    }
}

/// Whether the wait made progress.
pub open spec fn progress_of(plan: WaitPlan, stepped: bool) -> bool {
    match plan {
        WaitPlan::Block => true,
        _ => stepped,
    }
}

/// The hook's answer, given whether the executor completed a step (for a race:
/// whether the step finished before the span elapsed).
pub fn progressed(plan: WaitPlan, stepped: bool) -> (r: bool)
    ensures
        r == progress_of(plan, stepped),
{
    match plan {
        WaitPlan::Block => true,
        _ => stepped,
    }
}

/// The slot of the one current deadline task.
pub struct TimerSlot<T> {
    pub current: Option<T>,
}

impl<T> TimerSlot<T> {
    /// No deadline.
    pub fn new() -> (r: TimerSlot<T>)
        ensures
            r.current is None,
    {
        TimerSlot { current: None }
    }

    /// Arm the timer: take out the current deadline, to be cancelled, and say what
    /// comes next. The slot is empty afterwards until `install` fills it.
    pub fn arm_timer(&mut self, request: Option<Tcl_Time>) -> (r: (Option<T>, TimerStep))
        requires
            request_fits(request),
        ensures
            r.0 == old(self).current,
            final(self).current is None,
            r.1 == timer_step(request),
    {
        let previous = self.current.take();
        (previous, plan_timer(request))
    }

    /// Make a newly started deadline the current one; a deadline still in the
    /// slot comes back, to be cancelled.
    pub fn install(&mut self, task: T) -> (r: Option<T>)
        ensures
            r == old(self).current,
            final(self).current == Some(task),
    {
        let previous = self.current.take();
        self.current = Some(task);
        previous
    }
}

} // verus!
