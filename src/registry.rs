//! The table of file handlers, keyed by descriptor.
//!
//! Watchers and queued event records do not own a handler: they hold a
//! `HandlerRef`, the descriptor and the generation the handler was created
//! with. A reference resolves only while that very handler is registered, so a
//! handler that was unregistered (and maybe replaced) is never reached again.
use vstd::prelude::*;
use std::collections::HashMap;
use crate::mask::{Observation, within, overlaps, accumulate, observed, lemma_accumulate_within};

verus! {

broadcast use vstd::std_specs::hash::group_hash_axioms;

/// A non-owning reference to one registered handler.
#[derive(Clone, Copy, Debug, PartialEq, Eq, Structural)]
pub struct HandlerRef {
    pub fd: i32,
    pub id: u64,
}

/// A notification queued in the host's event queue for one handler.
#[derive(Clone, Copy, Debug, PartialEq, Eq, Structural)]
pub struct EventRecord {
    pub target: HandlerRef,
}

/// The state of one registered descriptor.
///
/// `C` is the application's callback with its client data, `T` the handle of
/// the background watcher task, `W` the waker of the watcher's latest poll.
pub struct Handler<C, T, W> {
    pub callback: C,
    /// The conditions the application asks for.
    pub mask: u32,
    /// The conditions seen since the last delivery.
    pub ready: u32,
    /// The generation this handler was created with.
    pub id: u64,
    pub watcher: Option<T>,
    /// The waker to use when the watcher must poll again.
    pub waker: Option<W>,
}

/// What registering interest asks the caller to do.
pub enum RegisterOutcome<W> {
    /// The descriptor is new: spawn a watcher for this handler and attach it.
    Created(HandlerRef),
    /// The descriptor was known: wake its watcher with this waker, if any.
    Updated(Option<W>),
}

/// What one poll of a watcher comes to.
#[derive(Clone, Copy, Debug, PartialEq, Eq, Structural)]
pub enum WatchStep {
    /// The handler is gone: the watcher is finished.
    Detached,
    /// Nothing to deliver: suspend until woken.
    Idle,
    /// Queue this record in the host's queue, then suspend.
    Deliver(EventRecord),
}

/// The mathematical state of a registry.
pub ghost struct RegistryModel<C, T, W> {
    pub handlers: Map<i32, Handler<C, T, W>>,
    /// The generation the next new handler gets; every generation in use is below it.
    pub next_id: nat,
}

impl<C, T, W> RegistryModel<C, T, W> {
    pub open spec fn wf(self) -> bool {
        &&& self.next_id <= u64::MAX
        &&& forall|fd: i32| #[trigger]
            self.handlers.contains_key(fd) ==> {
                &&& within(self.handlers[fd].ready, self.handlers[fd].mask)
                &&& self.handlers[fd].id < self.next_id
            }
    }

    /// The reference was handed out by this registry at some point.
    pub open spec fn issued(self, h: HandlerRef) -> bool {
        h.id < self.next_id
    }

    /// The reference reaches a handler that is registered now.
    pub open spec fn resolves(self, h: HandlerRef) -> bool {
        self.handlers.contains_key(h.fd) && self.handlers[h.fd].id == h.id
    }

    /// After registering interest `mask` in `fd`: a new handler, or the mask
    /// updated in place, with the ready mask emptied only if the mask changed.
    pub open spec fn with_interest(self, fd: i32, mask: u32, callback: C) -> Self {
        if self.handlers.contains_key(fd) {
            let old = self.handlers[fd];
            let updated = if old.mask == mask {
                old
            } else {
                Handler { mask, ready: 0, waker: None, ..old }
            };
            RegistryModel { handlers: self.handlers.insert(fd, updated), ..self }
        } else {
            let fresh = Handler {
                callback,
                mask,
                ready: 0,
                id: self.next_id as u64,
                watcher: None,
                waker: None,
            };
            RegistryModel {
                handlers: self.handlers.insert(fd, fresh),
                next_id: self.next_id + 1,
            }
        }
    }

    /// After unregistering `fd`.
    pub open spec fn without(self, fd: i32) -> Self {
        RegistryModel { handlers: self.handlers.remove(fd), ..self }
    }

    /// After the handler `h` got its watcher task.
    pub open spec fn with_watcher(self, h: HandlerRef, task: T) -> Self {
        if self.resolves(h) {
            let updated = Handler { watcher: Some(task), ..self.handlers[h.fd] };
            RegistryModel { handlers: self.handlers.insert(h.fd, updated), ..self }
        } else {
            self
        }
    }

    /// After the watcher of `h` polled with `waker` and saw `o`.
    pub open spec fn observed(self, h: HandlerRef, waker: W, o: Observation) -> Self {
        if self.resolves(h) {
            let old = self.handlers[h.fd];
            let updated = Handler {
                ready: accumulate(old.ready, old.mask, o),
                waker: Some(waker),
                ..old
            };
            RegistryModel { handlers: self.handlers.insert(h.fd, updated), ..self }
        } else {
            self
        }
    }

    /// What firing a record for `h` hands to the application: its callback and
    /// the ready mask, when the handler is registered and something it asks for is ready.
    pub open spec fn delivery(self, h: HandlerRef) -> Option<(C, u32)> {
        if self.resolves(h) && overlaps(self.handlers[h.fd].ready, self.handlers[h.fd].mask) {
            Some((self.handlers[h.fd].callback, self.handlers[h.fd].ready))
        } else {
            None
        }
    }

    /// After a record for `h` fired: the ready mask is empty and the waker used.
    pub open spec fn delivered(self, h: HandlerRef) -> Self {
        if self.resolves(h) {
            let updated = Handler { ready: 0, waker: None, ..self.handlers[h.fd] };
            RegistryModel { handlers: self.handlers.insert(h.fd, updated), ..self }
        } else {
            self
        }
    }
}

/// The handlers of the registered descriptors.
pub struct Registry<C, T, W> {
    handlers: HashMap<i32, Handler<C, T, W>>,
    next_id: u64,
}

impl<C, T, W> View for Registry<C, T, W> {
    type V = RegistryModel<C, T, W>;

    closed spec fn view(&self) -> RegistryModel<C, T, W> {
        RegistryModel { handlers: self.handlers@, next_id: self.next_id as nat }
    }
}

impl<C, T, W> Registry<C, T, W> {
    /// An empty registry.
    pub fn new() -> (r: Registry<C, T, W>)
        ensures
            r@.wf(),
            r@.handlers == Map::<i32, Handler<C, T, W>>::empty(),
    {
        Registry { handlers: HashMap::new(), next_id: 0 }
    }

    /// Whether another new descriptor can still get a generation of its own.
    pub fn can_register(&self) -> (r: bool)
        ensures
            r == (self@.next_id < u64::MAX),
    {
        self.next_id < u64::MAX
    }

    /// Whether a descriptor is registered.
    pub fn is_registered(&self, fd: i32) -> (r: bool)
        ensures
            r == self@.handlers.contains_key(fd),
    {
        self.handlers.contains_key(&fd)
    }

    /// The interest mask of the handler `h` refers to, if it is still registered.
    pub fn interest(&self, h: HandlerRef) -> (r: Option<u32>)
        ensures
            r == (if self@.resolves(h) {
                Some(self@.handlers[h.fd].mask)
            } else {
                None
            }),
    {
        match self.handlers.get(&h.fd) {
            Some(handler) => if handler.id == h.id {
                Some(handler.mask)
            } else {
                None
            },
            None => None,
        }
    }

    /// The ready mask of the handler `h` refers to, if it is still registered.
    pub fn readiness(&self, h: HandlerRef) -> (r: Option<u32>)
        requires
            self@.wf(),
        ensures
            r == (if self@.resolves(h) {
                Some(self@.handlers[h.fd].ready)
            } else {
                None
            }),
            r is Some ==> within(r.unwrap(), self@.handlers[h.fd].mask),
    {
        match self.handlers.get(&h.fd) {
            Some(handler) => if handler.id == h.id {
                Some(handler.ready)
            } else {
                None
            },
            None => None,
        }
    }

    /// Register interest `mask` in `fd` for `callback`. A new descriptor gets a
    /// handler, whose watcher the caller spawns. A known one keeps its callback
    /// and takes the new mask; only if the mask changed is its ready mask emptied
    /// and its watcher's waker handed back, to wake it.
    pub fn register_interest(&mut self, fd: i32, mask: u32, callback: C) -> (r: RegisterOutcome<W>)
        requires
            old(self)@.wf(),
            old(self)@.next_id < u64::MAX,
        ensures
            final(self)@ == old(self)@.with_interest(fd, mask, callback),
            final(self)@.wf(),
            match r {
                RegisterOutcome::Created(h) => !old(self)@.handlers.contains_key(fd) && h == (
                HandlerRef { fd, id: old(self)@.next_id as u64 }),
                RegisterOutcome::Updated(wake) => old(self)@.handlers.contains_key(fd) && wake == (
                if old(self)@.handlers[fd].mask == mask {
                    None
                } else {
                    old(self)@.handlers[fd].waker
                }),
            },
    {
        let ghost before = self@;
        proof {
            lemma_empty_within(mask);
        }
        match self.handlers.remove(&fd) {
            Some(handler) => {
                if handler.mask == mask {
                    self.handlers.insert(fd, handler);
                    assert(self@.handlers =~= before.handlers.insert(fd, before.handlers[fd]));
                    RegisterOutcome::Updated(None)
                } else {
                    let Handler { callback: kept, mask: _, ready: _, id, watcher, waker } = handler;
                    self.handlers.insert(
                        fd,
                        Handler { callback: kept, mask, ready: 0, id, watcher, waker: None },
                    );
                    assert(self@.handlers =~= before.with_interest(fd, mask, callback).handlers);
                    RegisterOutcome::Updated(waker)
                }
            },
            None => {
                let h = HandlerRef { fd, id: self.next_id };
                self.handlers.insert(
                    fd,
                    Handler { callback, mask, ready: 0, id: self.next_id, watcher: None, waker: None },
                );
                self.next_id = self.next_id + 1;
                assert(self@.handlers =~= before.with_interest(fd, mask, callback).handlers);
                RegisterOutcome::Created(h)
            },
        }
    }

    /// Give the handler `h` its watcher task. When `h` no longer resolves the
    /// task comes back, to be cancelled; otherwise any earlier watcher does.
    pub fn attach_watcher(&mut self, h: HandlerRef, task: T) -> (r: Option<T>)
        requires
            old(self)@.wf(),
        ensures
            final(self)@ == old(self)@.with_watcher(h, task),
            final(self)@.wf(),
            r == (if old(self)@.resolves(h) {
                old(self)@.handlers[h.fd].watcher
            } else {
                Some(task)
            }),
    {
        let ghost before = self@;
        match self.handlers.remove(&h.fd) {
            Some(handler) => {
                if handler.id == h.id {
                    let Handler { callback, mask, ready, id, watcher, waker } = handler;
                    self.handlers.insert(
                        h.fd,
                        Handler { callback, mask, ready, id, watcher: Some(task), waker },
                    );
                    assert(self@.handlers =~= before.with_watcher(h, task).handlers);
                    watcher
                } else {
                    self.handlers.insert(h.fd, handler);
                    assert(self@.handlers =~= before.handlers);
                    Some(task)
                }
            },
            None => {
                assert(self@.handlers =~= before.handlers);
                Some(task)
            },
        }
    }

    /// Unregister `fd`. Its watcher task, if it had one, comes back to be cancelled.
    pub fn unregister_interest(&mut self, fd: i32) -> (r: Option<T>)
        requires
            old(self)@.wf(),
        ensures
            final(self)@ == old(self)@.without(fd),
            final(self)@.wf(),
            r == (if old(self)@.handlers.contains_key(fd) {
                old(self)@.handlers[fd].watcher
            } else {
                None
            }),
    {
        let ghost before = self@;
        match self.handlers.remove(&fd) {
            Some(handler) => handler.watcher,
            None => {
                assert(self@.handlers =~= before.handlers.remove(fd));
                None
            },
        }
    }

    /// One poll of the watcher of `h`: record its waker and what it saw. The
    /// result says whether to queue a record for the host.
    pub fn observe(&mut self, h: HandlerRef, waker: W, o: Observation) -> (r: WatchStep)
        requires
            old(self)@.wf(),
        ensures
            final(self)@ == old(self)@.observed(h, waker, o),
            final(self)@.wf(),
            r == (if !old(self)@.resolves(h) {
                WatchStep::Detached
            } else if overlaps(final(self)@.handlers[h.fd].ready, final(self)@.handlers[h.fd].mask) {
                WatchStep::Deliver(EventRecord { target: h })
            } else {
                WatchStep::Idle
            }),
    {
        let ghost before = self@;
        match self.handlers.remove(&h.fd) {
            Some(handler) => {
                if handler.id == h.id {
                    let Handler { callback, mask, ready, id, watcher, waker: _ } = handler;
                    proof {
                        lemma_accumulate_within(ready, mask, o);
                    }
                    let ready = ready | (observed(o) & mask);
                    let deliver = ready & mask != 0;
                    self.handlers.insert(
                        h.fd,
                        Handler { callback, mask, ready, id, watcher, waker: Some(waker) },
                    );
                    assert(self@.handlers =~= before.observed(h, waker, o).handlers);
                    if deliver {
                        WatchStep::Deliver(EventRecord { target: h })
                    } else {
                        WatchStep::Idle
                    }
                } else {
                    self.handlers.insert(h.fd, handler);
                    assert(self@.handlers =~= before.handlers);
                    WatchStep::Detached
                }
            },
            None => {
                assert(self@.handlers =~= before.handlers);
                WatchStep::Detached
            },
        }
    }

    /// The first half of firing a record: what to hand the application, read
    /// before its callback runs.
    pub fn begin_fire(&self, rec: EventRecord) -> (r: Option<(C, u32)>) where C: Copy
        ensures
            r == self@.delivery(rec.target),
    {
        match self.handlers.get(&rec.target.fd) {
            Some(handler) => if handler.id == rec.target.id && handler.ready & handler.mask != 0 {
                Some((handler.callback, handler.ready))
            } else {
                None
            },
            None => None,
        }
    }

    /// The second half of firing a record, after the callback ran: empty the
    /// ready mask and hand back the watcher's waker, to wake it.
    pub fn finish_fire(&mut self, rec: EventRecord) -> (r: Option<W>)
        requires
            old(self)@.wf(),
        ensures
            final(self)@ == old(self)@.delivered(rec.target),
            final(self)@.wf(),
            r == (if old(self)@.resolves(rec.target) {
                old(self)@.handlers[rec.target.fd].waker
            } else {
                None
            }),
    {
        let ghost before = self@;
        let h = rec.target;
        match self.handlers.remove(&h.fd) {
            Some(handler) => {
                if handler.id == h.id {
                    let Handler { callback, mask, ready: _, id, watcher, waker } = handler;
                    proof {
                        lemma_empty_within(mask);
                    }
                    self.handlers.insert(
                        h.fd,
                        Handler { callback, mask, ready: 0, id, watcher, waker: None },
                    );
                    assert(self@.handlers =~= before.delivered(h).handlers);
                    waker
                } else {
                    self.handlers.insert(h.fd, handler);
                    assert(self@.handlers =~= before.handlers);
                    None
                }
            },
            None => {
                assert(self@.handlers =~= before.handlers);
                None
            },
        }
    }
}

/// An empty ready mask lies within every interest.
pub proof fn lemma_empty_within(mask: u32)
    ensures
        within(0, mask),
{
    assert(0u32 & mask == 0u32) by (bit_vector);
}

/// Every change a registry goes through keeps each handler's ready mask within
/// its interest mask; right after registering interest `mask` in `fd`, the
/// ready mask of `fd` lies within `mask`.
pub proof fn lemma_ready_stays_within_interest<C, T, W>(
    m: RegistryModel<C, T, W>,
    fd: i32,
    mask: u32,
    callback: C,
    h: HandlerRef,
    waker: W,
    o: Observation,
    task: T,
)
    requires
        m.wf(),
        m.next_id < u64::MAX,
    ensures
        m.with_interest(fd, mask, callback).wf(),
        within(m.with_interest(fd, mask, callback).handlers[fd].ready, mask),
        m.without(fd).wf(),
        m.with_watcher(h, task).wf(),
        m.observed(h, waker, o).wf(),
        m.delivered(h).wf(),
{
    lemma_empty_within(mask);
    if m.handlers.contains_key(fd) {
        lemma_empty_within(m.handlers[fd].mask);
    }
    if m.resolves(h) {
        let old = m.handlers[h.fd];
        lemma_accumulate_within(old.ready, old.mask, o);
        lemma_empty_within(old.mask);
    }
}

/// Registering a known descriptor again with the same mask leaves its handler
/// as it was, ready mask and waker included; with another mask it empties the
/// ready mask and takes the waker out (the caller wakes it). The callback and
/// generation never change.
pub proof fn lemma_reregistration<C, T, W>(
    m: RegistryModel<C, T, W>,
    fd: i32,
    mask: u32,
    callback: C,
)
    requires
        m.handlers.contains_key(fd),
    ensures
        ({
            let before = m.handlers[fd];
            let after = m.with_interest(fd, mask, callback).handlers[fd];
            &&& m.with_interest(fd, mask, callback).handlers.dom() == m.handlers.dom()
            &&& after.mask == mask
            &&& after.callback == before.callback
            &&& after.id == before.id
            &&& before.mask == mask ==> after == before
            &&& before.mask != mask ==> after.ready == 0 && after.waker is None
        }),
{
    assert(m.with_interest(fd, mask, callback).handlers.dom() =~= m.handlers.dom());
}

/// Once a descriptor is unregistered, its handler is never reached again: a
/// watcher of it is detached, a queued record of it delivers nothing, and this
/// holds whatever is registered after, the same descriptor included.
pub proof fn lemma_unregistered_stays_silent<C, T, W>(
    m: RegistryModel<C, T, W>,
    h: HandlerRef,
    fd: i32,
    mask: u32,
    callback: C,
    waker: W,
    o: Observation,
)
    requires
        m.wf(),
        m.issued(h),
    ensures
        !m.without(h.fd).resolves(h),
        m.without(h.fd).delivery(h) is None,
        m.without(h.fd).observed(h, waker, o) == m.without(h.fd),
        m.without(h.fd).delivered(h) == m.without(h.fd),
        !m.without(h.fd).with_interest(fd, mask, callback).resolves(h),
        m.without(h.fd).with_interest(fd, mask, callback).delivery(h) is None,
{
}

/// A reference that no longer resolves never resolves again, whatever the
/// registry goes through next.
pub proof fn lemma_stale_stays_stale<C, T, W>(
    m: RegistryModel<C, T, W>,
    stale: HandlerRef,
    fd: i32,
    mask: u32,
    callback: C,
    h: HandlerRef,
    waker: W,
    o: Observation,
    task: T,
)
    requires
        m.wf(),
        m.issued(stale),
        !m.resolves(stale),
    ensures
        !m.with_interest(fd, mask, callback).resolves(stale),
        !m.without(fd).resolves(stale),
        !m.with_watcher(h, task).resolves(stale),
        !m.observed(h, waker, o).resolves(stale),
        !m.delivered(h).resolves(stale),
        m.with_interest(fd, mask, callback).issued(stale),
{
}

} // verus!
