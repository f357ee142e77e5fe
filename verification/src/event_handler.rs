//! The event-dispatch hub.
//!
//! Two logical queues exist for each of user events, engine events and
//! receivers: a *pending* queue that producers fill, and a *locked* snapshot
//! that the current dispatch pass drains.  A pass snapshots, delivers, then
//! merges receivers back, so events queued and receivers added during the
//! pass never disturb the pass itself: they take effect on the next one.
//!
//! Every delivery the dispatcher performs is recorded in a ghost log, as is
//! everything the producers hand in (events queued, receivers registered).
//! The contracts of the fire functions pin both down exactly: which events
//! were handed to which snapshot receivers, in which order, and that the
//! pending queues end a pass holding precisely what arrived during it.

use vstd::prelude::*;

use crate::error::V39Result;
use crate::event::{EngineAction, EngineEvent, Event, EventReceiver};

verus! {

broadcast use vstd::seq_lib::lemma_seq_contains_after_push;

/// One recorded delivery: which event was handed to which receiver of the
/// pass's snapshot (by position, in registration order).
pub enum Delivery {
    User { event: Event, receiver: int },
    Engine { event: EngineEvent, receiver: int },
}

/// The abstract state of the hub: the three pending queues, the three locked
/// snapshots, the quit flag, the log of all deliveries performed so far, and
/// the logs of everything producers ever queued or registered (which the
/// dispatch contracts use to pin the pending queues down exactly).
pub struct EventHandlerView<R> {
    pub events: Seq<Event>,
    pub engine_events: Seq<EngineEvent>,
    pub receivers: Seq<R>,
    pub locked_events: Seq<Event>,
    pub locked_engine_events: Seq<EngineEvent>,
    pub locked_receivers: Seq<R>,
    pub quit_requested: bool,
    pub deliveries: Seq<Delivery>,
    pub queued_events: Seq<Event>,
    pub queued_engine_events: Seq<EngineEvent>,
    pub added_receivers: Seq<R>,
}

/// The event-dispatch hub, generic over the application's receiver type.
pub struct EventHandler<R> {
    events: Vec<Event>,
    engine_events: Vec<EngineEvent>,
    receivers: Vec<R>,
    locked_events: Vec<Event>,
    locked_engine_events: Vec<EngineEvent>,
    locked_receivers: Vec<R>,
    quit_requested: bool,
    deliveries: Ghost<Seq<Delivery>>,
    queued_events: Ghost<Seq<Event>>,
    queued_engine_events: Ghost<Seq<EngineEvent>>,
    added_receivers: Ghost<Seq<R>>,
}

impl<R> View for EventHandler<R> {
    type V = EventHandlerView<R>;

    closed spec fn view(&self) -> EventHandlerView<R> {
        EventHandlerView {
            events: self.events@,
            engine_events: self.engine_events@,
            receivers: self.receivers@,
            locked_events: self.locked_events@,
            locked_engine_events: self.locked_engine_events@,
            locked_receivers: self.locked_receivers@,
            quit_requested: self.quit_requested,
            deliveries: self.deliveries@,
            queued_events: self.queued_events@,
            queued_engine_events: self.queued_engine_events@,
            added_receivers: self.added_receivers@,
        }
    }
}

impl<R> EventHandler<R> {
    pub fn init() -> (r: Self)
        ensures
            r@.events.len() == 0,
            r@.engine_events.len() == 0,
            r@.receivers.len() == 0,
            r@.locked_events.len() == 0,
            r@.locked_engine_events.len() == 0,
            r@.locked_receivers.len() == 0,
            !r@.quit_requested,
            r@.deliveries.len() == 0,
            r@.queued_events.len() == 0,
            r@.queued_engine_events.len() == 0,
            r@.added_receivers.len() == 0,
    {
        EventHandler {
            events: Vec::new(),
            engine_events: Vec::new(),
            receivers: Vec::new(),
            locked_events: Vec::new(),
            locked_engine_events: Vec::new(),
            locked_receivers: Vec::new(),
            quit_requested: false,
            deliveries: Ghost(Seq::empty()),
            queued_events: Ghost(Seq::empty()),
            queued_engine_events: Ghost(Seq::empty()),
            added_receivers: Ghost(Seq::empty()),
        }
    }

    /// Appends a user event to the pending queue.  Safe to call at any time,
    /// including from inside a dispatch pass: the event is delivered by the
    /// next pass.
    pub fn record_event(&mut self, event: Event)
        ensures
            final(self)@ == (EventHandlerView {
                events: old(self)@.events.push(event),
                queued_events: old(self)@.queued_events.push(event),
                ..old(self)@
            }),
    {
        self.queued_events = Ghost(self.queued_events@.push(event));
        self.events.push(event);
    }

    /// Appends an engine event to the pending queue.
    pub fn record_engine_event(&mut self, event: EngineEvent)
        ensures
            final(self)@ == (EventHandlerView {
                engine_events: old(self)@.engine_events.push(event),
                queued_engine_events: old(self)@.queued_engine_events.push(event),
                ..old(self)@
            }),
    {
        self.queued_engine_events = Ghost(self.queued_engine_events@.push(event));
        self.engine_events.push(event);
    }

    /// Registers a receiver on the pending queue.  A receiver added while a
    /// pass is running is not visited by that pass.
    pub fn record_receiver(&mut self, rec: R)
        ensures
            final(self)@ == (EventHandlerView {
                receivers: old(self)@.receivers.push(rec),
                added_receivers: old(self)@.added_receivers.push(rec),
                ..old(self)@
            }),
    {
        self.added_receivers = Ghost(self.added_receivers@.push(rec));
        self.receivers.push(rec);
    }

    /// Raises the quit flag; it is never lowered.
    pub fn request_quit(&mut self)
        ensures
            final(self)@ == (EventHandlerView { quit_requested: true, ..old(self)@ }),
    {
        self.quit_requested = true;
    }

    /// Whether some receiver or the runtime has asked the loop to stop.
    pub fn quit_requested(&self) -> (r: bool)
        ensures
            r == self@.quit_requested,
    {
        self.quit_requested
    }

    /// Borrows the pending engine-event queue.
    pub fn engine_events_ref(&self) -> (r: &Vec<EngineEvent>)
        ensures
            r@ == self@.engine_events,
    {
        &self.engine_events
    }

    /// Freezes the pending user events into the locked snapshot.
    pub fn snapshot_event_queue(&mut self)
        ensures
            final(self)@ == (EventHandlerView {
                events: Seq::empty(),
                locked_events: old(self)@.events,
                ..old(self)@
            }),
    {
        let mut taken: Vec<Event> = Vec::new();
        core::mem::swap(&mut taken, &mut self.events);
        self.locked_events = taken;
    }

    /// Moves the pending engine events whose variant matches `event_kind`
    /// into the locked snapshot; the others stay pending, in order, for a
    /// later pass.
    pub fn snapshot_engine_event_queue(&mut self, event_kind: &EngineEvent)
        ensures
            final(self)@ == (EventHandlerView {
                engine_events: old(self)@.engine_events.filter(
                    |e: EngineEvent| !e.spec_var_eq(*event_kind),
                ),
                locked_engine_events: old(self)@.locked_engine_events
                    + old(self)@.engine_events.filter(|e: EngineEvent| e.spec_var_eq(*event_kind)),
                ..old(self)@
            }),
    {
        let mut drained: Vec<EngineEvent> = Vec::new();
        core::mem::swap(&mut drained, &mut self.engine_events);
        let ghost all = drained@;
        let mut i: usize = 0;
        while i < drained.len()
            invariant
                0 <= i <= all.len(),
                drained@ == all,
                self@.engine_events == all.take(i as int).filter(
                    |e: EngineEvent| !e.spec_var_eq(*event_kind),
                ),
                self@.locked_engine_events == old(self)@.locked_engine_events + all.take(
                    i as int,
                ).filter(|e: EngineEvent| e.spec_var_eq(*event_kind)),
                self@.events == old(self)@.events,
                self@.receivers == old(self)@.receivers,
                self@.locked_events == old(self)@.locked_events,
                self@.locked_receivers == old(self)@.locked_receivers,
                self@.quit_requested == old(self)@.quit_requested,
                self@.deliveries == old(self)@.deliveries,
                self@.queued_events == old(self)@.queued_events,
                self@.queued_engine_events == old(self)@.queued_engine_events,
                self@.added_receivers == old(self)@.added_receivers,
            decreases all.len() - i,
        {
            let e = drained[i];
            proof {
                assert(all.take(i + 1) == all.take(i as int).push(all[i as int]));
                reveal_with_fuel(Seq::filter, 2);
                assert(all.take(i as int).push(all[i as int]).drop_last() == all.take(i as int));
            }
            if e.var_eq(event_kind) {
                self.locked_engine_events.push(e);
            } else {
                self.engine_events.push(e);
            }
            i = i + 1;
        }
        proof {
            assert(all.take(all.len() as int) == all);
        }
    }

    /// Freezes the pending receivers into the locked snapshot for one pass.
    pub fn snapshot_receiver_queue(&mut self)
        ensures
            final(self)@ == (EventHandlerView {
                receivers: Seq::empty(),
                locked_receivers: old(self)@.receivers,
                ..old(self)@
            }),
    {
        let mut taken: Vec<R> = Vec::new();
        core::mem::swap(&mut taken, &mut self.receivers);
        self.locked_receivers = taken;
    }

    /// Merges the snapshot receivers back behind those registered during the
    /// pass, so everyone is visited from the next pass on.
    pub fn apply_receiver_snapshot(&mut self)
        ensures
            final(self)@ == (EventHandlerView {
                receivers: old(self)@.receivers + old(self)@.locked_receivers,
                locked_receivers: Seq::empty(),
                ..old(self)@
            }),
    {
        let mut taken: Vec<R> = Vec::new();
        core::mem::swap(&mut taken, &mut self.locked_receivers);
        self.receivers.append(&mut taken);
    }

    /// Pops the most recently queued event from the snapshot.
    pub fn fetch_event(&mut self) -> (r: Option<Event>)
        ensures
            old(self)@.locked_events.len() == 0 ==> r is None && final(self)@ == old(self)@,
            old(self)@.locked_events.len() > 0 ==> r == Some(old(self)@.locked_events.last())
                && final(self)@ == (EventHandlerView {
                locked_events: old(self)@.locked_events.drop_last(),
                ..old(self)@
            }),
    {
        self.locked_events.pop()
    }

    /// Pops the most recently queued engine event from the snapshot.
    pub fn fetch_engine_event(&mut self) -> (r: Option<EngineEvent>)
        ensures
            old(self)@.locked_engine_events.len() == 0 ==> r is None && final(self)@ == old(
                self,
            )@,
            old(self)@.locked_engine_events.len() > 0 ==> r == Some(
                old(self)@.locked_engine_events.last(),
            ) && final(self)@ == (EventHandlerView {
                locked_engine_events: old(self)@.locked_engine_events.drop_last(),
                ..old(self)@
            }),
    {
        self.locked_engine_events.pop()
    }

    /// Drains the whole user-event snapshot.
    pub fn fetch_event_snapshots(&mut self) -> (r: Vec<Event>)
        ensures
            r@ == old(self)@.locked_events,
            final(self)@ == (EventHandlerView { locked_events: Seq::empty(), ..old(self)@ }),
    {
        let mut taken: Vec<Event> = Vec::new();
        core::mem::swap(&mut taken, &mut self.locked_events);
        taken
    }

    /// Drains the whole engine-event snapshot.
    pub fn fetch_engine_event_snapshots(&mut self) -> (r: Vec<EngineEvent>)
        ensures
            r@ == old(self)@.locked_engine_events,
            final(self)@ == (EventHandlerView {
                locked_engine_events: Seq::empty(),
                ..old(self)@
            }),
    {
        let mut taken: Vec<EngineEvent> = Vec::new();
        core::mem::swap(&mut taken, &mut self.locked_engine_events);
        taken
    }
}

proof fn lemma_prefix_trans<A>(a: Seq<A>, b: Seq<A>, c: Seq<A>)
    requires
        a.is_prefix_of(b),
        b.is_prefix_of(c),
    ensures
        a.is_prefix_of(c),
{
    assert(a =~= c.subrange(0, a.len() as int));
}

/// Chains two "pending equals the logged suffix" steps: if the first step
/// appended the log entries after `base_len` and the second appended those
/// after the first log's end, the whole appends the entries after `base_len`.
/// The suffix of a grown log splits at the old log's end.
proof fn lemma_suffix_split<A>(q1: Seq<A>, q2: Seq<A>, base_len: int)
    requires
        0 <= base_len <= q1.len(),
        q1.is_prefix_of(q2),
    ensures
        q2.skip(base_len) == q1.skip(base_len) + q2.skip(q1.len() as int),
{
    assert(q2.skip(base_len) =~= q1.skip(base_len) + q2.skip(q1.len() as int));
}

proof fn lemma_log_suffix_chain<A>(
    e0: Seq<A>,
    e1: Seq<A>,
    e2: Seq<A>,
    base_len: int,
    q1: Seq<A>,
    q2: Seq<A>,
)
    requires
        0 <= base_len <= q1.len(),
        q1.is_prefix_of(q2),
        e1 == e0 + q1.skip(base_len),
        e2 == e1 + q2.skip(q1.len() as int),
    ensures
        e2 == e0 + q2.skip(base_len),
{
    lemma_suffix_split(q1, q2, base_len);
    assert((e0 + q1.skip(base_len)) + q2.skip(q1.len() as int) =~= e0 + (q1.skip(base_len)
        + q2.skip(q1.len() as int)));
}

/// Appending one element to both the pending queue and its log keeps the
/// "pending equals the logged suffix" equation.
proof fn lemma_log_suffix_push<A>(e: Seq<A>, base: Seq<A>, base_len: int, q: Seq<A>, x: A)
    requires
        0 <= base_len <= q.len(),
        e == base + q.skip(base_len),
    ensures
        e.push(x) == base + q.push(x).skip(base_len),
{
    assert(q.push(x).skip(base_len) =~= q.skip(base_len).push(x));
    assert((base + q.skip(base_len)).push(x) =~= base + q.skip(base_len).push(x));
}

impl<R: EventReceiver> EventHandler<R> {
    /// Applies the actions a receiver callback returned: queue requests land
    /// on the pending queues (never on the running pass's snapshots), new
    /// receivers are registered for later passes, and a quit request raises
    /// the flag.
    fn apply_actions(&mut self, actions: Vec<EngineAction<R>>)
        ensures
            old(self)@.queued_events.is_prefix_of(final(self)@.queued_events),
            final(self)@.events == old(self)@.events + final(self)@.queued_events.skip(
                old(self)@.queued_events.len() as int,
            ),
            old(self)@.queued_engine_events.is_prefix_of(final(self)@.queued_engine_events),
            final(self)@.engine_events == old(self)@.engine_events
                + final(self)@.queued_engine_events.skip(
                old(self)@.queued_engine_events.len() as int,
            ),
            old(self)@.added_receivers.is_prefix_of(final(self)@.added_receivers),
            final(self)@.receivers == old(self)@.receivers + final(self)@.added_receivers.skip(
                old(self)@.added_receivers.len() as int,
            ),
            final(self)@.locked_events == old(self)@.locked_events,
            final(self)@.locked_engine_events == old(self)@.locked_engine_events,
            final(self)@.locked_receivers == old(self)@.locked_receivers,
            old(self)@.quit_requested ==> final(self)@.quit_requested,
            final(self)@.deliveries == old(self)@.deliveries,
    {
        let mut actions = actions;
        proof {
            assert(self@.events =~= old(self)@.events + self@.queued_events.skip(
                old(self)@.queued_events.len() as int,
            ));
            assert(self@.engine_events =~= old(self)@.engine_events
                + self@.queued_engine_events.skip(old(self)@.queued_engine_events.len() as int));
            assert(self@.receivers =~= old(self)@.receivers + self@.added_receivers.skip(
                old(self)@.added_receivers.len() as int,
            ));
        }
        while actions.len() > 0
            invariant
                old(self)@.queued_events.is_prefix_of(self@.queued_events),
                self@.events == old(self)@.events + self@.queued_events.skip(
                    old(self)@.queued_events.len() as int,
                ),
                old(self)@.queued_engine_events.is_prefix_of(self@.queued_engine_events),
                self@.engine_events == old(self)@.engine_events
                    + self@.queued_engine_events.skip(
                    old(self)@.queued_engine_events.len() as int,
                ),
                old(self)@.added_receivers.is_prefix_of(self@.added_receivers),
                self@.receivers == old(self)@.receivers + self@.added_receivers.skip(
                    old(self)@.added_receivers.len() as int,
                ),
                self@.locked_events == old(self)@.locked_events,
                self@.locked_engine_events == old(self)@.locked_engine_events,
                self@.locked_receivers == old(self)@.locked_receivers,
                old(self)@.quit_requested ==> self@.quit_requested,
                self@.deliveries == old(self)@.deliveries,
            decreases actions@.len(),
        {
            let ghost pre = self@;
            let action = actions.remove(0);
            match action {
                EngineAction::QueueEvent(event) => {
                    self.record_event(event);
                    proof {
                        lemma_log_suffix_push(
                            pre.events,
                            old(self)@.events,
                            old(self)@.queued_events.len() as int,
                            pre.queued_events,
                            event,
                        );
                        assert(pre.queued_events.is_prefix_of(self@.queued_events));
                        lemma_prefix_trans(
                            old(self)@.queued_events,
                            pre.queued_events,
                            self@.queued_events,
                        );
                    }
                },
                EngineAction::QueueEngineEvent(event) => {
                    self.record_engine_event(event);
                    proof {
                        lemma_log_suffix_push(
                            pre.engine_events,
                            old(self)@.engine_events,
                            old(self)@.queued_engine_events.len() as int,
                            pre.queued_engine_events,
                            event,
                        );
                        assert(pre.queued_engine_events.is_prefix_of(self@.queued_engine_events));
                        lemma_prefix_trans(
                            old(self)@.queued_engine_events,
                            pre.queued_engine_events,
                            self@.queued_engine_events,
                        );
                    }
                },
                EngineAction::AddReceiver(rec) => {
                    let ghost added = rec;
                    self.record_receiver(rec);
                    proof {
                        lemma_log_suffix_push(
                            pre.receivers,
                            old(self)@.receivers,
                            old(self)@.added_receivers.len() as int,
                            pre.added_receivers,
                            added,
                        );
                        assert(pre.added_receivers.is_prefix_of(self@.added_receivers));
                        lemma_prefix_trans(
                            old(self)@.added_receivers,
                            pre.added_receivers,
                            self@.added_receivers,
                        );
                    }
                },
                EngineAction::Quit => {
                    self.request_quit();
                },
            }
        }
    }

    /// Hands one user event to every receiver of the current snapshot, in
    /// registration order, recording each delivery.  A callback that fails
    /// does not stop delivery to the receivers after it.
    fn dispatch_event_to_snapshot(&mut self, event: &Event)
        ensures
            final(self)@.deliveries == old(self)@.deliveries + user_event_deliveries(
                *event,
                old(self)@.locked_receivers.len(),
            ),
            final(self)@.locked_receivers.len() == old(self)@.locked_receivers.len(),
            old(self)@.queued_events.is_prefix_of(final(self)@.queued_events),
            final(self)@.events == old(self)@.events + final(self)@.queued_events.skip(
                old(self)@.queued_events.len() as int,
            ),
            old(self)@.queued_engine_events.is_prefix_of(final(self)@.queued_engine_events),
            final(self)@.engine_events == old(self)@.engine_events
                + final(self)@.queued_engine_events.skip(
                old(self)@.queued_engine_events.len() as int,
            ),
            old(self)@.added_receivers.is_prefix_of(final(self)@.added_receivers),
            final(self)@.receivers == old(self)@.receivers + final(self)@.added_receivers.skip(
                old(self)@.added_receivers.len() as int,
            ),
            final(self)@.locked_events == old(self)@.locked_events,
            final(self)@.locked_engine_events == old(self)@.locked_engine_events,
            old(self)@.quit_requested ==> final(self)@.quit_requested,
    {
        let mut recs: Vec<R> = Vec::new();
        core::mem::swap(&mut recs, &mut self.locked_receivers);
        let ghost n = recs@.len();
        let mut j: usize = 0;
        proof {
            assert(self@.events =~= old(self)@.events + self@.queued_events.skip(
                old(self)@.queued_events.len() as int,
            ));
            assert(self@.engine_events =~= old(self)@.engine_events
                + self@.queued_engine_events.skip(old(self)@.queued_engine_events.len() as int));
            assert(self@.receivers =~= old(self)@.receivers + self@.added_receivers.skip(
                old(self)@.added_receivers.len() as int,
            ));
            assert(self@.deliveries =~= old(self)@.deliveries + user_event_deliveries(
                *event,
                0,
            ));
        }
        while j < recs.len()
            invariant
                0 <= j <= recs@.len(),
                recs@.len() == n,
                self@.deliveries == old(self)@.deliveries + user_event_deliveries(
                    *event,
                    j as nat,
                ),
                old(self)@.queued_events.is_prefix_of(self@.queued_events),
                self@.events == old(self)@.events + self@.queued_events.skip(
                    old(self)@.queued_events.len() as int,
                ),
                old(self)@.queued_engine_events.is_prefix_of(self@.queued_engine_events),
                self@.engine_events == old(self)@.engine_events
                    + self@.queued_engine_events.skip(
                    old(self)@.queued_engine_events.len() as int,
                ),
                old(self)@.added_receivers.is_prefix_of(self@.added_receivers),
                self@.receivers == old(self)@.receivers + self@.added_receivers.skip(
                    old(self)@.added_receivers.len() as int,
                ),
                self@.locked_events == old(self)@.locked_events,
                self@.locked_engine_events == old(self)@.locked_engine_events,
                self@.locked_receivers.len() == 0,
                old(self)@.quit_requested ==> self@.quit_requested,
            decreases recs@.len() - j,
        {
            let ghost pre = self@;
            let result = recs[j].dispatch_event(event);
            self.deliveries = Ghost(
                self.deliveries@.push(Delivery::User { event: *event, receiver: j as int }),
            );
            proof {
                assert(self@.deliveries =~= old(self)@.deliveries + user_event_deliveries(
                    *event,
                    (j + 1) as nat,
                ));
            }
            match result {
                Ok(actions) => {
                    self.apply_actions(actions);
                    proof {
                        lemma_log_suffix_chain(
                            old(self)@.events,
                            pre.events,
                            self@.events,
                            old(self)@.queued_events.len() as int,
                            pre.queued_events,
                            self@.queued_events,
                        );
                        lemma_prefix_trans(
                            old(self)@.queued_events,
                            pre.queued_events,
                            self@.queued_events,
                        );
                        lemma_log_suffix_chain(
                            old(self)@.engine_events,
                            pre.engine_events,
                            self@.engine_events,
                            old(self)@.queued_engine_events.len() as int,
                            pre.queued_engine_events,
                            self@.queued_engine_events,
                        );
                        lemma_prefix_trans(
                            old(self)@.queued_engine_events,
                            pre.queued_engine_events,
                            self@.queued_engine_events,
                        );
                        lemma_log_suffix_chain(
                            old(self)@.receivers,
                            pre.receivers,
                            self@.receivers,
                            old(self)@.added_receivers.len() as int,
                            pre.added_receivers,
                            self@.added_receivers,
                        );
                        lemma_prefix_trans(
                            old(self)@.added_receivers,
                            pre.added_receivers,
                            self@.added_receivers,
                        );
                    }
                },
                Err(_) => {
                    // The failure is the receiver's own; dispatch goes on.
                },
            }
            j = j + 1;
        }
        self.locked_receivers = recs;
    }

    /// Hands one engine event to every receiver of the current snapshot, in
    /// registration order, invoking the callback that belongs to the event's
    /// variant.
    fn dispatch_engine_event_to_snapshot(&mut self, event: &EngineEvent)
        ensures
            final(self)@.deliveries == old(self)@.deliveries + engine_event_deliveries(
                *event,
                old(self)@.locked_receivers.len(),
            ),
            final(self)@.locked_receivers.len() == old(self)@.locked_receivers.len(),
            old(self)@.queued_events.is_prefix_of(final(self)@.queued_events),
            final(self)@.events == old(self)@.events + final(self)@.queued_events.skip(
                old(self)@.queued_events.len() as int,
            ),
            old(self)@.queued_engine_events.is_prefix_of(final(self)@.queued_engine_events),
            final(self)@.engine_events == old(self)@.engine_events
                + final(self)@.queued_engine_events.skip(
                old(self)@.queued_engine_events.len() as int,
            ),
            old(self)@.added_receivers.is_prefix_of(final(self)@.added_receivers),
            final(self)@.receivers == old(self)@.receivers + final(self)@.added_receivers.skip(
                old(self)@.added_receivers.len() as int,
            ),
            final(self)@.locked_events == old(self)@.locked_events,
            final(self)@.locked_engine_events == old(self)@.locked_engine_events,
            old(self)@.quit_requested ==> final(self)@.quit_requested,
    {
        let mut recs: Vec<R> = Vec::new();
        core::mem::swap(&mut recs, &mut self.locked_receivers);
        let ghost n = recs@.len();
        let mut j: usize = 0;
        proof {
            assert(self@.events =~= old(self)@.events + self@.queued_events.skip(
                old(self)@.queued_events.len() as int,
            ));
            assert(self@.engine_events =~= old(self)@.engine_events
                + self@.queued_engine_events.skip(old(self)@.queued_engine_events.len() as int));
            assert(self@.receivers =~= old(self)@.receivers + self@.added_receivers.skip(
                old(self)@.added_receivers.len() as int,
            ));
            assert(self@.deliveries =~= old(self)@.deliveries + engine_event_deliveries(
                *event,
                0,
            ));
        }
        while j < recs.len()
            invariant
                0 <= j <= recs@.len(),
                recs@.len() == n,
                self@.deliveries == old(self)@.deliveries + engine_event_deliveries(
                    *event,
                    j as nat,
                ),
                old(self)@.queued_events.is_prefix_of(self@.queued_events),
                self@.events == old(self)@.events + self@.queued_events.skip(
                    old(self)@.queued_events.len() as int,
                ),
                old(self)@.queued_engine_events.is_prefix_of(self@.queued_engine_events),
                self@.engine_events == old(self)@.engine_events
                    + self@.queued_engine_events.skip(
                    old(self)@.queued_engine_events.len() as int,
                ),
                old(self)@.added_receivers.is_prefix_of(self@.added_receivers),
                self@.receivers == old(self)@.receivers + self@.added_receivers.skip(
                    old(self)@.added_receivers.len() as int,
                ),
                self@.locked_events == old(self)@.locked_events,
                self@.locked_engine_events == old(self)@.locked_engine_events,
                self@.locked_receivers.len() == 0,
                old(self)@.quit_requested ==> self@.quit_requested,
            decreases recs@.len() - j,
        {
            let ghost pre = self@;
            let result = match_event(event, &mut recs[j]);
            self.deliveries = Ghost(
                self.deliveries@.push(Delivery::Engine { event: *event, receiver: j as int }),
            );
            proof {
                assert(self@.deliveries =~= old(self)@.deliveries + engine_event_deliveries(
                    *event,
                    (j + 1) as nat,
                ));
            }
            match result {
                Ok(actions) => {
                    self.apply_actions(actions);
                    proof {
                        lemma_log_suffix_chain(
                            old(self)@.events,
                            pre.events,
                            self@.events,
                            old(self)@.queued_events.len() as int,
                            pre.queued_events,
                            self@.queued_events,
                        );
                        lemma_prefix_trans(
                            old(self)@.queued_events,
                            pre.queued_events,
                            self@.queued_events,
                        );
                        lemma_log_suffix_chain(
                            old(self)@.engine_events,
                            pre.engine_events,
                            self@.engine_events,
                            old(self)@.queued_engine_events.len() as int,
                            pre.queued_engine_events,
                            self@.queued_engine_events,
                        );
                        lemma_prefix_trans(
                            old(self)@.queued_engine_events,
                            pre.queued_engine_events,
                            self@.queued_engine_events,
                        );
                        lemma_log_suffix_chain(
                            old(self)@.receivers,
                            pre.receivers,
                            self@.receivers,
                            old(self)@.added_receivers.len() as int,
                            pre.added_receivers,
                            self@.added_receivers,
                        );
                        lemma_prefix_trans(
                            old(self)@.added_receivers,
                            pre.added_receivers,
                            self@.added_receivers,
                        );
                    }
                },
                Err(_) => {
                    // The failure is the receiver's own; dispatch goes on.
                },
            }
            j = j + 1;
        }
        self.locked_receivers = recs;
    }
}

/// Routes an engine event to the receiver callback that belongs to its
/// variant.  Variants without a payload where one is needed, and variants
/// with no callback of their own, are delivered as a successful no-op.
fn match_event<R: EventReceiver>(event: &EngineEvent, rec: &mut R) -> V39Result<
    Vec<EngineAction<R>>,
> {
    match event {
        EngineEvent::Reset => rec.reset(),
        EngineEvent::KeyUp(Some(key)) => rec.key_up(*key),
        EngineEvent::KeyDown(Some(key)) => rec.key_down(*key),
        EngineEvent::FrameBegin => rec.frame_begin(),
        EngineEvent::FrameEnd => rec.frame_end(),
        EngineEvent::Tick(Some(delta)) => rec.tick(*delta),
        EngineEvent::Quit(Some(reason)) => rec.quit(*reason),
        EngineEvent::WindowClose => rec.window_close(),
        _ => Ok(Vec::new()),
    }
}

/// The deliveries one user event produces: one per snapshot receiver, in
/// registration order.
pub open spec fn user_event_deliveries(event: Event, n: nat) -> Seq<Delivery> {
    Seq::new(n, |j: int| Delivery::User { event, receiver: j })
}

/// The deliveries one engine event produces.
pub open spec fn engine_event_deliveries(event: EngineEvent, n: nat) -> Seq<Delivery> {
    Seq::new(n, |j: int| Delivery::Engine { event, receiver: j })
}

/// The delivery schedule of one `fire_events` pass over a snapshot of queued
/// events and `n` snapshot receivers: events drain in LIFO order (the last
/// queued event is dispatched first), and each event visits every receiver
/// before the next event is taken.
pub open spec fn user_schedule(events: Seq<Event>, n: nat) -> Seq<Delivery>
    decreases events.len(),
{
    if events.len() == 0 {
        Seq::empty()
    } else {
        user_event_deliveries(events.last(), n) + user_schedule(events.drop_last(), n)
    }
}

/// The delivery schedule of one `fire_engine_event` pass: matched engine
/// events drain in queue order, each visiting every snapshot receiver.
pub open spec fn engine_schedule(events: Seq<EngineEvent>, n: nat) -> Seq<Delivery>
    decreases events.len(),
{
    if events.len() == 0 {
        Seq::empty()
    } else {
        engine_schedule(events.drop_last(), n) + engine_event_deliveries(events.last(), n)
    }
}

/// The engine schedule taken from the front: the first queued event's
/// deliveries come first.
proof fn lemma_engine_schedule_head(events: Seq<EngineEvent>, n: nat)
    requires
        events.len() > 0,
    ensures
        engine_schedule(events, n) == engine_event_deliveries(events[0], n) + engine_schedule(
            events.subrange(1, events.len() as int),
            n,
        ),
    decreases events.len(),
{
    let tail = events.subrange(1, events.len() as int);
    if events.len() == 1 {
        assert(events.drop_last() =~= Seq::<EngineEvent>::empty());
        assert(tail =~= Seq::<EngineEvent>::empty());
        assert(engine_schedule(events, n) =~= engine_event_deliveries(events[0], n)
            + engine_schedule(tail, n));
    } else {
        lemma_engine_schedule_head(events.drop_last(), n);
        assert(events.drop_last().subrange(1, events.drop_last().len() as int) =~= tail.drop_last());
        assert(events.drop_last()[0] == events[0]);
        assert(tail.last() == events.last());
        assert(engine_schedule(events, n) == (engine_event_deliveries(events[0], n)
            + engine_schedule(tail.drop_last(), n)) + engine_event_deliveries(events.last(), n));
        assert((engine_event_deliveries(events[0], n) + engine_schedule(tail.drop_last(), n))
            + engine_event_deliveries(events.last(), n) =~= engine_event_deliveries(events[0], n)
            + (engine_schedule(tail.drop_last(), n) + engine_event_deliveries(tail.last(), n)));
    }
}

/// A `fire_events` pass over `k` queued events and `n` snapshot receivers
/// performs exactly `k * n` deliveries.
pub proof fn lemma_user_schedule_len(events: Seq<Event>, n: nat)
    ensures
        user_schedule(events, n).len() == events.len() * n,
    decreases events.len(),
{
    if events.len() > 0 {
        lemma_user_schedule_len(events.drop_last(), n);
        assert(n + (events.len() - 1) * n == events.len() * n) by (nonlinear_arith);
    }
}

/// The complete characterization of a `fire_events` pass: the `k`-th delivery
/// of the pass hands the event queued at position `len - 1 - k / n` (LIFO
/// order over events) to the snapshot receiver at position `k % n`
/// (registration order over receivers).
pub proof fn lemma_user_schedule_index(events: Seq<Event>, n: nat, k: int)
    requires
        0 <= k < events.len() * n,
    ensures
        user_schedule(events, n)[k] == (Delivery::User {
            event: events[events.len() - 1 - k / (n as int)],
            receiver: k % (n as int),
        }),
    decreases events.len(),
{
    lemma_user_schedule_len(events, n);
    let d = n as int;
    if n == 0 {
        assert(events.len() * n == 0) by (nonlinear_arith)
            requires
                n == 0,
        ;
        assert(false);
    }
    assert(events.len() > 0) by {
        if events.len() == 0 {
            assert(events.len() * n == 0) by (nonlinear_arith)
                requires
                    events.len() == 0,
            ;
        }
    }
    lemma_user_schedule_len(events.drop_last(), n);
    if k < d {
        assert(user_schedule(events, n)[k] == user_event_deliveries(events.last(), n)[k]);
        assert(k / d == 0) by {
            vstd::arithmetic::div_mod::lemma_basic_div(k, d);
        }
        assert(k % d == k) by {
            vstd::arithmetic::div_mod::lemma_small_mod(k as nat, n);
        }
    } else {
        assert(user_schedule(events, n)[k] == user_schedule(events.drop_last(), n)[k - d]);
        assert(k - d < (events.len() - 1) * n) by (nonlinear_arith)
            requires
                k < events.len() * n,
                d == n,
        ;
        lemma_user_schedule_index(events.drop_last(), n, k - d);
        assert((k - d) / d == k / d - 1) by {
            vstd::arithmetic::div_mod::lemma_div_minus_one(k, d);
        }
        assert((k - d) % d == k % d) by {
            vstd::arithmetic::div_mod::lemma_mod_sub_multiples_vanish(k, d);
        }
        assert(k / d >= 1) by {
            vstd::arithmetic::div_mod::lemma_div_pos_is_pos(k, d);
            if k / d == 0 {
                vstd::arithmetic::div_mod::lemma_fundamental_div_mod(k, d);
                vstd::arithmetic::div_mod::lemma_mod_division_less_than_divisor(k, d);
            }
        }
        assert(k / d <= events.len() - 1) by {
            if k / d >= events.len() {
                vstd::arithmetic::div_mod::lemma_fundamental_div_mod(k, d);
                vstd::arithmetic::div_mod::lemma_mod_division_less_than_divisor(k, d);
                assert(k >= d * events.len()) by (nonlinear_arith)
                    requires
                        k == d * (k / d) + k % d,
                        k % d >= 0,
                        k / d >= events.len(),
                        d > 0,
                ;
                assert(d * events.len() == events.len() * n) by (nonlinear_arith)
                    requires
                        d == n,
                ;
            }
        }
        assert(events.drop_last()[events.len() - 1 - (k / d)] == events[events.len() - 1 - k / d
            - 1 + 1]);
    }
}

/// Every delivery of a `fire_events` pass goes to a receiver of the pass's
/// snapshot: a receiver registered during the pass (position `n` or later in
/// the merged queue) is never visited by the pass itself.
pub proof fn lemma_user_schedule_receiver_bound(events: Seq<Event>, n: nat, k: int)
    requires
        0 <= k < user_schedule(events, n).len(),
    ensures
        user_schedule(events, n)[k] matches Delivery::User { event: _, receiver } && 0 <= receiver
            < n,
{
    lemma_user_schedule_len(events, n);
    lemma_user_schedule_index(events, n, k);
    vstd::arithmetic::div_mod::lemma_mod_division_less_than_divisor(k, n as int);
}

/// Exactly-once delivery: for every queued event (position `ei` in the
/// snapshot) and every receiver registered before the pass (position `j` of
/// the snapshot), the pass hands that event to that receiver at exactly one
/// point, namely delivery number `(len - 1 - ei) * n + j`.
pub proof fn lemma_user_schedule_exactly_once(events: Seq<Event>, n: nat, ei: int, j: int)
    requires
        0 <= ei < events.len(),
        0 <= j < n,
    ensures
        ({
            let sched = user_schedule(events, n);
            let p = (events.len() - 1 - ei) * n + j;
            &&& 0 <= p < sched.len()
            &&& sched[p] == (Delivery::User { event: events[ei], receiver: j })
            &&& forall|k: int|
                0 <= k < sched.len() && k != p ==> !(events.len() - 1 - #[trigger] (k / (n as int))
                    == ei && k % (n as int) == j)
        }),
{
    let d = n as int;
    let len = events.len() as int;
    let p = (len - 1 - ei) * n + j;
    lemma_user_schedule_len(events, n);
    assert(0 <= p < len * n) by (nonlinear_arith)
        requires
            0 <= ei < len,
            0 <= j < d,
            d == n,
            p == (len - 1 - ei) * n + j,
    ;
    assert(p / d == len - 1 - ei && p % d == j) by {
        vstd::arithmetic::div_mod::lemma_fundamental_div_mod_converse(
            p,
            d,
            len - 1 - ei,
            j,
        );
    }
    lemma_user_schedule_index(events, n, p);
    assert forall|k: int|
        0 <= k < user_schedule(events, n).len() && k != p implies !(len - 1 - #[trigger] (k / d)
        == ei && k % d == j) by {
        if len - 1 - k / d == ei && k % d == j {
            vstd::arithmetic::div_mod::lemma_fundamental_div_mod(k, d);
            assert(k == d * (len - 1 - ei) + j);
            assert(k == p) by (nonlinear_arith)
                requires
                    k == d * (len - 1 - ei) + j,
                    p == (len - 1 - ei) * n + j,
                    d == n,
            ;
        }
    }
}

/// LIFO drain order: an event queued later is dispatched before one queued
/// earlier — all deliveries of `events[e1]` precede all deliveries of
/// `events[e2]` whenever `e1 > e2`.
pub proof fn lemma_user_schedule_lifo(events: Seq<Event>, n: nat, k1: int, k2: int)
    requires
        0 <= k1 < user_schedule(events, n).len(),
        0 <= k2 < user_schedule(events, n).len(),
        events.len() - 1 - k1 / (n as int) > events.len() - 1 - k2 / (n as int),
    ensures
        k1 < k2,
{
    lemma_user_schedule_len(events, n);
    let d = n as int;
    assert(n > 0) by {
        if n == 0 {
            assert(events.len() * n == 0) by (nonlinear_arith)
                requires
                    n == 0,
            ;
        }
    }
    vstd::arithmetic::div_mod::lemma_mod_division_less_than_divisor(k1, d);
    vstd::arithmetic::div_mod::lemma_mod_division_less_than_divisor(k2, d);
    vstd::arithmetic::div_mod::lemma_fundamental_div_mod(k1, d);
    vstd::arithmetic::div_mod::lemma_fundamental_div_mod(k2, d);
    assert(k1 < k2) by (nonlinear_arith)
        requires
            k1 == d * (k1 / d) + k1 % d,
            k2 == d * (k2 / d) + k2 % d,
            0 <= k1 % d < d,
            0 <= k2 % d < d,
            k1 / d < k2 / d,
            d > 0,
    ;
}

/// A `fire_engine_event` pass over `k` matched events and `n` snapshot
/// receivers performs exactly `k * n` deliveries.
pub proof fn lemma_engine_schedule_len(events: Seq<EngineEvent>, n: nat)
    ensures
        engine_schedule(events, n).len() == events.len() * n,
    decreases events.len(),
{
    if events.len() > 0 {
        lemma_engine_schedule_len(events.drop_last(), n);
        assert((events.len() - 1) * n + n == events.len() * n) by (nonlinear_arith);
    }
}

/// The complete characterization of a `fire_engine_event` pass: the `k`-th
/// delivery hands the matched event at queue position `k / n` (queue order)
/// to the snapshot receiver at position `k % n` (registration order).
pub proof fn lemma_engine_schedule_index(events: Seq<EngineEvent>, n: nat, k: int)
    requires
        0 <= k < events.len() * n,
    ensures
        engine_schedule(events, n)[k] == (Delivery::Engine {
            event: events[k / (n as int)],
            receiver: k % (n as int),
        }),
    decreases events.len(),
{
    lemma_engine_schedule_len(events, n);
    let d = n as int;
    if n == 0 {
        assert(events.len() * n == 0) by (nonlinear_arith)
            requires
                n == 0,
        ;
        assert(false);
    }
    assert(events.len() > 0) by {
        if events.len() == 0 {
            assert(events.len() * n == 0) by (nonlinear_arith)
                requires
                    events.len() == 0,
            ;
        }
    }
    let head = engine_schedule(events.drop_last(), n);
    lemma_engine_schedule_len(events.drop_last(), n);
    if k < head.len() {
        lemma_engine_schedule_index(events.drop_last(), n, k);
        vstd::arithmetic::div_mod::lemma_fundamental_div_mod(k, d);
        vstd::arithmetic::div_mod::lemma_mod_division_less_than_divisor(k, d);
        assert(k / d < events.len() - 1) by (nonlinear_arith)
            requires
                k < (events.len() - 1) * n,
                d == n,
                d > 0,
                k == d * (k / d) + k % d,
                0 <= k % d < d,
        ;
    } else {
        let off = k - head.len();
        assert(engine_schedule(events, n)[k] == engine_event_deliveries(events.last(), n)[off]);
        assert(k == (events.len() - 1) * n + off);
        assert(k / d == events.len() - 1 && k % d == off) by {
            assert(0 <= off < d) by (nonlinear_arith)
                requires
                    k < events.len() * n,
                    off == k - (events.len() - 1) * n,
                    k >= (events.len() - 1) * n,
                    d == n,
            ;
            assert(k == d * (events.len() - 1) + off) by (nonlinear_arith)
                requires
                    k == (events.len() - 1) * n + off,
                    d == n,
            ;
            vstd::arithmetic::div_mod::lemma_fundamental_div_mod_converse(
                k,
                d,
                events.len() - 1,
                off,
            );
        }
    }
}

/// Everything one `fire_events` pass guarantees, as a relation between the
/// hub's state before the pass and after it: the delivery log grows by
/// exactly the pass's schedule; the snapshots end empty; the pending user
/// events are exactly those queued during the pass, in order; the pending
/// engine events gained exactly those queued during the pass; and the pending
/// receivers are exactly those added during the pass followed by the merged
/// snapshot (one entry per receiver registered before the pass), so everyone
/// is visited from the next matching pass on.
pub open spec fn fire_events_rel<R>(pre: EventHandlerView<R>, post: EventHandlerView<R>) -> bool {
    &&& post.deliveries == pre.deliveries + user_schedule(pre.events, pre.receivers.len())
    &&& post.locked_events.len() == 0
    &&& post.locked_receivers.len() == 0
    &&& post.locked_engine_events == pre.locked_engine_events
    &&& pre.queued_events.is_prefix_of(post.queued_events)
    &&& post.events == post.queued_events.skip(pre.queued_events.len() as int)
    &&& pre.queued_engine_events.is_prefix_of(post.queued_engine_events)
    &&& post.engine_events == pre.engine_events + post.queued_engine_events.skip(
        pre.queued_engine_events.len() as int,
    )
    &&& pre.added_receivers.is_prefix_of(post.added_receivers)
    &&& exists|snapshot: Seq<R>|
        post.receivers == post.added_receivers.skip(pre.added_receivers.len() as int) + snapshot
            && snapshot.len() == pre.receivers.len()
    &&& (pre.quit_requested ==> post.quit_requested)
}

/// Everything one `fire_engine_event` pass for one variant guarantees: the
/// log grows by the schedule over the matched events; non-matching engine
/// events stay pending, in order, followed by exactly those queued during the
/// pass; pending user events gained exactly those queued during the pass; and
/// the receivers merge as in `fire_events_rel`.
pub open spec fn fire_engine_event_rel<R>(
    pre: EventHandlerView<R>,
    post: EventHandlerView<R>,
    event_kind: EngineEvent,
) -> bool {
    &&& post.deliveries == pre.deliveries + engine_schedule(
        pre.locked_engine_events + pre.engine_events.filter(
            |e: EngineEvent| e.spec_var_eq(event_kind),
        ),
        pre.receivers.len(),
    )
    &&& post.locked_events == pre.locked_events
    &&& post.locked_engine_events.len() == 0
    &&& post.locked_receivers.len() == 0
    &&& pre.queued_events.is_prefix_of(post.queued_events)
    &&& post.events == pre.events + post.queued_events.skip(pre.queued_events.len() as int)
    &&& pre.queued_engine_events.is_prefix_of(post.queued_engine_events)
    &&& post.engine_events == pre.engine_events.filter(
        |e: EngineEvent| !e.spec_var_eq(event_kind),
    ) + post.queued_engine_events.skip(pre.queued_engine_events.len() as int)
    &&& pre.added_receivers.is_prefix_of(post.added_receivers)
    &&& exists|snapshot: Seq<R>|
        post.receivers == post.added_receivers.skip(pre.added_receivers.len() as int) + snapshot
            && snapshot.len() == pre.receivers.len()
    &&& (pre.quit_requested ==> post.quit_requested)
}

/// Everything one `fire_single_engine_event` dispatch guarantees: the log
/// grows by exactly one delivery of the event per receiver registered before
/// the call; the queues keep what they had plus exactly what the callbacks
/// queued; and the receivers merge as in `fire_events_rel`.
pub open spec fn fire_single_rel<R>(
    pre: EventHandlerView<R>,
    post: EventHandlerView<R>,
    event: EngineEvent,
) -> bool {
    &&& post.deliveries == pre.deliveries + engine_event_deliveries(event, pre.receivers.len())
    &&& post.locked_events == pre.locked_events
    &&& post.locked_engine_events == pre.locked_engine_events
    &&& post.locked_receivers.len() == 0
    &&& pre.queued_events.is_prefix_of(post.queued_events)
    &&& post.events == pre.events + post.queued_events.skip(pre.queued_events.len() as int)
    &&& pre.queued_engine_events.is_prefix_of(post.queued_engine_events)
    &&& post.engine_events == pre.engine_events + post.queued_engine_events.skip(
        pre.queued_engine_events.len() as int,
    )
    &&& pre.added_receivers.is_prefix_of(post.added_receivers)
    &&& exists|snapshot: Seq<R>|
        post.receivers == post.added_receivers.skip(pre.added_receivers.len() as int) + snapshot
            && snapshot.len() == pre.receivers.len()
    &&& (pre.quit_requested ==> post.quit_requested)
}

/// The public face of the dispatch hub: producers queue events and register
/// receivers; the runtime fires passes.
pub struct EventHandlerInterface<R> {
    handler: EventHandler<R>,
}

impl<R> View for EventHandlerInterface<R> {
    type V = EventHandlerView<R>;

    closed spec fn view(&self) -> EventHandlerView<R> {
        self.handler@
    }
}

impl<R: EventReceiver> EventHandlerInterface<R> {
    pub fn new() -> (r: Self)
        ensures
            r@.events.len() == 0,
            r@.engine_events.len() == 0,
            r@.receivers.len() == 0,
            r@.locked_events.len() == 0,
            r@.locked_engine_events.len() == 0,
            r@.locked_receivers.len() == 0,
            !r@.quit_requested,
            r@.deliveries.len() == 0,
            r@.queued_events.len() == 0,
            r@.queued_engine_events.len() == 0,
            r@.added_receivers.len() == 0,
    {
        EventHandlerInterface { handler: EventHandler::init() }
    }

    /// Registers a receiver.  One added while a pass runs is not visited by
    /// that pass but by every later matching pass.
    pub fn add_receiver(&mut self, receiver: R)
        ensures
            final(self)@ == (EventHandlerView {
                receivers: old(self)@.receivers.push(receiver),
                added_receivers: old(self)@.added_receivers.push(receiver),
                ..old(self)@
            }),
    {
        self.handler.record_receiver(receiver);
    }

    /// Queues a user event for the next `fire_events` pass.
    pub fn queue_event(&mut self, event: Event)
        ensures
            final(self)@ == (EventHandlerView {
                events: old(self)@.events.push(event),
                queued_events: old(self)@.queued_events.push(event),
                ..old(self)@
            }),
    {
        self.handler.record_event(event);
    }

    /// Queues an engine event for the next matching `fire_engine_event` pass.
    pub fn queue_engine_event(&mut self, event: EngineEvent)
        ensures
            final(self)@ == (EventHandlerView {
                engine_events: old(self)@.engine_events.push(event),
                queued_engine_events: old(self)@.queued_engine_events.push(event),
                ..old(self)@
            }),
    {
        self.handler.record_engine_event(event);
    }

    /// Raises the quit flag.
    pub fn request_quit(&mut self)
        ensures
            final(self)@ == (EventHandlerView { quit_requested: true, ..old(self)@ }),
    {
        self.handler.request_quit();
    }

    /// The pending engine events whose variant matches `event_kind` — the
    /// ones the next `fire_engine_event(event_kind)` pass will claim.
    pub fn pending_engine_events_matching(&self, event_kind: &EngineEvent) -> (r: Vec<EngineEvent>)
        ensures
            r@ == self@.engine_events.filter(|e: EngineEvent| e.spec_var_eq(*event_kind)),
    {
        let mut matched: Vec<EngineEvent> = Vec::new();
        let pending = self.handler.engine_events_ref();
        let ghost all = pending@;
        let mut i: usize = 0;
        while i < pending.len()
            invariant
                0 <= i <= all.len(),
                pending@ == all,
                all == self@.engine_events,
                matched@ == all.take(i as int).filter(
                    |e: EngineEvent| e.spec_var_eq(*event_kind),
                ),
            decreases all.len() - i,
        {
            let e = pending[i];
            proof {
                assert(all.take(i + 1) == all.take(i as int).push(all[i as int]));
                reveal_with_fuel(Seq::filter, 2);
                assert(all.take(i as int).push(all[i as int]).drop_last() == all.take(i as int));
            }
            if e.var_eq(event_kind) {
                matched.push(e);
            }
            i = i + 1;
        }
        proof {
            assert(all.take(all.len() as int) == all);
        }
        matched
    }

    /// Whether a quit was requested by anyone.
    pub fn quit_requested(&self) -> (r: bool)
        ensures
            r == self@.quit_requested,
    {
        self.handler.quit_requested()
    }

    /// One full user-event dispatch pass.  Snapshots the receivers and the
    /// pending user events, then hands every snapshot event to every snapshot
    /// receiver — exactly the deliveries of `user_schedule`, appended to the
    /// log: events in LIFO order, receivers in registration order.  Events
    /// queued and receivers added during the pass take effect afterwards:
    /// the snapshot receivers are merged back behind them, and the snapshot
    /// is empty when the pass ends.  A failing callback is skipped over.
    pub fn fire_events(&mut self) -> (r: V39Result<()>)
        ensures
            r is Ok,
            fire_events_rel(old(self)@, final(self)@),
    {
        self.handler.snapshot_receiver_queue();
        self.handler.snapshot_event_queue();
        let mut events = self.handler.fetch_event_snapshots();
        let ghost all = events@;
        let ghost n = old(self)@.receivers.len();
        let ghost q0 = old(self)@.queued_events.len() as int;
        let ghost e0 = old(self)@.queued_engine_events.len() as int;
        let ghost a0 = old(self)@.added_receivers.len() as int;
        proof {
            assert(self@.deliveries + user_schedule(all, n) =~= old(self)@.deliveries
                + user_schedule(all, n));
            assert(self@.events =~= self@.queued_events.skip(q0));
            assert(self@.engine_events =~= old(self)@.engine_events
                + self@.queued_engine_events.skip(e0));
            assert(self@.receivers =~= self@.added_receivers.skip(a0));
        }
        while events.len() > 0
            invariant
                self@.deliveries + user_schedule(events@, n) == old(self)@.deliveries
                    + user_schedule(all, n),
                self@.locked_receivers.len() == n,
                self@.locked_events.len() == 0,
                self@.locked_engine_events == old(self)@.locked_engine_events,
                old(self)@.queued_events.is_prefix_of(self@.queued_events),
                self@.events == self@.queued_events.skip(q0),
                old(self)@.queued_engine_events.is_prefix_of(self@.queued_engine_events),
                self@.engine_events == old(self)@.engine_events + self@.queued_engine_events.skip(
                    e0,
                ),
                old(self)@.added_receivers.is_prefix_of(self@.added_receivers),
                self@.receivers == self@.added_receivers.skip(a0),
                old(self)@.quit_requested ==> self@.quit_requested,
                q0 == old(self)@.queued_events.len(),
                e0 == old(self)@.queued_engine_events.len(),
                a0 == old(self)@.added_receivers.len(),
            decreases events@.len(),
        {
            let ghost pre = self@;
            let ghost pre_events = events@;
            let event = match events.pop() {
                Some(e) => e,
                None => {
                    return Ok(());
                },
            };
            self.handler.dispatch_event_to_snapshot(&event);
            proof {
                assert(user_schedule(pre_events, n) == user_event_deliveries(event, n)
                    + user_schedule(events@, n));
                assert((pre.deliveries + user_event_deliveries(event, n)) + user_schedule(
                    events@,
                    n,
                ) =~= pre.deliveries + (user_event_deliveries(event, n) + user_schedule(
                    events@,
                    n,
                )));
                lemma_suffix_split(pre.queued_events, self@.queued_events, q0);
                assert(self@.events =~= self@.queued_events.skip(q0));
                lemma_prefix_trans(
                    old(self)@.queued_events,
                    pre.queued_events,
                    self@.queued_events,
                );
                lemma_log_suffix_chain(
                    old(self)@.engine_events,
                    pre.engine_events,
                    self@.engine_events,
                    e0,
                    pre.queued_engine_events,
                    self@.queued_engine_events,
                );
                lemma_prefix_trans(
                    old(self)@.queued_engine_events,
                    pre.queued_engine_events,
                    self@.queued_engine_events,
                );
                lemma_suffix_split(pre.added_receivers, self@.added_receivers, a0);
                assert(self@.receivers =~= self@.added_receivers.skip(a0));
                lemma_prefix_trans(
                    old(self)@.added_receivers,
                    pre.added_receivers,
                    self@.added_receivers,
                );
            }
        }
        let ghost snap = self@.locked_receivers;
        self.handler.apply_receiver_snapshot();
        proof {
            assert(events@ =~= Seq::<Event>::empty());
            assert(self@.deliveries =~= self@.deliveries + user_schedule(events@, n));
            assert(self@.receivers == self@.added_receivers.skip(a0) + snap);
        }
        Ok(())
    }

    /// One engine-event dispatch pass for one variant.  Pending engine events
    /// whose variant matches `event_kind` are claimed and dispatched in queue
    /// order to every snapshot receiver (the deliveries of
    /// `engine_schedule`); non-matching events stay queued, in order, for a
    /// later pass.
    pub fn fire_engine_event(&mut self, event_kind: EngineEvent) -> (r: V39Result<()>)
        ensures
            r is Ok,
            fire_engine_event_rel(old(self)@, final(self)@, event_kind),
    {
        self.handler.snapshot_receiver_queue();
        self.handler.snapshot_engine_event_queue(&event_kind);
        let mut events = self.handler.fetch_engine_event_snapshots();
        let ghost all = events@;
        let ghost n = old(self)@.receivers.len();
        let ghost q0 = old(self)@.queued_events.len() as int;
        let ghost e0 = old(self)@.queued_engine_events.len() as int;
        let ghost a0 = old(self)@.added_receivers.len() as int;
        let ghost base_pending = old(self)@.engine_events.filter(
            |e: EngineEvent| !e.spec_var_eq(event_kind),
        );
        proof {
            assert(self@.deliveries + engine_schedule(all, n) =~= old(self)@.deliveries
                + engine_schedule(all, n));
            assert(self@.events =~= old(self)@.events + self@.queued_events.skip(q0));
            assert(self@.engine_events =~= base_pending + self@.queued_engine_events.skip(e0));
            assert(self@.receivers =~= self@.added_receivers.skip(a0));
        }
        while events.len() > 0
            invariant
                self@.deliveries + engine_schedule(events@, n) == old(self)@.deliveries
                    + engine_schedule(all, n),
                self@.locked_receivers.len() == n,
                self@.locked_engine_events.len() == 0,
                self@.locked_events == old(self)@.locked_events,
                old(self)@.queued_events.is_prefix_of(self@.queued_events),
                self@.events == old(self)@.events + self@.queued_events.skip(q0),
                old(self)@.queued_engine_events.is_prefix_of(self@.queued_engine_events),
                self@.engine_events == base_pending + self@.queued_engine_events.skip(e0),
                old(self)@.added_receivers.is_prefix_of(self@.added_receivers),
                self@.receivers == self@.added_receivers.skip(a0),
                old(self)@.quit_requested ==> self@.quit_requested,
                q0 == old(self)@.queued_events.len(),
                e0 == old(self)@.queued_engine_events.len(),
                a0 == old(self)@.added_receivers.len(),
            decreases events@.len(),
        {
            let ghost pre = self@;
            let ghost pre_events = events@;
            let event = events.remove(0);
            self.handler.dispatch_engine_event_to_snapshot(&event);
            proof {
                lemma_engine_schedule_head(pre_events, n);
                assert((pre.deliveries + engine_event_deliveries(event, n)) + engine_schedule(
                    events@,
                    n,
                ) =~= pre.deliveries + (engine_event_deliveries(event, n) + engine_schedule(
                    events@,
                    n,
                )));
                lemma_log_suffix_chain(
                    old(self)@.events,
                    pre.events,
                    self@.events,
                    q0,
                    pre.queued_events,
                    self@.queued_events,
                );
                lemma_prefix_trans(
                    old(self)@.queued_events,
                    pre.queued_events,
                    self@.queued_events,
                );
                lemma_log_suffix_chain(
                    base_pending,
                    pre.engine_events,
                    self@.engine_events,
                    e0,
                    pre.queued_engine_events,
                    self@.queued_engine_events,
                );
                lemma_prefix_trans(
                    old(self)@.queued_engine_events,
                    pre.queued_engine_events,
                    self@.queued_engine_events,
                );
                lemma_suffix_split(pre.added_receivers, self@.added_receivers, a0);
                assert(self@.receivers =~= self@.added_receivers.skip(a0));
                lemma_prefix_trans(
                    old(self)@.added_receivers,
                    pre.added_receivers,
                    self@.added_receivers,
                );
            }
        }
        let ghost snap = self@.locked_receivers;
        self.handler.apply_receiver_snapshot();
        proof {
            assert(events@ =~= Seq::<EngineEvent>::empty());
            assert(self@.deliveries =~= self@.deliveries + engine_schedule(events@, n));
            assert(self@.receivers == self@.added_receivers.skip(a0) + snap);
        }
        Ok(())
    }

    /// Dispatches one engine event, bypassing the queue: the caller-supplied
    /// event is handed to every snapshot receiver exactly once, whatever is
    /// queued.  Used for `Reset` and `Quit`, which must fire exactly once
    /// with their payload.
    pub fn fire_single_engine_event(&mut self, event: EngineEvent) -> (r: V39Result<()>)
        ensures
            r is Ok,
            fire_single_rel(old(self)@, final(self)@, event),
    {
        let ghost a0 = old(self)@.added_receivers.len() as int;
        self.handler.snapshot_receiver_queue();
        proof {
            assert(self@.receivers =~= self@.added_receivers.skip(a0));
        }
        self.handler.dispatch_engine_event_to_snapshot(&event);
        proof {
            assert(self@.receivers =~= self@.added_receivers.skip(a0));
        }
        let ghost snap = self@.locked_receivers;
        self.handler.apply_receiver_snapshot();
        proof {
            assert(self@.receivers == self@.added_receivers.skip(a0) + snap);
        }
        Ok(())
    }
}

} // verus!
