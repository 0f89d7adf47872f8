//! The coordinator: the single-threaded control that buffers local input,
//! feeds the update and view pipelines, and sequences shutdown.
//!
//! It performs no I/O. Each handler takes what the loop observed and returns
//! the actions that the loop then performs, in order.
use vstd::prelude::*;
use crate::event::{copy_events, Event, EventInfo};
use crate::gateway::ServiceCall;
use crate::graphics::{Dim, RenderOutcome, Request};

verus! {

/// Where the session stands.
#[derive(Clone, Copy, Debug, PartialEq, Eq, Structural)]
pub enum Phase {
    Running,
    /// Quit was asked for; the update pipeline's call in flight is awaited.
    Quitting,
    /// The last update was sent; its acknowledgment is awaited.
    Draining,
    Stopped,
}

/// What the loop does next.
#[derive(Debug)]
pub enum Action {
    /// Hand this call to the update pipeline.
    SendUpdate(ServiceCall),
    /// Hand this request to the view pipeline; `None` stops it.
    SendView(Option<(Dim, Vec<EventInfo>)>),
    /// Block until the update pipeline acknowledges its call, or fails.
    AwaitUpdate,
    /// Write out the buffered captures, taken at this extent.
    FlushCapture(Dim),
    /// Start a fresh capture surface of this extent.
    ResetCapture(Dim),
    /// Show this outcome in a window of this extent.
    Render(Dim, RenderOutcome),
    /// The session is over.
    Exit,
}

pub struct Coordinator {
    /// Events not yet sent to the update pipeline, in the order observed.
    pub view_events: Vec<EventInfo>,
    /// The events of the last update call, replayed ahead of `view_events`
    /// in each view request.
    pub update_events: Vec<EventInfo>,
    pub window_dim: Dim,
    /// Events arrived since the last view request.
    pub dirty: bool,
    /// The view pipeline has no request in flight.
    pub ready: bool,
    /// The update pipeline has a call in flight.
    pub update_pending: bool,
    pub phase: Phase,
    pub update_requests: u64,
    pub update_responses: u64,
    pub view_requests: u64,
    pub view_responses: u64,
    /// Every event buffered so far, in order.
    pub appended: Ghost<Seq<EventInfo>>,
    /// The events of all update calls so far, call after call.
    pub forwarded: Ghost<Seq<EventInfo>>,
    pub update_calls: Ghost<nat>,
    pub update_acks: Ghost<nat>,
    pub update_failures: Ghost<nat>,
    pub view_calls: Ghost<nat>,
    pub view_answers: Ghost<nat>,
}

impl Coordinator {
    pub open spec fn wf(&self) -> bool {
        &&& self.appended@ == self.forwarded@ + self.view_events@
        &&& self.update_pending <==> !(self.phase is Stopped)
        &&& self.update_calls@ == self.update_acks@ + self.update_failures@ + (if self.update_pending {
            1nat
        } else {
            0nat
        })
        &&& self.view_calls@ == self.view_answers@ + (if self.ready {
            0nat
        } else {
            1nat
        })
    }

    /// Calls in flight in the update pipeline.
    pub open spec fn updates_in_flight(&self) -> int {
        self.update_calls@ - self.update_acks@ - self.update_failures@
    }

    /// Requests in flight in the view pipeline.
    pub open spec fn views_in_flight(&self) -> int {
        self.view_calls@ - self.view_answers@
    }

    /// Everything but the event buffers, the extent and the phase is as in `other`.
    pub open spec fn same_pipelines(&self, other: &Coordinator) -> bool {
        &&& self.update_events == other.update_events
        &&& self.ready == other.ready
        &&& self.update_pending == other.update_pending
        &&& self.forwarded == other.forwarded
        &&& self.update_calls == other.update_calls
        &&& self.update_acks == other.update_acks
        &&& self.update_failures == other.update_failures
        &&& self.view_calls == other.view_calls
        &&& self.view_answers == other.view_answers
    }

    /// Whether input is still taken in.
    pub open spec fn accepts_input(&self) -> bool {
        self.phase is Running || self.phase is Quitting
    }

    /// A coordinator for a window of extent `window_dim`, and the opening
    /// requests: each pipeline gets `skip`, the update asking for no rendering.
    pub fn new(window_dim: Dim, skip: EventInfo) -> (r: (Coordinator, Vec<Action>))
        ensures
            r.0.wf(),
            r.0.phase == Phase::Running,
            r.0.view_events@ == Seq::<EventInfo>::empty(),
            r.0.update_events@ == Seq::<EventInfo>::empty(),
            r.0.window_dim == window_dim,
            r.0.dirty,
            !r.0.ready,
            r.0.updates_in_flight() == 1,
            r.0.views_in_flight() == 1,
            r.1@.len() == 2,
            match r.1@[0] {
                Action::SendUpdate(ServiceCall::Update(evs, req)) => evs@ == seq![skip]
                    && req == Request::Nothing,
                _ => false,
            },
            match r.1@[1] {
                Action::SendView(Some((d, evs))) => d == window_dim && evs@ == seq![skip],
                _ => false,
            },
    {
        let skip2 = skip.duplicate();
        let ghost first = seq![skip];
        let c = Coordinator {
            view_events: Vec::new(),
            update_events: Vec::new(),
            window_dim,
            dirty: true,
            ready: false,
            update_pending: true,
            phase: Phase::Running,
            update_requests: 1,
            update_responses: 0,
            view_requests: 1,
            view_responses: 0,
            appended: Ghost(first),
            forwarded: Ghost(first),
            update_calls: Ghost(1),
            update_acks: Ghost(0),
            update_failures: Ghost(0),
            view_calls: Ghost(1),
            view_answers: Ghost(0),
        };
        assert(c.forwarded@ + c.view_events@ =~= c.appended@);
        let mut actions: Vec<Action> = Vec::new();
        actions.push(Action::SendUpdate(ServiceCall::Update(vec![skip], Request::Nothing)));
        actions.push(Action::SendView(Some((window_dim, vec![skip2]))));
        (c, actions)
    }
    /// Takes in one stamped input event. While input is taken in, a quit
    /// request starts shutdown; a clipboard text, a key press or a resize is
    /// buffered and marks the view out of date, and a resize also flushes the
    /// captures under the old extent and starts a capture surface of the new
    /// one; anything else changes nothing.
    pub fn on_input(&mut self, info: EventInfo) -> (r: Vec<Action>)
        requires
            old(self).wf(),
        ensures
            final(self).wf(),
            final(self).same_pipelines(old(self)),
            !old(self).accepts_input() ==> *final(self) == *old(self) && r@ == Seq::<Action>::empty(),
            old(self).accepts_input() ==> match info.event {
                Event::Quit => final(self).phase == Phase::Quitting && final(self).view_events
                    == old(self).view_events && final(self).dirty == old(self).dirty
                    && final(self).window_dim == old(self).window_dim && final(self).appended
                    == old(self).appended && r@ == Seq::<Action>::empty(),
                Event::ClipBoard(_) | Event::KeyDown(_) => final(self).phase == old(self).phase
                    && final(self).view_events@ == old(self).view_events@.push(info)
                    && final(self).appended@ == old(self).appended@.push(info) && final(self).dirty
                    && final(self).window_dim == old(self).window_dim && r@ == Seq::<
                    Action,
                >::empty(),
                Event::WindowSize(d) => final(self).phase == old(self).phase
                    && final(self).view_events@ == old(self).view_events@.push(info)
                    && final(self).appended@ == old(self).appended@.push(info) && final(self).dirty
                    && final(self).window_dim == d && r@ == seq![
                    Action::FlushCapture(old(self).window_dim),
                    Action::ResetCapture(d),
                ],
                _ => *final(self) == *old(self) && r@ == Seq::<Action>::empty(),
            },
    {
        let mut actions: Vec<Action> = Vec::new();
        if !(self.phase == Phase::Running || self.phase == Phase::Quitting) {
            return actions;
        }
        match &info.event {
            Event::Quit => {
                self.phase = Phase::Quitting;
                return actions;
            },
            Event::ClipBoard(_) | Event::KeyDown(_) => {},
            Event::WindowSize(d) => {
                actions.push(Action::FlushCapture(self.window_dim));
                actions.push(Action::ResetCapture(*d));
                self.window_dim = *d;
            },
            _ => {
                return actions;
            },
        }
        proof {
            self.appended@ = self.appended@.push(info);
        }
        self.view_events.push(info);
        self.dirty = true;
        assert(self.forwarded@ + self.view_events@ =~= self.appended@);
        actions
    }
    /// The update pipeline acknowledged its call. While running or quitting,
    /// the next update goes out at once with the buffered events and a
    /// request for a full rendering, and those events become the ones
    /// replayed to the view pipeline; when quitting, that update is the last
    /// one and its acknowledgment is awaited. The acknowledgment of the last
    /// update releases the quit call and ends the session.
    pub fn on_update_ack(&mut self) -> (r: Vec<Action>)
        requires
            old(self).wf(),
        ensures
            final(self).wf(),
            final(self).view_calls == old(self).view_calls,
            final(self).view_answers == old(self).view_answers,
            final(self).ready == old(self).ready,
            final(self).window_dim == old(self).window_dim,
            final(self).appended == old(self).appended,
            !old(self).update_pending ==> *final(self) == *old(self) && r@ == Seq::<Action>::empty(),
            old(self).update_pending && old(self).accepts_input() ==> {
                &&& final(self).update_acks@ == old(self).update_acks@ + 1
                &&& final(self).update_calls@ == old(self).update_calls@ + 1
                &&& final(self).update_failures == old(self).update_failures
                &&& final(self).forwarded@ == old(self).forwarded@ + old(self).view_events@
                &&& final(self).update_events@ == old(self).view_events@
                &&& final(self).view_events@ == Seq::<EventInfo>::empty()
                &&& final(self).dirty
                &&& final(self).phase == (if old(self).phase is Running {
                    Phase::Running
                } else {
                    Phase::Draining
                })
                &&& r@.len() == (if old(self).phase is Running {
                    1int
                } else {
                    2int
                })
                &&& match r@[0] {
                    Action::SendUpdate(ServiceCall::Update(evs, req)) => evs@ == old(
                        self,
                    ).view_events@ && req == Request::All(old(self).window_dim),
                    _ => false,
                }
                &&& old(self).phase is Quitting ==> r@[1] is AwaitUpdate
            },
            old(self).update_pending && old(self).phase is Draining ==> {
                &&& final(self).update_acks@ == old(self).update_acks@ + 1
                &&& final(self).update_calls == old(self).update_calls
                &&& final(self).update_failures == old(self).update_failures
                &&& final(self).forwarded == old(self).forwarded
                &&& final(self).view_events == old(self).view_events
                &&& final(self).update_events == old(self).update_events
                &&& final(self).phase == Phase::Stopped
                &&& r@.len() == 4
                &&& r@[0] is SendUpdate && r@[0]->SendUpdate_0 is FlushQuit
                &&& r@[1] == Action::FlushCapture(old(self).window_dim)
                &&& r@[2] is SendView && r@[2]->SendView_0 is None
                &&& r@[3] is Exit
            },
    {
        let mut actions: Vec<Action> = Vec::new();
        if !self.update_pending {
            return actions;
        }
        self.update_responses = self.update_responses.saturating_add(1);
        proof {
            self.update_acks@ = self.update_acks@ + 1;
        }
        if self.phase == Phase::Draining {
            actions.push(Action::SendUpdate(ServiceCall::FlushQuit));
            self.update_pending = false;
            self.phase = Phase::Stopped;
            self.push_stop(&mut actions);
            return actions;
        }
        let events = copy_events(&self.view_events);
        actions.push(Action::SendUpdate(ServiceCall::Update(events, Request::All(self.window_dim))));
        self.update_requests = self.update_requests.saturating_add(1);
        proof {
            self.update_calls@ = self.update_calls@ + 1;
            self.forwarded@ = self.forwarded@ + self.view_events@;
        }
        let mut moved: Vec<EventInfo> = Vec::new();
        std::mem::swap(&mut moved, &mut self.view_events);
        self.update_events = moved;
        self.dirty = true;
        assert(self.forwarded@ + self.view_events@ =~= self.appended@);
        if self.phase == Phase::Quitting {
            self.phase = Phase::Draining;
            actions.push(Action::AwaitUpdate);
        }
        actions
    }

    /// Appends the closing actions: flush the captures, stop the view pipeline, exit.
    fn push_stop(&self, actions: &mut Vec<Action>)
        ensures
            final(actions)@ == old(actions)@ + seq![
                Action::FlushCapture(self.window_dim),
                Action::SendView(None),
                Action::Exit,
            ],
    {
        actions.push(Action::FlushCapture(self.window_dim));
        actions.push(Action::SendView(None));
        actions.push(Action::Exit);
        assert(final(actions)@ =~= old(actions)@ + seq![
            Action::FlushCapture(self.window_dim),
            Action::SendView(None),
            Action::Exit,
        ]);
    }

    /// The update pipeline has nothing to report. When shutting down, its
    /// acknowledgment is awaited.
    pub fn on_update_idle(&self) -> (r: Vec<Action>)
        ensures
            (self.phase is Quitting || self.phase is Draining) ==> r@ == seq![Action::AwaitUpdate],
            !(self.phase is Quitting || self.phase is Draining) ==> r@ == Seq::<Action>::empty(),
    {
        let mut actions: Vec<Action> = Vec::new();
        if self.phase == Phase::Quitting || self.phase == Phase::Draining {
            actions.push(Action::AwaitUpdate);
            assert(actions@ =~= seq![Action::AwaitUpdate]);
        }
        actions
    }

    /// The update pipeline failed or its channel closed: its call is lost,
    /// and the session ends without a quit call.
    pub fn on_update_failed(&mut self) -> (r: Vec<Action>)
        requires
            old(self).wf(),
        ensures
            final(self).wf(),
            old(self).phase is Stopped ==> *final(self) == *old(self) && r@ == Seq::<Action>::empty(),
            !(old(self).phase is Stopped) ==> {
                &&& final(self).phase == Phase::Stopped
                &&& final(self).update_failures@ == old(self).update_failures@ + 1
                &&& final(self).update_calls == old(self).update_calls
                &&& final(self).update_acks == old(self).update_acks
                &&& final(self).view_calls == old(self).view_calls
                &&& final(self).view_answers == old(self).view_answers
                &&& final(self).ready == old(self).ready
                &&& r@ == seq![
                    Action::FlushCapture(old(self).window_dim),
                    Action::SendView(None),
                    Action::Exit,
                ]
            },
    {
        let mut actions: Vec<Action> = Vec::new();
        if self.phase == Phase::Stopped {
            return actions;
        }
        proof {
            self.update_failures@ = self.update_failures@ + 1;
        }
        self.update_pending = false;
        self.phase = Phase::Stopped;
        self.push_stop(&mut actions);
        assert(actions@ =~= seq![
            Action::FlushCapture(old(self).window_dim),
            Action::SendView(None),
            Action::Exit,
        ]);
        actions
    }

    /// The view pipeline answered its request with `rr`, which is shown;
    /// the pipeline is then ready for the next request. An answer that no
    /// request awaits, or one after the session ended, is dropped.
    pub fn on_view_result(&mut self, rr: RenderOutcome) -> (r: Vec<Action>)
        requires
            old(self).wf(),
        ensures
            final(self).wf(),
            old(self).ready || old(self).phase is Stopped ==> *final(self) == *old(self) && r@
                == Seq::<Action>::empty(),
            !(old(self).ready || old(self).phase is Stopped) ==> {
                &&& final(self).ready
                &&& final(self).view_answers@ == old(self).view_answers@ + 1
                &&& final(self).view_calls == old(self).view_calls
                &&& final(self).same_view_side(old(self))
                &&& r@ == seq![Action::Render(old(self).window_dim, rr)]
            },
    {
        let mut actions: Vec<Action> = Vec::new();
        if self.ready || self.phase == Phase::Stopped {
            return actions;
        }
        self.view_responses = self.view_responses.saturating_add(1);
        proof {
            self.view_answers@ = self.view_answers@ + 1;
        }
        self.ready = true;
        actions.push(Action::Render(self.window_dim, rr));
        assert(actions@ =~= seq![Action::Render(old(self).window_dim, rr)]);
        actions
    }

    /// The view pipeline failed or its channel closed: shutdown begins.
    pub fn on_view_failed(&mut self) -> (r: Vec<Action>)
        requires
            old(self).wf(),
        ensures
            final(self).wf(),
            r@ == Seq::<Action>::empty(),
            old(self).phase is Running ==> final(self).phase == Phase::Quitting,
            !(old(self).phase is Running) ==> final(self).phase == old(self).phase,
            final(self).same_view_side(old(self)),
            final(self).ready == old(self).ready,
            final(self).view_calls == old(self).view_calls,
            final(self).view_answers == old(self).view_answers,
    {
        if self.phase == Phase::Running {
            self.phase = Phase::Quitting;
        }
        Vec::new()
    }

    /// Sends the view pipeline a request when events are waiting and it is
    /// idle: the window extent, with the replayed update events followed by
    /// the buffered ones. Nothing is sent once shutdown has begun.
    pub fn pump_view(&mut self) -> (r: Vec<Action>)
        requires
            old(self).wf(),
        ensures
            final(self).wf(),
            !(old(self).phase is Running && old(self).dirty && old(self).ready) ==> *final(self)
                == *old(self) && r@ == Seq::<Action>::empty(),
            old(self).phase is Running && old(self).dirty && old(self).ready ==> {
                &&& !final(self).ready
                &&& !final(self).dirty
                &&& final(self).view_calls@ == old(self).view_calls@ + 1
                &&& final(self).view_answers == old(self).view_answers
                &&& final(self).same_view_side(old(self))
                &&& r@.len() == 1
                &&& match r@[0] {
                    Action::SendView(Some((d, evs))) => d == old(self).window_dim && evs@ == old(
                        self,
                    ).update_events@ + old(self).view_events@,
                    _ => false,
                }
            },
    {
        let mut actions: Vec<Action> = Vec::new();
        if !(self.phase == Phase::Running && self.dirty && self.ready) {
            return actions;
        }
        self.dirty = false;
        self.ready = false;
        let mut events = copy_events(&self.update_events);
        let mut tail = copy_events(&self.view_events);
        events.append(&mut tail);
        actions.push(Action::SendView(Some((self.window_dim, events))));
        self.view_requests = self.view_requests.saturating_add(1);
        proof {
            self.view_calls@ = self.view_calls@ + 1;
        }
        actions
    }

    /// The buffers, the extent, the phase and the update side are as in `other`.
    pub open spec fn same_view_side(&self, other: &Coordinator) -> bool {
        &&& self.view_events == other.view_events
        &&& self.update_events == other.update_events
        &&& self.window_dim == other.window_dim
        &&& self.update_pending == other.update_pending
        &&& self.appended == other.appended
        &&& self.forwarded == other.forwarded
        &&& self.update_calls == other.update_calls
        &&& self.update_acks == other.update_acks
        &&& self.update_failures == other.update_failures
    }
}

/// The update calls made so far carried the buffered events in the order in
/// which they were buffered, none lost or repeated; the buffer holds the rest.
pub proof fn lemma_update_order(c: &Coordinator)
    requires
        c.wf(),
    ensures
        c.forwarded@.len() + c.view_events@.len() == c.appended@.len(),
        forall|i: int| 0 <= i < c.forwarded@.len() ==> #[trigger] c.forwarded@[i] == c.appended@[i],
        c.view_events@ == c.appended@.subrange(c.forwarded@.len() as int, c.appended@.len() as int),
{
    assert(c.appended@.subrange(c.forwarded@.len() as int, c.appended@.len() as int)
        =~= c.view_events@);
}

/// Each pipeline has at most one call in flight: the update pipeline exactly
/// one until the session stops, the view pipeline one unless it is ready.
pub proof fn lemma_at_most_one_in_flight(c: &Coordinator)
    requires
        c.wf(),
    ensures
        0 <= c.updates_in_flight() <= 1,
        0 <= c.views_in_flight() <= 1,
        c.updates_in_flight() == 1 <==> !(c.phase is Stopped),
        c.views_in_flight() == 0 <==> c.ready,
{
}

} // verus!
