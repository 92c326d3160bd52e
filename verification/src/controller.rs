//! The surface lifecycle controller.
//!
//! The controller owns the surface's configuration and the cached window
//! size, and decides what each window event means for the surface. It never
//! touches the surface itself: it answers every event with an `Action`, and
//! the caller that owns the surface and the device carries the action out.
//! After applying a configuration to the surface the caller reports back with
//! `State::configured`.

use vstd::prelude::*;
use crate::surface::{SurfaceConfiguration, WindowSize};

verus! {

/// Where the controller stands in its life.
#[derive(Clone, Copy, Debug, PartialEq, Eq)]
pub enum Phase {
    /// The configuration is negotiated and stored, and has not yet been
    /// applied to the surface for the first time.
    Uninitialized,
    /// The surface carries the stored configuration.
    Ready,
    /// The stored configuration changed with the window size, and the surface
    /// does not carry it yet.
    Reconfiguring,
    /// A close was requested. Nothing is processed any more.
    Terminated,
}

/// An event from the window system.
#[derive(Clone, Copy, Debug, PartialEq, Eq)]
pub enum Event {
    /// The user asked to close the window.
    CloseRequested,
    /// The window has a new physical size.
    Resized(WindowSize),
    /// The window asks for its contents to be drawn.
    RedrawRequested,
    /// All events of this batch have been delivered.
    EventsCleared,
}

/// What the caller is to do in answer to an event.
#[derive(Clone, Copy, Debug, PartialEq, Eq)]
pub enum Action {
    /// Nothing; go on waiting for the next event.
    Idle,
    /// Apply this configuration to the surface, once, then call
    /// `State::configured`.
    Reconfigure(SurfaceConfiguration),
    /// Leave the control loop.
    Exit,
}

/// What a controller holds, as a plain record.
pub struct Lifecycle {
    pub phase: Phase,
    pub size: WindowSize,
    pub config: SurfaceConfiguration,
}

impl Lifecycle {
    /// The stored configuration can be applied, and the cached window size
    /// mirrors its dimensions.
    pub open spec fn wf(self) -> bool {
        self.config.is_applicable() && self.config.extent() == self.size
    }

    /// The controller still processes events.
    pub open spec fn live(self) -> bool {
        !(self.phase is Terminated)
    }

    /// A resize takes effect on a live controller when the new size is
    /// drawable.
    pub open spec fn accepts(self, new_size: WindowSize) -> bool {
        self.live() && new_size.is_drawable()
    }

    /// The controller after a resize notification.
    pub open spec fn after_resize(self, new_size: WindowSize) -> Lifecycle {
        if self.accepts(new_size) {
            Lifecycle {
                phase: if self.phase is Uninitialized {
                    Phase::Uninitialized
                } else {
                    Phase::Reconfiguring
                },
                size: new_size,
                config: self.config.resized(new_size),
            }
        } else {
            self
        }
    }

    /// The answer to a resize notification.
    pub open spec fn resize_action(self, new_size: WindowSize) -> Action {
        if self.accepts(new_size) {
            Action::Reconfigure(self.config.resized(new_size))
        } else {
            Action::Idle
        }
    }

    /// The controller after the caller reports the stored configuration
    /// applied.
    pub open spec fn after_configured(self) -> Lifecycle {
        if self.phase is Uninitialized || self.phase is Reconfiguring {
            Lifecycle { phase: Phase::Ready, ..self }
        } else {
            self
        }
    }

    /// The controller after a close request.
    pub open spec fn after_close(self) -> Lifecycle {
        Lifecycle { phase: Phase::Terminated, ..self }
    }

    /// The controller after one event.
    pub open spec fn after_event(self, event: Event) -> Lifecycle {
        match event {
            Event::CloseRequested => self.after_close(),
            Event::Resized(new_size) => self.after_resize(new_size),
            Event::RedrawRequested => self,
            Event::EventsCleared => self,
        }
    }

    /// The answer to one event.
    pub open spec fn action_for(self, event: Event) -> Action {
        match event {
            Event::CloseRequested => if self.live() {
                Action::Exit
            } else {
                Action::Idle
            },
            Event::Resized(new_size) => self.resize_action(new_size),
            Event::RedrawRequested => Action::Idle,
            Event::EventsCleared => Action::Idle,
        }
    }

    /// The controller after a sequence of events, each handled in turn.
    pub open spec fn after_events(self, events: Seq<Event>) -> Lifecycle
        decreases events.len(),
    {
        if events.len() == 0 {
            self
        } else {
            self.after_events(events.drop_last()).after_event(events.last())
        }
    }

    /// The answers to a sequence of events, each handled in turn: one per
    /// event up to and including the first close request, none for what
    /// follows it.
    pub open spec fn answers(self, events: Seq<Event>) -> Seq<Action>
        decreases events.len(),
    {
        if events.len() == 0 {
            Seq::empty()
        } else {
            let before = self.after_events(events.drop_last());
            if before.live() {
                self.answers(events.drop_last()).push(before.action_for(events.last()))
            } else {
                self.answers(events.drop_last())
            }
        }
    }
}

/// A resize to a drawable size takes effect on every live controller: the
/// stored configuration and the cached window size take the new dimensions,
/// everything else in the configuration stays, and the answer is one request
/// to apply exactly the configuration now stored.
pub proof fn lemma_resize_takes_effect(state: Lifecycle, new_size: WindowSize)
    requires
        state.wf(),
        state.live(),
        new_size.is_drawable(),
    ensures
        state.after_resize(new_size).config.width == new_size.width,
        state.after_resize(new_size).config.height == new_size.height,
        state.after_resize(new_size).config == state.config.resized(new_size),
        state.after_resize(new_size).size == new_size,
        state.after_resize(new_size).wf(),
        state.resize_action(new_size) == Action::Reconfigure(state.after_resize(new_size).config),
{
}

/// A resize to a size with a zero dimension changes nothing and asks for
/// nothing, however often it is repeated.
pub proof fn lemma_degenerate_resize_changes_nothing(state: Lifecycle, new_size: WindowSize)
    requires
        new_size.width == 0 || new_size.height == 0,
    ensures
        state.after_resize(new_size) == state,
        state.resize_action(new_size) == Action::Idle,
        state.after_resize(new_size).after_resize(new_size) == state,
{
}

/// Resizing twice to the same size leaves the controller as resizing once.
pub proof fn lemma_resize_is_idempotent(state: Lifecycle, new_size: WindowSize)
    ensures
        state.after_resize(new_size).after_resize(new_size) == state.after_resize(new_size),
{
}

/// Every event leaves the stored configuration applicable and the cached
/// window size in step with it.
pub proof fn lemma_event_preserves_wf(state: Lifecycle, event: Event)
    requires
        state.wf(),
    ensures
        state.after_event(event).wf(),
{
}

/// No sequence of events ever leaves a zero dimension in the stored
/// configuration.
pub proof fn lemma_events_preserve_wf(state: Lifecycle, events: Seq<Event>)
    requires
        state.wf(),
    ensures
        state.after_events(events).wf(),
    decreases events.len(),
{
    if events.len() > 0 {
        lemma_events_preserve_wf(state, events.drop_last());
        lemma_event_preserves_wf(state.after_events(events.drop_last()), events.last());
    }
}

/// A terminated controller is changed by no event and answers every event
/// with `Idle`.
pub proof fn lemma_terminated_ignores(state: Lifecycle, event: Event)
    requires
        !state.live(),
    ensures
        state.after_event(event) == state,
        state.action_for(event) == Action::Idle,
{
}

/// Once the first `k` events have terminated the controller, the events after
/// them change nothing and get no answer.
pub proof fn lemma_nothing_after_close(state: Lifecycle, events: Seq<Event>, k: int)
    requires
        0 <= k <= events.len(),
        !state.after_events(events.take(k)).live(),
    ensures
        state.after_events(events) == state.after_events(events.take(k)),
        state.answers(events) == state.answers(events.take(k)),
    decreases events.len() - k,
{
    if k < events.len() {
        let next = events.take(k + 1);
        assert(next.drop_last() =~= events.take(k));
        assert(next.last() == events[k]);
        lemma_terminated_ignores(state.after_events(events.take(k)), events[k]);
        lemma_nothing_after_close(state, events, k + 1);
    } else {
        assert(events.take(k) =~= events);
    }
}

/// The surface lifecycle controller.
pub struct State {
    phase: Phase,
    size: WindowSize,
    config: SurfaceConfiguration,
}

impl View for State {
    type V = Lifecycle;

    closed spec fn view(&self) -> Lifecycle {
        Lifecycle { phase: self.phase, size: self.size, config: self.config }
    }
}

impl State {
    #[verifier::type_invariant]
    spec fn inv(self) -> bool {
        self@.wf()
    }

    /// Creates the controller around a negotiated configuration. The caller
    /// applies that configuration to the surface for the first time and then
    /// calls `configured`; from then on the controller is ready for events.
    pub fn new(config: SurfaceConfiguration) -> (state: State)
        requires
            config.is_applicable(),
        ensures
            state@ == (Lifecycle { phase: Phase::Uninitialized, size: config.extent(), config }),
            state@.wf(),
    {
        State {
            phase: Phase::Uninitialized,
            size: WindowSize { width: config.width, height: config.height },
            config,
        }
    }

    /// Where the controller stands in its life.
    pub fn phase(&self) -> (phase: Phase)
        ensures
            phase == self@.phase,
    {
        self.phase
    }

    /// The cached window size.
    pub fn size(&self) -> (size: WindowSize)
        ensures
            size == self@.size,
            size.is_drawable(),
    {
        proof {
            use_type_invariant(self);
        }
        self.size
    }

    /// The stored configuration: the one the surface carries, or is to carry
    /// next.
    pub fn config(&self) -> (config: SurfaceConfiguration)
        ensures
            config == self@.config,
            config.is_applicable(),
            config.extent() == self@.size,
    {
        proof {
            use_type_invariant(self);
        }
        self.config
    }

    /// Handles a resize notification. A size with a zero dimension, as a
    /// minimized or hidden window reports it, changes nothing and asks for
    /// nothing. Any other size becomes the cached window size and the size of
    /// the stored configuration, which the caller is asked to apply exactly
    /// once. A terminated controller ignores the notification.
    pub fn resize(&mut self, new_size: WindowSize) -> (action: Action)
        ensures
            final(self)@ == old(self)@.after_resize(new_size),
            action == old(self)@.resize_action(new_size),
            final(self)@.wf(),
            !new_size.is_drawable() ==> final(self)@ == old(self)@ && action == Action::Idle,
            new_size.is_drawable() && old(self)@.live() ==> {
                &&& final(self)@.size == new_size
                &&& final(self)@.config.width == new_size.width
                &&& final(self)@.config.height == new_size.height
                &&& final(self)@.config == old(self)@.config.resized(new_size)
                &&& action == Action::Reconfigure(final(self)@.config)
            },
    {
        proof {
            use_type_invariant(&*self);
        }
        let live = match self.phase {
            Phase::Terminated => false,
            _ => true,
        };
        if live && new_size.drawable() {
            let config = self.config.with_size(new_size);
            let phase = match self.phase {
                Phase::Uninitialized => Phase::Uninitialized,
                _ => Phase::Reconfiguring,
            };
            *self = State { phase, size: new_size, config };
            Action::Reconfigure(config)
        } else {
            Action::Idle
        }
    }

    /// Takes the caller's report that the stored configuration has been
    /// applied to the surface.
    pub fn configured(&mut self)
        ensures
            final(self)@ == old(self)@.after_configured(),
            final(self)@.wf(),
    {
        proof {
            use_type_invariant(&*self);
        }
        match self.phase {
            Phase::Uninitialized | Phase::Reconfiguring => {
                *self = State { phase: Phase::Ready, size: self.size, config: self.config };
            },
            _ => {},
        }
    }

    /// Handles a close request: the controller terminates, and a live one
    /// tells the caller to leave the control loop.
    pub fn close_requested(&mut self) -> (action: Action)
        ensures
            final(self)@ == old(self)@.after_close(),
            action == old(self)@.action_for(Event::CloseRequested),
            final(self)@.wf(),
    {
        proof {
            use_type_invariant(&*self);
        }
        let action = match self.phase {
            Phase::Terminated => Action::Idle,
            _ => Action::Exit,
        };
        *self = State { phase: Phase::Terminated, size: self.size, config: self.config };
        action
    }

    /// Called when the window asks to be drawn. Nothing is drawn yet: this is
    /// the place where a renderer will draw a frame.
    pub fn redraw_requested(&mut self)
        ensures
            final(self)@ == old(self)@,
    {
    }

    /// Called when a batch of events has been delivered. Nothing is done yet:
    /// this is the place where per-batch work will go.
    pub fn events_cleared(&mut self)
        ensures
            final(self)@ == old(self)@,
    {
    }

    /// Dispatches one event to its handler and returns the handler's answer.
    /// Events are handled alike in every phase but the last: a terminated
    /// controller is changed by no event and answers each with `Idle`.
    pub fn handle_event(&mut self, event: Event) -> (action: Action)
        ensures
            final(self)@ == old(self)@.after_event(event),
            action == old(self)@.action_for(event),
            final(self)@.wf(),
            action is Exit <==> event is CloseRequested && old(self)@.live(),
            !old(self)@.live() ==> final(self)@ == old(self)@ && action == Action::Idle,
    {
        proof {
            use_type_invariant(&*self);
        }
        match event {
            Event::CloseRequested => self.close_requested(),
            Event::Resized(new_size) => self.resize(new_size),
            Event::RedrawRequested => {
                self.redraw_requested();
                Action::Idle
            },
            Event::EventsCleared => {
                self.events_cleared();
                Action::Idle
            },
        }
    }

    /// Runs the control loop over the events of `events`, in the order given:
    /// each event is dispatched on its own, and the loop ends with the first
    /// close request. The events after it are not dispatched. Returns the
    /// answer to every dispatched event, in order.
    pub fn run(&mut self, events: &Vec<Event>) -> (actions: Vec<Action>)
        ensures
            final(self)@ == old(self)@.after_events(events@),
            actions@ == old(self)@.answers(events@),
            final(self)@.wf(),
            actions@.len() <= events@.len(),
            actions@.len() < events@.len() ==> !final(self)@.live(),
    {
        proof {
            use_type_invariant(&*self);
        }
        let mut actions: Vec<Action> = Vec::new();
        let mut i: usize = 0;
        let mut live = self.is_live();
        while i < events.len() && live
            invariant
                i <= events@.len(),
                self@.wf(),
                live == self@.live(),
                self@ == old(self)@.after_events(events@.take(i as int)),
                actions@ == old(self)@.answers(events@.take(i as int)),
                actions@.len() == i,
            decreases events@.len() - i,
        {
            proof {
                let next = events@.take(i + 1);
                assert(next.drop_last() =~= events@.take(i as int));
                assert(next.last() == events@[i as int]);
            }
            let action = self.handle_event(events[i]);
            actions.push(action);
            live = self.is_live();
            i += 1;
        }
        proof {
            if i < events@.len() {
                lemma_nothing_after_close(old(self)@, events@, i as int);
            } else {
                assert(events@.take(i as int) =~= events@);
            }
        }
        actions
    }

    /// Whether the controller still processes events.
    pub fn is_live(&self) -> (live: bool)
        ensures
            live == self@.live(),
    {
        match self.phase {
            Phase::Terminated => false,
            _ => true,
        }
    }
}

} // verus!
