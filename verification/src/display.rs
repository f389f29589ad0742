//! The display as its callers hold it: one handle, one exchange at a time.
//!
//! The controller cannot tell the responses of two overlapping requests
//! apart, so a handle refuses a new operation while one is in flight. Once
//! an exchange has ended, nothing of it is kept but its last state: the next
//! operation starts from scratch.

use crate::command::Command;
use crate::exchange::step;
use crate::exchange::step_spec;
use crate::exchange::Action;
use crate::exchange::ActionView;
use crate::exchange::Event;
use crate::exchange::EventView;
use crate::exchange::State;
use crate::exchange::TransitionView;
use crate::mode::Mode;
use crate::rect::Rect;
use vstd::prelude::*;

verus! {

/// Core structure defining the display and possible interactions.
///
/// The handle holds the state of the exchange that runs on it. It performs
/// no I/O: each operation hands out the action that the caller is to take
/// on the transport, and `advance` takes what the transport reported.
#[derive(Debug)]
pub struct Display {
    state: State,
}

/// Whether an exchange is under way in `state`: its frame is out and its
/// end was not reached.
pub open spec fn in_flight(state: State) -> bool {
    state is FrameSent || state is AwaitingResponse
}

/// The first step of the operation `command` on a handle in `state`, or
/// `None` where an exchange is in flight.
pub open spec fn begin_spec(state: State, command: Command) -> Option<TransitionView> {
    if in_flight(state) {
        None
    } else {
        step_spec(State::Idle, EventView::Request(command))
    }
}

impl View for Display {
    type V = State;

    closed spec fn view(&self) -> State {
        self.state
    }
}

impl Display {
    /// A handle on which nothing was asked yet.
    pub fn new() -> (display: Display)
        ensures
            display@ == State::Idle,
    {
        Display { state: State::Idle }
    }

    /// Where the exchange on this handle stands.
    pub fn state(&self) -> (state: State)
        ensures
            state == self@,
    {
        self.state
    }

    /// Starts the operation `command`, unless an exchange is in flight.
    ///
    /// On `Some` the handle has sent the frame, and the action is the write
    /// of that frame. On `None` the handle is as it was.
    pub fn begin(&mut self, command: Command) -> (action: Option<Action>)
        ensures
            action is Some <==> !in_flight(old(self)@),
            action matches Some(first) ==> begin_spec(old(self)@, command) == Some(
                TransitionView { state: final(self)@, action: first@ },
            ),
            action matches Some(first) ==> final(self)@ == (State::FrameSent { command })
                && first@ == ActionView::Write(command.frame()),
            action is None ==> final(self)@ == old(self)@,
    {
        match self.state {
            State::FrameSent { .. } | State::AwaitingResponse => None,
            _ => match step(State::Idle, Event::Request(command)) {
                Some(transition) => {
                    self.state = transition.state;
                    Some(transition.action)
                },
                None => None,
            },
        }
    }

    /// Sets the mode for a region of the display. Note that this will always
    /// force a redraw of the region.
    ///
    /// Refused with `None` while an exchange is in flight.
    pub fn set_mode(&mut self, mode: Mode, area: &Rect) -> (action: Option<Action>)
        ensures
            action is Some <==> !in_flight(old(self)@),
            action matches Some(first) ==> final(self)@ == (State::FrameSent {
                command: Command::SetMode { mode, area: *area },
            }) && first@ == ActionView::Write((Command::SetMode { mode, area: *area }).frame()),
            action is None ==> final(self)@ == old(self)@,
    {
        self.begin(Command::SetMode { mode, area: *area })
    }

    /// Force a redraw of the region. This will trigger a "flash" of the area
    /// from black to white before setting the image, in order to clear any
    /// ghosting.
    ///
    /// Refused with `None` while an exchange is in flight.
    pub fn redraw(&mut self, area: &Rect) -> (action: Option<Action>)
        ensures
            action is Some <==> !in_flight(old(self)@),
            action matches Some(first) ==> final(self)@ == (State::FrameSent {
                command: Command::Redraw { area: *area },
            }) && first@ == ActionView::Write((Command::Redraw { area: *area }).frame()),
            action is None ==> final(self)@ == old(self)@,
    {
        self.begin(Command::Redraw { area: *area })
    }

    /// Takes what the transport reported and tells what to do next.
    ///
    /// An event that the exchange does not wait for is refused with `None`,
    /// and the handle is as it was.
    pub fn advance(&mut self, event: Event) -> (action: Option<Action>)
        ensures
            action is Some <==> step_spec(old(self)@, event@) is Some,
            action matches Some(next) ==> step_spec(old(self)@, event@) == Some(
                TransitionView { state: final(self)@, action: next@ },
            ),
            action is None ==> final(self)@ == old(self)@,
    {
        match step(self.state, event) {
            Some(transition) => {
                self.state = transition.state;
                Some(transition.action)
            },
            None => None,
        }
    }
}

} // verus!
