//! The worker's decisions.
//!
//! The worker waits for a request, takes whatever else is already queued and keeps only the
//! most recent, renders that one and hands the result out for delivery; then it waits again. It
//! stops when a blocking receive finds every sender gone. Receiving and delivering are the
//! caller's to perform: the caller carries out the action it is given and reports what came of
//! it as the next event.
//!
//! A drain takes what is queued at that moment and no more. A request that arrives while a
//! result is rendered or delivered stays in the channel: the next blocking receive takes it,
//! and it is drained with whatever has been queued by then.
//!
//! A state is used up by the step that is taken from it, so a worker takes one step at a time
//! and has at most one result under way.

use std::sync::mpsc::{RecvError, TryRecvError};
use vstd::prelude::*;
use crate::generator::{generate_image, outcome_of};
use crate::image::{ImageView, PixelMapResult, result_view};
use crate::request::{QrGenerationRequest, RequestView};

verus! {

/// `std::sync::mpsc::RecvError`: a blocking receive found every sender gone.
#[verifier::external_type_specification]
#[verifier::external_body]
pub struct ExRecvError(RecvError);

/// `std::sync::mpsc::TryRecvError`: a non-blocking receive found the queue empty, or found it
/// empty and every sender gone.
#[verifier::external_type_specification]
pub struct ExTryRecvError(TryRecvError);

/// Where the worker stands between two actions.
#[derive(Debug)]
pub enum WorkerState {
    /// No request in hand; the next one is waited for.
    Idle,
    /// A request in hand while the queue is emptied; a later one replaces it.
    Draining { candidate: QrGenerationRequest },
    /// A result has been handed out and its delivery has not been reported yet.
    Rendering,
    /// Every sender is gone. Nothing follows.
    Stopped,
}

/// What the caller reports of the action it carried out.
#[derive(Debug)]
pub enum WorkerEvent {
    /// A receive, blocking or not, produced a request.
    Received(QrGenerationRequest),
    /// A non-blocking receive found the queue empty.
    QueueEmpty,
    /// A receive found every sender gone.
    Disconnected,
    /// The callback returned; `accepted` tells whether it reached its destination.
    Delivered { accepted: bool },
}

/// What the caller is to do next.
#[derive(Debug)]
pub enum WorkerAction {
    /// Block until a request arrives or every sender is gone.
    Receive,
    /// Take a request that is already queued, without waiting.
    Poll,
    /// Hand the result to the callback, once.
    Deliver(PixelMapResult),
    /// Nothing, until the delivery under way is reported.
    AwaitDelivery,
    /// Leave the loop.
    Stop,
}

/// A state as contracts see it.
pub enum StateView {
    Idle,
    Draining { candidate: RequestView },
    Rendering,
    Stopped,
}

/// An event as contracts see it.
pub enum EventView {
    Received(RequestView),
    QueueEmpty,
    Disconnected,
    Delivered { accepted: bool },
}

/// An action as contracts see it.
pub enum ActionView {
    Receive,
    Poll,
    Deliver(Result<ImageView, Seq<char>>),
    AwaitDelivery,
    Stop,
}

impl View for WorkerState {
    type V = StateView;

    open spec fn view(&self) -> StateView {
        match self {
            WorkerState::Idle => StateView::Idle,
            WorkerState::Draining { candidate } => StateView::Draining { candidate: candidate@ },
            WorkerState::Rendering => StateView::Rendering,
            WorkerState::Stopped => StateView::Stopped,
        }
    }
}

impl View for WorkerEvent {
    type V = EventView;

    open spec fn view(&self) -> EventView {
        match self {
            WorkerEvent::Received(request) => EventView::Received(request@),
            WorkerEvent::QueueEmpty => EventView::QueueEmpty,
            WorkerEvent::Disconnected => EventView::Disconnected,
            WorkerEvent::Delivered { accepted } => EventView::Delivered { accepted: *accepted },
        }
    }
}

impl View for WorkerAction {
    type V = ActionView;

    open spec fn view(&self) -> ActionView {
        match self {
            WorkerAction::Receive => ActionView::Receive,
            WorkerAction::Poll => ActionView::Poll,
            WorkerAction::Deliver(result) => ActionView::Deliver(result_view(*result)),
            WorkerAction::AwaitDelivery => ActionView::AwaitDelivery,
            WorkerAction::Stop => ActionView::Stop,
        }
    }
}

/// The action that a state is waiting on: what the caller is told again when it reports an
/// event out of turn.
pub open spec fn pending_action(state: StateView) -> ActionView {
    match state {
        StateView::Idle => ActionView::Receive,
        StateView::Draining { .. } => ActionView::Poll,
        StateView::Rendering => ActionView::AwaitDelivery,
        StateView::Stopped => ActionView::Stop,
    }
}

/// `event` answers the action that `state` is waiting on.
pub open spec fn in_turn(state: StateView, event: EventView) -> bool {
    match state {
        StateView::Idle => event is Received || event is Disconnected,
        StateView::Draining { .. } => !(event is Delivered),
        StateView::Rendering => event is Delivered,
        StateView::Stopped => false,
    }
}

/// The worker's transitions: the state that follows `state` on `event`, and the action that
/// the caller is given.
///
/// - Idle: a request starts a drain; a disconnect stops the worker.
/// - Draining: a request replaces the candidate; an empty or disconnected queue ends the drain,
///   and the candidate's outcome is handed out.
/// - Rendering: the report of the delivery, whatever it says, returns the worker to idle.
/// - An event out of turn changes nothing, and a stopped worker stays stopped.
pub open spec fn next(state: StateView, event: EventView) -> (StateView, ActionView) {
    match state {
        StateView::Idle => match event {
            EventView::Received(request) => (
                StateView::Draining { candidate: request },
                ActionView::Poll,
            ),
            EventView::Disconnected => (StateView::Stopped, ActionView::Stop),
            _ => (state, pending_action(state)),
        },
        StateView::Draining { candidate } => match event {
            EventView::Received(request) => (
                StateView::Draining { candidate: request },
                ActionView::Poll,
            ),
            EventView::QueueEmpty | EventView::Disconnected => (
                StateView::Rendering,
                ActionView::Deliver(outcome_of(candidate)),
            ),
            _ => (state, pending_action(state)),
        },
        StateView::Rendering => match event {
            EventView::Delivered { .. } => (StateView::Idle, ActionView::Receive),
            _ => (state, pending_action(state)),
        },
        StateView::Stopped => (state, pending_action(state)),
    }
}

/// The event that a blocking receive comes to.
pub open spec fn receive_event(received: Result<QrGenerationRequest, RecvError>) -> EventView {
    match received {
        Ok(request) => EventView::Received(request@),
        Err(_) => EventView::Disconnected,
    }
}

/// The event that a non-blocking receive comes to.
pub open spec fn poll_event(polled: Result<QrGenerationRequest, TryRecvError>) -> EventView {
    match polled {
        Ok(request) => EventView::Received(request@),
        Err(TryRecvError::Empty) => EventView::QueueEmpty,
        Err(TryRecvError::Disconnected) => EventView::Disconnected,
    }
}

impl WorkerEvent {
    /// Reports what a blocking receive on the channel returned.
    pub fn of_receive(received: Result<QrGenerationRequest, RecvError>) -> (event: WorkerEvent)
        ensures
            event@ == receive_event(received),
    {
        match received {
            Ok(request) => WorkerEvent::Received(request),
            Err(_) => WorkerEvent::Disconnected,
        }
    }

    /// Reports what a non-blocking receive on the channel returned.
    pub fn of_poll(polled: Result<QrGenerationRequest, TryRecvError>) -> (event: WorkerEvent)
        ensures
            event@ == poll_event(polled),
    {
        match polled {
            Ok(request) => WorkerEvent::Received(request),
            Err(TryRecvError::Empty) => WorkerEvent::QueueEmpty,
            Err(TryRecvError::Disconnected) => WorkerEvent::Disconnected,
        }
    }
}

impl WorkerState {
    /// A worker that has seen nothing yet, and the action it begins with.
    pub fn new() -> (begun: (WorkerState, WorkerAction))
        ensures
            begun.0@ == StateView::Idle,
            begun.1@ == ActionView::Receive,
    {
        (WorkerState::Idle, WorkerAction::Receive)
    }

    /// Tells whether the worker has stopped.
    pub fn is_stopped(&self) -> (stopped: bool)
        ensures
            stopped == (self@ is Stopped),
    {
        match self {
            WorkerState::Stopped => true,
            _ => false,
        }
    }

    /// Takes one event and decides: gives the state that follows and the action to carry out.
    /// The request that is rendered is the candidate at the end of a drain, and it is rendered
    /// here, once.
    pub fn step(self, event: WorkerEvent) -> (decided: (WorkerState, WorkerAction))
        ensures
            (decided.0@, decided.1@) == next(self@, event@),
            decided.1 matches WorkerAction::Deliver(Ok(image)) ==> image.well_formed()
                && image@.is_square(),
    {
        match self {
            WorkerState::Idle => match event {
                WorkerEvent::Received(request) => (
                    WorkerState::Draining { candidate: request },
                    WorkerAction::Poll,
                ),
                WorkerEvent::Disconnected => (WorkerState::Stopped, WorkerAction::Stop),
                _ => (WorkerState::Idle, WorkerAction::Receive),
            },
            WorkerState::Draining { candidate } => match event {
                WorkerEvent::Received(request) => (
                    WorkerState::Draining { candidate: request },
                    WorkerAction::Poll,
                ),
                WorkerEvent::QueueEmpty | WorkerEvent::Disconnected => (
                    WorkerState::Rendering,
                    WorkerAction::Deliver(generate_image(candidate)),
                ),
                WorkerEvent::Delivered { .. } => (
                    WorkerState::Draining { candidate },
                    WorkerAction::Poll,
                ),
            },
            WorkerState::Rendering => match event {
                WorkerEvent::Delivered { .. } => (WorkerState::Idle, WorkerAction::Receive),
                _ => (WorkerState::Rendering, WorkerAction::AwaitDelivery),
            },
            WorkerState::Stopped => (WorkerState::Stopped, WorkerAction::Stop),
        }
    }
}

} // verus!
