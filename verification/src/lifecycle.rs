//! The application's lifecycle around the worker.
//!
//! The application opens its window, serves the user while the worker runs, and shuts the
//! worker down when the user is done: it gives up the sender, and only then waits for the
//! worker to return. A worker whose sender is still held never stops, so joining it first
//! would wait for ever. Opening the window, running the event loop and joining the thread are
//! the caller's to perform; the order in which they happen, and what a failure leads to, are
//! decided here.

use vstd::prelude::*;

verus! {

/// How far the application has come.
#[derive(Clone, Copy, Debug, PartialEq, Eq, Structural)]
pub enum AppPhase {
    /// Nothing exists yet.
    Launching,
    /// The window is open, the worker runs and producers can submit.
    Serving,
    /// The event loop has returned; the sender is being given up.
    Stopping,
    /// The sender is gone; the worker is being waited for.
    Joining,
    /// The worker has been joined. Nothing follows.
    Finished,
    /// The window or the event loop failed. Nothing follows.
    Aborted,
}

/// What the caller reports of the action it carried out.
#[derive(Clone, Copy, Debug, PartialEq, Eq, Structural)]
pub enum AppEvent {
    /// The window was created.
    WindowOpened,
    /// The window could not be created.
    WindowFailed,
    /// The event loop ran and returned.
    EventLoopReturned,
    /// The event loop could not run.
    EventLoopFailed,
    /// The sender was given up: handles to it no longer yield it.
    SenderStopped,
    /// The worker's thread was joined; `panicked` tells whether it had panicked.
    WorkerJoined { panicked: bool },
}

/// What the caller is to do next.
#[derive(Clone, Copy, Debug, PartialEq, Eq, Structural)]
pub enum AppAction {
    /// Create the window.
    OpenWindow,
    /// Start the worker, connect the producer to it, and run the event loop.
    Serve,
    /// Give up the sender, keeping the worker's join handle.
    StopSender,
    /// Join the worker's thread.
    JoinWorker,
    /// Return: the application is done.
    Exit,
    /// Give up with a failure.
    Abort,
}

/// The action that a phase is waiting on.
pub open spec fn app_pending(phase: AppPhase) -> AppAction {
    match phase {
        AppPhase::Launching => AppAction::OpenWindow,
        AppPhase::Serving => AppAction::Serve,
        AppPhase::Stopping => AppAction::StopSender,
        AppPhase::Joining => AppAction::JoinWorker,
        AppPhase::Finished => AppAction::Exit,
        AppPhase::Aborted => AppAction::Abort,
    }
}

/// The lifecycle's transitions. A failure of the window or of the event loop aborts; the
/// outcome of the join does not matter; an event out of turn changes nothing.
pub open spec fn app_next(phase: AppPhase, event: AppEvent) -> (AppPhase, AppAction) {
    match (phase, event) {
        (AppPhase::Launching, AppEvent::WindowOpened) => (AppPhase::Serving, AppAction::Serve),
        (AppPhase::Launching, AppEvent::WindowFailed) => (AppPhase::Aborted, AppAction::Abort),
        (AppPhase::Serving, AppEvent::EventLoopReturned) => (
            AppPhase::Stopping,
            AppAction::StopSender,
        ),
        (AppPhase::Serving, AppEvent::EventLoopFailed) => (AppPhase::Aborted, AppAction::Abort),
        (AppPhase::Stopping, AppEvent::SenderStopped) => (
            AppPhase::Joining,
            AppAction::JoinWorker,
        ),
        (AppPhase::Joining, AppEvent::WorkerJoined { .. }) => (
            AppPhase::Finished,
            AppAction::Exit,
        ),
        _ => (phase, app_pending(phase)),
    }
}

/// The phase that a run of `events` from `phase` ends in, and the actions it gives.
pub open spec fn app_run(phase: AppPhase, events: Seq<AppEvent>) -> (AppPhase, Seq<AppAction>)
    decreases events.len(),
{
    if events.len() == 0 {
        (phase, Seq::empty())
    } else {
        let (before, actions) = app_run(phase, events.drop_last());
        let (after, action) = app_next(before, events.last());
        (after, actions.push(action))
    }
}

/// Begins the application: nothing exists yet, and the window is to be opened first.
pub fn start_application() -> (begun: (AppPhase, AppAction))
    ensures
        begun == (AppPhase::Launching, AppAction::OpenWindow),
{
    (AppPhase::Launching, AppAction::OpenWindow)
}

impl AppPhase {
    /// Takes the report of the last action and decides what follows.
    pub fn advance(self, event: AppEvent) -> (decided: (AppPhase, AppAction))
        ensures
            decided == app_next(self, event),
    {
        match (self, event) {
            (AppPhase::Launching, AppEvent::WindowOpened) => (AppPhase::Serving, AppAction::Serve),
            (AppPhase::Launching, AppEvent::WindowFailed) => (AppPhase::Aborted, AppAction::Abort),
            (AppPhase::Serving, AppEvent::EventLoopReturned) => (
                AppPhase::Stopping,
                AppAction::StopSender,
            ),
            (AppPhase::Serving, AppEvent::EventLoopFailed) => (
                AppPhase::Aborted,
                AppAction::Abort,
            ),
            (AppPhase::Stopping, AppEvent::SenderStopped) => (
                AppPhase::Joining,
                AppAction::JoinWorker,
            ),
            (AppPhase::Joining, AppEvent::WorkerJoined { .. }) => (
                AppPhase::Finished,
                AppAction::Exit,
            ),
            (AppPhase::Launching, _) => (AppPhase::Launching, AppAction::OpenWindow),
            (AppPhase::Serving, _) => (AppPhase::Serving, AppAction::Serve),
            (AppPhase::Stopping, _) => (AppPhase::Stopping, AppAction::StopSender),
            (AppPhase::Joining, _) => (AppPhase::Joining, AppAction::JoinWorker),
            (AppPhase::Finished, _) => (AppPhase::Finished, AppAction::Exit),
            (AppPhase::Aborted, _) => (AppPhase::Aborted, AppAction::Abort),
        }
    }
}

/// The worker is joined only after its sender was given up. Whatever an application is told
/// from its start, an action of joining the worker goes back to an action of stopping the
/// sender and to the report that this was done. The result is the position of that report.
pub proof fn lemma_join_follows_stop(events: Seq<AppEvent>, at: int) -> (found: int)
    requires
        0 <= at < events.len(),
        app_run(AppPhase::Launching, events).1[at] == AppAction::JoinWorker,
    ensures
        1 <= found <= at,
        app_run(AppPhase::Launching, events).1[found - 1] == AppAction::StopSender,
        events[found] == AppEvent::SenderStopped,
        app_run(AppPhase::Launching, events).1[found] == AppAction::JoinWorker,
    decreases events.len(),
{
    lemma_app_run_len(AppPhase::Launching, events);
    let shorter = events.drop_last();
    lemma_app_run_len(AppPhase::Launching, shorter);
    if at < events.len() - 1 {
        lemma_join_follows_stop(shorter, at)
    } else {
        lemma_last_action_is_pending(shorter);
        if app_run(AppPhase::Launching, shorter).0 == AppPhase::Stopping {
            at
        } else {
            lemma_join_follows_stop(shorter, at - 1)
        }
    }
}

/// A run gives one action for each event.
pub proof fn lemma_app_run_len(phase: AppPhase, events: Seq<AppEvent>)
    ensures
        app_run(phase, events).1.len() == events.len(),
    decreases events.len(),
{
    if events.len() > 0 {
        lemma_app_run_len(phase, events.drop_last());
    }
}

/// An application that has begun has been told by its last action what its phase is waiting
/// on.
proof fn lemma_last_action_is_pending(events: Seq<AppEvent>)
    ensures
        app_run(AppPhase::Launching, events).1.len() == events.len(),
        events.len() == 0 ==> app_run(AppPhase::Launching, events).0 == AppPhase::Launching,
        events.len() >= 1 ==> app_run(AppPhase::Launching, events).1.last() == app_pending(
            app_run(AppPhase::Launching, events).0,
        ),
{
    lemma_app_run_len(AppPhase::Launching, events);
}

/// The application finishes only by joining the worker.
pub proof fn lemma_finishes_by_joining(phase: AppPhase, event: AppEvent)
    requires
        phase != AppPhase::Finished,
    ensures
        app_next(phase, event).0 == AppPhase::Finished <==> phase == AppPhase::Joining
            && event is WorkerJoined,
{
}

/// An application that runs without a failure goes through its actions in order and finishes,
/// whether or not the worker had panicked.
pub proof fn lemma_orderly_run_finishes(panicked: bool)
    ensures
        app_run(
            AppPhase::Launching,
            seq![
                AppEvent::WindowOpened,
                AppEvent::EventLoopReturned,
                AppEvent::SenderStopped,
                AppEvent::WorkerJoined { panicked },
            ],
        ) == (
            AppPhase::Finished,
            seq![AppAction::Serve, AppAction::StopSender, AppAction::JoinWorker, AppAction::Exit],
        ),
{
    let events = seq![
        AppEvent::WindowOpened,
        AppEvent::EventLoopReturned,
        AppEvent::SenderStopped,
        AppEvent::WorkerJoined { panicked },
    ];
    let three = events.drop_last();
    let two = three.drop_last();
    let one = two.drop_last();
    assert(app_run(AppPhase::Launching, one.drop_last()) == (
        AppPhase::Launching,
        Seq::<AppAction>::empty(),
    ));
    assert(app_run(AppPhase::Launching, one).0 == AppPhase::Serving);
    assert(app_run(AppPhase::Launching, one).1 == seq![AppAction::Serve]);
    assert(app_run(AppPhase::Launching, two).0 == AppPhase::Stopping);
    assert(app_run(AppPhase::Launching, two).1 == seq![AppAction::Serve, AppAction::StopSender]);
    assert(app_run(AppPhase::Launching, three).0 == AppPhase::Joining);
    assert(app_run(AppPhase::Launching, three).1 == seq![
        AppAction::Serve,
        AppAction::StopSender,
        AppAction::JoinWorker,
    ]);
    assert(app_run(AppPhase::Launching, events).1 == seq![
        AppAction::Serve,
        AppAction::StopSender,
        AppAction::JoinWorker,
        AppAction::Exit,
    ]);
}

} // verus!
