use std::sync::mpsc::{RecvError, TryRecvError};

use fast_qr::ECL;
use qr_app::{generate_image, QrGenerationRequest, WorkerAction, WorkerEvent, WorkerState};

fn request(data: &str) -> QrGenerationRequest {
    QrGenerationRequest { data: data.to_string(), correction_level: None }
}

fn received(data: &str) -> WorkerEvent {
    WorkerEvent::Received(request(data))
}

fn pixels_of(data: &str) -> Vec<u8> {
    generate_image(request(data)).unwrap().into_pixels()
}

#[test]
fn worker_begins_idle_with_a_blocking_receive() {
    let (state, action) = WorkerState::new();
    assert!(matches!(state, WorkerState::Idle));
    assert!(matches!(action, WorkerAction::Receive));
    assert!(!state.is_stopped());
}

#[test]
fn first_request_starts_a_drain() {
    let (state, action) = WorkerState::Idle.step(received("A"));
    assert!(matches!(action, WorkerAction::Poll));
    match state {
        WorkerState::Draining { candidate } => assert_eq!(candidate.data, "A"),
        other => panic!("unexpected state {other:?}"),
    }
}

#[test]
fn later_request_replaces_the_candidate() {
    let (state, _) = WorkerState::Idle.step(received("A"));
    let (state, action) = state.step(WorkerEvent::Received(QrGenerationRequest {
        data: "AB".to_string(),
        correction_level: Some(ECL::H),
    }));
    assert!(matches!(action, WorkerAction::Poll));
    match state {
        WorkerState::Draining { candidate } => {
            assert_eq!(candidate.data, "AB");
            assert!(matches!(candidate.correction_level, Some(ECL::H)));
        }
        other => panic!("unexpected state {other:?}"),
    }
}

#[test]
fn three_requests_in_succession_give_one_delivery_of_the_last() {
    let (mut state, _) = WorkerState::new();
    let mut deliveries = Vec::new();
    for event in [received("A"), received("AB"), received("ABC"), WorkerEvent::QueueEmpty] {
        let (next, action) = state.step(event);
        state = next;
        match action {
            WorkerAction::Poll => {}
            WorkerAction::Deliver(result) => deliveries.push(result),
            other => panic!("unexpected action {other:?}"),
        }
    }
    assert!(matches!(state, WorkerState::Rendering));
    assert_eq!(deliveries.len(), 1);
    let image = deliveries.pop().unwrap().unwrap();
    assert_eq!(image.pixels(), &pixels_of("ABC"));
    assert_ne!(image.pixels(), &pixels_of("A"));
    assert_ne!(image.pixels(), &pixels_of("AB"));
}

#[test]
fn single_request_is_delivered_as_a_square_rgba_image() {
    let (state, _) = WorkerState::Idle.step(received("Test data 123"));
    let (state, action) = state.step(WorkerEvent::QueueEmpty);
    assert!(matches!(state, WorkerState::Rendering));
    match action {
        WorkerAction::Deliver(Ok(image)) => {
            assert_eq!(image.width(), image.height());
            assert_eq!(
                image.pixels().len(),
                image.width() as usize * image.height() as usize * 4
            );
        }
        other => panic!("unexpected action {other:?}"),
    }
}

#[test]
fn disconnect_during_a_drain_still_delivers_the_candidate() {
    let (state, _) = WorkerState::Idle.step(received("ABC"));
    let (state, action) = state.step(WorkerEvent::Disconnected);
    assert!(matches!(state, WorkerState::Rendering));
    match action {
        WorkerAction::Deliver(Ok(image)) => assert_eq!(image.pixels(), &pixels_of("ABC")),
        other => panic!("unexpected action {other:?}"),
    }
    let (state, action) = state.step(WorkerEvent::Delivered { accepted: true });
    assert!(matches!(state, WorkerState::Idle));
    assert!(matches!(action, WorkerAction::Receive));
    let (state, action) = state.step(WorkerEvent::Disconnected);
    assert!(state.is_stopped());
    assert!(matches!(action, WorkerAction::Stop));
}

#[test]
fn rejected_payload_is_delivered_as_its_message() {
    let (state, _) = WorkerState::Idle.step(received(&"a".repeat(1664)));
    let (state, action) = state.step(WorkerEvent::QueueEmpty);
    assert!(matches!(state, WorkerState::Rendering));
    match action {
        WorkerAction::Deliver(Err(message)) => assert_eq!(message, "Data too big to be encoded"),
        other => panic!("unexpected action {other:?}"),
    }
}

#[test]
fn failed_delivery_returns_the_worker_to_idle() {
    let (state, action) = WorkerState::Rendering.step(WorkerEvent::Delivered { accepted: false });
    assert!(matches!(state, WorkerState::Idle));
    assert!(matches!(action, WorkerAction::Receive));
}

#[test]
fn shutdown_without_requests_stops_at_the_first_receive() {
    let (state, _) = WorkerState::new();
    let (state, action) = state.step(WorkerEvent::Disconnected);
    assert!(state.is_stopped());
    assert!(matches!(action, WorkerAction::Stop));
}

#[test]
fn stopped_worker_stays_stopped() {
    for event in [
        received("A"),
        WorkerEvent::QueueEmpty,
        WorkerEvent::Disconnected,
        WorkerEvent::Delivered { accepted: true },
    ] {
        let (state, action) = WorkerState::Stopped.step(event);
        assert!(state.is_stopped());
        assert!(matches!(action, WorkerAction::Stop));
    }
}

#[test]
fn events_out_of_turn_are_ignored() {
    let (state, action) = WorkerState::Idle.step(WorkerEvent::QueueEmpty);
    assert!(matches!(state, WorkerState::Idle));
    assert!(matches!(action, WorkerAction::Receive));
    let (state, action) = state.step(WorkerEvent::Delivered { accepted: true });
    assert!(matches!(state, WorkerState::Idle));
    assert!(matches!(action, WorkerAction::Receive));

    let draining = WorkerState::Draining { candidate: request("AB") };
    let (state, action) = draining.step(WorkerEvent::Delivered { accepted: false });
    assert!(matches!(action, WorkerAction::Poll));
    match state {
        WorkerState::Draining { candidate } => assert_eq!(candidate.data, "AB"),
        other => panic!("unexpected state {other:?}"),
    }

    for event in [received("A"), WorkerEvent::QueueEmpty, WorkerEvent::Disconnected] {
        let (state, action) = WorkerState::Rendering.step(event);
        assert!(matches!(state, WorkerState::Rendering));
        assert!(matches!(action, WorkerAction::AwaitDelivery));
    }
}

#[test]
fn blocking_receive_reports_a_request_or_a_disconnect() {
    match WorkerEvent::of_receive(Ok(request("A"))) {
        WorkerEvent::Received(request) => assert_eq!(request.data, "A"),
        other => panic!("unexpected event {other:?}"),
    }
    assert!(matches!(WorkerEvent::of_receive(Err(RecvError)), WorkerEvent::Disconnected));
}

#[test]
fn poll_tells_an_empty_queue_from_a_disconnect() {
    match WorkerEvent::of_poll(Ok(request("AB"))) {
        WorkerEvent::Received(request) => assert_eq!(request.data, "AB"),
        other => panic!("unexpected event {other:?}"),
    }
    assert!(matches!(WorkerEvent::of_poll(Err(TryRecvError::Empty)), WorkerEvent::QueueEmpty));
    assert!(matches!(
        WorkerEvent::of_poll(Err(TryRecvError::Disconnected)),
        WorkerEvent::Disconnected
    ));
}

#[test]
fn no_second_result_is_handed_out_before_the_first_is_reported() {
    let (state, _) = WorkerState::Idle.step(received("A"));
    let (state, action) = state.step(WorkerEvent::QueueEmpty);
    assert!(matches!(action, WorkerAction::Deliver(_)));
    // Requests and an empty queue reported now, before the delivery, start nothing.
    let (state, action) = state.step(received("AB"));
    assert!(matches!(action, WorkerAction::AwaitDelivery));
    let (state, action) = state.step(WorkerEvent::QueueEmpty);
    assert!(matches!(action, WorkerAction::AwaitDelivery));
    let (state, action) = state.step(WorkerEvent::Delivered { accepted: true });
    assert!(matches!(action, WorkerAction::Receive));
    let (state, action) = state.step(received("ABC"));
    assert!(matches!(action, WorkerAction::Poll));
    let (_, action) = state.step(WorkerEvent::QueueEmpty);
    match action {
        WorkerAction::Deliver(Ok(image)) => assert_eq!(image.pixels(), &pixels_of("ABC")),
        other => panic!("unexpected action {other:?}"),
    }
}

/// Gives a worker the report of each of its actions once every sender is gone, and counts the
/// reports until it has stopped.
fn reports_until_stopped(
    mut state: WorkerState,
    mut action: WorkerAction,
    queued: &[&str],
) -> (usize, usize) {
    let mut queue = queued.iter();
    let mut reports = 0;
    let mut deliveries = 0;
    while !state.is_stopped() {
        let event = match action {
            WorkerAction::Deliver(_) | WorkerAction::AwaitDelivery => {
                WorkerEvent::Delivered { accepted: true }
            }
            _ => match queue.next() {
                Some(data) => received(data),
                None => WorkerEvent::Disconnected,
            },
        };
        (state, action) = state.step(event);
        if matches!(action, WorkerAction::Deliver(_)) {
            deliveries += 1;
        }
        reports += 1;
        assert!(reports <= queued.len() + 4);
    }
    (reports, deliveries)
}

#[test]
fn idle_worker_stops_at_once_after_shutdown() {
    let (state, action) = WorkerState::new();
    assert_eq!(reports_until_stopped(state, action, &[]), (1, 0));
}

#[test]
fn rendering_worker_takes_what_is_queued_and_stops() {
    let counted = reports_until_stopped(
        WorkerState::Rendering,
        WorkerAction::AwaitDelivery,
        &["A", "AB", "ABC"],
    );
    assert_eq!(counted, (7, 1));
}

#[test]
fn draining_worker_delivers_its_candidate_and_stops() {
    let state = WorkerState::Draining { candidate: request("A") };
    assert_eq!(reports_until_stopped(state, WorkerAction::Poll, &[]), (3, 1));
}
