//! What holds of every session, tried on chosen runs.

use camera_session::controller::CameraSessionController;
use camera_session::exchange::{Action, ActionKind, Event};
use camera_session::input::{InputEvent, Key};
use camera_session::protocol::{
    CameraEndpoint, CameraOutcome, DecodeError, DecodeOutcome, DiscoveryMessage, IpAddress,
    RemoteEndpoint, SessionMethod, SessionReport, SessionSnapshot, Stage, TeardownStatus,
};

fn answered(response_ok: bool) -> Event {
    Event::SessionReply(SessionSnapshot {
        response_ok,
        client_port: 4588,
        server: Some(RemoteEndpoint { address: IpAddress::V4(0x0A00_0009), port: 6600 }),
    })
}

fn discovered() -> Event {
    Event::Discovered("rtsp://10.0.0.9:554/live".to_string())
}

/// The events that bring a fresh controller to the top of the capture loop.
fn up_to_the_loop() -> Vec<Event> {
    let mut script = vec![discovered(), discovered(), discovered(), discovered()];
    script.push(Event::Completed);
    for _ in 0..4 {
        script.push(answered(true));
    }
    script.push(Event::Completed);
    script.push(Event::Completed);
    script
}

fn count(actions: &[Action], kind: ActionKind) -> usize {
    actions.iter().filter(|action| action.kind() == kind).count()
}

fn run(script: Vec<Event>) -> (CameraSessionController, Vec<Action>) {
    let mut controller = CameraSessionController::new(CameraEndpoint { profile_index: 0 });
    let actions = controller.replay(script);
    (controller, actions)
}

const TEARDOWN: ActionKind = ActionKind::Send(SessionMethod::Teardown);
const OPTIONS: ActionKind = ActionKind::Send(SessionMethod::Options);

#[test]
fn a_failed_step_of_the_negotiation_opens_neither_receiver_nor_display() {
    for answered_before in 0..4 {
        let mut script = vec![discovered(), discovered(), discovered(), discovered()];
        script.push(Event::Completed);
        for _ in 0..answered_before {
            script.push(answered(true));
        }
        script.push(Event::Failed);
        script.push(answered(true));
        script.push(Event::Completed);
        let (controller, actions) = run(script);
        assert!(controller.is_finished());
        assert_eq!(count(&actions, ActionKind::OpenReceiver), 0);
        assert_eq!(count(&actions, ActionKind::OpenDisplay), 0);
        assert_eq!(count(&actions, ActionKind::Paint), 0);
        assert_eq!(count(&actions, ActionKind::ReleaseMedia), 0);
        assert_eq!(count(&actions, OPTIONS), 1);
        assert_eq!(count(&actions, TEARDOWN), 1);
    }
}

#[test]
fn a_status_that_is_no_success_opens_neither_receiver_nor_display() {
    let mut script = vec![discovered(), discovered(), discovered(), discovered()];
    script.push(Event::Completed);
    for _ in 0..3 {
        script.push(answered(true));
    }
    script.push(answered(false));
    script.push(answered(true));
    let (controller, actions) = run(script);
    assert_eq!(
        controller.report(),
        Some(SessionReport {
            outcome: CameraOutcome::Failed(Stage::NegotiationStatus),
            teardown: TeardownStatus::Answered(true),
        })
    );
    assert_eq!(count(&actions, ActionKind::OpenReceiver), 0);
    assert_eq!(count(&actions, ActionKind::OpenDisplay), 0);
    assert_eq!(count(&actions, TEARDOWN), 1);
}

#[test]
fn no_teardown_is_asked_for_unless_options_was_sent() {
    // Discovery fails: neither Options nor Teardown.
    let (controller, actions) = run(vec![discovered(), Event::Failed, Event::Completed]);
    assert!(controller.is_finished());
    assert_eq!(count(&actions, OPTIONS), 0);
    assert_eq!(count(&actions, TEARDOWN), 0);

    // The session does not open: neither Options nor Teardown.
    let (controller, actions) = run(vec![
        discovered(),
        discovered(),
        discovered(),
        discovered(),
        Event::Failed,
        Event::Completed,
    ]);
    assert!(controller.is_finished());
    assert_eq!(count(&actions, ActionKind::OpenSession), 1);
    assert_eq!(count(&actions, OPTIONS), 0);
    assert_eq!(count(&actions, TEARDOWN), 0);

    // Options is sent and fails: one Teardown.
    let (controller, actions) = run(vec![
        discovered(),
        discovered(),
        discovered(),
        discovered(),
        Event::Completed,
        Event::Failed,
        Event::Failed,
    ]);
    assert!(controller.is_finished());
    assert_eq!(count(&actions, OPTIONS), 1);
    assert_eq!(count(&actions, TEARDOWN), 1);
}

#[test]
fn every_way_out_of_the_loop_tears_down_once() {
    let quit = vec![Event::Input(vec![InputEvent::Quit])];
    let receive_error = vec![Event::Input(vec![]), Event::Failed];
    let paint_error = vec![
        Event::Input(vec![]),
        Event::Completed,
        Event::Decoded(DecodeOutcome::Frame),
        Event::Failed,
    ];
    let verdicts = [
        CameraOutcome::Streamed,
        CameraOutcome::Failed(Stage::Receive),
        CameraOutcome::Failed(Stage::Display),
    ];
    for (way_out, verdict) in [quit, receive_error, paint_error].into_iter().zip(verdicts) {
        let mut script = up_to_the_loop();
        script.extend(way_out);
        script.push(Event::Completed);
        script.push(answered(true));
        script.push(Event::Completed);
        script.push(Event::Completed);
        let (controller, actions) = run(script);
        assert_eq!(
            controller.report(),
            Some(SessionReport { outcome: verdict, teardown: TeardownStatus::Answered(true) })
        );
        assert_eq!(count(&actions, TEARDOWN), 1);
        assert_eq!(count(&actions, ActionKind::ReleaseMedia), 1);
        assert_eq!(count(&actions, ActionKind::OpenSession), 1);
        let release = actions.iter().position(|a| *a == Action::ReleaseMedia).unwrap();
        assert_eq!(actions[release + 1], Action::Send(SessionMethod::Teardown));
    }
}

#[test]
fn a_quit_at_the_top_of_an_iteration_stops_receiving_and_decoding() {
    let batches = [
        vec![InputEvent::Quit],
        vec![InputEvent::KeyDown(Some(Key::Escape))],
        vec![InputEvent::Other, InputEvent::KeyDown(Some(Key::Other)), InputEvent::Quit],
        vec![InputEvent::KeyDown(Some(Key::Escape)), InputEvent::Other, InputEvent::Other],
    ];
    for batch in batches {
        let mut controller = CameraSessionController::new(CameraEndpoint { profile_index: 0 });
        controller.replay(up_to_the_loop());
        // Two full iterations first.
        for _ in 0..2 {
            controller.step(Event::Input(vec![InputEvent::Other]));
            controller.step(Event::Completed);
            controller.step(Event::Decoded(DecodeOutcome::Incomplete));
        }
        assert_eq!(controller.step(Event::Input(batch)), Action::ReleaseMedia);
        // Whatever is reported from here on, the loop is not taken up again.
        let later = controller.replay(vec![
            Event::Completed,
            Event::Decoded(DecodeOutcome::Frame),
            Event::Input(vec![]),
            Event::Completed,
        ]);
        for kind in [
            ActionKind::PollInput,
            ActionKind::ReceivePacket,
            ActionKind::Decode,
            ActionKind::Paint,
        ] {
            assert_eq!(count(&later, kind), 0);
        }
        assert_eq!(
            controller.report().map(|report| report.outcome),
            Some(CameraOutcome::Streamed)
        );
    }
}

#[test]
fn a_decoder_error_never_ends_the_loop() {
    let mut controller = CameraSessionController::new(CameraEndpoint { profile_index: 0 });
    controller.replay(up_to_the_loop());
    for code in [0, 1, -1, 4, i64::MAX, i64::MIN] {
        assert_eq!(controller.step(Event::Input(vec![])), Action::ReceivePacket);
        assert_eq!(controller.step(Event::Completed), Action::Decode);
        assert_eq!(
            controller.step(Event::Decoded(DecodeOutcome::Failed(DecodeError { code }))),
            Action::PollInput
        );
        assert!(!controller.is_finished());
        assert!(controller.session_is_open());
    }
    assert_eq!(controller.frames_counted(), 0);
}

#[test]
fn an_incomplete_packet_is_never_painted() {
    let mut controller = CameraSessionController::new(CameraEndpoint { profile_index: 0 });
    controller.replay(up_to_the_loop());
    for _ in 0..5 {
        controller.step(Event::Input(vec![]));
        controller.step(Event::Completed);
        assert_eq!(controller.step(Event::Decoded(DecodeOutcome::Incomplete)), Action::PollInput);
    }
    assert_eq!(controller.frames_counted(), 0);
}

#[test]
fn anything_but_a_frame_from_the_decoder_goes_back_to_the_top() {
    for event in [Event::Failed, Event::Completed, discovered(), answered(true)] {
        let mut controller = CameraSessionController::new(CameraEndpoint { profile_index: 0 });
        controller.replay(up_to_the_loop());
        controller.step(Event::Input(vec![]));
        controller.step(Event::Completed);
        assert_eq!(controller.step(event), Action::PollInput);
    }
}

#[test]
fn a_second_teardown_changes_nothing() {
    let mut script = up_to_the_loop();
    script.push(Event::Input(vec![InputEvent::Quit]));
    script.push(Event::Completed);
    script.push(answered(true));
    let (mut controller, actions) = run(script);
    let report = SessionReport {
        outcome: CameraOutcome::Streamed,
        teardown: TeardownStatus::Answered(true),
    };
    assert_eq!(actions.last(), Some(&Action::Finish(report)));
    // The answers that a second teardown could bring.
    for late in [Event::Failed, answered(false), answered(true), Event::Completed] {
        assert_eq!(controller.step(late), Action::Finish(report));
        assert!(controller.is_finished());
        assert_eq!(controller.report(), Some(report));
    }
}

#[test]
fn a_teardown_that_fails_does_not_change_the_verdict() {
    let mut script = up_to_the_loop();
    script.push(Event::Input(vec![InputEvent::Quit]));
    script.push(Event::Completed);
    script.push(Event::Failed);
    let (controller, _) = run(script);
    assert_eq!(
        controller.report(),
        Some(SessionReport {
            outcome: CameraOutcome::Streamed,
            teardown: TeardownStatus::Failed,
        })
    );
}

#[test]
fn nothing_is_painted_before_the_negotiation_has_succeeded() {
    // A frame reported out of turn, in every phase before the loop, paints
    // nothing.
    let setup = up_to_the_loop();
    for reached in 0..setup.len() {
        let mut script: Vec<Event> = setup[..reached].to_vec();
        script.push(Event::Decoded(DecodeOutcome::Frame));
        script.push(Event::Decoded(DecodeOutcome::Frame));
        script.push(Event::Decoded(DecodeOutcome::Frame));
        let (_, actions) = run(script);
        assert_eq!(count(&actions, ActionKind::Paint), 0);
    }
}

#[test]
fn the_setup_keeps_its_order() {
    let (_, actions) = run(up_to_the_loop());
    let kinds: Vec<ActionKind> = actions.iter().map(|action| action.kind()).collect();
    assert_eq!(
        kinds,
        vec![
            ActionKind::Discover(DiscoveryMessage::Capabilities),
            ActionKind::Discover(DiscoveryMessage::DeviceInfo),
            ActionKind::Discover(DiscoveryMessage::Profiles),
            ActionKind::Discover(DiscoveryMessage::GetStreamUri),
            ActionKind::OpenSession,
            ActionKind::Send(SessionMethod::Options),
            ActionKind::Send(SessionMethod::Describe),
            ActionKind::Send(SessionMethod::Setup),
            ActionKind::Send(SessionMethod::Play),
            ActionKind::OpenReceiver,
            ActionKind::OpenDisplay,
            ActionKind::PollInput,
        ]
    );
}
