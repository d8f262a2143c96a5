//! Whole runs of one camera, from the first query to the report.

use camera_session::controller::CameraSessionController;
use camera_session::exchange::{Action, ActionKind, Event};
use camera_session::input::InputEvent;
use camera_session::protocol::{
    CameraEndpoint, CameraOutcome, DecodeError, DecodeOutcome, IpAddress, RemoteEndpoint,
    SessionMethod, SessionReport, SessionSnapshot, Stage, TeardownStatus,
};

fn answered(response_ok: bool) -> Event {
    Event::SessionReply(SessionSnapshot {
        response_ok,
        client_port: 4588,
        server: Some(RemoteEndpoint { address: IpAddress::V4(0xC0A8_0164), port: 6600 }),
    })
}

fn discovered() -> Event {
    Event::Discovered("rtsp://192.168.1.100:554/stream1".to_string())
}

fn count(actions: &[Action], kind: ActionKind) -> usize {
    actions.iter().filter(|action| action.kind() == kind).count()
}

/// A driver for a stream whose packets are numbered from 1. What the decoder
/// makes of each packet is given by `decode`; the operator quits after
/// `packets` packets. It hands back the numbers of the packets whose
/// pictures were painted, in the order of painting, and the report.
fn stream(packets: u32, decode: fn(u32) -> DecodeOutcome) -> (Vec<u32>, Vec<bool>, SessionReport) {
    let mut controller = CameraSessionController::new(CameraEndpoint { profile_index: 0 });
    let mut painted = Vec::new();
    let mut flags = Vec::new();
    let mut received = 0;
    let mut session_open = false;
    let mut action = controller.pending();
    loop {
        let event = match action {
            Action::Discover { .. } => discovered(),
            Action::OpenSession(_) => {
                session_open = true;
                Event::Completed
            }
            Action::Send(SessionMethod::Teardown) => {
                assert!(session_open);
                session_open = false;
                answered(true)
            }
            Action::Send(_) => answered(true),
            Action::OpenReceiver(_) | Action::OpenDisplay(_) | Action::ReleaseMedia => {
                Event::Completed
            }
            Action::PollInput => {
                if received == packets {
                    Event::Input(vec![InputEvent::Quit])
                } else {
                    Event::Input(vec![])
                }
            }
            Action::ReceivePacket => {
                received += 1;
                Event::Completed
            }
            Action::Decode => Event::Decoded(decode(received)),
            Action::Paint { past_warmup } => {
                painted.push(received);
                flags.push(past_warmup);
                Event::Completed
            }
            Action::Finish(report) => {
                assert!(!session_open);
                return (painted, flags, report);
            }
        };
        action = controller.step(event);
    }
}

#[test]
fn every_frame_after_the_synchronization_frame_is_painted_in_order() {
    // Capture starts in the middle of the stream: up to the synchronization
    // frame at packet 40 the decoder has nothing to show, or fails.
    fn decode(packet: u32) -> DecodeOutcome {
        if packet <= 40 {
            if packet % 3 == 0 {
                DecodeOutcome::Failed(DecodeError { code: 4 })
            } else {
                DecodeOutcome::Incomplete
            }
        } else if packet % 5 == 0 {
            // A fragment: the picture is complete with a later packet.
            DecodeOutcome::Incomplete
        } else {
            DecodeOutcome::Frame
        }
    }
    let (painted, _, report) = stream(120, decode);
    let expected: Vec<u32> = (41..=120).filter(|packet| packet % 5 != 0).collect();
    assert_eq!(painted, expected);
    assert_eq!(painted.len(), 64);
    assert_eq!(
        report,
        SessionReport { outcome: CameraOutcome::Streamed, teardown: TeardownStatus::Answered(true) }
    );
}

#[test]
fn early_frames_are_painted_too_and_marked_as_warm_up() {
    fn decode(_: u32) -> DecodeOutcome {
        DecodeOutcome::Frame
    }
    let (painted, flags, _) = stream(45, decode);
    assert_eq!(painted, (1..=45).collect::<Vec<u32>>());
    let expected: Vec<bool> = (1..=45).map(|frame| frame > 40).collect();
    assert_eq!(flags, expected);
    assert_eq!(flags[39], false);
    assert_eq!(flags[40], true);
}

#[test]
fn an_operator_who_quits_at_once_sees_nothing() {
    fn decode(_: u32) -> DecodeOutcome {
        DecodeOutcome::Frame
    }
    let (painted, _, report) = stream(0, decode);
    assert!(painted.is_empty());
    assert_eq!(report.outcome, CameraOutcome::Streamed);
}

#[test]
fn a_play_that_is_refused_paints_nothing_and_tears_down_once() {
    let mut controller = CameraSessionController::new(CameraEndpoint { profile_index: 0 });
    let actions = controller.replay(vec![
        discovered(),
        discovered(),
        discovered(),
        discovered(),
        Event::Completed,
        answered(true),
        answered(true),
        answered(true),
        answered(false),
        answered(true),
    ]);
    assert_eq!(count(&actions, ActionKind::Send(SessionMethod::Setup)), 1);
    assert_eq!(count(&actions, ActionKind::Send(SessionMethod::Play)), 1);
    assert_eq!(count(&actions, ActionKind::Paint), 0);
    assert_eq!(count(&actions, ActionKind::OpenReceiver), 0);
    assert_eq!(count(&actions, ActionKind::OpenDisplay), 0);
    assert_eq!(count(&actions, ActionKind::Send(SessionMethod::Teardown)), 1);
    assert_eq!(
        actions.last(),
        Some(&Action::Finish(SessionReport {
            outcome: CameraOutcome::Failed(Stage::NegotiationStatus),
            teardown: TeardownStatus::Answered(true),
        }))
    );
}

#[test]
fn a_whole_run_asks_for_each_setup_action_once() {
    fn decode(_: u32) -> DecodeOutcome {
        DecodeOutcome::Frame
    }
    let mut controller = CameraSessionController::new(CameraEndpoint { profile_index: 2 });
    let mut script = vec![discovered(), discovered(), discovered(), discovered()];
    script.push(Event::Completed);
    script.extend([answered(true), answered(true), answered(true), answered(true)]);
    script.extend([Event::Completed, Event::Completed]);
    for packet in 1..=3 {
        script.push(Event::Input(vec![InputEvent::Other]));
        script.push(Event::Completed);
        script.push(Event::Decoded(decode(packet)));
        script.push(Event::Completed);
    }
    script.push(Event::Input(vec![InputEvent::Quit]));
    script.push(Event::Completed);
    script.push(answered(true));
    let actions = controller.replay(script);
    // 26 events, and the action that was outstanding before the first.
    assert_eq!(actions.len(), 27);
    assert_eq!(count(&actions, ActionKind::OpenSession), 1);
    assert_eq!(count(&actions, ActionKind::OpenReceiver), 1);
    assert_eq!(count(&actions, ActionKind::OpenDisplay), 1);
    assert_eq!(count(&actions, ActionKind::PollInput), 4);
    assert_eq!(count(&actions, ActionKind::ReceivePacket), 3);
    assert_eq!(count(&actions, ActionKind::Decode), 3);
    assert_eq!(count(&actions, ActionKind::Paint), 3);
    assert_eq!(count(&actions, ActionKind::ReleaseMedia), 1);
    assert_eq!(count(&actions, ActionKind::Send(SessionMethod::Teardown)), 1);
    assert_eq!(count(&actions, ActionKind::Finish), 1);
    assert_eq!(controller.frames_counted(), 3);
}
