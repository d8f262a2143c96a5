//! The small parts: the warm-up counter, the input batch, the orders of
//! queries and steps, the transport, the decoder's report.

use camera_session::diagnostics::native_code;
use camera_session::input::{batch_requests_quit, InputEvent, Key};
use camera_session::protocol::{
    DecodeError, DiscoveryMessage, IpAddress, NegotiationStep, RemoteEndpoint, SessionMethod,
    SessionSnapshot, TransportParameters, SURFACE_HEIGHT, SURFACE_WIDTH, WARMUP_FRAMES,
};
use camera_session::warmup::WarmupCounter;

#[test]
fn a_fresh_counter_has_seen_nothing() {
    let counter = WarmupCounter::new(40);
    assert_eq!(counter.frames_seen(), 0);
    assert_eq!(counter.threshold(), 40);
    assert!(!counter.is_complete());
}

#[test]
fn the_counter_rises_to_its_threshold_and_stays() {
    let mut counter = WarmupCounter::new(3);
    let mut seen = Vec::new();
    let mut complete = Vec::new();
    for _ in 0..6 {
        counter.record_frame();
        seen.push(counter.frames_seen());
        complete.push(counter.is_complete());
    }
    assert_eq!(seen, vec![1, 2, 3, 3, 3, 3]);
    assert_eq!(complete, vec![false, false, true, true, true, true]);
    assert_eq!(counter.threshold(), 3);
}

#[test]
fn a_counter_without_a_warm_up_is_complete_from_the_start() {
    let mut counter = WarmupCounter::new(0);
    assert!(counter.is_complete());
    counter.record_frame();
    assert_eq!(counter.frames_seen(), 0);
    assert!(counter.is_complete());
}

#[test]
fn the_largest_threshold_does_not_overflow() {
    let mut counter = WarmupCounter::new(u32::MAX);
    counter.record_frame();
    assert_eq!(counter.frames_seen(), 1);
    assert!(!counter.is_complete());
}

#[test]
fn a_reset_starts_the_count_over_and_keeps_the_threshold() {
    let mut counter = WarmupCounter::new(2);
    counter.record_frame();
    counter.record_frame();
    assert!(counter.is_complete());
    counter.reset();
    assert_eq!(counter.frames_seen(), 0);
    assert_eq!(counter.threshold(), 2);
    assert!(!counter.is_complete());
    assert_eq!(counter, WarmupCounter::new(2));
}

#[test]
fn the_constants_are_the_documented_ones() {
    assert_eq!(SURFACE_WIDTH, 640);
    assert_eq!(SURFACE_HEIGHT, 352);
    assert_eq!(WARMUP_FRAMES, 40);
}

#[test]
fn quit_and_escape_ask_to_quit_and_nothing_else_does() {
    assert!(InputEvent::Quit.is_quit_request());
    assert!(InputEvent::KeyDown(Some(Key::Escape)).is_quit_request());
    assert!(!InputEvent::KeyDown(Some(Key::Other)).is_quit_request());
    assert!(!InputEvent::KeyDown(None).is_quit_request());
    assert!(!InputEvent::Other.is_quit_request());
}

#[test]
fn a_batch_asks_to_quit_if_one_of_its_events_does() {
    assert!(!batch_requests_quit(&vec![]));
    assert!(!batch_requests_quit(&vec![InputEvent::Other, InputEvent::KeyDown(None)]));
    assert!(batch_requests_quit(&vec![InputEvent::Quit]));
    assert!(batch_requests_quit(&vec![
        InputEvent::Other,
        InputEvent::Other,
        InputEvent::KeyDown(Some(Key::Escape)),
    ]));
    assert!(batch_requests_quit(&vec![InputEvent::Quit, InputEvent::Other]));
    assert!(batch_requests_quit(&vec![
        InputEvent::Other,
        InputEvent::Quit,
        InputEvent::KeyDown(Some(Key::Other)),
    ]));
}

#[test]
fn the_queries_follow_each_other_in_the_fixed_order() {
    assert_eq!(DiscoveryMessage::Capabilities.following(), Some(DiscoveryMessage::DeviceInfo));
    assert_eq!(DiscoveryMessage::DeviceInfo.following(), Some(DiscoveryMessage::Profiles));
    assert_eq!(DiscoveryMessage::Profiles.following(), Some(DiscoveryMessage::GetStreamUri));
    assert_eq!(DiscoveryMessage::GetStreamUri.following(), None);
}

#[test]
fn the_steps_follow_each_other_in_the_fixed_order() {
    assert_eq!(NegotiationStep::Options.following(), Some(NegotiationStep::Describe));
    assert_eq!(NegotiationStep::Describe.following(), Some(NegotiationStep::Setup));
    assert_eq!(NegotiationStep::Setup.following(), Some(NegotiationStep::Play));
    assert_eq!(NegotiationStep::Play.following(), None);
    assert_eq!(NegotiationStep::Options.method(), SessionMethod::Options);
    assert_eq!(NegotiationStep::Describe.method(), SessionMethod::Describe);
    assert_eq!(NegotiationStep::Setup.method(), SessionMethod::Setup);
    assert_eq!(NegotiationStep::Play.method(), SessionMethod::Play);
}

#[test]
fn a_transport_is_granted_by_a_success_with_a_media_address() {
    let remote = RemoteEndpoint {
        address: IpAddress::V6 { bits: 1, flow_info: 0, scope_id: 0 },
        port: 6600,
    };
    let granted = SessionSnapshot { response_ok: true, client_port: 4588, server: Some(remote) };
    assert_eq!(
        TransportParameters::negotiated(&granted),
        Some(TransportParameters { local_port: 4588, remote })
    );
    let refused = SessionSnapshot { response_ok: false, client_port: 4588, server: Some(remote) };
    assert_eq!(TransportParameters::negotiated(&refused), None);
    let no_address = SessionSnapshot { response_ok: true, client_port: 4588, server: None };
    assert_eq!(TransportParameters::negotiated(&no_address), None);
    let neither = SessionSnapshot { response_ok: false, client_port: 0, server: None };
    assert_eq!(TransportParameters::negotiated(&neither), None);
}

#[test]
fn the_code_stands_behind_the_first_label() {
    let report =
        b"OpenH264 encountered an error. Native:4. Decoding State:0. User Message:None";
    assert_eq!(native_code(report), Some(4));
    assert_eq!(DecodeError::from_report(report), DecodeError { code: 4 });
    assert_eq!(native_code(b"Native:16 and later Native:32"), Some(16));
    assert_eq!(native_code(b"xNative:7"), Some(7));
    assert_eq!(native_code(b"Native:12abc"), Some(12));
    assert_eq!(native_code(b"Native:007."), Some(7));
    assert_eq!(native_code(b"Native:0"), Some(0));
}

#[test]
fn a_code_may_be_negative() {
    assert_eq!(native_code(b"Native:-1. Decoding State:0."), Some(-1));
    assert_eq!(native_code(b"Native:-0"), Some(0));
    assert_eq!(DecodeError::from_report(b"Native:-2048."), DecodeError { code: -2048 });
}

#[test]
fn a_report_without_a_code_names_none() {
    assert_eq!(native_code(b""), None);
    assert_eq!(native_code(b"Native"), None);
    assert_eq!(native_code(b"Native:"), None);
    assert_eq!(native_code(b"Native:."), None);
    assert_eq!(native_code(b"Native:-"), None);
    assert_eq!(native_code(b"Native:-x1"), None);
    assert_eq!(native_code(b"Native: 4"), None);
    assert_eq!(native_code(b"native:4"), None);
    assert_eq!(native_code(b"Nativ:4 e:5"), None);
    assert_eq!(native_code(b"the decoder failed"), None);
    // The first label decides, also where a later one has a number.
    assert_eq!(native_code(b"Native:x Native:5"), None);
    assert_eq!(DecodeError::from_report(b"the decoder failed"), DecodeError { code: 0 });
}

#[test]
fn a_code_stays_within_its_range() {
    assert_eq!(native_code(b"Native:9223372036854775807."), Some(i64::MAX));
    assert_eq!(native_code(b"Native:9223372036854775808."), None);
    assert_eq!(native_code(b"Native:-9223372036854775808."), Some(i64::MIN));
    assert_eq!(native_code(b"Native:-9223372036854775809."), None);
    assert_eq!(native_code(b"Native:18446744073709551616"), None);
    assert_eq!(native_code(b"Native:99999999999999999999999999999999999999999"), None);
    assert_eq!(native_code(b"Native:-99999999999999999999999999999999999999999"), None);
    assert_eq!(native_code(b"Native:0000000000000000000000000000000000000042"), Some(42));
    assert_eq!(
        DecodeError::from_report(b"Native:9223372036854775808."),
        DecodeError { code: 0 }
    );
}
