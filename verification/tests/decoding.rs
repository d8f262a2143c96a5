//! What the decoder hands back, sorted for the controller and the display.

use camera_session::decoder::{classify, decode_packet, DecodedFrame};
use camera_session::protocol::{DecodeError, DecodeOutcome};
use rtsp_rtp_rs::rtp::Rtp;

fn picture() -> DecodedFrame {
    DecodedFrame {
        y: vec![16; 8 * 4],
        u: vec![128; 4 * 2],
        v: vec![129; 4 * 2],
        y_stride: 8,
        u_stride: 4,
        v_stride: 4,
    }
}

#[test]
fn a_picture_is_a_frame_and_is_handed_on_as_it_is() {
    let (outcome, handed_on) = classify(Ok(Some(picture())));
    assert_eq!(outcome, DecodeOutcome::Frame);
    assert_eq!(handed_on, Some(picture()));
}

#[test]
fn no_picture_is_an_incomplete_packet() {
    assert_eq!(classify(Ok(None)), (DecodeOutcome::Incomplete, None));
}

#[test]
fn an_error_is_a_failure_with_the_code_of_its_message() {
    let message = b"OpenH264 encountered an error. Native:16. Decoding State:0. User Message:None";
    assert_eq!(
        classify(Err(message.to_vec())),
        (DecodeOutcome::Failed(DecodeError { code: 16 }), None)
    );
    assert_eq!(
        classify(Err(b"Native:-3.".to_vec())),
        (DecodeOutcome::Failed(DecodeError { code: -3 }), None)
    );
}

#[test]
fn an_error_without_a_code_is_a_failure_with_code_zero() {
    assert_eq!(
        classify(Err(b"Unable to decode NAL unit".to_vec())),
        (DecodeOutcome::Failed(DecodeError { code: 0 }), None)
    );
    assert_eq!(classify(Err(Vec::new())), (DecodeOutcome::Failed(DecodeError { code: 0 }), None));
}

#[test]
fn a_receiver_that_has_taken_in_nothing_has_no_picture() {
    let runtime = tokio::runtime::Builder::new_current_thread().enable_all().build().unwrap();
    let remote = "127.0.0.1:6600".parse().unwrap();
    let mut receiver = runtime.block_on(Rtp::new(Some("127.0.0.1"), 0, remote)).unwrap();
    assert_eq!(decode_packet(&mut receiver), (DecodeOutcome::Incomplete, None));
    assert_eq!(decode_packet(&mut receiver), (DecodeOutcome::Incomplete, None));
}
