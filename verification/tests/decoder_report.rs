//! The reports of the decoder itself, read for their code.

use camera_session::diagnostics::native_code;
use camera_session::protocol::DecodeError;
use openh264::decoder::Decoder;
use openh264::Error;

#[test]
fn a_report_of_the_decoder_names_its_code_behind_the_label() {
    let report = Error::msg("lost the stream").to_string();
    assert!(report.contains("Native:0."));
    assert_eq!(native_code(report.as_bytes()), Some(0));
    assert_eq!(DecodeError::from_report(report.as_bytes()), DecodeError { code: 0 });
}

#[test]
fn a_user_message_with_a_label_of_its_own_does_not_mislead() {
    let report = Error::msg("Native:77").to_string();
    assert_eq!(native_code(report.as_bytes()), Some(0));
}

#[test]
fn a_corrupted_stream_is_reported_with_a_code() {
    let mut decoder = Decoder::new().unwrap();
    // A coded slice with no parameter sets before it, and nothing sensible
    // in it.
    let packet = [0u8, 0, 0, 1, 0x65, 0xff, 0xff, 0xff, 0xff, 0xff, 0xff, 0xff, 0xff];
    let error = match decoder.decode(&packet) {
        Err(error) => error,
        Ok(_) => panic!("the decoder took a corrupted packet"),
    };
    let report = error.to_string();
    let code = native_code(report.as_bytes());
    assert!(code.is_some());
    assert_ne!(code, Some(0));
    assert_eq!(
        report,
        format!(
            "OpenH264 encountered an error. Native:{}. Decoding State:0. User Message:None",
            code.unwrap()
        )
    );
}
