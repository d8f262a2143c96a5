//! The decoder's side of an iteration: one packet in, one picture out, or
//! none, or a failure.
//!
//! The transport receiver holds the decoder. What it hands back for a
//! packet is brought into plain values here: the picture as three planes of
//! bytes with their strides, a failure as the code that its report names.
//! The controller is told what came of the packet; the picture itself goes
//! to the driver, which keeps it for the one paint that follows and no
//! longer.

use vstd::prelude::*;
use crate::protocol::{DecodeError, DecodeOutcome};

verus! {

/// The transport receiver of `rtsp_rtp_rs`, with the decoder in it. Nothing
/// of its inside is known here.
#[verifier::external_type_specification]
#[verifier::external_body]
pub struct ExReceiver(rtsp_rtp_rs::rtp::Rtp);

/// One decoded picture, as mathematics sees it.
pub struct DecodedFrameView {
    pub y: Seq<u8>,
    pub u: Seq<u8>,
    pub v: Seq<u8>,
    pub y_stride: usize,
    pub u_stride: usize,
    pub v_stride: usize,
}

/// One decoded picture: a planar image of three component planes, each with
/// the stride of its rows, padding included.
///
/// A picture is made for one iteration of the capture loop and handed to
/// the display for one paint.
#[derive(Clone, Debug, PartialEq, Eq)]
pub struct DecodedFrame {
    pub y: Vec<u8>,
    pub u: Vec<u8>,
    pub v: Vec<u8>,
    pub y_stride: usize,
    pub u_stride: usize,
    pub v_stride: usize,
}

impl View for DecodedFrame {
    type V = DecodedFrameView;

    open spec fn view(&self) -> DecodedFrameView {
        DecodedFrameView {
            y: self.y@,
            u: self.u@,
            v: self.v@,
            y_stride: self.y_stride,
            u_stride: self.u_stride,
            v_stride: self.v_stride,
        }
    }
}

/// Asks the receiver's decoder for what it makes of the packet that was
/// received last.
///
/// Calls `rtsp_rtp_rs::rtp::Rtp::try_decode`, and brings what comes back
/// into plain values: a picture is copied plane by plane as
/// `y_with_stride`, `u_with_stride`, `v_with_stride` and `strides_yuv` of
/// `openh264::decoder::DecodedYUV` give it, and an error is turned into the
/// bytes of its message. Nothing is claimed of the result: it depends on
/// the packets that the receiver has taken in.
#[verifier::external_body]
fn try_decode(receiver: &mut rtsp_rtp_rs::rtp::Rtp) -> (raw: Result<
    Option<DecodedFrame>,
    Vec<u8>,
>) {
    match receiver.try_decode() {
        Ok(Some(yuv)) => {
            let (y_stride, u_stride, v_stride) = yuv.strides_yuv();
            let y = yuv.y_with_stride().to_vec();
            let u = yuv.u_with_stride().to_vec();
            let v = yuv.v_with_stride().to_vec();
            Ok(Some(DecodedFrame { y, u, v, y_stride, u_stride, v_stride }))
        },
        Ok(None) => Ok(None),
        Err(error) => Err(error.to_string().into_bytes()),
    }
}

/// What the controller is told of a packet, given what the decoder handed
/// back: a frame for a picture, an incomplete packet for none, and for an
/// error the code that its message names.
pub open spec fn outcome_of(raw: Result<Option<DecodedFrame>, Vec<u8>>) -> DecodeOutcome {
    match raw {
        Ok(Some(_)) => DecodeOutcome::Frame,
        Ok(None) => DecodeOutcome::Incomplete,
        Err(report) => DecodeOutcome::Failed(DecodeError::told_by(report@)),
    }
}

/// The picture that the decoder handed back, if it handed one back.
pub open spec fn picture_of(raw: Result<Option<DecodedFrame>, Vec<u8>>) -> Option<DecodedFrame> {
    match raw {
        Ok(picture) => picture,
        Err(_) => None,
    }
}

/// Sorts what the decoder handed back into what the controller is told and
/// what the display is given.
pub fn classify(raw: Result<Option<DecodedFrame>, Vec<u8>>) -> (sorted: (
    DecodeOutcome,
    Option<DecodedFrame>,
))
    ensures
        sorted.0 == outcome_of(raw),
        sorted.1 == picture_of(raw),
        sorted.1 is Some <==> sorted.0 is Frame,
{
    match raw {
        Ok(Some(picture)) => (DecodeOutcome::Frame, Some(picture)),
        Ok(None) => (DecodeOutcome::Incomplete, None),
        Err(report) => (DecodeOutcome::Failed(DecodeError::from_report(report.as_slice())), None),
    }
}

/// Gives the packet that was received last to the decoder, and tells what
/// came of it: the outcome for the controller, and the picture, if there is
/// one, for the display. Whatever the decoder does, there is a picture
/// exactly if the outcome is a frame.
pub fn decode_packet(receiver: &mut rtsp_rtp_rs::rtp::Rtp) -> (decoded: (
    DecodeOutcome,
    Option<DecodedFrame>,
))
    ensures
        decoded.1 is Some <==> decoded.0 is Frame,
{
    classify(try_decode(receiver))
}

} // verus!
