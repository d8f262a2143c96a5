//! The lifecycle of a camera session, as a machine that is told what
//! happened and answers what to do next.
//!
//! A camera is driven from the discovery of its stream address through the
//! negotiation of a media session and the capture loop to the teardown.
//! Everything that touches the network or the display is done by a driver
//! outside this crate; every decision is taken here. The driver asks for
//! the outstanding [`exchange::Action`], carries it out, and reports an
//! [`exchange::Event`]. Packets and pictures do not pass through the
//! controller: the receiver holds the packet, and the driver holds the one
//! picture of an iteration from its decoding to its painting.
//!
//! - [`protocol`], [`input`], [`exchange`]: the vocabulary.
//! - [`machine`]: the session as a mathematical machine; [`trace`]: its
//!   runs; [`laws`]: what holds of every run.
//! - [`controller`]: the executable controller of one camera.
//! - [`fleet`]: one controller after the other, a camera at a time;
//!   [`fleet_laws`]: what holds of every fleet.
//! - [`warmup`]: the warm-up counter of a session.
//! - [`decoder`]: what the decoder makes of a packet, in plain values;
//!   [`diagnostics`]: the code in the decoder's report of an error.

pub mod protocol;
pub mod input;
pub mod warmup;
pub mod exchange;
pub mod diagnostics;
pub mod decoder;
pub mod machine;
pub mod trace;
pub mod laws;
pub mod controller;
pub mod fleet;
pub mod fleet_laws;
