//! The camera session as a mathematical machine.
//!
//! The machine is in one phase at a time. In each phase one action is
//! outstanding: the driver carries it out and reports an event, and the
//! event moves the machine to its next phase. The phases follow the camera's
//! pipeline: the four discovery queries, the opening of the session, the
//! four steps of the negotiation, the opening of the receiver and of the
//! display, the capture loop (poll, receive, decode, paint), the release of
//! receiver and display, the teardown, the end.
//!
//! Whatever goes wrong leads to the end, by way of the teardown once a
//! session is open, and by way of the release once the receiver is open.
//!
//! | phase             | outstanding action | answered by      | otherwise            |
//! |-------------------|--------------------|------------------|----------------------|
//! | `Discovering`     | `Discover`         | `Discovered`     | end, no teardown     |
//! | `Connecting`      | `OpenSession`      | `Completed`      | end, no teardown     |
//! | `Negotiating`     | `Send`             | `SessionReply`   | teardown             |
//! | `OpeningReceiver` | `OpenReceiver`     | `Completed`      | teardown             |
//! | `OpeningDisplay`  | `OpenDisplay`      | `Completed`      | release              |
//! | `Polling`         | `PollInput`        | `Input`          | release              |
//! | `Receiving`       | `ReceivePacket`    | `Completed`      | release              |
//! | `Decoding`        | `Decode`           | `Decoded`        | top of the loop      |
//! | `Painting`        | `Paint`            | `Completed`      | release              |
//! | `Releasing`       | `ReleaseMedia`     | anything         | (teardown)           |
//! | `TearingDown`     | `Send(Teardown)`   | `SessionReply`   | (end, failure noted) |
//! | `Finished`        | `Finish`           | nothing          | (stays)              |

use vstd::prelude::*;
use crate::exchange::{ActionView, EventView, StreamDescriptorView};
use crate::input::quit_requested;
use crate::protocol::{
    CameraEndpoint, CameraOutcome, DecodeOutcome, DiscoveryMessage, NegotiationStep,
    SessionMethod, SessionReport, SessionState, Stage, SurfaceGeometry, TeardownStatus,
    TransportParameters, WARMUP_FRAMES,
};
use crate::warmup::WarmupView;

verus! {

/// Where a session stands. Each phase but the last waits for the event that
/// answers its action.
pub enum PhaseView {
    /// This discovery query is outstanding.
    Discovering(DiscoveryMessage),
    /// The stream address is known; a session controller is being opened on
    /// it.
    Connecting(StreamDescriptorView),
    /// The session is open and this step of the negotiation is outstanding.
    Negotiating(NegotiationStep),
    /// The negotiation succeeded with this transport; the receiver is being
    /// opened on it.
    OpeningReceiver(TransportParameters),
    /// The receiver is open; the display is being opened.
    OpeningDisplay,
    /// Top of an iteration of the capture loop: the display is being polled
    /// for input.
    Polling,
    /// The next packet is awaited.
    Receiving,
    /// The packet is with the decoder.
    Decoding,
    /// The decoder produced a picture, which is being painted.
    Painting { past_warmup: bool },
    /// The capture loop is over, or the display never opened; receiver and
    /// display are being released. The verdict is already in.
    Releasing(CameraOutcome),
    /// `Teardown` is outstanding. The verdict is already in.
    TearingDown(CameraOutcome),
    /// Nothing is outstanding.
    Finished(SessionReport),
}

impl PhaseView {
    /// Whether a session controller is open in this phase: the negotiation
    /// has begun and the teardown has not been answered.
    pub open spec fn in_session(self) -> bool {
        match self {
            PhaseView::Discovering(_) => false,
            PhaseView::Connecting(_) => false,
            PhaseView::Finished(_) => false,
            _ => true,
        }
    }

    /// The state of the media session in this phase.
    pub open spec fn session_state(self) -> SessionState {
        match self {
            PhaseView::Discovering(_) => SessionState::Idle,
            PhaseView::Connecting(_) => SessionState::Idle,
            PhaseView::Negotiating(step) => SessionState::after(step.method_of()),
            PhaseView::TearingDown(_) => SessionState::TornDown,
            PhaseView::Finished(report) => if report.teardown is NotAttempted {
                SessionState::Idle
            } else {
                SessionState::TornDown
            },
            _ => SessionState::Playing,
        }
    }

    /// Whether this phase belongs to the capture loop.
    pub open spec fn in_capture_loop(self) -> bool {
        match self {
            PhaseView::Polling => true,
            PhaseView::Receiving => true,
            PhaseView::Decoding => true,
            PhaseView::Painting { .. } => true,
            _ => false,
        }
    }

    /// Whether the pipeline is on its way out: the verdict is in, and what
    /// remains is to release, to tear down and to end.
    pub open spec fn winding_down(self) -> bool {
        match self {
            PhaseView::Releasing(_) => true,
            PhaseView::TearingDown(_) => true,
            PhaseView::Finished(_) => true,
            _ => false,
        }
    }
}

/// The state of one camera's session.
pub struct ControllerView {
    /// The camera that this session belongs to.
    pub endpoint: CameraEndpoint,
    /// The warm-up counter of the session.
    pub warmup: WarmupView,
    /// Where the session stands.
    pub phase: PhaseView,
}

/// A report on a pipeline that ended before any session was opened.
pub open spec fn report_without_session(stage: Stage) -> SessionReport {
    SessionReport { outcome: CameraOutcome::Failed(stage), teardown: TeardownStatus::NotAttempted }
}

/// What an event tells of the teardown that it answers: the status of the
/// response where the session controller answered, a failure otherwise.
pub open spec fn teardown_status(event: EventView) -> TeardownStatus {
    match event {
        EventView::SessionReply(snapshot) => TeardownStatus::Answered(snapshot.response_ok),
        _ => TeardownStatus::Failed,
    }
}

impl ControllerView {
    /// The session of a camera on which nothing has been done yet: the
    /// first discovery query is outstanding.
    pub open spec fn initial(endpoint: CameraEndpoint) -> ControllerView {
        ControllerView {
            endpoint,
            warmup: WarmupView::fresh(WARMUP_FRAMES as nat),
            phase: PhaseView::Discovering(DiscoveryMessage::Capabilities),
        }
    }

    /// Whether nothing is left to do.
    pub open spec fn finished(self) -> bool {
        self.phase is Finished
    }

    /// The action that is outstanding.
    pub open spec fn pending(self) -> ActionView {
        match self.phase {
            PhaseView::Discovering(message) => ActionView::Discover {
                message,
                profile_index: self.endpoint.profile_index,
            },
            PhaseView::Connecting(stream) => ActionView::OpenSession(stream),
            PhaseView::Negotiating(step) => ActionView::Send(step.method_of()),
            PhaseView::OpeningReceiver(transport) => ActionView::OpenReceiver(transport),
            PhaseView::OpeningDisplay => ActionView::OpenDisplay(
                SurfaceGeometry::standard_geometry(),
            ),
            PhaseView::Polling => ActionView::PollInput,
            PhaseView::Receiving => ActionView::ReceivePacket,
            PhaseView::Decoding => ActionView::Decode,
            PhaseView::Painting { past_warmup } => ActionView::Paint { past_warmup },
            PhaseView::Releasing(_) => ActionView::ReleaseMedia,
            PhaseView::TearingDown(_) => ActionView::Send(SessionMethod::Teardown),
            PhaseView::Finished(report) => ActionView::Finish(report),
        }
    }

    /// The phase that an event leads to.
    pub open spec fn next_phase(self, event: EventView) -> PhaseView {
        match self.phase {
            PhaseView::Discovering(message) => match event {
                EventView::Discovered(text) => match message.successor() {
                    Some(following) => PhaseView::Discovering(following),
                    None => PhaseView::Connecting(
                        StreamDescriptorView {
                            address: text,
                            profile_index: self.endpoint.profile_index,
                        },
                    ),
                },
                _ => PhaseView::Finished(report_without_session(Stage::Discovery(message))),
            },
            PhaseView::Connecting(_) => match event {
                EventView::Completed => PhaseView::Negotiating(NegotiationStep::Options),
                _ => PhaseView::Finished(report_without_session(Stage::SessionOpen)),
            },
            PhaseView::Negotiating(step) => match event {
                EventView::SessionReply(snapshot) => match step.successor() {
                    Some(following) => PhaseView::Negotiating(following),
                    None => match TransportParameters::granted_by(snapshot) {
                        Some(transport) => PhaseView::OpeningReceiver(transport),
                        None => PhaseView::TearingDown(
                            CameraOutcome::Failed(Stage::NegotiationStatus),
                        ),
                    },
                },
                _ => PhaseView::TearingDown(CameraOutcome::Failed(Stage::Negotiation(step))),
            },
            PhaseView::OpeningReceiver(_) => match event {
                EventView::Completed => PhaseView::OpeningDisplay,
                _ => PhaseView::TearingDown(CameraOutcome::Failed(Stage::ReceiverOpen)),
            },
            PhaseView::OpeningDisplay => match event {
                EventView::Completed => PhaseView::Polling,
                _ => PhaseView::Releasing(CameraOutcome::Failed(Stage::DisplayOpen)),
            },
            PhaseView::Polling => match event {
                EventView::Input(batch) => if quit_requested(batch) {
                    PhaseView::Releasing(CameraOutcome::Streamed)
                } else {
                    PhaseView::Receiving
                },
                _ => PhaseView::Releasing(CameraOutcome::Failed(Stage::Display)),
            },
            PhaseView::Receiving => match event {
                EventView::Completed => PhaseView::Decoding,
                _ => PhaseView::Releasing(CameraOutcome::Failed(Stage::Receive)),
            },
            PhaseView::Decoding => match event {
                EventView::Decoded(DecodeOutcome::Frame) => PhaseView::Painting {
                    past_warmup: self.warmup.complete(),
                },
                _ => PhaseView::Polling,
            },
            PhaseView::Painting { .. } => match event {
                EventView::Completed => PhaseView::Polling,
                _ => PhaseView::Releasing(CameraOutcome::Failed(Stage::Display)),
            },
            PhaseView::Releasing(outcome) => PhaseView::TearingDown(outcome),
            PhaseView::TearingDown(outcome) => PhaseView::Finished(
                SessionReport { outcome, teardown: teardown_status(event) },
            ),
            PhaseView::Finished(report) => PhaseView::Finished(report),
        }
    }

    /// Whether an event brings a new frame into the session: the decoder
    /// was asked, and it produced a picture.
    pub open spec fn counts_frame(self, event: EventView) -> bool {
        self.phase is Decoding && event == EventView::Decoded(DecodeOutcome::Frame)
    }

    /// Whether an event starts the session: the session controller was
    /// being opened, and it is open.
    pub open spec fn starts_session(self, event: EventView) -> bool {
        self.phase is Connecting && event is Completed
    }

    /// The warm-up counter after an event: it starts over when the session
    /// starts, counts every frame that the decoder produces, and is left
    /// alone by everything else.
    pub open spec fn next_warmup(self, event: EventView) -> WarmupView {
        if self.starts_session(event) {
            WarmupView::fresh(self.warmup.threshold)
        } else if self.counts_frame(event) {
            self.warmup.recorded()
        } else {
            self.warmup
        }
    }

    /// The session after an event.
    pub open spec fn next(self, event: EventView) -> ControllerView {
        ControllerView {
            endpoint: self.endpoint,
            warmup: self.next_warmup(event),
            phase: self.next_phase(event),
        }
    }
}

} // verus!
