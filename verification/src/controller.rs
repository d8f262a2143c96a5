//! The controller of one camera's session.
//!
//! A driver asks the controller for the outstanding action, carries it out,
//! and tells the controller how it went:
//!
//! ```text
//! let mut controller = CameraSessionController::new(endpoint);
//! let mut action = controller.pending();
//! loop {
//!     let event = /* carry out `action` */;
//!     action = controller.step(event);
//! }
//! ```
//!
//! The loop ends once the action is `Finish`.

use vstd::prelude::*;
use crate::exchange::{action_views, event_views, Action, Event, EventView, StreamDescriptor};
use crate::input::batch_requests_quit;
use crate::machine::{teardown_status, ControllerView, PhaseView};
use crate::protocol::{
    CameraEndpoint, CameraOutcome, DecodeOutcome, DiscoveryMessage, NegotiationStep,
    SessionMethod, SessionReport, SessionState, Stage, SurfaceGeometry, TeardownStatus,
    TransportParameters, WARMUP_FRAMES,
};
use crate::trace::{history, run};
use crate::warmup::WarmupCounter;

verus! {

/// Where the session stands, with what the outstanding action carries.
#[derive(Clone, Debug)]
enum Phase {
    Discovering(DiscoveryMessage),
    Connecting(StreamDescriptor),
    Negotiating(NegotiationStep),
    OpeningReceiver(TransportParameters),
    OpeningDisplay,
    Polling,
    Receiving,
    Decoding,
    Painting { past_warmup: bool },
    Releasing(CameraOutcome),
    TearingDown(CameraOutcome),
    Finished(SessionReport),
}

impl View for Phase {
    type V = PhaseView;

    closed spec fn view(&self) -> PhaseView {
        match *self {
            Phase::Discovering(message) => PhaseView::Discovering(message),
            Phase::Connecting(stream) => PhaseView::Connecting(stream@),
            Phase::Negotiating(step) => PhaseView::Negotiating(step),
            Phase::OpeningReceiver(transport) => PhaseView::OpeningReceiver(transport),
            Phase::OpeningDisplay => PhaseView::OpeningDisplay,
            Phase::Polling => PhaseView::Polling,
            Phase::Receiving => PhaseView::Receiving,
            Phase::Decoding => PhaseView::Decoding,
            Phase::Painting { past_warmup } => PhaseView::Painting { past_warmup },
            Phase::Releasing(outcome) => PhaseView::Releasing(outcome),
            Phase::TearingDown(outcome) => PhaseView::TearingDown(outcome),
            Phase::Finished(report) => PhaseView::Finished(report),
        }
    }
}

/// Drives one camera from the discovery of its stream address to the end of
/// its session.
#[derive(Clone, Debug)]
pub struct CameraSessionController {
    endpoint: CameraEndpoint,
    warmup: WarmupCounter,
    phase: Phase,
}

impl View for CameraSessionController {
    type V = ControllerView;

    closed spec fn view(&self) -> ControllerView {
        ControllerView { endpoint: self.endpoint, warmup: self.warmup@, phase: self.phase@ }
    }
}

/// What the session controller's answer says of the teardown.
fn status_of_teardown(event: &Event) -> (status: TeardownStatus)
    ensures
        status == teardown_status(event@),
{
    match event {
        Event::SessionReply(snapshot) => TeardownStatus::Answered(snapshot.response_ok),
        _ => TeardownStatus::Failed,
    }
}

impl CameraSessionController {
    /// A controller for a camera on which nothing has been done yet.
    pub fn new(endpoint: CameraEndpoint) -> (controller: CameraSessionController)
        ensures
            controller@ == ControllerView::initial(endpoint),
    {
        CameraSessionController {
            endpoint,
            warmup: WarmupCounter::new(WARMUP_FRAMES),
            phase: Phase::Discovering(DiscoveryMessage::Capabilities),
        }
    }

    /// The camera that this controller drives.
    pub fn endpoint(&self) -> (endpoint: CameraEndpoint)
        ensures
            endpoint == self@.endpoint,
    {
        self.endpoint
    }

    /// Whether nothing is left to do.
    pub fn is_finished(&self) -> (b: bool)
        ensures
            b == self@.finished(),
    {
        match self.phase {
            Phase::Finished(_) => true,
            _ => false,
        }
    }

    /// How the camera ended, once it has.
    pub fn report(&self) -> (r: Option<SessionReport>)
        ensures
            r == (match self@.phase {
                PhaseView::Finished(report) => Some(report),
                _ => None,
            }),
    {
        match self.phase {
            Phase::Finished(report) => Some(report),
            _ => None,
        }
    }

    /// Whether a session controller is open: the negotiation has begun and
    /// the teardown has not been answered.
    pub fn session_is_open(&self) -> (b: bool)
        ensures
            b == self@.phase.in_session(),
    {
        match self.phase {
            Phase::Discovering(_) => false,
            Phase::Connecting(_) => false,
            Phase::Finished(_) => false,
            _ => true,
        }
    }

    /// The state of the media session: the last method that was sent
    /// through the session controller.
    pub fn session_state(&self) -> (state: SessionState)
        ensures
            state == self@.phase.session_state(),
    {
        match &self.phase {
            Phase::Discovering(_) => SessionState::Idle,
            Phase::Connecting(_) => SessionState::Idle,
            Phase::Negotiating(step) => match step {
                NegotiationStep::Options => SessionState::OptionsSent,
                NegotiationStep::Describe => SessionState::DescribeSent,
                NegotiationStep::Setup => SessionState::SetupSent,
                NegotiationStep::Play => SessionState::Playing,
            },
            Phase::TearingDown(_) => SessionState::TornDown,
            Phase::Finished(report) => match report.teardown {
                TeardownStatus::NotAttempted => SessionState::Idle,
                _ => SessionState::TornDown,
            },
            _ => SessionState::Playing,
        }
    }

    /// Number of frames that the session has counted towards its warm-up.
    pub fn frames_counted(&self) -> (n: u32)
        ensures
            n == self@.warmup.seen,
    {
        self.warmup.frames_seen()
    }

    /// Whether the session's warm-up is over, so that the next frame comes
    /// after the synchronization point.
    pub fn past_warmup(&self) -> (b: bool)
        ensures
            b == self@.warmup.complete(),
    {
        self.warmup.is_complete()
    }

    /// The action that is outstanding. Asking changes nothing.
    pub fn pending(&self) -> (action: Action)
        ensures
            action@ == self@.pending(),
    {
        match &self.phase {
            Phase::Discovering(message) => Action::Discover {
                message: *message,
                profile_index: self.endpoint.profile_index,
            },
            Phase::Connecting(stream) => Action::OpenSession(stream.duplicate()),
            Phase::Negotiating(step) => Action::Send(step.method()),
            Phase::OpeningReceiver(transport) => Action::OpenReceiver(*transport),
            Phase::OpeningDisplay => Action::OpenDisplay(SurfaceGeometry::standard()),
            Phase::Polling => Action::PollInput,
            Phase::Receiving => Action::ReceivePacket,
            Phase::Decoding => Action::Decode,
            Phase::Painting { past_warmup } => Action::Paint { past_warmup: *past_warmup },
            Phase::Releasing(_) => Action::ReleaseMedia,
            Phase::TearingDown(_) => Action::Send(SessionMethod::Teardown),
            Phase::Finished(report) => Action::Finish(*report),
        }
    }

    /// Takes in how the outstanding action went, and answers with the
    /// action that is outstanding now.
    ///
    /// Every event is accepted in every phase. An event that is not the
    /// kind that answers the outstanding action counts as that action's
    /// failure; once the controller has finished, no event changes it.
    pub fn step(&mut self, event: Event) -> (action: Action)
        ensures
            final(self)@ == old(self)@.next(event@),
            action@ == final(self)@.pending(),
    {
        let phase = match &self.phase {
            Phase::Discovering(message) => match event {
                Event::Discovered(text) => match message.following() {
                    Some(following) => Phase::Discovering(following),
                    None => Phase::Connecting(
                        StreamDescriptor {
                            address: text,
                            profile_index: self.endpoint.profile_index,
                        },
                    ),
                },
                _ => Phase::Finished(
                    SessionReport {
                        outcome: CameraOutcome::Failed(Stage::Discovery(*message)),
                        teardown: TeardownStatus::NotAttempted,
                    },
                ),
            },
            Phase::Connecting(_) => match event {
                Event::Completed => {
                    self.warmup.reset();
                    Phase::Negotiating(NegotiationStep::Options)
                },
                _ => Phase::Finished(
                    SessionReport {
                        outcome: CameraOutcome::Failed(Stage::SessionOpen),
                        teardown: TeardownStatus::NotAttempted,
                    },
                ),
            },
            Phase::Negotiating(step) => match event {
                Event::SessionReply(snapshot) => match step.following() {
                    Some(following) => Phase::Negotiating(following),
                    None => match TransportParameters::negotiated(&snapshot) {
                        Some(transport) => Phase::OpeningReceiver(transport),
                        None => Phase::TearingDown(
                            CameraOutcome::Failed(Stage::NegotiationStatus),
                        ),
                    },
                },
                _ => Phase::TearingDown(CameraOutcome::Failed(Stage::Negotiation(*step))),
            },
            Phase::OpeningReceiver(_) => match event {
                Event::Completed => Phase::OpeningDisplay,
                _ => Phase::TearingDown(CameraOutcome::Failed(Stage::ReceiverOpen)),
            },
            Phase::OpeningDisplay => match event {
                Event::Completed => Phase::Polling,
                _ => Phase::Releasing(CameraOutcome::Failed(Stage::DisplayOpen)),
            },
            Phase::Polling => match event {
                Event::Input(batch) => if batch_requests_quit(&batch) {
                    Phase::Releasing(CameraOutcome::Streamed)
                } else {
                    Phase::Receiving
                },
                _ => Phase::Releasing(CameraOutcome::Failed(Stage::Display)),
            },
            Phase::Receiving => match event {
                Event::Completed => Phase::Decoding,
                _ => Phase::Releasing(CameraOutcome::Failed(Stage::Receive)),
            },
            Phase::Decoding => match event {
                Event::Decoded(DecodeOutcome::Frame) => {
                    let past_warmup = self.warmup.is_complete();
                    self.warmup.record_frame();
                    Phase::Painting { past_warmup }
                },
                _ => Phase::Polling,
            },
            Phase::Painting { .. } => match event {
                Event::Completed => Phase::Polling,
                _ => Phase::Releasing(CameraOutcome::Failed(Stage::Display)),
            },
            Phase::Releasing(outcome) => Phase::TearingDown(*outcome),
            Phase::TearingDown(outcome) => Phase::Finished(
                SessionReport { outcome: *outcome, teardown: status_of_teardown(&event) },
            ),
            Phase::Finished(report) => Phase::Finished(*report),
        };
        self.phase = phase;
        self.pending()
    }

    /// Takes in a whole script of events, one after the other, and hands
    /// back every action that was outstanding on the way: the one
    /// outstanding before the first event, and the one after each event.
    pub fn replay(&mut self, script: Vec<Event>) -> (actions: Vec<Action>)
        ensures
            final(self)@ == run(old(self)@, event_views(script@)),
            action_views(actions@) == history(old(self)@, event_views(script@)),
    {
        let ghost start = self@;
        let ghost events = event_views(script@);
        let mut actions: Vec<Action> = Vec::new();
        actions.push(self.pending());
        assert(action_views(actions@) =~= seq![start.pending()]);
        assert(events.take(0) =~= Seq::<EventView>::empty());
        for event in it: script.into_iter()
            invariant
                it.seq() == script@,
                events == event_views(script@),
                self@ == run(start, events.take(it.index() as int)),
                action_views(actions@) == history(start, events.take(it.index() as int)),
        {
            let ghost done = it.index() as int;
            assert(events.take(done + 1).drop_last() =~= events.take(done));
            assert(events.take(done + 1).last() == event@);
            let ghost before = action_views(actions@);
            let action = self.step(event);
            actions.push(action);
            assert(action_views(actions@) =~= before.push(action@));
        }
        assert(events.take(events.len() as int) =~= events);
        actions
    }
}

} // verus!
