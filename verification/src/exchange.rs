//! What passes between a camera session and its driver: the action that the
//! session asks for, and the event that reports how it went.

use vstd::prelude::*;
use crate::input::InputEvent;
use crate::protocol::{
    DecodeOutcome, DiscoveryMessage, SessionMethod, SessionReport, SessionSnapshot,
    SurfaceGeometry, TransportParameters,
};

verus! {

/// A stream that discovery resolved, as mathematics sees it.
pub struct StreamDescriptorView {
    pub address: Seq<char>,
    pub profile_index: usize,
}

/// A playable stream: the address that discovery resolved, and the profile
/// it belongs to. It is made once for a camera and handed to the session
/// controller once.
#[derive(Clone, Debug, PartialEq, Eq)]
pub struct StreamDescriptor {
    pub address: String,
    pub profile_index: usize,
}

impl View for StreamDescriptor {
    type V = StreamDescriptorView;

    open spec fn view(&self) -> StreamDescriptorView {
        StreamDescriptorView { address: self.address@, profile_index: self.profile_index }
    }
}

impl StreamDescriptor {
    /// A second descriptor of the same stream.
    pub fn duplicate(&self) -> (copy: StreamDescriptor)
        ensures
            copy@ == self@,
    {
        StreamDescriptor { address: self.address.clone(), profile_index: self.profile_index }
    }
}

/// An event, as mathematics sees it.
pub enum EventView {
    Completed,
    Failed,
    Discovered(Seq<char>),
    SessionReply(SessionSnapshot),
    Input(Seq<InputEvent>),
    Decoded(DecodeOutcome),
}

/// How the action that a session asked for went.
///
/// Each action has one kind of event that answers it. Any other event
/// counts as the failure of the action, `Failed` first of all.
#[derive(Clone, Debug, PartialEq, Eq)]
pub enum Event {
    /// The action was carried out and there is nothing to tell of it.
    Completed,
    /// The action failed.
    Failed,
    /// The discovery client answered a query with this text.
    Discovered(String),
    /// The session controller answered a method; this is what it shows of
    /// itself afterwards.
    SessionReply(SessionSnapshot),
    /// The display was polled; these are the input events that were queued.
    Input(Vec<InputEvent>),
    /// The decoder was given the last packet; this is what it made of it.
    Decoded(DecodeOutcome),
}

impl View for Event {
    type V = EventView;

    open spec fn view(&self) -> EventView {
        match *self {
            Event::Completed => EventView::Completed,
            Event::Failed => EventView::Failed,
            Event::Discovered(text) => EventView::Discovered(text@),
            Event::SessionReply(snapshot) => EventView::SessionReply(snapshot),
            Event::Input(batch) => EventView::Input(batch@),
            Event::Decoded(outcome) => EventView::Decoded(outcome),
        }
    }
}

/// The views of a sequence of events, one for one.
pub open spec fn event_views(events: Seq<Event>) -> Seq<EventView> {
    Seq::new(events.len(), |i: int| events[i]@)
}

/// What an action is, leaving aside what it carries.
#[derive(Clone, Copy, Debug, PartialEq, Eq, Structural)]
pub enum ActionKind {
    Discover(DiscoveryMessage),
    OpenSession,
    Send(SessionMethod),
    OpenReceiver,
    OpenDisplay,
    PollInput,
    ReceivePacket,
    Decode,
    Paint,
    ReleaseMedia,
    Finish,
}

/// An action, as mathematics sees it.
pub enum ActionView {
    Discover { message: DiscoveryMessage, profile_index: usize },
    OpenSession(StreamDescriptorView),
    Send(SessionMethod),
    OpenReceiver(TransportParameters),
    OpenDisplay(SurfaceGeometry),
    PollInput,
    ReceivePacket,
    Decode,
    Paint { past_warmup: bool },
    ReleaseMedia,
    Finish(SessionReport),
}

impl ActionView {
    /// What this action is, leaving aside what it carries.
    pub open spec fn kind(self) -> ActionKind {
        match self {
            ActionView::Discover { message, .. } => ActionKind::Discover(message),
            ActionView::OpenSession(_) => ActionKind::OpenSession,
            ActionView::Send(method) => ActionKind::Send(method),
            ActionView::OpenReceiver(_) => ActionKind::OpenReceiver,
            ActionView::OpenDisplay(_) => ActionKind::OpenDisplay,
            ActionView::PollInput => ActionKind::PollInput,
            ActionView::ReceivePacket => ActionKind::ReceivePacket,
            ActionView::Decode => ActionKind::Decode,
            ActionView::Paint { .. } => ActionKind::Paint,
            ActionView::ReleaseMedia => ActionKind::ReleaseMedia,
            ActionView::Finish(_) => ActionKind::Finish,
        }
    }
}

/// What a session asks its driver to do next.
#[derive(Clone, Debug, PartialEq, Eq)]
pub enum Action {
    /// Put this query to the discovery client, for this profile.
    Discover { message: DiscoveryMessage, profile_index: usize },
    /// Open a session controller on this stream.
    OpenSession(StreamDescriptor),
    /// Send this method through the session controller.
    Send(SessionMethod),
    /// Open the transport receiver and its decoder on this transport.
    OpenReceiver(TransportParameters),
    /// Open the display: a surface and a texture of this size.
    OpenDisplay(SurfaceGeometry),
    /// Hand over the input events that the display has queued, without
    /// waiting for more.
    PollInput,
    /// Wait for the next packet.
    ReceivePacket,
    /// Give the packet to the decoder.
    Decode,
    /// Paint the picture that the decoder just produced: clear the surface,
    /// copy the picture's planes to the texture, present. `past_warmup`
    /// tells whether the picture came after the session's warm-up; it is
    /// painted either way.
    Paint { past_warmup: bool },
    /// Close the receiver and the display, whichever are open.
    ReleaseMedia,
    /// Nothing is left to do for this camera; this is how it ended.
    Finish(SessionReport),
}

impl View for Action {
    type V = ActionView;

    open spec fn view(&self) -> ActionView {
        match *self {
            Action::Discover { message, profile_index } => ActionView::Discover {
                message,
                profile_index,
            },
            Action::OpenSession(stream) => ActionView::OpenSession(stream@),
            Action::Send(method) => ActionView::Send(method),
            Action::OpenReceiver(transport) => ActionView::OpenReceiver(transport),
            Action::OpenDisplay(geometry) => ActionView::OpenDisplay(geometry),
            Action::PollInput => ActionView::PollInput,
            Action::ReceivePacket => ActionView::ReceivePacket,
            Action::Decode => ActionView::Decode,
            Action::Paint { past_warmup } => ActionView::Paint { past_warmup },
            Action::ReleaseMedia => ActionView::ReleaseMedia,
            Action::Finish(report) => ActionView::Finish(report),
        }
    }
}

impl Action {
    /// What this action is, leaving aside what it carries.
    pub fn kind(&self) -> (k: ActionKind)
        ensures
            k == self@.kind(),
    {
        match self {
            Action::Discover { message, .. } => ActionKind::Discover(*message),
            Action::OpenSession(_) => ActionKind::OpenSession,
            Action::Send(method) => ActionKind::Send(*method),
            Action::OpenReceiver(_) => ActionKind::OpenReceiver,
            Action::OpenDisplay(_) => ActionKind::OpenDisplay,
            Action::PollInput => ActionKind::PollInput,
            Action::ReceivePacket => ActionKind::ReceivePacket,
            Action::Decode => ActionKind::Decode,
            Action::Paint { .. } => ActionKind::Paint,
            Action::ReleaseMedia => ActionKind::ReleaseMedia,
            Action::Finish(_) => ActionKind::Finish,
        }
    }
}

/// The views of a sequence of actions, one for one.
pub open spec fn action_views(actions: Seq<Action>) -> Seq<ActionView> {
    Seq::new(actions.len(), |i: int| actions[i]@)
}

} // verus!
