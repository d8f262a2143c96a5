//! The vocabulary shared by a camera session and whoever drives it: the
//! requests that can be made of the discovery client and of the session
//! controller, the values that come back, and the verdict on a finished
//! camera.

use vstd::prelude::*;

verus! {

/// Width, in pixels, of the surface a camera's pictures are painted on.
pub const SURFACE_WIDTH: u32 = 640;

/// Height, in pixels, of the surface a camera's pictures are painted on.
pub const SURFACE_HEIGHT: u32 = 352;

/// Number of leading frames of a session that count as warm-up: capture
/// starts in the middle of a stream, and until the first synchronization
/// frame has gone by the decoder's pictures are not reliable.
pub const WARMUP_FRAMES: u32 = 40;

/// A configured camera, as the discovery client knows it.
#[derive(Clone, Copy, Debug, PartialEq, Eq, Structural)]
pub struct CameraEndpoint {
    /// The index under which the discovery client files this camera's
    /// stream.
    pub profile_index: usize,
}

/// The queries put to the discovery client.
#[derive(Clone, Copy, Debug, PartialEq, Eq, Structural)]
pub enum DiscoveryMessage {
    Capabilities,
    DeviceInfo,
    Profiles,
    GetStreamUri,
}

impl DiscoveryMessage {
    /// The query that is put after this one has been answered; none after
    /// the stream address has been asked for.
    pub open spec fn successor(self) -> Option<DiscoveryMessage> {
        match self {
            DiscoveryMessage::Capabilities => Some(DiscoveryMessage::DeviceInfo),
            DiscoveryMessage::DeviceInfo => Some(DiscoveryMessage::Profiles),
            DiscoveryMessage::Profiles => Some(DiscoveryMessage::GetStreamUri),
            DiscoveryMessage::GetStreamUri => None,
        }
    }

    /// The place of this query in the fixed order of queries, from 0.
    pub open spec fn rank(self) -> nat {
        match self {
            DiscoveryMessage::Capabilities => 0,
            DiscoveryMessage::DeviceInfo => 1,
            DiscoveryMessage::Profiles => 2,
            DiscoveryMessage::GetStreamUri => 3,
        }
    }

    /// The query to put after this one.
    pub fn following(self) -> (r: Option<DiscoveryMessage>)
        ensures
            r == self.successor(),
    {
        match self {
            DiscoveryMessage::Capabilities => Some(DiscoveryMessage::DeviceInfo),
            DiscoveryMessage::DeviceInfo => Some(DiscoveryMessage::Profiles),
            DiscoveryMessage::Profiles => Some(DiscoveryMessage::GetStreamUri),
            DiscoveryMessage::GetStreamUri => None,
        }
    }
}

/// The methods of the session-control protocol.
#[derive(Clone, Copy, Debug, PartialEq, Eq, Structural)]
pub enum SessionMethod {
    Options,
    Describe,
    Setup,
    Play,
    Teardown,
}

/// How far a session has been taken: the states of a media session, each
/// named after the last method that was sent through the session
/// controller. A session goes through them in this order, and may go from
/// any state but the first straight to the last.
#[derive(Clone, Copy, Debug, PartialEq, Eq, Structural)]
pub enum SessionState {
    /// Nothing was sent: no session is open.
    Idle,
    OptionsSent,
    DescribeSent,
    SetupSent,
    /// `Play` was sent; if it is granted, media flows.
    Playing,
    /// `Teardown` was sent.
    TornDown,
}

impl SessionState {
    /// The place of this state in the order of states, from 0.
    pub open spec fn rank(self) -> nat {
        match self {
            SessionState::Idle => 0,
            SessionState::OptionsSent => 1,
            SessionState::DescribeSent => 2,
            SessionState::SetupSent => 3,
            SessionState::Playing => 4,
            SessionState::TornDown => 5,
        }
    }

    /// The state that a session is in when this method was the last one
    /// sent.
    pub open spec fn after(method: SessionMethod) -> SessionState {
        match method {
            SessionMethod::Options => SessionState::OptionsSent,
            SessionMethod::Describe => SessionState::DescribeSent,
            SessionMethod::Setup => SessionState::SetupSent,
            SessionMethod::Play => SessionState::Playing,
            SessionMethod::Teardown => SessionState::TornDown,
        }
    }
}

/// The four methods that negotiate a session, in the order in which they
/// are sent.
#[derive(Clone, Copy, Debug, PartialEq, Eq, Structural)]
pub enum NegotiationStep {
    Options,
    Describe,
    Setup,
    Play,
}

impl NegotiationStep {
    /// The step that follows this one; none after `Play`.
    pub open spec fn successor(self) -> Option<NegotiationStep> {
        match self {
            NegotiationStep::Options => Some(NegotiationStep::Describe),
            NegotiationStep::Describe => Some(NegotiationStep::Setup),
            NegotiationStep::Setup => Some(NegotiationStep::Play),
            NegotiationStep::Play => None,
        }
    }

    /// The protocol method that this step sends.
    pub open spec fn method_of(self) -> SessionMethod {
        match self {
            NegotiationStep::Options => SessionMethod::Options,
            NegotiationStep::Describe => SessionMethod::Describe,
            NegotiationStep::Setup => SessionMethod::Setup,
            NegotiationStep::Play => SessionMethod::Play,
        }
    }

    /// The place of this step in the negotiation, from 0.
    pub open spec fn rank(self) -> nat {
        match self {
            NegotiationStep::Options => 0,
            NegotiationStep::Describe => 1,
            NegotiationStep::Setup => 2,
            NegotiationStep::Play => 3,
        }
    }

    /// The step to take after this one.
    pub fn following(self) -> (r: Option<NegotiationStep>)
        ensures
            r == self.successor(),
    {
        match self {
            NegotiationStep::Options => Some(NegotiationStep::Describe),
            NegotiationStep::Describe => Some(NegotiationStep::Setup),
            NegotiationStep::Setup => Some(NegotiationStep::Play),
            NegotiationStep::Play => None,
        }
    }

    /// The protocol method that this step sends.
    pub fn method(self) -> (m: SessionMethod)
        ensures
            m == self.method_of(),
            m != SessionMethod::Teardown,
    {
        match self {
            NegotiationStep::Options => SessionMethod::Options,
            NegotiationStep::Describe => SessionMethod::Describe,
            NegotiationStep::Setup => SessionMethod::Setup,
            NegotiationStep::Play => SessionMethod::Play,
        }
    }
}

/// An internet address, held as the integer that its bytes spell.
#[derive(Clone, Copy, Debug, PartialEq, Eq, Structural)]
pub enum IpAddress {
    V4(u32),
    V6 { bits: u128, flow_info: u32, scope_id: u32 },
}

/// The far end of a transport: where the camera sends media from.
#[derive(Clone, Copy, Debug, PartialEq, Eq, Structural)]
pub struct RemoteEndpoint {
    pub address: IpAddress,
    pub port: u16,
}

/// What a session controller shows of itself after a method was answered.
#[derive(Clone, Copy, Debug, PartialEq, Eq, Structural)]
pub struct SessionSnapshot {
    /// Whether the last response reported success.
    pub response_ok: bool,
    /// The local port on which media is to be received.
    pub client_port: u16,
    /// Where the camera will send media from; known once `Setup` was
    /// answered.
    pub server: Option<RemoteEndpoint>,
}

/// The transport that a successful negotiation agreed on. The receiver binds
/// `local_port` on the wildcard address and listens to `remote`.
#[derive(Clone, Copy, Debug, PartialEq, Eq, Structural)]
pub struct TransportParameters {
    pub local_port: u16,
    pub remote: RemoteEndpoint,
}

impl TransportParameters {
    /// The transport that a snapshot grants: there is one exactly when the
    /// last response was a success and the camera's media address is known.
    pub open spec fn granted_by(snapshot: SessionSnapshot) -> Option<TransportParameters> {
        if snapshot.response_ok && snapshot.server is Some {
            Some(
                TransportParameters {
                    local_port: snapshot.client_port,
                    remote: snapshot.server->Some_0,
                },
            )
        } else {
            None
        }
    }

    /// Reads the negotiated transport off the session's state after `Play`.
    pub fn negotiated(snapshot: &SessionSnapshot) -> (r: Option<TransportParameters>)
        ensures
            r == Self::granted_by(*snapshot),
    {
        if !snapshot.response_ok {
            return None;
        }
        match snapshot.server {
            Some(remote) => Some(
                TransportParameters { local_port: snapshot.client_port, remote },
            ),
            None => None,
        }
    }
}

/// The size of the surface, and of the texture, that pictures are painted
/// on.
#[derive(Clone, Copy, Debug, PartialEq, Eq, Structural)]
pub struct SurfaceGeometry {
    pub width: u32,
    pub height: u32,
}

impl SurfaceGeometry {
    /// The one geometry in use.
    pub open spec fn standard_geometry() -> SurfaceGeometry {
        SurfaceGeometry { width: SURFACE_WIDTH, height: SURFACE_HEIGHT }
    }

    /// The one geometry in use.
    pub fn standard() -> (g: SurfaceGeometry)
        ensures
            g == Self::standard_geometry(),
    {
        SurfaceGeometry { width: SURFACE_WIDTH, height: SURFACE_HEIGHT }
    }
}

/// A failure of the decoder. The decoder tells nothing but a number, so
/// nothing but the number is kept.
#[derive(Clone, Copy, Debug, PartialEq, Eq, Structural)]
pub struct DecodeError {
    pub code: i64,
}

/// What the decoder made of one packet.
#[derive(Clone, Copy, Debug, PartialEq, Eq, Structural)]
pub enum DecodeOutcome {
    /// A complete picture was assembled.
    Frame,
    /// The packet was taken in; no picture is complete yet.
    Incomplete,
    /// The decoder failed on this packet.
    Failed(DecodeError),
}

/// The stage of a camera's pipeline at which it failed.
#[derive(Clone, Copy, Debug, PartialEq, Eq, Structural)]
pub enum Stage {
    /// The discovery client failed on this query.
    Discovery(DiscoveryMessage),
    /// No session controller could be opened on the stream address.
    SessionOpen,
    /// The session controller failed on this step of the negotiation.
    Negotiation(NegotiationStep),
    /// All four steps were answered, but the last response was no success,
    /// or no media address came with it.
    NegotiationStatus,
    /// The transport receiver could not be opened.
    ReceiverOpen,
    /// The display surface could not be opened.
    DisplayOpen,
    /// The receiver failed while waiting for a packet.
    Receive,
    /// The display failed while it was polled or painted on.
    Display,
}

impl Stage {
    /// Whether the failure came before the first iteration of the capture
    /// loop.
    pub open spec fn before_streaming(self) -> bool {
        !(self is Receive || self is Display)
    }

    /// Whether the failure came before the first iteration of the capture
    /// loop.
    pub fn is_before_streaming(&self) -> (b: bool)
        ensures
            b == self.before_streaming(),
    {
        match self {
            Stage::Receive => false,
            Stage::Display => false,
            _ => true,
        }
    }
}

/// The verdict on a camera's pipeline.
#[derive(Clone, Copy, Debug, PartialEq, Eq, Structural)]
pub enum CameraOutcome {
    /// The capture loop ran until the operator asked to quit.
    Streamed,
    /// The pipeline failed at this stage.
    Failed(Stage),
}

impl CameraOutcome {
    /// Whether the pipeline streamed until the operator quit.
    pub fn is_success(&self) -> (b: bool)
        ensures
            b == (*self is Streamed),
    {
        match self {
            CameraOutcome::Streamed => true,
            CameraOutcome::Failed(_) => false,
        }
    }
}

/// What became of the session's teardown. Whatever it is, it never changes
/// the verdict on the camera.
#[derive(Clone, Copy, Debug, PartialEq, Eq, Structural)]
pub enum TeardownStatus {
    /// No session was opened, so none was torn down.
    NotAttempted,
    /// `Teardown` was answered; the flag is the response's status.
    Answered(bool),
    /// `Teardown` was sent and the session controller failed on it.
    Failed,
}

/// The final word on one camera: the verdict, and the status of the
/// teardown for the log.
#[derive(Clone, Copy, Debug, PartialEq, Eq, Structural)]
pub struct SessionReport {
    pub outcome: CameraOutcome,
    pub teardown: TeardownStatus,
}

} // verus!
