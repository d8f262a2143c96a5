//! Runs of a session, and how often a run asks for each kind of action.
//!
//! A run is told by the events that the driver reported, in order. It
//! leaves the session in a state, and it leaves a history: the actions that
//! the session asked for, the outstanding one being the last.
//!
//! The actions that set a pipeline up have a fixed order: four discovery
//! queries, the opening of the session, four steps of negotiation, the
//! opening of the receiver, the opening of the display. How far a session
//! got in that order can be read off its phase, and that decides how often
//! each kind of action stands in its history.

use vstd::prelude::*;
use crate::exchange::{ActionKind, ActionView, EventView};
use crate::machine::{ControllerView, PhaseView};
use crate::protocol::{CameraEndpoint, CameraOutcome, SessionMethod, Stage};

verus! {

/// The state that a session is in after these events.
pub open spec fn run(start: ControllerView, events: Seq<EventView>) -> ControllerView
    decreases events.len(),
{
    if events.len() == 0 {
        start
    } else {
        run(start, events.drop_last()).next(events.last())
    }
}

/// The actions that a session asks for while it takes in these events: the
/// one outstanding at the start, and after each event the one outstanding
/// then.
pub open spec fn history(start: ControllerView, events: Seq<EventView>) -> Seq<ActionView>
    decreases events.len(),
{
    if events.len() == 0 {
        seq![start.pending()]
    } else {
        history(start, events.drop_last()).push(run(start, events).pending())
    }
}

/// How many of the actions are of this kind.
pub open spec fn occurrences(actions: Seq<ActionView>, kind: ActionKind) -> nat
    decreases actions.len(),
{
    if actions.len() == 0 {
        0
    } else {
        occurrences(actions.drop_last(), kind) + if actions.last().kind() == kind {
            1nat
        } else {
            0nat
        }
    }
}

/// The place of an action in the order in which a pipeline is set up; none
/// for the actions of the capture loop and of the way out.
pub open spec fn setup_rank(kind: ActionKind) -> Option<nat> {
    match kind {
        ActionKind::Discover(message) => Some(message.rank()),
        ActionKind::OpenSession => Some(4),
        ActionKind::Send(SessionMethod::Options) => Some(5),
        ActionKind::Send(SessionMethod::Describe) => Some(6),
        ActionKind::Send(SessionMethod::Setup) => Some(7),
        ActionKind::Send(SessionMethod::Play) => Some(8),
        ActionKind::OpenReceiver => Some(9),
        ActionKind::OpenDisplay => Some(10),
        _ => None,
    }
}

/// How far a pipeline with this verdict got in setting up: the rank of the
/// last setup action that it asked for.
pub open spec fn verdict_reach(outcome: CameraOutcome) -> nat {
    match outcome {
        CameraOutcome::Streamed => 10,
        CameraOutcome::Failed(stage) => match stage {
            Stage::Discovery(message) => message.rank(),
            Stage::SessionOpen => 4,
            Stage::Negotiation(step) => 5 + step.rank(),
            Stage::NegotiationStatus => 8,
            Stage::ReceiverOpen => 9,
            Stage::DisplayOpen => 10,
            Stage::Receive => 10,
            Stage::Display => 10,
        },
    }
}

/// How far a session in this phase got in setting up: the rank of the last
/// setup action that it asked for.
pub open spec fn reach(phase: PhaseView) -> nat {
    match phase {
        PhaseView::Discovering(message) => message.rank(),
        PhaseView::Connecting(_) => 4,
        PhaseView::Negotiating(step) => 5 + step.rank(),
        PhaseView::OpeningReceiver(_) => 9,
        PhaseView::OpeningDisplay => 10,
        PhaseView::Polling => 10,
        PhaseView::Receiving => 10,
        PhaseView::Decoding => 10,
        PhaseView::Painting { .. } => 10,
        PhaseView::Releasing(outcome) => verdict_reach(outcome),
        PhaseView::TearingDown(outcome) => verdict_reach(outcome),
        PhaseView::Finished(report) => verdict_reach(report.outcome),
    }
}

/// The verdict on the camera, as far as the phase holds one.
pub open spec fn verdict(phase: PhaseView) -> Option<CameraOutcome> {
    match phase {
        PhaseView::Releasing(outcome) => Some(outcome),
        PhaseView::TearingDown(outcome) => Some(outcome),
        PhaseView::Finished(report) => Some(report.outcome),
        _ => None,
    }
}

/// Whether a verdict came with the receiver open: it fell in the capture
/// loop, or when the display would not open.
pub open spec fn verdict_with_media(outcome: CameraOutcome) -> bool {
    match outcome {
        CameraOutcome::Streamed => true,
        CameraOutcome::Failed(stage) => stage is DisplayOpen || stage is Receive
            || stage is Display,
    }
}

/// Whether a verdict fell in the capture loop.
pub open spec fn verdict_in_loop(outcome: CameraOutcome) -> bool {
    match outcome {
        CameraOutcome::Streamed => true,
        CameraOutcome::Failed(stage) => stage is Receive || stage is Display,
    }
}

/// Whether a session in this phase has entered the capture loop.
pub open spec fn loop_entered(phase: PhaseView) -> bool {
    match verdict(phase) {
        Some(outcome) => verdict_in_loop(outcome),
        None => phase.in_capture_loop(),
    }
}

/// Whether a session in this phase has asked for the release of receiver and
/// display.
pub open spec fn release_asked(phase: PhaseView) -> bool {
    match phase {
        PhaseView::Releasing(_) => true,
        PhaseView::TearingDown(outcome) => verdict_with_media(outcome),
        PhaseView::Finished(report) => verdict_with_media(report.outcome),
        _ => false,
    }
}

/// Whether a session in this phase has asked for the teardown.
pub open spec fn teardown_asked(phase: PhaseView) -> bool {
    match phase {
        PhaseView::TearingDown(_) => true,
        PhaseView::Finished(report) => verdict_reach(report.outcome) >= 5,
        _ => false,
    }
}

/// Whether a phase can be reached at all: a verdict stands only where the
/// pipeline can fall with it, and the report of a finished session tells of
/// a teardown exactly if a session was opened.
pub open spec fn reachable(phase: PhaseView) -> bool {
    match phase {
        PhaseView::Releasing(outcome) => verdict_with_media(outcome),
        PhaseView::TearingDown(outcome) => verdict_reach(outcome) >= 5,
        PhaseView::Finished(report) => (report.teardown is NotAttempted) <==> verdict_reach(
            report.outcome,
        ) < 5,
        _ => true,
    }
}

/// How often a session that stands in a phase has asked for a kind of
/// action, the outstanding action counted in; none where the phase does not
/// tell.
///
/// Every setup action up to the one that the session reached was asked for
/// once, and none beyond it. Of the capture loop's actions nothing is told
/// once the loop is entered, and there are none before. The release and the
/// teardown were asked for once or not at all.
pub open spec fn expected(phase: PhaseView, kind: ActionKind) -> Option<nat> {
    match kind {
        ActionKind::PollInput | ActionKind::ReceivePacket | ActionKind::Decode
        | ActionKind::Paint => if loop_entered(phase) {
            None
        } else {
            Some(0)
        },
        ActionKind::ReleaseMedia => Some(
            if release_asked(phase) {
                1
            } else {
                0
            },
        ),
        ActionKind::Send(SessionMethod::Teardown) => Some(
            if teardown_asked(phase) {
                1
            } else {
                0
            },
        ),
        ActionKind::Finish => if phase is Finished {
            None
        } else {
            Some(0)
        },
        _ => Some(
            if setup_rank(kind)->Some_0 <= reach(phase) {
                1
            } else {
                0
            },
        ),
    }
}

/// Whether a history is one that a session in this phase can have.
pub open spec fn fits(phase: PhaseView, actions: Seq<ActionView>) -> bool {
    &&& reachable(phase)
    &&& forall|kind: ActionKind|
        expected(phase, kind) is Some ==> #[trigger] occurrences(actions, kind) == expected(
            phase,
            kind,
        )->Some_0
}

/// Adding one action to a history adds one to the count of its kind and
/// nothing to the others.
pub proof fn lemma_occurrences_push(actions: Seq<ActionView>, action: ActionView, kind: ActionKind)
    ensures
        occurrences(actions.push(action), kind) == occurrences(actions, kind) + if action.kind()
            == kind {
            1nat
        } else {
            0nat
        },
{
    assert(actions.push(action).drop_last() =~= actions);
}

/// A history of one action counts that action and no other.
pub proof fn lemma_occurrences_single(action: ActionView, kind: ActionKind)
    ensures
        occurrences(seq![action], kind) == if action.kind() == kind {
            1nat
        } else {
            0nat
        },
{
    assert(seq![action].drop_last() =~= Seq::<ActionView>::empty());
    assert(occurrences(Seq::<ActionView>::empty(), kind) == 0);
}

/// A history starts with the action that was outstanding at the start, and
/// holds one action more than there were events.
pub proof fn lemma_history_starts(start: ControllerView, events: Seq<EventView>)
    ensures
        history(start, events).len() == events.len() + 1,
        history(start, events)[0] == start.pending(),
    decreases events.len(),
{
    if events.len() > 0 {
        lemma_history_starts(start, events.drop_last());
    }
}

/// One event keeps the history in step with the phase.
proof fn lemma_step_keeps_fit(state: ControllerView, actions: Seq<ActionView>, event: EventView)
    requires
        fits(state.phase, actions),
    ensures
        fits(state.next(event).phase, actions.push(state.next(event).pending())),
{
    let after = state.next(event);
    let longer = actions.push(after.pending());
    assert forall|kind: ActionKind| expected(after.phase, kind) is Some implies #[trigger]
        occurrences(longer, kind) == expected(after.phase, kind)->Some_0 by {
        lemma_occurrences_push(actions, after.pending(), kind);
        assert(expected(state.phase, kind) is Some ==> occurrences(actions, kind) == expected(
            state.phase,
            kind,
        )->Some_0);
    }
}

/// In every run from the start of a camera's pipeline, the history is one
/// that goes with the phase reached.
pub proof fn lemma_history_fits(endpoint: CameraEndpoint, events: Seq<EventView>)
    ensures
        fits(
            run(ControllerView::initial(endpoint), events).phase,
            history(ControllerView::initial(endpoint), events),
        ),
    decreases events.len(),
{
    let start = ControllerView::initial(endpoint);
    if events.len() == 0 {
        assert forall|kind: ActionKind| expected(start.phase, kind) is Some implies #[trigger]
            occurrences(seq![start.pending()], kind) == expected(start.phase, kind)->Some_0 by {
            lemma_occurrences_single(start.pending(), kind);
        }
    } else {
        lemma_history_fits(endpoint, events.drop_last());
        lemma_step_keeps_fit(
            run(start, events.drop_last()),
            history(start, events.drop_last()),
            events.last(),
        );
    }
}

} // verus!
