//! What holds of every fleet, whatever its driver reports.
//!
//! The chief law is that the cameras of a fleet run alone: what a fleet
//! asks for on behalf of one camera is what a controller of that camera
//! alone would ask for, given the events that were reported while the
//! camera had its turn. Nothing that happens to one camera reaches
//! another, so every law of a single session holds of every camera of a
//! fleet.

use vstd::prelude::*;
use crate::exchange::{ActionKind, ActionView, EventView};
use crate::fleet::{fleet_history, fleet_run, FleetActionView, FleetView};
use crate::machine::{ControllerView, PhaseView};
use crate::protocol::{CameraEndpoint, DiscoveryMessage, SessionMethod};
use crate::trace::{
    fits, history, lemma_history_fits, lemma_history_starts, occurrences, run,
};

verus! {

/// The actions, among those of a fleet, that were asked for on behalf of
/// the camera at `index`, in order.
pub open spec fn camera_history(actions: Seq<FleetActionView>, index: nat) -> Seq<ActionView>
    decreases actions.len(),
{
    if actions.len() == 0 {
        Seq::empty()
    } else {
        let earlier = camera_history(actions.drop_last(), index);
        match actions.last() {
            FleetActionView::Camera { index: of, action } => if of == index {
                earlier.push(action)
            } else {
                earlier
            },
            FleetActionView::Done => earlier,
        }
    }
}

/// Whether an event that is reported to a fleet in this state goes to the
/// camera at `index`: that camera has its turn and has not finished.
pub open spec fn goes_to_camera(fleet: FleetView, index: nat) -> bool {
    &&& fleet.active is Some
    &&& fleet.current() == index
    &&& !fleet.active->Some_0.finished()
}

/// The events, among those reported to a fleet of these cameras, that went
/// to the camera at `index`, in order.
pub open spec fn camera_events(
    cameras: Seq<CameraEndpoint>,
    events: Seq<EventView>,
    index: nat,
) -> Seq<EventView>
    decreases events.len(),
{
    if events.len() == 0 {
        Seq::empty()
    } else {
        let earlier = camera_events(cameras, events.drop_last(), index);
        if goes_to_camera(fleet_run(FleetView::initial(cameras), events.drop_last()), index) {
            earlier.push(events.last())
        } else {
            earlier
        }
    }
}

/// The action with which the pipeline of the camera at `index` starts.
pub open spec fn first_action(cameras: Seq<CameraEndpoint>, index: nat) -> ActionView {
    ActionView::Discover {
        message: DiscoveryMessage::Capabilities,
        profile_index: cameras[index as int].profile_index,
    }
}

// ---------------------------------------------------------------------
// One event
// ---------------------------------------------------------------------

/// When a camera has finished, the next camera is started, however the
/// first one ended and whatever is reported next: a failure of one camera,
/// in discovery or anywhere else, never keeps the next from its turn.
pub proof fn lemma_next_camera_is_started(fleet: FleetView, event: EventView)
    requires
        fleet.active is Some,
        fleet.active->Some_0.finished(),
        fleet.current() + 1 < fleet.cameras.len(),
    ensures
        fleet.next(event).current() == fleet.current() + 1,
        fleet.next(event).reports == fleet.reports.push(fleet.active->Some_0.phase->Finished_0),
        fleet.next(event).active == Some(
            ControllerView::initial(fleet.cameras[fleet.current() as int + 1]),
        ),
        fleet.next(event).pending() == (FleetActionView::Camera {
            index: (fleet.current() + 1) as nat,
            action: first_action(fleet.cameras, (fleet.current() + 1) as nat),
        }),
{
}

/// A failure of discovery for the camera that has its turn finishes that
/// camera alone: the fleet hands out its report, and with the next event
/// starts the camera that follows.
pub proof fn lemma_discovery_failure_is_contained(
    fleet: FleetView,
    failure: EventView,
    acknowledgement: EventView,
)
    requires
        fleet.active is Some,
        fleet.active->Some_0.phase is Discovering,
        !(failure is Discovered),
        fleet.current() + 1 < fleet.cameras.len(),
    ensures
        fleet.next(failure).current() == fleet.current(),
        fleet.next(failure).pending() is Camera,
        fleet.next(failure).pending()->action is Finish,
        fleet.next(failure).next(acknowledgement).pending() == (FleetActionView::Camera {
            index: (fleet.current() + 1) as nat,
            action: first_action(fleet.cameras, (fleet.current() + 1) as nat),
        }),
{
}

/// While a camera has its turn and has not finished, an event is that
/// camera's event and touches nothing else of the fleet.
pub proof fn lemma_event_reaches_one_camera(fleet: FleetView, event: EventView)
    requires
        fleet.active is Some,
        !fleet.active->Some_0.finished(),
    ensures
        fleet.next(event).cameras == fleet.cameras,
        fleet.next(event).reports == fleet.reports,
        fleet.next(event).active == Some(fleet.active->Some_0.next(event)),
{
}

/// A fleet that is done stays as it is.
pub proof fn lemma_done_is_final(fleet: FleetView, event: EventView)
    requires
        fleet.done(),
    ensures
        fleet.next(event) == fleet,
        fleet.pending() is Done,
{
}

// ---------------------------------------------------------------------
// Whole runs
// ---------------------------------------------------------------------

/// What one more action adds to the history of a camera.
proof fn lemma_camera_history_push(
    actions: Seq<FleetActionView>,
    action: FleetActionView,
    index: nat,
)
    ensures
        camera_history(actions.push(action), index) == match action {
            FleetActionView::Camera { index: of, action: inner } => if of == index {
                camera_history(actions, index).push(inner)
            } else {
                camera_history(actions, index)
            },
            FleetActionView::Done => camera_history(actions, index),
        },
{
    assert(actions.push(action).drop_last() =~= actions);
}

/// The cameras of a fleet run alone.
///
/// Take any run of a fleet and any of its cameras. The actions that the
/// fleet asked for on behalf of that camera are the history of a
/// controller of that camera alone, run over the events that went to the
/// camera. A camera whose turn is over finished with the report that the
/// fleet filed for it; the camera that has its turn is in the state that
/// the fleet holds; a camera whose turn has not come has been asked
/// nothing. The fleet is done exactly when every camera has a report.
pub proof fn lemma_cameras_run_alone(
    cameras: Seq<CameraEndpoint>,
    events: Seq<EventView>,
    index: nat,
)
    requires
        index < cameras.len(),
    ensures
        ({
            let fleet = fleet_run(FleetView::initial(cameras), events);
            let actions = fleet_history(FleetView::initial(cameras), events);
            let own = camera_events(cameras, events, index);
            let alone = ControllerView::initial(cameras[index as int]);
            &&& fleet.cameras == cameras
            &&& fleet.current() <= cameras.len()
            &&& fleet.done() <==> fleet.current() == cameras.len()
            &&& index < fleet.current() ==> {
                &&& run(alone, own).phase == PhaseView::Finished(fleet.reports[index as int])
                &&& camera_history(actions, index) == history(alone, own)
            }
            &&& index == fleet.current() ==> {
                &&& fleet.active == Some(run(alone, own))
                &&& camera_history(actions, index) == history(alone, own)
            }
            &&& index > fleet.current() ==> {
                &&& own.len() == 0
                &&& camera_history(actions, index).len() == 0
            }
        }),
    decreases events.len(),
{
    let start = FleetView::initial(cameras);
    let alone = ControllerView::initial(cameras[index as int]);
    if events.len() == 0 {
        assert(seq![start.pending()].drop_last() =~= Seq::<FleetActionView>::empty());
        assert(camera_history(Seq::<FleetActionView>::empty(), index) =~= Seq::<
            ActionView,
        >::empty());
        if index == 0 {
            assert(camera_history(seq![start.pending()], index) =~= seq![alone.pending()]);
        }
    } else {
        let earlier = events.drop_last();
        let event = events.last();
        lemma_cameras_run_alone(cameras, earlier, index);
        let before = fleet_run(start, earlier);
        let after = fleet_run(start, events);
        let actions = fleet_history(start, earlier);
        let own = camera_events(cameras, earlier, index);
        assert(after == before.next(event));
        lemma_camera_history_push(actions, after.pending(), index);
        if goes_to_camera(before, index) {
            assert(own.push(event).drop_last() =~= own);
            assert(run(alone, own.push(event)) == run(alone, own).next(event));
        }
    }
}

/// Every camera gets its turn: in a run of a fleet, the pipeline of each
/// camera up to the one that has its turn was started once, with the first
/// discovery query for its own profile, and a fleet that is done has a
/// report of every camera.
pub proof fn lemma_every_camera_gets_its_turn(
    cameras: Seq<CameraEndpoint>,
    events: Seq<EventView>,
    index: nat,
)
    requires
        index < cameras.len(),
    ensures
        ({
            let fleet = fleet_run(FleetView::initial(cameras), events);
            let own = camera_history(fleet_history(FleetView::initial(cameras), events), index);
            &&& fleet.done() ==> fleet.reports.len() == cameras.len()
            &&& index <= fleet.current() ==> {
                &&& own.len() > 0
                &&& own[0] == first_action(cameras, index)
                &&& occurrences(own, ActionKind::Discover(DiscoveryMessage::Capabilities)) == 1
            }
        }),
{
    lemma_cameras_run_alone(cameras, events, index);
    let alone = ControllerView::initial(cameras[index as int]);
    let own_events = camera_events(cameras, events, index);
    lemma_history_fits(cameras[index as int], own_events);
    lemma_history_starts(alone, own_events);
}

/// In a fleet, too, the teardown is asked for exactly once for every
/// session that was opened: for a camera whose turn is over, `Teardown`
/// stands in its history once if `Options` was sent for it, and not at all
/// if it was not.
pub proof fn lemma_fleet_tears_down_each_session_once(
    cameras: Seq<CameraEndpoint>,
    events: Seq<EventView>,
    index: nat,
)
    requires
        index < cameras.len(),
    ensures
        ({
            let fleet = fleet_run(FleetView::initial(cameras), events);
            let own = camera_history(fleet_history(FleetView::initial(cameras), events), index);
            let teardowns = occurrences(own, ActionKind::Send(SessionMethod::Teardown));
            let options = occurrences(own, ActionKind::Send(SessionMethod::Options));
            &&& teardowns <= options <= 1
            &&& index < fleet.current() ==> teardowns == options
            &&& index < fleet.current() ==> (fleet.reports[index as int].teardown is NotAttempted
                <==> teardowns == 0)
        }),
{
    lemma_cameras_run_alone(cameras, events, index);
    let own_events = camera_events(cameras, events, index);
    lemma_history_fits(cameras[index as int], own_events);
    let fleet = fleet_run(FleetView::initial(cameras), events);
    if index > fleet.current() {
        let own = camera_history(fleet_history(FleetView::initial(cameras), events), index);
        assert(own =~= Seq::<ActionView>::empty());
    }
}

/// The history of each camera of a fleet is one that goes with the phase
/// that the camera reached.
pub proof fn lemma_fleet_histories_fit(
    cameras: Seq<CameraEndpoint>,
    events: Seq<EventView>,
    index: nat,
)
    requires
        index < cameras.len(),
    ensures
        ({
            let fleet = fleet_run(FleetView::initial(cameras), events);
            let own = camera_history(fleet_history(FleetView::initial(cameras), events), index);
            &&& index < fleet.current() ==> fits(
                PhaseView::Finished(fleet.reports[index as int]),
                own,
            )
            &&& index == fleet.current() ==> fits(fleet.active->Some_0.phase, own)
        }),
{
    lemma_cameras_run_alone(cameras, events, index);
    lemma_history_fits(cameras[index as int], camera_events(cameras, events, index));
}

} // verus!
