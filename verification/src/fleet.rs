//! The fleet: one session after the other, a camera at a time.
//!
//! Every configured camera gets a controller of its own, and the cameras
//! share nothing. When a camera has finished, however it ended, its report
//! is filed and the next camera is started.

use vstd::prelude::*;
use crate::controller::CameraSessionController;
use crate::exchange::{event_views, Action, ActionView, Event, EventView};
use crate::machine::ControllerView;
use crate::protocol::{CameraEndpoint, CameraOutcome, SessionReport};

verus! {

/// An action of the fleet, as mathematics sees it.
pub enum FleetActionView {
    Camera { index: nat, action: ActionView },
    Done,
}

/// What the fleet asks its driver to do next.
#[derive(Clone, Debug, PartialEq, Eq)]
pub enum FleetAction {
    /// Carry out this action for the camera with this index in the
    /// configuration. A `Finish` among them tells how that camera ended; the
    /// driver acknowledges it with any event, and the fleet goes on to the
    /// next camera.
    Camera { index: usize, action: Action },
    /// Every camera has finished.
    Done,
}

impl View for FleetAction {
    type V = FleetActionView;

    open spec fn view(&self) -> FleetActionView {
        match *self {
            FleetAction::Camera { index, action } => FleetActionView::Camera {
                index: index as nat,
                action: action@,
            },
            FleetAction::Done => FleetActionView::Done,
        }
    }
}

/// The views of a sequence of fleet actions, one for one.
pub open spec fn fleet_action_views(actions: Seq<FleetAction>) -> Seq<FleetActionView> {
    Seq::new(actions.len(), |i: int| actions[i]@)
}

/// The state of a fleet.
pub struct FleetView {
    /// The configured cameras, in the order in which they are run.
    pub cameras: Seq<CameraEndpoint>,
    /// The reports of the cameras that have finished, in the same order.
    pub reports: Seq<SessionReport>,
    /// The session of the camera that is being run; none once every camera
    /// has finished.
    pub active: Option<ControllerView>,
}

impl FleetView {
    /// The session in which a fleet runs the camera at `index`, when it
    /// starts it; none past the last camera.
    pub open spec fn session_for(cameras: Seq<CameraEndpoint>, index: int) -> Option<
        ControllerView,
    > {
        if 0 <= index < cameras.len() {
            Some(ControllerView::initial(cameras[index]))
        } else {
            None
        }
    }

    /// A fleet on which nothing has been done yet: the first camera has
    /// been started.
    pub open spec fn initial(cameras: Seq<CameraEndpoint>) -> FleetView {
        FleetView {
            cameras,
            reports: Seq::empty(),
            active: Self::session_for(cameras, 0),
        }
    }

    /// Whether every camera has finished.
    pub open spec fn done(self) -> bool {
        self.active is None
    }

    /// The index of the camera that is being run.
    pub open spec fn current(self) -> nat {
        self.reports.len()
    }

    /// The action that is outstanding.
    pub open spec fn pending(self) -> FleetActionView {
        match self.active {
            Some(session) => FleetActionView::Camera {
                index: self.current(),
                action: session.pending(),
            },
            None => FleetActionView::Done,
        }
    }

    /// The fleet after an event.
    ///
    /// While the camera that is being run has not finished, the event is
    /// its event. Once it has, the event acknowledges its `Finish`: the
    /// report is filed and the next camera is started, whatever the report
    /// and whatever the event.
    pub open spec fn next(self, event: EventView) -> FleetView {
        match self.active {
            None => self,
            Some(session) => if session.finished() {
                FleetView {
                    cameras: self.cameras,
                    reports: self.reports.push(session.phase->Finished_0),
                    active: Self::session_for(self.cameras, self.reports.len() as int + 1),
                }
            } else {
                FleetView {
                    cameras: self.cameras,
                    reports: self.reports,
                    active: Some(session.next(event)),
                }
            },
        }
    }
}

/// The state that a fleet is in after these events.
pub open spec fn fleet_run(start: FleetView, events: Seq<EventView>) -> FleetView
    decreases events.len(),
{
    if events.len() == 0 {
        start
    } else {
        fleet_run(start, events.drop_last()).next(events.last())
    }
}

/// The actions that a fleet asks for while it takes in these events: the
/// one outstanding at the start, and after each event the one outstanding
/// then.
pub open spec fn fleet_history(start: FleetView, events: Seq<EventView>) -> Seq<FleetActionView>
    decreases events.len(),
{
    if events.len() == 0 {
        seq![start.pending()]
    } else {
        fleet_history(start, events.drop_last()).push(fleet_run(start, events).pending())
    }
}

/// How many of the reports tell of a camera that streamed until the
/// operator quit.
pub open spec fn streamed_count(reports: Seq<SessionReport>) -> nat
    decreases reports.len(),
{
    if reports.len() == 0 {
        0
    } else {
        streamed_count(reports.drop_last()) + if reports.last().outcome is Streamed {
            1nat
        } else {
            0nat
        }
    }
}

/// How many of the reports tell of a camera that failed.
pub open spec fn failed_count(reports: Seq<SessionReport>) -> nat
    decreases reports.len(),
{
    if reports.len() == 0 {
        0
    } else {
        failed_count(reports.drop_last()) + if reports.last().outcome is Failed {
            1nat
        } else {
            0nat
        }
    }
}

/// Whether the reports call for the whole process to fail: there was a
/// single camera, and it never got as far as the capture loop. With more
/// cameras than one, or with a failure in the loop, they never do.
pub open spec fn calls_for_abort(reports: Seq<SessionReport>) -> bool {
    &&& reports.len() == 1
    &&& reports[0].outcome matches CameraOutcome::Failed(stage)
    &&& stage.before_streaming()
}

/// Every report tells of a camera that streamed or of one that failed.
pub proof fn lemma_counts_add_up(reports: Seq<SessionReport>)
    ensures
        streamed_count(reports) + failed_count(reports) == reports.len(),
    decreases reports.len(),
{
    if reports.len() > 0 {
        lemma_counts_add_up(reports.drop_last());
    }
}

/// Runs the configured cameras one after the other.
#[derive(Clone, Debug)]
pub struct FleetOrchestrator {
    cameras: Vec<CameraEndpoint>,
    reports: Vec<SessionReport>,
    active: Option<CameraSessionController>,
}

impl View for FleetOrchestrator {
    type V = FleetView;

    closed spec fn view(&self) -> FleetView {
        FleetView {
            cameras: self.cameras@,
            reports: self.reports@,
            active: match self.active {
                Some(controller) => Some(controller@),
                None => None,
            },
        }
    }
}

/// Counts the reports of cameras that streamed.
pub fn count_streamed(reports: &Vec<SessionReport>) -> (n: usize)
    ensures
        n == streamed_count(reports@),
{
    let mut n: usize = 0;
    let mut i: usize = 0;
    while i < reports.len()
        invariant
            i <= reports.len(),
            n <= i,
            n == streamed_count(reports@.take(i as int)),
        decreases reports.len() - i,
    {
        assert(reports@.take(i + 1).drop_last() =~= reports@.take(i as int));
        if reports[i].outcome.is_success() {
            n += 1;
        }
        i += 1;
    }
    assert(reports@.take(reports.len() as int) =~= reports@);
    n
}

/// Counts the reports of cameras that failed.
pub fn count_failed(reports: &Vec<SessionReport>) -> (n: usize)
    ensures
        n == failed_count(reports@),
{
    let mut n: usize = 0;
    let mut i: usize = 0;
    while i < reports.len()
        invariant
            i <= reports.len(),
            n <= i,
            n == failed_count(reports@.take(i as int)),
        decreases reports.len() - i,
    {
        assert(reports@.take(i + 1).drop_last() =~= reports@.take(i as int));
        if !reports[i].outcome.is_success() {
            n += 1;
        }
        i += 1;
    }
    assert(reports@.take(reports.len() as int) =~= reports@);
    n
}

/// Whether the reports call for the whole process to fail.
pub fn reports_call_for_abort(reports: &Vec<SessionReport>) -> (b: bool)
    ensures
        b == calls_for_abort(reports@),
{
    if reports.len() != 1 {
        return false;
    }
    match reports[0].outcome {
        CameraOutcome::Failed(stage) => stage.is_before_streaming(),
        CameraOutcome::Streamed => false,
    }
}

impl FleetOrchestrator {
    /// A fleet of these cameras, on which nothing has been done yet.
    pub fn new(cameras: Vec<CameraEndpoint>) -> (fleet: FleetOrchestrator)
        ensures
            fleet@ == FleetView::initial(cameras@),
    {
        let active = if cameras.len() > 0 {
            Some(CameraSessionController::new(cameras[0]))
        } else {
            None
        };
        FleetOrchestrator { cameras, reports: Vec::new(), active }
    }

    /// Whether every camera has finished.
    pub fn is_done(&self) -> (b: bool)
        ensures
            b == self@.done(),
    {
        self.active.is_none()
    }

    /// Number of configured cameras.
    pub fn camera_count(&self) -> (n: usize)
        ensures
            n == self@.cameras.len(),
    {
        self.cameras.len()
    }

    /// The reports of the cameras that have finished, in the order of the
    /// configuration.
    pub fn reports(&self) -> (reports: &Vec<SessionReport>)
        ensures
            reports@ == self@.reports,
    {
        &self.reports
    }

    /// Number of cameras that streamed until the operator quit.
    pub fn successes(&self) -> (n: usize)
        ensures
            n == streamed_count(self@.reports),
    {
        count_streamed(&self.reports)
    }

    /// Number of cameras that failed.
    pub fn failures(&self) -> (n: usize)
        ensures
            n == failed_count(self@.reports),
    {
        count_failed(&self.reports)
    }

    /// Whether the whole process is to fail: the fleet was a single camera
    /// that never got as far as the capture loop, so that there was no other
    /// camera to fall back on.
    pub fn must_abort(&self) -> (b: bool)
        ensures
            b == calls_for_abort(self@.reports),
    {
        reports_call_for_abort(&self.reports)
    }

    /// The action that is outstanding. Asking changes nothing.
    pub fn pending(&self) -> (action: FleetAction)
        ensures
            action@ == self@.pending(),
    {
        match &self.active {
            Some(controller) => FleetAction::Camera {
                index: self.reports.len(),
                action: controller.pending(),
            },
            None => FleetAction::Done,
        }
    }

    /// Takes in how the outstanding action went, and answers with the
    /// action that is outstanding now.
    pub fn step(&mut self, event: Event) -> (action: FleetAction)
        ensures
            final(self)@ == old(self)@.next(event@),
            action@ == final(self)@.pending(),
    {
        let active = self.active.take();
        match active {
            None => {},
            Some(mut controller) => {
                match controller.report() {
                    Some(report) => {
                        self.reports.push(report);
                        let following = self.reports.len();
                        if following < self.cameras.len() {
                            self.active = Some(
                                CameraSessionController::new(self.cameras[following]),
                            );
                        }
                    },
                    None => {
                        controller.step(event);
                        self.active = Some(controller);
                    },
                }
            },
        }
        self.pending()
    }

    /// Takes in a whole script of events, one after the other, and hands
    /// back every action that was outstanding on the way: the one
    /// outstanding before the first event, and the one after each event.
    pub fn replay(&mut self, script: Vec<Event>) -> (actions: Vec<FleetAction>)
        ensures
            final(self)@ == fleet_run(old(self)@, event_views(script@)),
            fleet_action_views(actions@) == fleet_history(old(self)@, event_views(script@)),
    {
        let ghost start = self@;
        let ghost events = event_views(script@);
        let mut actions: Vec<FleetAction> = Vec::new();
        actions.push(self.pending());
        assert(fleet_action_views(actions@) =~= seq![start.pending()]);
        assert(events.take(0) =~= Seq::<EventView>::empty());
        for event in it: script.into_iter()
            invariant
                it.seq() == script@,
                events == event_views(script@),
                self@ == fleet_run(start, events.take(it.index() as int)),
                fleet_action_views(actions@) == fleet_history(
                    start,
                    events.take(it.index() as int),
                ),
        {
            let ghost done = it.index() as int;
            assert(events.take(done + 1).drop_last() =~= events.take(done));
            assert(events.take(done + 1).last() == event@);
            let ghost before = fleet_action_views(actions@);
            let action = self.step(event);
            actions.push(action);
            assert(fleet_action_views(actions@) =~= before.push(action@));
        }
        assert(events.take(events.len() as int) =~= events);
        actions
    }
}

} // verus!
