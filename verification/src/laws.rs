//! What holds of every camera session, whatever its driver reports.
//!
//! The laws on a single event speak of `ControllerView::next`; those on
//! whole runs speak of `run`, `history` and `occurrences`. All of them hold
//! for every event and for every sequence of events: nothing is assumed of
//! the driver.

use vstd::prelude::*;
use crate::exchange::{ActionKind, ActionView, EventView};
use crate::input::{quit_requested, InputEvent};
use crate::machine::{teardown_status, ControllerView, PhaseView};
use crate::protocol::{
    CameraEndpoint, CameraOutcome, DecodeOutcome, NegotiationStep, SessionMethod, SessionReport,
    Stage, TeardownStatus, TransportParameters, WARMUP_FRAMES,
};
use crate::trace::{
    history, lemma_history_fits, lemma_occurrences_push, lemma_occurrences_single, occurrences,
    reach, run, setup_rank, verdict, verdict_in_loop,
};

verus! {

/// Whether an event, reported in answer to a step of the negotiation, makes
/// the negotiation fail: it is no answer of the session controller, or it
/// answers `Play` without granting a transport (the response was no
/// success, or no media address is known).
pub open spec fn fails_negotiation(step: NegotiationStep, event: EventView) -> bool {
    match event {
        EventView::SessionReply(snapshot) => step == NegotiationStep::Play
            && TransportParameters::granted_by(snapshot) is None,
        _ => true,
    }
}

/// Whether an event, reported in a phase of the capture loop, ends the loop:
/// a poll that brings a request to quit, or a failure of the display or of
/// the receiver. What the decoder reports never does.
pub open spec fn ends_capture_loop(phase: PhaseView, event: EventView) -> bool {
    match phase {
        PhaseView::Polling => match event {
            EventView::Input(batch) => quit_requested(batch),
            _ => true,
        },
        PhaseView::Receiving => !(event is Completed),
        PhaseView::Painting { .. } => !(event is Completed),
        _ => false,
    }
}

/// Whether an action belongs to the way out of a session: the release of
/// receiver and display, the teardown, the end.
pub open spec fn is_exit_action(kind: ActionKind) -> bool {
    kind == ActionKind::ReleaseMedia || kind == ActionKind::Send(SessionMethod::Teardown) || kind
        == ActionKind::Finish
}

// ---------------------------------------------------------------------
// One event
// ---------------------------------------------------------------------

/// An event changes nothing of a session but its phase and its warm-up
/// counter. The counter keeps its threshold; it starts over when the
/// session starts, and from then on it never falls: it rises by one, up to
/// the threshold, with every frame that the decoder produces, and with
/// nothing else.
pub proof fn lemma_event_keeps_camera(state: ControllerView, event: EventView)
    ensures
        state.next(event).endpoint == state.endpoint,
        state.next(event).warmup.threshold == state.warmup.threshold,
        state.starts_session(event) ==> state.next(event).warmup.seen == 0,
        !state.starts_session(event) ==> state.next(event).warmup.seen >= state.warmup.seen,
        !state.starts_session(event) && !state.counts_frame(event) ==> state.next(event).warmup
            == state.warmup,
        state.counts_frame(event) ==> state.next(event).warmup == state.warmup.recorded(),
{
}

/// The media session goes through its states in their order: an event
/// leaves the state as it is, or takes it to the one that follows, or,
/// from any state in which a session is open, to the last. It never goes
/// back, and no event opens a second session.
pub proof fn lemma_session_state_advances(state: ControllerView, event: EventView)
    ensures
        ({
            let before = state.phase.session_state();
            let after = state.next(event).phase.session_state();
            ||| after == before
            ||| after.rank() == before.rank() + 1 && !(after is TornDown)
            ||| after is TornDown && !(before is Idle)
        }),
{
}

/// Once the verdict on a camera is in, no event changes it.
pub proof fn lemma_verdict_stays(state: ControllerView, event: EventView)
    requires
        verdict(state.phase) is Some,
    ensures
        verdict(state.next(event).phase) == verdict(state.phase),
{
}

/// A session that has finished stays as it is, whatever is reported to it:
/// the same state, the same report, nothing new asked for. So an answer to
/// a second teardown, or any other late event, is taken in and changes
/// nothing.
pub proof fn lemma_finished_is_final(state: ControllerView, event: EventView)
    requires
        state.finished(),
    ensures
        state.next(event) == state,
        state.next(event).pending() == state.pending(),
        state.pending() is Finish,
{
}

/// Whatever answers the teardown, the session finishes with the verdict it
/// had: a teardown that failed, or was answered with an error status, is
/// written into the report and changes nothing else.
pub proof fn lemma_teardown_never_escalates(state: ControllerView, event: EventView)
    requires
        state.phase is TearingDown,
    ensures
        state.next(event).phase == PhaseView::Finished(
            SessionReport {
                outcome: state.phase->TearingDown_0,
                teardown: teardown_status(event),
            },
        ),
        !(teardown_status(event) is NotAttempted),
{
}

/// The release of receiver and display is followed by the teardown,
/// whatever is reported of the release.
pub proof fn lemma_release_leads_to_teardown(state: ControllerView, event: EventView)
    requires
        state.phase is Releasing,
    ensures
        state.next(event).phase == PhaseView::TearingDown(state.phase->Releasing_0),
        state.next(event).pending() == ActionView::Send(SessionMethod::Teardown),
{
}

/// A failure of discovery, or of the opening of the session, ends the
/// pipeline at once, with nothing to tear down.
pub proof fn lemma_early_failure_ends_pipeline(state: ControllerView, event: EventView)
    ensures
        state.phase is Discovering && !(event is Discovered) ==> state.next(event).phase
            == PhaseView::Finished(
            SessionReport {
                outcome: CameraOutcome::Failed(Stage::Discovery(state.phase->Discovering_0)),
                teardown: TeardownStatus::NotAttempted,
            },
        ),
        state.phase is Connecting && !(event is Completed) ==> state.next(event).phase
            == PhaseView::Finished(
            SessionReport {
                outcome: CameraOutcome::Failed(Stage::SessionOpen),
                teardown: TeardownStatus::NotAttempted,
            },
        ),
{
}

/// A negotiation that fails goes straight to the teardown: the next action
/// is `Teardown`, and the verdict names the step that failed, or the status
/// where all four steps were answered.
pub proof fn lemma_failed_negotiation_tears_down(
    state: ControllerView,
    step: NegotiationStep,
    event: EventView,
)
    requires
        state.phase == PhaseView::Negotiating(step),
        fails_negotiation(step, event),
    ensures
        state.next(event).pending() == ActionView::Send(SessionMethod::Teardown),
        state.next(event).phase == PhaseView::TearingDown(
            CameraOutcome::Failed(
                if event is SessionReply {
                    Stage::NegotiationStatus
                } else {
                    Stage::Negotiation(step)
                },
            ),
        ),
{
}

/// The receiver is opened on the transport that the answer to `Play`
/// granted, and on that occasion only.
pub proof fn lemma_receiver_needs_granted_transport(state: ControllerView, event: EventView)
    ensures
        state.next(event).phase is OpeningReceiver <==> state.phase == PhaseView::Negotiating(
            NegotiationStep::Play,
        ) && event is SessionReply && TransportParameters::granted_by(event->SessionReply_0)
            is Some,
        state.next(event).phase is OpeningReceiver ==> state.next(event).pending()
            == ActionView::OpenReceiver(
            TransportParameters::granted_by(event->SessionReply_0)->Some_0,
        ),
{
}

/// A request to quit, seen when the display is polled at the top of an
/// iteration, ends the capture loop then and there: the next action is the
/// release, not another packet.
pub proof fn lemma_quit_ends_iteration(state: ControllerView, batch: Seq<InputEvent>)
    requires
        state.phase is Polling,
        quit_requested(batch),
    ensures
        state.next(EventView::Input(batch)).phase == PhaseView::Releasing(CameraOutcome::Streamed),
        state.next(EventView::Input(batch)).pending() == ActionView::ReleaseMedia,
{
}

/// A packet is awaited only straight after a poll of the display that
/// brought no request to quit.
pub proof fn lemma_receive_follows_quiet_poll(state: ControllerView, event: EventView)
    ensures
        state.next(event).phase is Receiving <==> state.phase is Polling && event is Input
            && !quit_requested(event->Input_0),
{
}

/// Whatever the decoder reports, the capture loop goes on. Only a complete
/// frame is painted; after an incomplete packet or a decoder's error the
/// loop goes back to its top and the warm-up counter stays as it was.
pub proof fn lemma_decoder_never_ends_loop(state: ControllerView, event: EventView)
    requires
        state.phase is Decoding,
    ensures
        state.next(event).phase.in_capture_loop(),
        event == EventView::Decoded(DecodeOutcome::Frame) ==> state.next(event).pending()
            == (ActionView::Paint { past_warmup: state.warmup.complete() }),
        event != EventView::Decoded(DecodeOutcome::Frame) ==> state.next(event).phase
            == PhaseView::Polling && state.next(event).pending() == ActionView::PollInput
            && state.next(event).warmup == state.warmup,
{
}

/// A picture is painted only straight after the decoder produced a frame.
pub proof fn lemma_paint_follows_frame(state: ControllerView, event: EventView)
    ensures
        state.next(event).phase is Painting <==> state.phase is Decoding && event
            == EventView::Decoded(DecodeOutcome::Frame),
{
}

/// Every way out of the capture loop leads to the release of receiver and
/// display, with the verdict that goes with the way out.
pub proof fn lemma_loop_exit_releases(state: ControllerView, event: EventView)
    requires
        ends_capture_loop(state.phase, event),
    ensures
        state.next(event).phase is Releasing,
        verdict_in_loop(state.next(event).phase->Releasing_0),
        state.next(event).pending() == ActionView::ReleaseMedia,
{
}

// ---------------------------------------------------------------------
// Whole runs
// ---------------------------------------------------------------------

/// A run over two stretches of events is the run over the second from where
/// the first ended.
pub proof fn lemma_run_in_two(start: ControllerView, first: Seq<EventView>, second: Seq<EventView>)
    ensures
        run(start, first + second) == run(run(start, first), second),
    decreases second.len(),
{
    if second.len() == 0 {
        assert(first + second =~= first);
    } else {
        lemma_run_in_two(start, first, second.drop_last());
        assert((first + second).drop_last() =~= first + second.drop_last());
        assert((first + second).last() == second.last());
    }
}

/// A run over one event is one step.
pub proof fn lemma_run_of_one(start: ControllerView, event: EventView)
    ensures
        run(start, seq![event]) == start.next(event),
{
    assert(seq![event].drop_last() =~= Seq::<EventView>::empty());
    assert(run(start, Seq::<EventView>::empty()) == start);
}

/// Once the verdict is in, a session asks for nothing but the release, the
/// teardown and the end, and the verdict stands to the last.
pub proof fn lemma_way_out_is_quiet(start: ControllerView, events: Seq<EventView>)
    requires
        start.phase.winding_down(),
    ensures
        run(start, events).phase.winding_down(),
        run(start, events).phase is Releasing ==> start.phase is Releasing && events.len() == 0,
        verdict(run(start, events).phase) == verdict(start.phase),
        history(start, events).len() == events.len() + 1,
        forall|i: int|
            0 <= i <= events.len() ==> is_exit_action(
                (#[trigger] history(start, events)[i]).kind(),
            ),
    decreases events.len(),
{
    if events.len() > 0 {
        lemma_way_out_is_quiet(start, events.drop_last());
    }
}

/// A session that has finished asks for nothing more, however many events
/// follow: every later state is the finished one.
pub proof fn lemma_finished_forever(start: ControllerView, events: Seq<EventView>)
    requires
        start.finished(),
    ensures
        run(start, events) == start,
        forall|i: int|
            0 <= i <= events.len() ==> (#[trigger] history(start, events)[i]) == start.pending(),
        history(start, events).len() == events.len() + 1,
    decreases events.len(),
{
    if events.len() > 0 {
        lemma_finished_forever(start, events.drop_last());
    }
}

/// No session is ever stuck: from whatever state, four failures in a row
/// bring it to its end. (Four, because a failure of the decoder is none of
/// the session: it takes the loop back to its top, and the way out from
/// there is the release, the teardown, the end.)
pub proof fn lemma_failures_end_the_session(state: ControllerView)
    ensures
        state.next(EventView::Failed).next(EventView::Failed).next(EventView::Failed).next(
            EventView::Failed,
        ).finished(),
        !(state.phase is Decoding) ==> state.next(EventView::Failed).next(EventView::Failed).next(
            EventView::Failed,
        ).finished(),
{
}

/// After a request to quit was seen at the top of an iteration, no packet
/// is awaited, nothing is decoded and nothing is painted, in that iteration
/// or ever after.
pub proof fn lemma_nothing_captured_after_quit(
    state: ControllerView,
    batch: Seq<InputEvent>,
    later: Seq<EventView>,
)
    requires
        state.phase is Polling,
        quit_requested(batch),
    ensures
        forall|i: int|
            0 <= i <= later.len() ==> is_exit_action(
                (#[trigger] history(state.next(EventView::Input(batch)), later)[i]).kind(),
            ),
        verdict(run(state.next(EventView::Input(batch)), later).phase) == Some(
            CameraOutcome::Streamed,
        ),
{
    lemma_way_out_is_quiet(state.next(EventView::Input(batch)), later);
}

/// The setup of a pipeline keeps its order: each setup action is asked for
/// at most once, and none before the one that precedes it. The teardown is
/// asked for at most once, and not unless `Options` was sent; receiver and
/// display are released at most once, and not unless the display was about
/// to be opened.
pub proof fn lemma_setup_in_order(
    endpoint: CameraEndpoint,
    events: Seq<EventView>,
    earlier: ActionKind,
    later: ActionKind,
)
    requires
        setup_rank(earlier) is Some,
        setup_rank(later) is Some,
        setup_rank(earlier)->Some_0 <= setup_rank(later)->Some_0,
    ensures
        occurrences(history(ControllerView::initial(endpoint), events), later) <= occurrences(
            history(ControllerView::initial(endpoint), events),
            earlier,
        ) <= 1,
        occurrences(
            history(ControllerView::initial(endpoint), events),
            ActionKind::Send(SessionMethod::Teardown),
        ) <= occurrences(
            history(ControllerView::initial(endpoint), events),
            ActionKind::Send(SessionMethod::Options),
        ),
        occurrences(history(ControllerView::initial(endpoint), events), ActionKind::ReleaseMedia)
            <= occurrences(
            history(ControllerView::initial(endpoint), events),
            ActionKind::OpenDisplay,
        ),
{
    lemma_history_fits(endpoint, events);
}

/// The teardown is asked for exactly once for every session that was
/// opened, and never otherwise: in a run that has finished, `Teardown`
/// stands in the history once if `Options` was sent, and not at all if it
/// was not; the report says that no teardown was attempted in the second
/// case and in no other. In a run that has not finished it stands there at
/// most once. A session is opened at most once.
pub proof fn lemma_teardown_once_per_session(endpoint: CameraEndpoint, events: Seq<EventView>)
    ensures
        ({
            let actions = history(ControllerView::initial(endpoint), events);
            let end = run(ControllerView::initial(endpoint), events);
            let teardowns = occurrences(actions, ActionKind::Send(SessionMethod::Teardown));
            let options = occurrences(actions, ActionKind::Send(SessionMethod::Options));
            &&& occurrences(actions, ActionKind::OpenSession) <= 1
            &&& teardowns <= options <= 1
            &&& end.finished() ==> teardowns == options
            &&& end.finished() ==> (end.phase->Finished_0.teardown is NotAttempted <==> teardowns
                == 0)
        }),
{
    lemma_history_fits(endpoint, events);
}

/// A run in which the negotiation failed never asks for the receiver or the
/// display, nor for anything of the capture loop, and it asks for the
/// teardown once.
///
/// The run is told in three parts: the events up to a step of the
/// negotiation, the event that makes the step fail, and whatever is
/// reported afterwards.
pub proof fn lemma_failed_negotiation_opens_no_media(
    endpoint: CameraEndpoint,
    before: Seq<EventView>,
    step: NegotiationStep,
    failure: EventView,
    after: Seq<EventView>,
)
    requires
        run(ControllerView::initial(endpoint), before).phase == PhaseView::Negotiating(step),
        fails_negotiation(step, failure),
    ensures
        ({
            let actions = history(
                ControllerView::initial(endpoint),
                before.push(failure) + after,
            );
            &&& occurrences(actions, ActionKind::OpenReceiver) == 0
            &&& occurrences(actions, ActionKind::OpenDisplay) == 0
            &&& occurrences(actions, ActionKind::ReceivePacket) == 0
            &&& occurrences(actions, ActionKind::Decode) == 0
            &&& occurrences(actions, ActionKind::Paint) == 0
            &&& occurrences(actions, ActionKind::ReleaseMedia) == 0
            &&& occurrences(actions, ActionKind::Send(SessionMethod::Options)) == 1
            &&& occurrences(actions, ActionKind::Send(SessionMethod::Teardown)) == 1
        }),
{
    let start = ControllerView::initial(endpoint);
    let failed = run(start, before.push(failure));
    assert(before.push(failure).drop_last() =~= before);
    assert(failed == run(start, before).next(failure));
    lemma_run_in_two(start, before.push(failure), after);
    lemma_way_out_is_quiet(failed, after);
    lemma_history_fits(endpoint, before.push(failure) + after);
}

/// However the capture loop is left (a request to quit, a failure of the
/// receiver, a failure of the display), receiver and display are released
/// once and the teardown is asked for once: both stand in the history as
/// soon as the release has been answered, and never twice.
///
/// The run is told in three parts: the events up to a phase of the capture
/// loop, the event that ends the loop, and whatever is reported afterwards.
pub proof fn lemma_loop_exit_tears_down_once(
    endpoint: CameraEndpoint,
    before: Seq<EventView>,
    exit: EventView,
    after: Seq<EventView>,
)
    requires
        ends_capture_loop(run(ControllerView::initial(endpoint), before).phase, exit),
    ensures
        ({
            let actions = history(ControllerView::initial(endpoint), before.push(exit) + after);
            let teardowns = occurrences(actions, ActionKind::Send(SessionMethod::Teardown));
            &&& occurrences(actions, ActionKind::ReleaseMedia) == 1
            &&& teardowns == if after.len() == 0 {
                0nat
            } else {
                1nat
            }
        }),
{
    let start = ControllerView::initial(endpoint);
    let left = run(start, before.push(exit));
    assert(before.push(exit).drop_last() =~= before);
    assert(left == run(start, before).next(exit));
    lemma_run_in_two(start, before.push(exit), after);
    lemma_history_fits(endpoint, before.push(exit) + after);
    if after.len() > 0 {
        let rest = after.subrange(1, after.len() as int);
        assert(after =~= seq![after[0]] + rest);
        lemma_run_in_two(left, seq![after[0]], rest);
        lemma_run_of_one(left, after[0]);
        lemma_way_out_is_quiet(left.next(after[0]), rest);
    }
}

/// The warm-up counter of a session counts its pictures: after any run it
/// stands at the number of pictures that the session asked to paint, or at
/// its threshold, whichever is less.
pub proof fn lemma_warmup_counts_paints(endpoint: CameraEndpoint, events: Seq<EventView>)
    ensures
        ({
            let end = run(ControllerView::initial(endpoint), events);
            let paints = occurrences(
                history(ControllerView::initial(endpoint), events),
                ActionKind::Paint,
            );
            &&& end.warmup.threshold == WARMUP_FRAMES
            &&& end.warmup.seen == if paints <= WARMUP_FRAMES {
                paints
            } else {
                WARMUP_FRAMES as nat
            }
        }),
    decreases events.len(),
{
    let start = ControllerView::initial(endpoint);
    if events.len() == 0 {
        lemma_occurrences_single(start.pending(), ActionKind::Paint);
    } else {
        lemma_warmup_counts_paints(endpoint, events.drop_last());
        lemma_history_fits(endpoint, events.drop_last());
        lemma_occurrences_push(
            history(start, events.drop_last()),
            run(start, events).pending(),
            ActionKind::Paint,
        );
    }
}

/// Every picture is painted, and each is marked by its place: the picture
/// that a run has just asked to paint is marked as past the warm-up exactly
/// if it is not among the first forty that the session asked to paint.
pub proof fn lemma_paint_is_marked_by_its_place(endpoint: CameraEndpoint, events: Seq<EventView>)
    requires
        run(ControllerView::initial(endpoint), events).phase is Painting,
    ensures
        run(ControllerView::initial(endpoint), events).pending() == (ActionView::Paint {
            past_warmup: occurrences(
                history(ControllerView::initial(endpoint), events),
                ActionKind::Paint,
            ) > WARMUP_FRAMES,
        }),
{
    let start = ControllerView::initial(endpoint);
    lemma_warmup_counts_paints(endpoint, events.drop_last());
    lemma_occurrences_push(
        history(start, events.drop_last()),
        run(start, events).pending(),
        ActionKind::Paint,
    );
}

/// No picture is painted before the negotiation has succeeded: a history
/// with a `Paint` in it holds `Play`, the opening of the receiver and the
/// opening of the display, each once.
pub proof fn lemma_paint_needs_negotiation(endpoint: CameraEndpoint, events: Seq<EventView>)
    ensures
        ({
            let actions = history(ControllerView::initial(endpoint), events);
            occurrences(actions, ActionKind::Paint) > 0 ==> {
                &&& occurrences(actions, ActionKind::Send(SessionMethod::Play)) == 1
                &&& occurrences(actions, ActionKind::OpenReceiver) == 1
                &&& occurrences(actions, ActionKind::OpenDisplay) == 1
            }
        }),
{
    lemma_history_fits(endpoint, events);
}

/// Receiver and display are released on every way out: in a run that has
/// reached the teardown, the release was asked for exactly if the display
/// was about to be opened, which takes an open receiver.
pub proof fn lemma_media_released_before_teardown(endpoint: CameraEndpoint, events: Seq<EventView>)
    ensures
        ({
            let actions = history(ControllerView::initial(endpoint), events);
            occurrences(actions, ActionKind::Send(SessionMethod::Teardown)) == 1 ==> occurrences(
                actions,
                ActionKind::ReleaseMedia,
            ) == occurrences(actions, ActionKind::OpenDisplay)
        }),
{
    lemma_history_fits(endpoint, events);
}

/// The verdict tells how far the pipeline got: a camera whose report names
/// a stage asked for every setup action up to that stage, and for none
/// beyond it.
pub proof fn lemma_verdict_tells_reach(
    endpoint: CameraEndpoint,
    events: Seq<EventView>,
    kind: ActionKind,
)
    requires
        setup_rank(kind) is Some,
    ensures
        occurrences(history(ControllerView::initial(endpoint), events), kind) == if
            setup_rank(kind)->Some_0 <= reach(
            run(ControllerView::initial(endpoint), events).phase,
        ) {
            1nat
        } else {
            0nat
        },
{
    lemma_history_fits(endpoint, events);
}

} // verus!
