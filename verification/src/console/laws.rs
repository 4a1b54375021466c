//! What holds of a session over time.

use vstd::prelude::*;
use vstd::view::View as _;

use super::event::binding;
use super::intel::visible;
use super::key::{Event, KeyCode, KeyEvent, KeyEventKind};
use super::session::{
    chronology, frame_after, ConclusionKindModel, OperationModel, RequestModel, ReviewKindModel,
    SessionModel, SnapshotModel, ValidationModel,
};
use super::state::{
    scrollable, Msg, PaneId, RunInspectorMode, View, MAX_PANE_SCROLL, NETWORK_BOOTSTRAP_LINGER_TICKS,
    NETWORK_BOOTSTRAP_STEP_COUNT,
};
use super::{
    clamp_after, dialog_pending, dispatched, is_transition, repeat_untrustworthy, undersized,
    ClampTarget, PageSizes, TransitionPress, TRANSITION_KEY_DEBOUNCE_NANOS,
};
use crate::lua_controller::{ErrorModel, RecordModel};
use crate::simulation::{knows, DiscoveredTile, TickOutcome};
use crate::text::normalized;

verus! {

/// What holds of every session. The selected signal is one that is shown, and
/// a selected review point is one of a finished run's chronology; scroll
/// offsets stay within their bound; an opportunity is being worked exactly
/// when there is a controller for it.
pub proof fn law_session_invariants(session: SessionModel)
    requires
        session.wf(),
    ensures
        0 <= session.selected_signal < visible(session.connected).len(),
        session.review_selected matches Some(i) ==> session.concluded() && 0 <= i < (
        session.operation->0).review_points().len(),
        forall|pane: PaneId| 0 <= #[trigger] session.scroll(pane) <= MAX_PANE_SCROLL,
        forall|pane: PaneId| !scrollable(pane) ==> #[trigger] session.scroll(pane) == 0,
        session.controller is Some <==> session.working_set is Some,
        session.network_bootstrap_pending ==> session.connected,
{
    reveal(SessionModel::wf);
}

/// Help is an overlay: dismissing it leads back to the view that it was
/// opened from, and nothing but Help's own scroll offset has changed.
pub proof fn law_help_returns_to_its_view(session: SessionModel)
    requires
        session.current_view != View::Help,
    ensures
        session.after(Msg::OpenHelp).current_view == View::Help,
        session.after(Msg::OpenHelp).after(Msg::DismissHelp) == (SessionModel {
            help_return_view: None,
            help_scroll: 0,
            ..session
        }),
{
    reveal(SessionModel::after_navigation);
}

/// Help stops a run that is being watched without pausing it: once Help is
/// dismissed, the run goes on.
pub proof fn law_help_suspends_the_run(session: SessionModel)
    requires
        session.advancing(),
    ensures
        !session.after(Msg::OpenHelp).advancing(),
        session.after(Msg::OpenHelp).operation == session.operation,
        session.after(Msg::OpenHelp).after(Msg::DismissHelp).advancing(),
{
    reveal(SessionModel::after_navigation);
}

/// Leaving an active run for another view pauses it; returning to it leaves
/// it as it was left.
pub proof fn law_leaving_pauses_the_run(session: SessionModel, view: View)
    requires
        session.active(),
        session.reachable(view),
        view == View::Signals || view == View::Target || view == View::Controller,
    ensures
        session.after(Msg::Navigate(view)).current_view == view,
        (session.after(Msg::Navigate(view)).operation->0).paused,
        session.reachable(View::Operation) ==> session.after(Msg::Navigate(view)).after(
            Msg::Navigate(View::Operation),
        ).operation == session.after(Msg::Navigate(view)).operation,
{
    reveal(SessionModel::after_navigation);
}

/// What an intent can do to the parts of a session that outlast it: nothing
/// to the connection and the record of the run; and a changed source is
/// unchecked.
#[verifier::opaque]
pub open spec fn lasting_parts_kept(before: SessionModel, after: SessionModel) -> bool {
    &&& after.connected == before.connected
    &&& after.network_bootstrap_pending == before.network_bootstrap_pending
    &&& after.network_bootstrap_step == before.network_bootstrap_step
    &&& after.next_run_id == before.next_run_id
    &&& before.operation is Some <==> after.operation is Some
    &&& before.operation matches Some(operation) ==> same_run(after.operation->0, operation)
    &&& after.validation == before.validation || after.validation == ValidationModel::Unchecked
    &&& after.source() != before.source() ==> after.validation == ValidationModel::Unchecked || (
    before.controller is None && after.validation == before.validation)
}

proof fn lemma_navigation_keeps_lasting_parts(session: SessionModel, msg: Msg)
    requires
        session.wf(),
    ensures
        lasting_parts_kept(session, session.after_navigation(msg)),
{
    reveal(lasting_parts_kept);
    reveal(SessionModel::after_navigation);
    reveal(SessionModel::wf);
}

proof fn lemma_signals_keeps_lasting_parts(session: SessionModel, msg: Msg)
    ensures
        lasting_parts_kept(session, session.after_signals(msg)),
{
    reveal(lasting_parts_kept);
    reveal(SessionModel::after_signals);
}

proof fn lemma_scroll_keeps_lasting_parts(session: SessionModel, msg: Msg)
    ensures
        lasting_parts_kept(session, session.after_scroll(msg)),
{
    reveal(lasting_parts_kept);
    reveal(SessionModel::after_scroll);
}

proof fn lemma_review_keeps_lasting_parts(session: SessionModel, msg: Msg)
    ensures
        lasting_parts_kept(session, session.after_review(msg)),
{
    reveal(lasting_parts_kept);
    reveal(SessionModel::after_review);
}

proof fn lemma_source_scroll_keeps_lasting_parts(session: SessionModel, msg: Msg)
    ensures
        lasting_parts_kept(session, session.after_source_scroll(msg)),
{
    reveal(lasting_parts_kept);
    reveal(SessionModel::after_source_scroll);
}

proof fn lemma_controller_keeps_lasting_parts(session: SessionModel, msg: Msg)
    ensures
        lasting_parts_kept(session, session.after_controller(msg)),
{
    reveal(lasting_parts_kept);
    reveal(SessionModel::after_controller);
}

proof fn lemma_quit_keeps_lasting_parts(session: SessionModel, msg: Msg)
    ensures
        lasting_parts_kept(session, session.after_quit(msg)),
{
    reveal(lasting_parts_kept);
    reveal(SessionModel::after_quit);
}

proof fn lemma_run_keeps_lasting_parts(session: SessionModel, msg: Msg)
    ensures
        lasting_parts_kept(session, session.after_run(msg)),
{
    reveal(lasting_parts_kept);
    reveal(SessionModel::after_run);
}

proof fn lemma_lasting_parts_kept(session: SessionModel, msg: Msg)
    requires
        session.wf(),
    ensures
        lasting_parts_kept(session, session.after(msg)),
{
    lemma_navigation_keeps_lasting_parts(session, msg);
    lemma_signals_keeps_lasting_parts(session, msg);
    lemma_scroll_keeps_lasting_parts(session, msg);
    lemma_review_keeps_lasting_parts(session, msg);
    lemma_source_scroll_keeps_lasting_parts(session, msg);
    lemma_controller_keeps_lasting_parts(session, msg);
    lemma_quit_keeps_lasting_parts(session, msg);
    lemma_run_keeps_lasting_parts(session, msg);
}

/// No intent takes the connection away, and none brings it.
pub proof fn law_intents_keep_the_connection(session: SessionModel, msg: Msg)
    requires
        session.wf(),
    ensures
        session.after(msg).connected == session.connected,
        session.after(msg).network_bootstrap_pending == session.network_bootstrap_pending,
        session.after(msg).network_bootstrap_step == session.network_bootstrap_step,
{
    lemma_lasting_parts_kept(session, msg);
    reveal(lasting_parts_kept);
}

/// A connection, once there, stays, whatever the host replies. It comes with
/// the tick that reaches the uplink, and only then does Network Bootstrap
/// begin to play: at most once, since nothing takes the connection away.
pub proof fn law_success_connects_once(
    session: SessionModel,
    reply: Result<Seq<char>, ErrorModel>,
    source: Seq<char>,
    failure: Option<ErrorModel>,
)
    requires
        session.wf(),
    ensures
        session.connected ==> session.stepped(reply).connected,
        session.deployed(source, failure).connected == session.connected,
        session.validated(source, failure).connected == session.connected,
        session.bootstrapped().connected == session.connected,
        session.stepped(reply).connected && !session.connected ==> {
            &&& session.stepped(reply).network_bootstrap_pending
            &&& session.stepped(reply).current_view == View::Signals
            &&& (session.stepped(reply).operation->0).records.last().outcome
                == TickOutcome::Succeeded
        },
        session.stepped(reply).network_bootstrap_pending && !session.network_bootstrap_pending
            ==> !session.connected && session.stepped(reply).connected,
{
}

/// The session after `ticks` ticks of Network Bootstrap.
pub open spec fn after_bootstrap_ticks(session: SessionModel, ticks: nat) -> SessionModel
    decreases ticks,
{
    if ticks == 0 {
        session
    } else {
        after_bootstrap_ticks(session, (ticks - 1) as nat).bootstrapped()
    }
}

/// Network Bootstrap reveals one step per tick, holds its completion for the
/// lingering ticks, and ends with the tick after that.
pub proof fn law_network_bootstrap_timing(session: SessionModel, ticks: nat)
    requires
        session.network_bootstrap_pending,
        session.network_bootstrap_step == 0,
    ensures
        ({
            let total = NETWORK_BOOTSTRAP_STEP_COUNT + NETWORK_BOOTSTRAP_LINGER_TICKS;
            let later = after_bootstrap_ticks(session, ticks);
            &&& later.network_bootstrap_pending <==> ticks <= total
            &&& later.network_bootstrap_step == if ticks <= total {
                ticks as int
            } else {
                total
            }
        }),
    decreases ticks,
{
    if ticks > 0 {
        law_network_bootstrap_timing(session, (ticks - 1) as nat);
    }
}

/// Every deployment of the controller's source has a higher number than all
/// before it, and keeps it.
pub proof fn law_runs_are_numbered_in_order(
    session: SessionModel,
    source: Seq<char>,
    failure: Option<ErrorModel>,
)
    requires
        session.wf(),
        session.source() == Some(source),
    ensures
        (session.deployed(source, failure).operation->0).run_id == session.next_run_id,
        session.operation matches Some(operation) ==> operation.run_id < (session.deployed(
            source,
            failure,
        ).operation->0).run_id,
        session.next_run_id < session.deployed(source, failure).next_run_id,
{
    reveal(SessionModel::wf);
}

/// Whether two deployments are the same run, apart from its being paused.
pub open spec fn same_run(a: OperationModel, b: OperationModel) -> bool {
    a == (OperationModel { paused: a.paused, ..b })
}

/// No intent touches the record of a run: not its source, its number, its
/// ticks, its first observation or how it ended. In particular, browsing a
/// finished run, and editing the controller, leave the run as it was.
pub proof fn law_intents_keep_the_run_record(session: SessionModel, msg: Msg)
    requires
        session.wf(),
    ensures
        session.operation is Some <==> session.after(msg).operation is Some,
        session.operation matches Some(operation) ==> same_run(
            session.after(msg).operation->0,
            operation,
        ),
        session.after(msg).next_run_id == session.next_run_id,
{
    lemma_lasting_parts_kept(session, msg);
    reveal(lasting_parts_kept);
}

/// A tick adds at most one record to an active run and changes none of the
/// others; its source, number and first observation stay. A finished run does
/// not change at all.
pub proof fn law_ticks_only_append(session: SessionModel, reply: Result<Seq<char>, ErrorModel>)
    requires
        session.operation is Some,
    ensures
        ({
            let before = session.operation->0;
            let after = session.stepped(reply).operation->0;
            &&& after.deployed_source == before.deployed_source
            &&& after.run_id == before.run_id
            &&& after.initial_snapshot == before.initial_snapshot
            &&& before.records.len() <= after.records.len() <= before.records.len() + 1
            &&& forall|i: int|
                0 <= i < before.records.len() ==> after.records[i] == #[trigger] before.records[i]
            &&& before.finished() ==> session.stepped(reply) == session
        }),
{
}

/// A validation result is about the source that is there: an intent that
/// changes the source leaves it unchecked.
pub proof fn law_changed_source_is_unchecked(session: SessionModel, msg: Msg)
    requires
        session.wf(),
    ensures
        session.after(msg).source() != session.source() ==> session.after(msg).validation
            == ValidationModel::Unchecked,
        session.after(msg).source() == session.source() && session.source() is Some ==> (
        session.after(msg).validation == session.validation || session.after(msg).validation
            == ValidationModel::Unchecked),
{
    lemma_lasting_parts_kept(session, msg);
    reveal(lasting_parts_kept);
    reveal(SessionModel::wf);
}

/// A validation is of the source that was there when it was asked for: the
/// host is handed that source, and its reply decides. A reply about any other
/// source than the present one counts for nothing, so a reply that comes after
/// an edit leaves the edited source unchecked.
pub proof fn law_validation_is_of_the_asked_source(
    session: SessionModel,
    source: Seq<char>,
    failure: Option<ErrorModel>,
)
    ensures
        session.source() == Some(source) ==> {
            let asked = session.after(Msg::ValidateController);
            &&& session.request(Msg::ValidateController) == Some(RequestModel::Validate(source))
            &&& asked.source() == Some(source)
            &&& asked.validated(source, failure) == (SessionModel {
                validation: match failure {
                    None => ValidationModel::Valid,
                    Some(error) => ValidationModel::Invalid(error.message()),
                },
                ..session
            })
        },
        session.source() != Some(source) ==> session.validated(source, failure) == session,
{
    reveal(SessionModel::after_controller);
    reveal(SessionModel::request);
}

/// A run is of the controller's source: a reply about any other one starts no
/// run.
pub proof fn law_runs_are_of_the_working_source(
    session: SessionModel,
    source: Seq<char>,
    failure: Option<ErrorModel>,
)
    ensures
        session.source() == Some(source) ==> session.deployed(source, failure).operation == Some(
            OperationModel::deployed(source, session.next_run_id, failure),
        ),
        OperationModel::deployed(source, session.next_run_id, failure).deployed_source == source,
        session.source() != Some(source) ==> session.deployed(source, failure) == session,
{
}

/// No reply of the host, and no tick of Network Bootstrap, changes the
/// controller, and only a validation changes what is known of it.
pub proof fn law_replies_keep_the_source(
    session: SessionModel,
    reply: Result<Seq<char>, ErrorModel>,
    source: Seq<char>,
    failure: Option<ErrorModel>,
)
    ensures
        session.validated(source, failure).controller == session.controller,
        session.deployed(source, failure).controller == session.controller,
        session.deployed(source, failure).validation == session.validation,
        session.stepped(reply).controller == session.controller,
        session.stepped(reply).validation == session.validation,
        session.bootstrapped().controller == session.controller,
        session.bootstrapped().validation == session.validation,
{
}

/// Toggling the Run Inspector, or the pause of a run, twice changes nothing.
pub proof fn law_toggles_are_their_own_inverse(session: SessionModel)
    ensures
        session.after(Msg::ToggleRunInspectorMode).after(Msg::ToggleRunInspectorMode) == session,
        session.after(Msg::TogglePauseOperation).after(Msg::TogglePauseOperation) == session,
{
    reveal(SessionModel::after_source_scroll);
    reveal(SessionModel::after_run);
}

/// Nothing is lost without being asked: a request to quit ends the session
/// only where the controller is not modified and no run is active, and a
/// request to deploy replaces no active run.
pub proof fn law_losses_are_confirmed(session: SessionModel)
    ensures
        session.after(Msg::RequestQuit).should_quit && !session.should_quit ==> !session.modified()
            && !session.active(),
        session.modified() || session.active() ==> session.after(
            Msg::RequestQuit,
        ).quit_confirmation_pending,
        session.request(Msg::RequestDeploy) is Some ==> !session.active(),
        session.controller is Some && session.active() ==> session.after(
            Msg::RequestDeploy,
        ).redeploy_confirmation_pending,
        session.after(Msg::RequestResetController).source() != session.source()
            ==> !session.modified(),
{
    reveal(SessionModel::after_quit);
    reveal(SessionModel::after_run);
    reveal(SessionModel::after_controller);
    reveal(SessionModel::request);
}

/// A run has a conclusion exactly when it has ended.
pub proof fn law_finished_runs_have_a_conclusion(operation: OperationModel)
    requires
        operation.wf(),
    ensures
        operation.finished() <==> operation.conclusion() is Some,
        operation.error is Some ==> operation.conclusion_kind() == Some(
            ConclusionKindModel::ControllerError(operation.error->0),
        ),
{
    reveal(OperationModel::wf);
}

/// The shape of a chronology: first the initial observation, then every
/// completed tick in order, then the failure that ended the run, if one did,
/// in the state of the point before it.
pub proof fn law_chronology_shape(
    initial: SnapshotModel,
    records: Seq<RecordModel>,
    error: Option<ErrorModel>,
    i: int,
)
    ensures
        ({
            let points = chronology(Some(initial), records, error);
            &&& points.len() == 1 + records.len() + if error is Some {
                1int
            } else {
                0
            }
            &&& points[0].kind == ReviewKindModel::Initial
            &&& points[0].snapshot == initial
            &&& points[0].newly_discovered.len() == 0
            &&& 1 <= i <= records.len() ==> points[i].kind == ReviewKindModel::Tick(records[i - 1])
            &&& error is Some ==> points.last().kind == ReviewKindModel::TerminalFailure(error->0)
                && points.last().snapshot == points[records.len() as int].snapshot
                && points.last().newly_discovered.len() == 0
        }),
        chronology(None, records, error).len() == 0,
{
}

/// The new tiles of a completed tick are exactly the tiles of its frame that
/// the frame before it did not have.
pub proof fn law_newly_discovered(
    initial: SnapshotModel,
    records: Seq<RecordModel>,
    error: Option<ErrorModel>,
    i: int,
    tile: DiscoveredTile,
)
    requires
        1 <= i <= records.len(),
    ensures
        ({
            let points = chronology(Some(initial), records, error);
            points[i].newly_discovered.contains(tile) <==> points[i].snapshot.discovered.contains(
                tile,
            ) && !knows(points[i - 1].snapshot.discovered, tile.position)
        }),
{
    broadcast use vstd::seq_lib::group_filter_ensures;

    let points = chronology(Some(initial), records, error);
    let previous = frame_after(initial, records, i - 1).discovered;
    let next = records[i - 1].discovered;
    let is_new = |t: DiscoveredTile| !knows(previous, t.position);
    assert(points[i - 1].snapshot.discovered == previous);
    assert(points[i].newly_discovered == next.filter(is_new));
    if next.filter(is_new).contains(tile) {
        next.lemma_filter_contains_rev(is_new, tile);
        let j = choose|j: int|
            0 <= j < next.filter(is_new).len() && next.filter(is_new)[j] == tile;
        assert(is_new(next.filter(is_new)[j]));
    }
    if next.contains(tile) && is_new(tile) {
        let j = choose|j: int| 0 <= j < next.len() && next[j] == tile;
        next.lemma_filter_contains(is_new, j);
    }
}

/// In a frame that is too small for the console, no event does anything but
/// what is about quitting.
pub proof fn law_undersized_frame_only_quits(
    session: SessionModel,
    event: Event,
    frame_size: (u16, u16),
    pages: PageSizes,
    now: u64,
    last: Option<TransitionPress>,
)
    requires
        undersized(frame_size),
    ensures
        ({
            let outcome = dispatched(session, event, frame_size, pages, now, last).session;
            ||| outcome == session
            ||| outcome == session.after(Msg::RequestQuit)
            ||| outcome == session.after(Msg::ConfirmQuit)
            ||| outcome == session.after(Msg::CancelQuit)
        }),
{
}

/// While Network Bootstrap plays, no event does anything but ask to quit.
pub proof fn law_network_bootstrap_takes_no_input(
    session: SessionModel,
    event: Event,
    frame_size: (u16, u16),
    pages: PageSizes,
    now: u64,
    last: Option<TransitionPress>,
)
    requires
        session.network_bootstrap_pending,
    ensures
        ({
            let outcome = dispatched(session, event, frame_size, pages, now, last).session;
            outcome == session || outcome == session.after(Msg::RequestQuit)
        }),
{
}

/// Holding down a key that causes a transition causes no further one, and the
/// release of a key causes nothing.
pub proof fn law_held_transition_keys_act_once(
    session: SessionModel,
    key: KeyEvent,
    frame_size: (u16, u16),
    pages: PageSizes,
    now: u64,
    last: Option<TransitionPress>,
)
    requires
        key.kind == KeyEventKind::Repeat && is_transition(session, key) || key.kind
            == KeyEventKind::Release,
    ensures
        dispatched(session, Event::Key(key), frame_size, pages, now, last).session == session,
        !dispatched(session, Event::Key(key), frame_size, pages, now, last).redraw,
{
}

/// The answer that closed a confirmation does not leak into what is behind
/// it: the same key, pressed again within the debounce time, does nothing,
/// and neither does one that follows on that in the same way.
pub proof fn law_answers_do_not_leak(
    asking: SessionModel,
    session: SessionModel,
    later: SessionModel,
    key: KeyEvent,
    frame_size: (u16, u16),
    pages: PageSizes,
    first: u64,
    second: u64,
    third: u64,
    last: Option<TransitionPress>,
)
    requires
        key.kind == KeyEventKind::Press,
        repeat_untrustworthy(key.code),
        dialog_pending(asking),
        !dialog_pending(session),
        !dialog_pending(later),
        second - first < TRANSITION_KEY_DEBOUNCE_NANOS,
        third - second < TRANSITION_KEY_DEBOUNCE_NANOS,
    ensures
        ({
            let answered = dispatched(asking, Event::Key(key), frame_size, pages, first, last);
            let repeated = dispatched(
                session,
                Event::Key(key),
                frame_size,
                pages,
                second,
                answered.last,
            );
            let again = dispatched(later, Event::Key(key), frame_size, pages, third, repeated.last);
            &&& repeated.session == session
            &&& !repeated.redraw
            &&& again.session == later
            &&& !again.redraw
        }),
{
}

/// Events without a key. A frame of another size is only drawn again. Pasted
/// text reaches the controller source, with its line ends as line feeds, only
/// where the source shows, has the focus, and nothing else owns the interface,
/// in a frame of at least a hundred and twenty columns and forty rows.
pub proof fn law_events_without_a_key(
    session: SessionModel,
    text: String,
    frame_size: (u16, u16),
    pages: PageSizes,
    now: u64,
    last: Option<TransitionPress>,
)
    ensures
        ({
            let resized = dispatched(session, Event::Resize, frame_size, pages, now, last);
            let other = dispatched(session, Event::Other, frame_size, pages, now, last);
            let pasted = dispatched(session, Event::Paste(text), frame_size, pages, now, last);
            let accepted = frame_size.0 >= 120 && frame_size.1 >= 40
                && !session.quit_confirmation_pending && !session.reset_confirmation_pending
                && !session.redeploy_confirmation_pending && !session.network_bootstrap_pending
                && !session.bootstrap_intro_visible && session.current_view == View::Controller
                && session.focus.controller == PaneId::ControllerSource && text@.len() > 0;
            &&& undersized(frame_size) <==> frame_size.0 < 120 || frame_size.1 < 40
            &&& resized.session == session && resized.redraw && resized.request is None
                && resized.clamp is None && resized.last == last
            &&& other.session == session && !other.redraw && other.request is None
                && other.clamp is None && other.last == last
            &&& pasted.request is None && pasted.clamp is None && pasted.last == last
            &&& pasted.redraw == accepted
            &&& !accepted ==> pasted.session == session
            &&& accepted ==> (session.controller matches Some(document)
                ==> pasted.session.controller == Some(document.paste(normalized(text@))))
        }),
{
}

/// What a key is bound to in a session.
pub open spec fn bound_in(session: SessionModel, key: KeyEvent) -> Option<Msg> {
    binding(
        key,
        session.current_view,
        session.network_bootstrap_pending,
        session.bootstrap_intro_visible,
        session.reset_confirmation_pending,
        session.quit_confirmation_pending,
        session.redeploy_confirmation_pending,
        session.focus.of(session.current_view),
        session.focus_movable(session.current_view),
    )
}

/// A key press carries out what the key is bound to, once, and what that asks
/// of the host is handed on. Page keys move by the page of what they move in;
/// while the Run Inspector shows the deployed source, what would move through
/// the chronology scrolls that source instead.
pub proof fn law_key_presses_carry_out_their_binding(
    session: SessionModel,
    key: KeyEvent,
    frame_size: (u16, u16),
    pages: PageSizes,
    now: u64,
    last: Option<TransitionPress>,
)
    requires
        key.kind == KeyEventKind::Press,
        last is None || key.code != KeyCode::Char('y') && key.code != KeyCode::Char('n'),
        frame_size.0 >= 120,
        frame_size.1 >= 40,
    ensures
        ({
            let outcome = dispatched(session, Event::Key(key), frame_size, pages, now, last);
            let source = session.run_inspector_mode == RunInspectorMode::Source;
            &&& bound_in(session, key) is None ==> {
                &&& outcome.session == session
                &&& !outcome.redraw
                &&& outcome.request is None
                &&& outcome.clamp is None
            }
            &&& bound_in(session, key) matches Some(msg) ==> {
                let meant = match msg {
                    Msg::SelectSignalPageBackward(_) => Msg::SelectSignalPageBackward(
                        pages.signals,
                    ),
                    Msg::SelectSignalPageForward(_) => Msg::SelectSignalPageForward(pages.signals),
                    Msg::ScrollPageBackward(_) => Msg::ScrollPageBackward(pages.focused_pane),
                    Msg::ScrollPageForward(_) => Msg::ScrollPageForward(pages.focused_pane),
                    Msg::SelectReviewPointPageBackward(_) => if source {
                        Msg::ScrollSourcePageBackward(pages.review_source)
                    } else {
                        Msg::SelectReviewPointPageBackward(pages.review_chronology)
                    },
                    Msg::SelectReviewPointPageForward(_) => if source {
                        Msg::ScrollSourcePageForward(pages.review_source)
                    } else {
                        Msg::SelectReviewPointPageForward(pages.review_chronology)
                    },
                    Msg::SelectPreviousReviewPoint => if source {
                        Msg::ScrollSourceUp
                    } else {
                        msg
                    },
                    Msg::SelectNextReviewPoint => if source {
                        Msg::ScrollSourceDown
                    } else {
                        msg
                    },
                    Msg::SelectFirstReviewPoint => if source {
                        Msg::JumpSourceStart
                    } else {
                        msg
                    },
                    Msg::SelectLastReviewPoint => if source {
                        Msg::JumpSourceEnd
                    } else {
                        msg
                    },
                    Msg::ScrollSourcePageBackward(_) => Msg::ScrollSourcePageBackward(
                        pages.review_source,
                    ),
                    Msg::ScrollSourcePageForward(_) => Msg::ScrollSourcePageForward(
                        pages.review_source,
                    ),
                    _ => msg,
                };
                &&& outcome.session == session.after(meant)
                &&& outcome.request == session.request(meant)
                &&& outcome.redraw
            }
        }),
{
}

/// In a frame that is too small for the console, a key still asks to quit, and
/// answers that question; every other key does nothing.
pub proof fn law_small_frames_can_be_quit(
    session: SessionModel,
    key: KeyEvent,
    frame_size: (u16, u16),
    pages: PageSizes,
    now: u64,
)
    requires
        key.kind == KeyEventKind::Press,
        frame_size.0 < 120 || frame_size.1 < 40,
    ensures
        ({
            let outcome = dispatched(session, Event::Key(key), frame_size, pages, now, None);
            let bound = bound_in(session, key);
            let quits = bound == Some(Msg::RequestQuit) || bound == Some(Msg::ConfirmQuit) || bound
                == Some(Msg::CancelQuit);
            &&& quits ==> outcome.session == session.after(bound->0) && outcome.redraw
            &&& !quits ==> outcome.session == session && !outcome.redraw && outcome.request is None
        }),
{
}

/// A scroll that goes as far as the text could reach is left to be bounded by
/// what the frame shows: that of Help, that of the report, and that of the
/// deployed source; nothing else is.
pub proof fn law_scrolls_are_left_to_be_bounded(session: SessionModel, msg: Msg)
    ensures
        ({
            let clamp = clamp_after(session, msg);
            let pane_scroll = msg == Msg::ScrollUp || msg == Msg::ScrollDown
                || msg is ScrollPageBackward || msg is ScrollPageForward || msg
                == Msg::JumpScrollStart || msg == Msg::JumpScrollEnd;
            let source_scroll = msg == Msg::ScrollSourceUp || msg == Msg::ScrollSourceDown
                || msg is ScrollSourcePageBackward || msg is ScrollSourcePageForward || msg
                == Msg::JumpSourceStart || msg == Msg::JumpSourceEnd;
            let pane = session.focus.of(session.current_view);
            &&& pane_scroll && (pane == PaneId::Help || pane == PaneId::Report) ==> clamp == Some(
                ClampTarget::Pane(pane),
            )
            &&& pane_scroll && pane != PaneId::Help && pane != PaneId::Report ==> clamp is None
            &&& source_scroll ==> clamp == Some(ClampTarget::Source)
            &&& !pane_scroll && !source_scroll ==> clamp is None
        }),
{
}

/// A held key counts like a press for every key but those that lead somewhere:
/// `Enter`, `Esc`, the function keys, `Ctrl+V`, and `Tab` in the Run Inspector,
/// which then do nothing at all.
pub proof fn law_what_held_keys_do(
    session: SessionModel,
    key: KeyEvent,
    frame_size: (u16, u16),
    pages: PageSizes,
    now: u64,
    last: Option<TransitionPress>,
)
    requires
        key.kind == KeyEventKind::Repeat,
    ensures
        ({
            let held = dispatched(session, Event::Key(key), frame_size, pages, now, last);
            let pressed = dispatched(
                session,
                Event::Key(KeyEvent { kind: KeyEventKind::Press, ..key }),
                frame_size,
                pages,
                now,
                last,
            );
            let leads = key.code == KeyCode::Enter || key.code == KeyCode::Esc || key.code is F || (
            key.code == KeyCode::Char('v') && key.modifiers.control && !key.modifiers.alt) || (
            key.code == KeyCode::Tab && session.current_view == View::Operation
                && session.focus.operation == PaneId::OperationTelemetry);
            &&& leads ==> held.session == session && !held.redraw && held.request is None
                && held.last == last
            &&& !leads ==> held == pressed
        }),
{
}

/// Only the same `y` or `n`, within a hundred and fifty milliseconds of the
/// press that was remembered, is dropped, and only while no confirmation is
/// pending; a press is remembered while one is, and while it is dropped.
pub proof fn law_which_presses_are_dropped(
    session: SessionModel,
    key: KeyEvent,
    frame_size: (u16, u16),
    pages: PageSizes,
    now: u64,
    last: Option<TransitionPress>,
)
    requires
        key.kind == KeyEventKind::Press,
    ensures
        ({
            let outcome = dispatched(session, Event::Key(key), frame_size, pages, now, last);
            let fresh = dispatched(session, Event::Key(key), frame_size, pages, now, None);
            let answers = key.code == KeyCode::Char('y') || key.code == KeyCode::Char('n');
            let asked = session.quit_confirmation_pending || session.reset_confirmation_pending
                || session.redeploy_confirmation_pending;
            let close = last matches Some(press) && press.code == key.code && press.modifiers
                == key.modifiers && now - press.time < 150_000_000;
            &&& answers && close && !asked ==> outcome.session == session && !outcome.redraw
                && outcome.request is None
            &&& !(answers && close && !asked) ==> outcome.session == fresh.session && outcome.redraw
                == fresh.redraw && outcome.request == fresh.request && outcome.clamp == fresh.clamp
            &&& !answers ==> outcome.last == last
            &&& answers && (asked || close) ==> outcome.last == Some(
                TransitionPress { code: key.code, modifiers: key.modifiers, time: now },
            )
            &&& answers && !asked && !close ==> outcome.last is None
        }),
{
}

} // verus!
