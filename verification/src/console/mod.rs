//! The persistent, full-screen resistance-console session.
//!
//! A session model (`state`), key bindings (`event`) and what happens to each
//! terminal event (`should_redraw`). Signals, Target, Controller, Operation
//! and After Action make up the edit, deploy, observe and retry loop.

pub mod buffer;
pub mod document;
pub mod editor;
pub mod event;
pub mod intel;
pub mod intro;
pub mod key;
pub mod laws;
pub mod lines;
pub mod marker;
pub mod navigation;
pub mod profile;
pub mod run_laws;
pub mod session;
pub mod session_laws;
pub mod state;

use vstd::prelude::*;
use vstd::view::View as _;

use crate::text::{normalize_newlines, normalized};
use event::binding;
use key::{Event, KeyCode, KeyEvent, KeyEventKind, KeyModifiers};
use navigation::{in_source_mode, surface_of, NavSurface};
use session::{RequestModel, SessionModel};
use state::{request_model, scrollable, AppState, Msg, PaneId, Request, RunInspectorMode, View};

verus! {

/// The narrowest frame that shows the console.
pub const MIN_COLUMNS: u16 = 120;

/// The lowest frame that shows the console.
pub const MIN_ROWS: u16 = 40;

/// How often, in milliseconds, a run that is being watched advances on its
/// own: a matter of presentation, with no effect on what the run does.
pub const OPERATION_TICK_MILLIS: u64 = 350;

/// For how long, in nanoseconds, another press of the key that closed a
/// confirmation counts as a repetition of that press: well above a terminal's
/// repeat interval, and well below the gap between two deliberate presses.
pub const TRANSITION_KEY_DEBOUNCE_NANOS: u64 = 150_000_000;

/// The key that last closed a confirmation, and when.
#[derive(Debug, Clone, Copy, PartialEq, Eq, Structural)]
pub struct TransitionPress {
    pub code: KeyCode,
    pub modifiers: KeyModifiers,
    /// Nanoseconds on the session's clock.
    pub time: u64,
}

/// How many rows of each list or text the current frame shows.
#[derive(Debug, Clone, Copy, PartialEq, Eq, Structural)]
pub struct PageSizes {
    pub signals: usize,
    pub review_chronology: usize,
    pub review_source: usize,
    pub focused_pane: usize,
}

/// A scroll offset to be bounded by what the frame shows.
#[derive(Debug, Clone, Copy, PartialEq, Eq, Structural)]
pub enum ClampTarget {
    Pane(PaneId),
    Source,
}

/// What is left to do after an event.
#[derive(Debug, Clone, PartialEq, Eq)]
pub struct Dispatch {
    /// Whether the frame has to be drawn again.
    pub redraw: bool,
    /// Work for the host.
    pub request: Option<Request>,
    /// A scroll offset that has to be bounded: see [`settle_scroll`].
    pub clamp: Option<ClampTarget>,
}

/// Whether only the geometry warning fits into the frame.
pub open spec fn undersized(frame_size: (u16, u16)) -> bool {
    frame_size.0 < MIN_COLUMNS || frame_size.1 < MIN_ROWS
}

/// Whether a confirmation is pending.
pub open spec fn dialog_pending(session: SessionModel) -> bool {
    session.reset_confirmation_pending || session.quit_confirmation_pending
        || session.redeploy_confirmation_pending
}

/// Whether pasted text reaches the controller source: it is visible, has the
/// focus, and nothing else owns the interface.
pub open spec fn takes_paste(session: SessionModel, frame_size: (u16, u16)) -> bool {
    &&& !undersized(frame_size)
    &&& !dialog_pending(session)
    &&& !session.network_bootstrap_pending
    &&& !session.bootstrap_intro_visible
    &&& session.current_view == View::Controller
    &&& session.focus.of(View::Controller) == PaneId::ControllerSource
}

/// Whether a key causes a transition rather than a repeatable edit, so that
/// holding it down must not cause another.
pub open spec fn is_transition(session: SessionModel, key: KeyEvent) -> bool {
    ||| key.code == KeyCode::Enter
    ||| key.code == KeyCode::Esc
    ||| key.code is F
    ||| key.code == KeyCode::Char('v') && key.modifiers.control && !key.modifiers.alt
    ||| key.code == KeyCode::Tab && surface_of(session.current_view, session.focused()) == Some(
        NavSurface::ReviewRun,
    )
}

/// Whether the event counts as a press: a repetition only does for keys that
/// cause no transition, and a release never does.
pub open spec fn counts(session: SessionModel, key: KeyEvent) -> bool {
    match key.kind {
        KeyEventKind::Press => true,
        KeyEventKind::Repeat => !is_transition(session, key),
        KeyEventKind::Release => false,
    }
}

/// Whether a terminal cannot be trusted to tell a held key from a fresh press
/// of it.
pub open spec fn repeat_untrustworthy(code: KeyCode) -> bool {
    code == KeyCode::Char('y') || code == KeyCode::Char('n')
}

/// Whether a press follows so soon on the same key's closing of a
/// confirmation that it counts as a repetition.
pub open spec fn follows_closely(
    last: Option<TransitionPress>,
    key: KeyEvent,
    now: u64,
) -> bool {
    last matches Some(press) && press.code == key.code && press.modifiers == key.modifiers && now
        - press.time < TRANSITION_KEY_DEBOUNCE_NANOS
}

/// Whether a press is dropped as the repetition of one that closed a
/// confirmation.
pub open spec fn leaked(
    session: SessionModel,
    key: KeyEvent,
    now: u64,
    last: Option<TransitionPress>,
) -> bool {
    repeat_untrustworthy(key.code) && !dialog_pending(session) && follows_closely(last, key, now)
}

/// The press to remember after this one: it is remembered while a
/// confirmation is pending, and while it counts as a repetition, so that a
/// key that stays held keeps counting as one. Ordinary typing forgets it.
pub open spec fn press_after(
    session: SessionModel,
    key: KeyEvent,
    now: u64,
    last: Option<TransitionPress>,
) -> Option<TransitionPress> {
    if !repeat_untrustworthy(key.code) {
        last
    } else if dialog_pending(session) || follows_closely(last, key, now) {
        Some(TransitionPress { code: key.code, modifiers: key.modifiers, time: now })
    } else {
        None
    }
}

/// Whether a message is about quitting, and so works in any frame.
pub open spec fn is_quit_related(msg: Msg) -> bool {
    msg is RequestQuit || msg is ConfirmQuit || msg is CancelQuit
}

/// A message with the real page size in place of its placeholder.
pub open spec fn with_page(msg: Msg, pages: PageSizes) -> Msg {
    match msg {
        Msg::SelectReviewPointPageBackward(_) => Msg::SelectReviewPointPageBackward(
            pages.review_chronology,
        ),
        Msg::SelectReviewPointPageForward(_) => Msg::SelectReviewPointPageForward(
            pages.review_chronology,
        ),
        Msg::ScrollSourcePageBackward(_) => Msg::ScrollSourcePageBackward(pages.review_source),
        Msg::ScrollSourcePageForward(_) => Msg::ScrollSourcePageForward(pages.review_source),
        Msg::ScrollPageBackward(_) => Msg::ScrollPageBackward(pages.focused_pane),
        Msg::ScrollPageForward(_) => Msg::ScrollPageForward(pages.focused_pane),
        Msg::SelectSignalPageBackward(_) => Msg::SelectSignalPageBackward(pages.signals),
        Msg::SelectSignalPageForward(_) => Msg::SelectSignalPageForward(pages.signals),
        _ => msg,
    }
}

/// The message that a key stands for in a session, if it stands for one that
/// the frame lets through.
pub open spec fn message_for(
    session: SessionModel,
    key: KeyEvent,
    frame_size: (u16, u16),
    pages: PageSizes,
) -> Option<Msg> {
    let bound = binding(
        key,
        session.current_view,
        session.network_bootstrap_pending,
        session.bootstrap_intro_visible,
        session.reset_confirmation_pending,
        session.quit_confirmation_pending,
        session.redeploy_confirmation_pending,
        session.focused(),
        session.focus_movable(session.current_view),
    );
    match bound {
        None => None,
        Some(msg) => if undersized(frame_size) && !is_quit_related(msg) {
            None
        } else if session.run_inspector_mode == RunInspectorMode::Source {
            Some(with_page(in_source_mode(msg), pages))
        } else {
            Some(with_page(msg, pages))
        },
    }
}

/// Whether a message scrolls the focused pane.
pub open spec fn is_pane_scroll(msg: Msg) -> bool {
    msg is ScrollUp || msg is ScrollDown || msg is ScrollPageBackward || msg is ScrollPageForward
        || msg is JumpScrollStart || msg is JumpScrollEnd
}

/// Whether a message scrolls the deployed source.
pub open spec fn is_source_scroll(msg: Msg) -> bool {
    msg is ScrollSourceUp || msg is ScrollSourceDown || msg is ScrollSourcePageBackward
        || msg is ScrollSourcePageForward || msg is JumpSourceStart || msg is JumpSourceEnd
}

/// The scroll offset that a message leaves to be bounded.
pub open spec fn clamp_after(session: SessionModel, msg: Msg) -> Option<ClampTarget> {
    if is_pane_scroll(msg) && scrollable(session.focused()) {
        Some(ClampTarget::Pane(session.focused()))
    } else if is_source_scroll(msg) {
        Some(ClampTarget::Source)
    } else {
        None
    }
}

/// What an event leads to.
pub struct DispatchModel {
    pub session: SessionModel,
    pub last: Option<TransitionPress>,
    pub redraw: bool,
    pub request: Option<RequestModel>,
    pub clamp: Option<ClampTarget>,
}

/// Nothing but, perhaps, drawing again.
pub open spec fn unchanged(
    session: SessionModel,
    last: Option<TransitionPress>,
    redraw: bool,
) -> DispatchModel {
    DispatchModel { session, last, redraw, request: None, clamp: None }
}

/// What an event leads to in a session.
pub open spec fn dispatched(
    session: SessionModel,
    event: Event,
    frame_size: (u16, u16),
    pages: PageSizes,
    now: u64,
    last: Option<TransitionPress>,
) -> DispatchModel {
    match event {
        Event::Resize => unchanged(session, last, true),
        Event::Paste(text) => if takes_paste(session, frame_size) && text@.len() > 0 {
            unchanged(session.pasted(normalized(text@)), last, true)
        } else {
            unchanged(session, last, false)
        },
        Event::Key(key) => if !counts(session, key) {
            unchanged(session, last, false)
        } else if leaked(session, key, now, last) {
            unchanged(session, press_after(session, key, now, last), false)
        } else {
            match message_for(session, key, frame_size, pages) {
                Some(msg) => DispatchModel {
                    session: session.after(msg),
                    last: press_after(session, key, now, last),
                    redraw: true,
                    request: session.request(msg),
                    clamp: clamp_after(session, msg),
                },
                None => unchanged(session, press_after(session, key, now, last), false),
            }
        },
        Event::Other => unchanged(session, last, false),
    }
}

/// Applies one terminal event to `state`. `frame_size` is the size of the
/// frame that was last drawn and `pages` what it shows; `now` is the
/// session's clock in nanoseconds.
pub fn should_redraw(
    state: &mut AppState,
    event: Event,
    frame_size: (u16, u16),
    pages: PageSizes,
    now: u64,
    last_transition_press: &mut Option<TransitionPress>,
) -> (dispatch: Dispatch)
    requires
        old(state).wf(),
    ensures
        final(state).wf(),
        ({
            let model = dispatched(
                old(state)@,
                event,
                frame_size,
                pages,
                now,
                *old(last_transition_press),
            );
            &&& final(state)@ == model.session
            &&& *final(last_transition_press) == model.last
            &&& dispatch.redraw == model.redraw
            &&& request_model(dispatch.request) == model.request
            &&& dispatch.clamp == model.clamp
        }),
{
    let idle = Dispatch { redraw: false, request: None, clamp: None };
    match event {
        Event::Resize => Dispatch { redraw: true, request: None, clamp: None },
        Event::Paste(text) => {
            if !accepts_paste(state, frame_size) || text.as_str().unicode_len() == 0 {
                return idle;
            }
            proof {
                reveal(SessionModel::after_controller);
                reveal(SessionModel::request);
            }
            state.apply(Msg::PasteController(normalize_newlines(text.as_str())));
            Dispatch { redraw: true, request: None, clamp: None }
        },
        Event::Key(key) => {
            if !kind_allowed(state, key) {
                return idle;
            }
            if is_repeat_untrustworthy(key.code) {
                let debounced = match *last_transition_press {
                    Some(press) => press.code == key.code && press.modifiers == key.modifiers && (
                    now < press.time || now - press.time < TRANSITION_KEY_DEBOUNCE_NANOS),
                    None => false,
                };
                let dialog_pending = any_dialog_pending(state);
                *last_transition_press = if dialog_pending || debounced {
                    Some(TransitionPress { code: key.code, modifiers: key.modifiers, time: now })
                } else {
                    None
                };
                if debounced && !dialog_pending {
                    return idle;
                }
            }
            match key_message(state, key, frame_size, pages) {
                Some(msg) => {
                    let clamp = clamp_target(state, &msg);
                    let request = state.apply(msg);
                    Dispatch { redraw: true, request, clamp }
                },
                None => idle,
            }
        },
        Event::Other => idle,
    }
}

/// Bounds a scroll offset by the furthest that the frame can scroll to.
pub fn settle_scroll(state: &mut AppState, target: ClampTarget, max: u16)
    requires
        old(state).wf(),
    ensures
        final(state).wf(),
        final(state)@ == match target {
            ClampTarget::Pane(pane) => old(state)@.pane_clamped(pane, max as int),
            ClampTarget::Source => old(state)@.source_clamped(max as int),
        },
{
    match target {
        ClampTarget::Pane(pane) => state.clamp_scroll(pane, max),
        ClampTarget::Source => state.clamp_source_scroll(max),
    }
}

/// Whether pasted text reaches the controller source.
fn accepts_paste(state: &AppState, frame_size: (u16, u16)) -> (accepts: bool)
    ensures
        accepts == takes_paste(state@, frame_size),
{
    let undersized = frame_size.0 < MIN_COLUMNS || frame_size.1 < MIN_ROWS;
    !undersized && !any_dialog_pending(state) && !state.network_bootstrap_pending()
        && !state.bootstrap_intro_visible() && state.current_view() == View::Controller
        && state.focused_pane(View::Controller) == PaneId::ControllerSource
}

/// Whether a confirmation is pending.
fn any_dialog_pending(state: &AppState) -> (pending: bool)
    ensures
        pending == dialog_pending(state@),
{
    state.reset_confirmation_pending() || state.quit_confirmation_pending()
        || state.redeploy_confirmation_pending()
}

/// Whether the event counts as a press of the key.
fn kind_allowed(state: &AppState, key: KeyEvent) -> (allowed: bool)
    ensures
        allowed == counts(state@, key),
{
    let is_ctrl_v = key.code == KeyCode::Char('v') && key.modifiers.control && !key.modifiers.alt;
    let inspects_run = match navigation::focused_nav_surface(
        state.current_view(),
        state.focused_pane(state.current_view()),
    ) {
        Some(NavSurface::ReviewRun) => true,
        _ => false,
    };
    let tab_is_run_inspector_toggle = key.code == KeyCode::Tab && inspects_run;
    let moves_on = match key.code {
        KeyCode::Enter | KeyCode::Esc | KeyCode::F(_) => true,
        _ => false,
    };
    match key.kind {
        KeyEventKind::Press => true,
        KeyEventKind::Repeat => !is_ctrl_v && !tab_is_run_inspector_toggle && !moves_on,
        KeyEventKind::Release => false,
    }
}

/// Whether a terminal cannot be trusted to tell a held key from a fresh press
/// of it.
pub fn is_repeat_untrustworthy(code: KeyCode) -> (untrustworthy: bool)
    ensures
        untrustworthy == repeat_untrustworthy(code),
{
    match code {
        KeyCode::Char('y') => true,
        KeyCode::Char('n') => true,
        _ => false,
    }
}

/// The message that a key stands for, with the real page size.
fn key_message(
    state: &AppState,
    key: KeyEvent,
    frame_size: (u16, u16),
    pages: PageSizes,
) -> (msg: Option<Msg>)
    ensures
        msg == message_for(state@, key, frame_size, pages),
{
    let view = state.current_view();
    let bound = event::map(
        key,
        view,
        state.network_bootstrap_pending(),
        state.bootstrap_intro_visible(),
        state.reset_confirmation_pending(),
        state.quit_confirmation_pending(),
        state.redeploy_confirmation_pending(),
        state.focused_pane(view),
        state.focus_movement_available(view),
    );
    match bound {
        None => None,
        Some(msg) => {
            let quit_related = match &msg {
                Msg::RequestQuit | Msg::ConfirmQuit | Msg::CancelQuit => true,
                _ => false,
            };
            let undersized = frame_size.0 < MIN_COLUMNS || frame_size.1 < MIN_ROWS;
            if undersized && !quit_related {
                return None;
            }
            let source_mode = state.run_inspector_mode() == RunInspectorMode::Source;
            let msg = if source_mode {
                navigation::route_review_run_source(msg)
            } else {
                msg
            };
            Some(fill_page(msg, pages))
        },
    }
}

/// Puts the real page size in place of a message's placeholder.
fn fill_page(msg: Msg, pages: PageSizes) -> (filled: Msg)
    ensures
        filled == with_page(msg, pages),
{
    match msg {
        Msg::SelectReviewPointPageBackward(_) => Msg::SelectReviewPointPageBackward(
            pages.review_chronology,
        ),
        Msg::SelectReviewPointPageForward(_) => Msg::SelectReviewPointPageForward(
            pages.review_chronology,
        ),
        Msg::ScrollSourcePageBackward(_) => Msg::ScrollSourcePageBackward(pages.review_source),
        Msg::ScrollSourcePageForward(_) => Msg::ScrollSourcePageForward(pages.review_source),
        Msg::ScrollPageBackward(_) => Msg::ScrollPageBackward(pages.focused_pane),
        Msg::ScrollPageForward(_) => Msg::ScrollPageForward(pages.focused_pane),
        Msg::SelectSignalPageBackward(_) => Msg::SelectSignalPageBackward(pages.signals),
        Msg::SelectSignalPageForward(_) => Msg::SelectSignalPageForward(pages.signals),
        other => other,
    }
}

/// The scroll offset that a message leaves to be bounded.
fn clamp_target(state: &AppState, msg: &Msg) -> (target: Option<ClampTarget>)
    ensures
        target == clamp_after(state@, *msg),
{
    let pane = state.focused_pane(state.current_view());
    match msg {
        Msg::ScrollUp
        | Msg::ScrollDown
        | Msg::ScrollPageBackward(_)
        | Msg::ScrollPageForward(_)
        | Msg::JumpScrollStart
        | Msg::JumpScrollEnd => if state::pane_is_scrollable(pane) {
            Some(ClampTarget::Pane(pane))
        } else {
            None
        },
        Msg::ScrollSourceUp
        | Msg::ScrollSourceDown
        | Msg::ScrollSourcePageBackward(_)
        | Msg::ScrollSourcePageForward(_)
        | Msg::JumpSourceStart
        | Msg::JumpSourceEnd => Some(ClampTarget::Source),
        _ => None,
    }
}

/// A session that begins with what was remembered of earlier ones: whether
/// the player is connected, and whether they have acknowledged the
/// introduction, which a connected player never sees.
pub fn bootstrap_state(connected: bool, acknowledged: bool) -> (state: AppState)
    ensures
        state.wf(),
        state@ == (SessionModel {
            connected,
            bootstrap_intro_visible: !connected && !acknowledged,
            ..SessionModel::initial()
        }),
{
    let mut state = AppState::new();
    state.set_connected(connected);
    state.set_bootstrap_intro_visible(!connected && !acknowledged);
    state
}

/// Whether something advances with the timer, so that the session must not
/// wait for the next event alone.
pub fn needs_timer(state: &AppState) -> (needed: bool)
    ensures
        needed == (state@.network_bootstrap_pending || state@.advancing()),
{
    state.network_bootstrap_auto_advancing() || state.operation_auto_advancing()
}

/// What the timer does: Network Bootstrap advances, or else the next tick of
/// the run that is being watched is due.
pub fn timer_elapsed(state: &mut AppState) -> (dispatch: Dispatch)
    requires
        old(state).wf(),
    ensures
        final(state).wf(),
        final(state)@ == old(state)@.bootstrapped(),
        dispatch.redraw == old(state)@.network_bootstrap_pending,
        request_model(dispatch.request) == if !old(state)@.network_bootstrap_pending && old(
            state,
        )@.advancing() {
            Some(old(state)@.next_tick())
        } else {
            None
        },
        dispatch.clamp is None,
{
    if state.advance_network_bootstrap() {
        return Dispatch { redraw: true, request: None, clamp: None };
    }
    Dispatch { redraw: false, request: state.advance_running_operation(), clamp: None }
}

} // verus!
