//! Maps key events onto the console's player intents.
//!
//! Kept separate from `state`, so that the transitions know nothing of keys,
//! and from rendering, so that the bindings can be checked on their own.

use vstd::prelude::*;
use vstd::view::View as _;

use super::editor::EditOp;
use super::key::{KeyCode, KeyEvent};
use super::navigation;
use super::navigation::{intent_of, routed, surface_of, NavSurface};
use super::state::{Msg, PaneId, View};

verus! {

/// The answer that a key gives to a confirmation: only the unmodified keys
/// count, so that the modified form of some other binding never confirms
/// anything.
pub open spec fn answer(key: KeyEvent, yes: Msg, no: Msg) -> Option<Msg> {
    if !key.modifiers.none() {
        None
    } else if key.code == KeyCode::Enter || key.code == KeyCode::Char('y') {
        Some(yes)
    } else if key.code == KeyCode::Esc || key.code == KeyCode::Char('n') {
        Some(no)
    } else {
        None
    }
}

/// Whether a key is one of the console-wide navigation keys.
pub open spec fn is_navigation(code: KeyCode) -> bool {
    intent_of(code) is Some
}

/// The edit that a key makes in the controller source. A key chord with
/// `Ctrl` and `Alt` is how some terminals report AltGr, and types its
/// character.
pub open spec fn edit_of(code: KeyCode, ctrl: bool, shift: bool, altgr: bool) -> Option<EditOp> {
    match code {
        KeyCode::Char(c) => if !ctrl || altgr {
            Some(EditOp::Insert(c))
        } else if c == 'a' {
            Some(EditOp::SelectAll)
        } else if c == 'z' {
            Some(EditOp::Undo)
        } else if c == 'y' {
            Some(EditOp::Redo)
        } else {
            None
        },
        KeyCode::Tab => Some(EditOp::Indent),
        KeyCode::BackTab => Some(EditOp::UnIndent),
        KeyCode::Enter => Some(EditOp::Newline),
        KeyCode::Backspace => Some(EditOp::Backspace),
        KeyCode::Delete => Some(EditOp::DeleteForward),
        KeyCode::Left => Some(
            if ctrl {
                EditOp::MoveWordLeft(shift)
            } else {
                EditOp::MoveLeft(shift)
            },
        ),
        KeyCode::Right => Some(
            if ctrl {
                EditOp::MoveWordRight(shift)
            } else {
                EditOp::MoveRight(shift)
            },
        ),
        KeyCode::Up => Some(EditOp::MoveUp(shift)),
        KeyCode::Down => Some(EditOp::MoveDown(shift)),
        KeyCode::Home => Some(EditOp::MoveLineStart(shift)),
        KeyCode::End => Some(EditOp::MoveLineEnd(shift)),
        KeyCode::PageUp => Some(EditOp::PageUp(shift)),
        KeyCode::PageDown => Some(EditOp::PageDown(shift)),
        _ => None,
    }
}

/// What a function key does, whatever pane has the focus.
pub open spec fn function_key(n: u8, view: View, focus_movement_available: bool) -> Option<Msg> {
    if n == 1 {
        Some(
            if view == View::Help {
                Msg::DismissHelp
            } else {
                Msg::OpenHelp
            },
        )
    } else if n == 2 {
        Some(Msg::Navigate(View::Signals))
    } else if n == 3 {
        Some(Msg::Navigate(View::Target))
    } else if n == 4 {
        Some(Msg::Navigate(View::Controller))
    } else if n == 5 {
        Some(Msg::Navigate(View::Operation))
    } else if n == 6 {
        Some(Msg::RequestDeploy)
    } else if n == 7 && view == View::Controller {
        Some(Msg::RequestResetController)
    } else if n == 8 && focus_movement_available {
        Some(Msg::FocusNextPane)
    } else {
        None
    }
}

/// What a key does in a view, other than editing the controller source.
pub open spec fn view_binding(
    key: KeyEvent,
    view: View,
    focused_pane: PaneId,
    focus_movement_available: bool,
) -> Option<Msg> {
    let ctrl = key.modifiers.control;
    let code = key.code;
    if code is F {
        function_key(code->F_0, view, focus_movement_available)
    } else if code == KeyCode::Esc && view == View::Help {
        Some(Msg::DismissHelp)
    } else if code == KeyCode::Esc && view == View::Target {
        Some(Msg::Navigate(View::Signals))
    } else if (code == KeyCode::Enter || code == KeyCode::Char('v') && !key.modifiers.alt) && ctrl
        && view == View::Controller {
        Some(Msg::ValidateController)
    } else if code == KeyCode::Enter && !ctrl && (view == View::Target || (view == View::Signals
        && focused_pane == PaneId::SignalsList)) {
        Some(Msg::Activate)
    } else if code == KeyCode::Enter && !ctrl && view == View::Operation {
        Some(Msg::StepOperationTick)
    } else if code == KeyCode::Char(' ') && !ctrl && view == View::Operation {
        Some(Msg::TogglePauseOperation)
    } else if is_navigation(code) && surface_of(view, focused_pane) is Some {
        Some(routed(surface_of(view, focused_pane)->0, intent_of(code)->0))
    } else if code == KeyCode::Tab && surface_of(view, focused_pane) == Some(
        NavSurface::ReviewRun,
    ) {
        Some(Msg::ToggleRunInspectorMode)
    } else {
        None
    }
}

/// What a key does while nothing else claims the keys.
pub open spec fn ordinary_binding(
    key: KeyEvent,
    view: View,
    focused_pane: PaneId,
    focus_movement_available: bool,
) -> Option<Msg> {
    let ctrl = key.modifiers.control;
    let bound = view_binding(key, view, focused_pane, focus_movement_available);
    if bound is Some {
        bound
    } else if view == View::Controller && focused_pane == PaneId::ControllerSource {
        match edit_of(key.code, ctrl, key.modifiers.shift, ctrl && key.modifiers.alt) {
            Some(op) => Some(Msg::EditController(op)),
            None => None,
        }
    } else {
        None
    }
}

/// Whether the controller source takes what is typed: it shows, has the
/// focus, and nothing else owns the keys.
pub open spec fn source_takes_keys(
    view: View,
    network_bootstrap_pending: bool,
    bootstrap_intro_visible: bool,
    reset_confirmation_pending: bool,
    quit_confirmation_pending: bool,
    redeploy_confirmation_pending: bool,
    focused_pane: PaneId,
) -> bool {
    &&& view == View::Controller
    &&& focused_pane == PaneId::ControllerSource
    &&& !network_bootstrap_pending
    &&& !bootstrap_intro_visible
    &&& !reset_confirmation_pending
    &&& !quit_confirmation_pending
    &&& !redeploy_confirmation_pending
}

/// What a key does. `Ctrl+Q` always asks to quit, except that with `Alt` it is
/// AltGr input where the controller source takes what is typed. Network
/// Bootstrap takes no other key, the introduction only its `Enter`, and a
/// pending confirmation only its answer.
pub open spec fn binding(
    key: KeyEvent,
    current_view: View,
    network_bootstrap_pending: bool,
    bootstrap_intro_visible: bool,
    reset_confirmation_pending: bool,
    quit_confirmation_pending: bool,
    redeploy_confirmation_pending: bool,
    focused_pane: PaneId,
    focus_movement_available: bool,
) -> Option<Msg> {
    let typed = source_takes_keys(
        current_view,
        network_bootstrap_pending,
        bootstrap_intro_visible,
        reset_confirmation_pending,
        quit_confirmation_pending,
        redeploy_confirmation_pending,
        focused_pane,
    );
    if key.code == KeyCode::Char('q') && key.modifiers.control && !(key.modifiers.alt && typed) {
        Some(Msg::RequestQuit)
    } else if network_bootstrap_pending {
        None
    } else if bootstrap_intro_visible {
        if key.code == KeyCode::Enter && key.modifiers.none() {
            Some(Msg::AcknowledgeBootstrapIntro)
        } else {
            None
        }
    } else if quit_confirmation_pending {
        answer(key, Msg::ConfirmQuit, Msg::CancelQuit)
    } else if reset_confirmation_pending {
        answer(key, Msg::ConfirmResetController, Msg::CancelResetController)
    } else if redeploy_confirmation_pending {
        answer(key, Msg::ConfirmDeploy, Msg::CancelDeploy)
    } else {
        ordinary_binding(key, current_view, focused_pane, focus_movement_available)
    }
}

/// Maps a key event to a player intent, given the view that is showing,
/// whether Network Bootstrap or the first-launch introduction owns the
/// interface, which confirmations are pending, which pane has the focus (keys
/// for a pane only reach the pane that has it), and whether there is a choice
/// between panes.
pub fn map(
    key: KeyEvent,
    current_view: View,
    network_bootstrap_pending: bool,
    bootstrap_intro_visible: bool,
    reset_confirmation_pending: bool,
    quit_confirmation_pending: bool,
    redeploy_confirmation_pending: bool,
    focused_pane: PaneId,
    focus_movement_available: bool,
) -> (msg: Option<Msg>)
    ensures
        msg == binding(
            key,
            current_view,
            network_bootstrap_pending,
            bootstrap_intro_visible,
            reset_confirmation_pending,
            quit_confirmation_pending,
            redeploy_confirmation_pending,
            focused_pane,
            focus_movement_available,
        ),
{
    let ctrl = key.modifiers.control;
    // `Ctrl` and `Alt` together are how some terminals report AltGr, and no
    // binding uses `Alt`: in the source such a character is typed.
    let altgr = ctrl && key.modifiers.alt;
    let typed = current_view == View::Controller && focused_pane == PaneId::ControllerSource
        && !network_bootstrap_pending && !bootstrap_intro_visible && !reset_confirmation_pending
        && !quit_confirmation_pending && !redeploy_confirmation_pending;
    if key.code == KeyCode::Char('q') && ctrl && !(altgr && typed) {
        return Some(Msg::RequestQuit);
    }
    let unmodified = key.modifiers.is_empty();

    // Network Bootstrap advances on its own timer and cannot be dismissed.
    if network_bootstrap_pending {
        return None;
    }
    if bootstrap_intro_visible {
        return match key.code {
            KeyCode::Enter if unmodified => Some(Msg::AcknowledgeBootstrapIntro),
            _ => None,
        };
    }
    if quit_confirmation_pending {
        return map_answer(key, Msg::ConfirmQuit, Msg::CancelQuit);
    }
    if reset_confirmation_pending {
        return map_answer(key, Msg::ConfirmResetController, Msg::CancelResetController);
    }
    if redeploy_confirmation_pending {
        return map_answer(key, Msg::ConfirmDeploy, Msg::CancelDeploy);
    }

    let help_is_open = current_view == View::Help;
    let controller_is_open = current_view == View::Controller;
    let operation_is_open = current_view == View::Operation;
    let surface = navigation::focused_nav_surface(current_view, focused_pane);
    let intent = navigation::intent_for_key(key.code);
    let inspects_run = match surface {
        Some(NavSurface::ReviewRun) => true,
        _ => false,
    };

    match key.code {
        KeyCode::F(1) => Some(
            if help_is_open {
                Msg::DismissHelp
            } else {
                Msg::OpenHelp
            },
        ),
        KeyCode::Esc if help_is_open => Some(Msg::DismissHelp),
        KeyCode::Esc if current_view == View::Target => Some(Msg::Navigate(View::Signals)),
        KeyCode::F(2) => Some(Msg::Navigate(View::Signals)),
        KeyCode::F(3) => Some(Msg::Navigate(View::Target)),
        KeyCode::F(4) => Some(Msg::Navigate(View::Controller)),
        KeyCode::F(5) => Some(Msg::Navigate(View::Operation)),
        KeyCode::F(6) => Some(Msg::RequestDeploy),
        KeyCode::F(7) if controller_is_open => Some(Msg::RequestResetController),
        KeyCode::F(8) if focus_movement_available => Some(Msg::FocusNextPane),
        // `Ctrl+V` reaches every terminal; `Ctrl+Enter` only those that
        // report it apart from `Enter`.
        KeyCode::Enter if ctrl && controller_is_open => Some(Msg::ValidateController),
        KeyCode::Char('v') if ctrl && !altgr && controller_is_open => Some(Msg::ValidateController),
        KeyCode::Enter if !ctrl && (current_view == View::Target || (current_view == View::Signals
            && focused_pane == PaneId::SignalsList)) => Some(Msg::Activate),
        KeyCode::Enter if !ctrl && operation_is_open => Some(Msg::StepOperationTick),
        KeyCode::Char(' ') if !ctrl && operation_is_open => Some(Msg::TogglePauseOperation),
        _ if surface.is_some() && intent.is_some() => match (surface, intent) {
            (Some(surface), Some(intent)) => navigation::route(surface, intent),
            _ => None,
        },
        KeyCode::Tab if inspects_run => Some(Msg::ToggleRunInspectorMode),
        _ if controller_is_open && focused_pane == PaneId::ControllerSource => {
            map_controller_edit(key.code, ctrl, key.modifiers.shift, altgr)
        },
        _ => None,
    }
}

/// The answer to a pending confirmation, which takes no other key.
fn map_answer(key: KeyEvent, yes: Msg, no: Msg) -> (msg: Option<Msg>)
    ensures
        msg == answer(key, yes, no),
{
    let unmodified = key.modifiers.is_empty();
    match key.code {
        KeyCode::Enter if unmodified => Some(yes),
        KeyCode::Char('y') if unmodified => Some(yes),
        KeyCode::Esc if unmodified => Some(no),
        KeyCode::Char('n') if unmodified => Some(no),
        _ => None,
    }
}

/// Editing and cursor-movement keys of the controller source.
fn map_controller_edit(code: KeyCode, ctrl: bool, shift: bool, altgr: bool) -> (msg: Option<Msg>)
    ensures
        msg == match edit_of(code, ctrl, shift, altgr) {
            Some(op) => Some(Msg::EditController(op)),
            None => None,
        },
{
    let op = match code {
        KeyCode::Char(c) if !ctrl || altgr => EditOp::Insert(c),
        KeyCode::Char('a') if ctrl => EditOp::SelectAll,
        KeyCode::Char('z') if ctrl => EditOp::Undo,
        KeyCode::Char('y') if ctrl => EditOp::Redo,
        KeyCode::Tab => EditOp::Indent,
        KeyCode::BackTab => EditOp::UnIndent,
        KeyCode::Enter => EditOp::Newline,
        KeyCode::Backspace => EditOp::Backspace,
        KeyCode::Delete => EditOp::DeleteForward,
        KeyCode::Left if ctrl => EditOp::MoveWordLeft(shift),
        KeyCode::Right if ctrl => EditOp::MoveWordRight(shift),
        KeyCode::Left => EditOp::MoveLeft(shift),
        KeyCode::Right => EditOp::MoveRight(shift),
        KeyCode::Up => EditOp::MoveUp(shift),
        KeyCode::Down => EditOp::MoveDown(shift),
        KeyCode::Home => EditOp::MoveLineStart(shift),
        KeyCode::End => EditOp::MoveLineEnd(shift),
        KeyCode::PageUp => EditOp::PageUp(shift),
        KeyCode::PageDown => EditOp::PageDown(shift),
        _ => {
            return None;
        },
    };
    Some(Msg::EditController(op))
}

/// `Ctrl+Q` asks to quit, whatever else owns the keys. With `Alt` as well it
/// does so wherever the controller source does not take it as AltGr input.
pub proof fn law_quit_is_always_reachable(
    key: KeyEvent,
    view: View,
    bootstrap: bool,
    intro: bool,
    reset: bool,
    quit: bool,
    redeploy: bool,
    pane: PaneId,
    movable: bool,
)
    requires
        key.code == KeyCode::Char('q'),
        key.modifiers.control,
        !key.modifiers.alt || !source_takes_keys(
            view,
            bootstrap,
            intro,
            reset,
            quit,
            redeploy,
            pane,
        ),
    ensures
        binding(key, view, bootstrap, intro, reset, quit, redeploy, pane, movable) == Some(
            Msg::RequestQuit,
        ),
{
}

/// A character with `Ctrl` and `Alt` is AltGr input: where the controller
/// source takes what is typed, it is typed, and never a control binding.
pub proof fn law_altgr_characters_are_typed(key: KeyEvent, movable: bool)
    requires
        key.code is Char,
        key.modifiers.control,
        key.modifiers.alt,
    ensures
        binding(
            key,
            View::Controller,
            false,
            false,
            false,
            false,
            false,
            PaneId::ControllerSource,
            movable,
        ) == Some(Msg::EditController(EditOp::Insert(key.code->Char_0))),
{
}

/// While Network Bootstrap plays, no key does anything but ask to quit.
pub proof fn law_network_bootstrap_owns_the_keys(
    key: KeyEvent,
    view: View,
    intro: bool,
    reset: bool,
    quit: bool,
    redeploy: bool,
    pane: PaneId,
    movable: bool,
)
    ensures
        binding(key, view, true, intro, reset, quit, redeploy, pane, movable) matches Some(msg)
            ==> msg == Msg::RequestQuit,
{
}

/// While the introduction shows, no key does anything but acknowledge it or
/// ask to quit.
pub proof fn law_introduction_owns_the_keys(
    key: KeyEvent,
    view: View,
    bootstrap: bool,
    reset: bool,
    quit: bool,
    redeploy: bool,
    pane: PaneId,
    movable: bool,
)
    ensures
        binding(key, view, bootstrap, true, reset, quit, redeploy, pane, movable) matches Some(msg)
            ==> msg == Msg::RequestQuit || msg == Msg::AcknowledgeBootstrapIntro,
{
}

/// While a confirmation is pending, no key does anything but answer it or ask
/// to quit, and no key with a modifier answers it.
pub proof fn law_confirmation_owns_the_keys(
    key: KeyEvent,
    view: View,
    reset: bool,
    quit: bool,
    redeploy: bool,
    pane: PaneId,
    movable: bool,
)
    requires
        reset || quit || redeploy,
    ensures
        binding(key, view, false, false, reset, quit, redeploy, pane, movable) matches Some(msg)
            ==> {
            ||| msg == Msg::RequestQuit
            ||| key.modifiers.none() && quit && (msg == Msg::ConfirmQuit || msg == Msg::CancelQuit)
            ||| key.modifiers.none() && !quit && reset && (msg == Msg::ConfirmResetController || msg
                == Msg::CancelResetController)
            ||| key.modifiers.none() && !quit && !reset && (msg == Msg::ConfirmDeploy || msg
                == Msg::CancelDeploy)
        },
{
}

/// A key only edits the controller source while Controller shows and the
/// source pane has the focus.
pub proof fn law_only_the_focused_source_is_edited(
    key: KeyEvent,
    view: View,
    bootstrap: bool,
    intro: bool,
    reset: bool,
    quit: bool,
    redeploy: bool,
    pane: PaneId,
    movable: bool,
)
    ensures
        binding(key, view, bootstrap, intro, reset, quit, redeploy, pane, movable) matches Some(msg)
            && msg is EditController ==> view == View::Controller && pane
            == PaneId::ControllerSource,
{
}

/// The function keys mean the same in every view: Help, the four views that
/// can be navigated to, deploying, resetting in Controller, and the next pane
/// where there is one.
pub proof fn law_function_keys_mean_the_same_everywhere(
    key: KeyEvent,
    view: View,
    pane: PaneId,
    movable: bool,
)
    requires
        key.code is F,
    ensures
        ({
            let bound = binding(key, view, false, false, false, false, false, pane, movable);
            let n = key.code->F_0;
            &&& n == 1 ==> bound == Some(
                if view == View::Help {
                    Msg::DismissHelp
                } else {
                    Msg::OpenHelp
                },
            )
            &&& n == 2 ==> bound == Some(Msg::Navigate(View::Signals))
            &&& n == 3 ==> bound == Some(Msg::Navigate(View::Target))
            &&& n == 4 ==> bound == Some(Msg::Navigate(View::Controller))
            &&& n == 5 ==> bound == Some(Msg::Navigate(View::Operation))
            &&& n == 6 ==> bound == Some(Msg::RequestDeploy)
            &&& n == 7 && view == View::Controller ==> bound == Some(Msg::RequestResetController)
            &&& n == 7 && view != View::Controller ==> bound is None
            &&& n == 8 && movable ==> bound == Some(Msg::FocusNextPane)
            &&& n == 8 && !movable ==> bound is None
            &&& n == 0 || n > 8 ==> bound is None
        }),
{
}

/// A pending confirmation is answered by the unmodified keys: `Enter` and `y`
/// confirm it, `Esc` and `n` cancel it. Quitting is answered before a reset,
/// and that before a deployment.
pub proof fn law_confirmations_are_answered(
    key: KeyEvent,
    view: View,
    reset: bool,
    quit: bool,
    redeploy: bool,
    pane: PaneId,
    movable: bool,
)
    requires
        reset || quit || redeploy,
        !key.modifiers.shift,
        !key.modifiers.control,
        !key.modifiers.alt,
        !key.modifiers.logo,
        !key.modifiers.hyper,
        !key.modifiers.meta,
    ensures
        ({
            let bound = binding(key, view, false, false, reset, quit, redeploy, pane, movable);
            let yes = key.code == KeyCode::Enter || key.code == KeyCode::Char('y');
            let no = key.code == KeyCode::Esc || key.code == KeyCode::Char('n');
            &&& yes && quit ==> bound == Some(Msg::ConfirmQuit)
            &&& no && quit ==> bound == Some(Msg::CancelQuit)
            &&& yes && !quit && reset ==> bound == Some(Msg::ConfirmResetController)
            &&& no && !quit && reset ==> bound == Some(Msg::CancelResetController)
            &&& yes && !quit && !reset ==> bound == Some(Msg::ConfirmDeploy)
            &&& no && !quit && !reset ==> bound == Some(Msg::CancelDeploy)
            &&& !yes && !no ==> bound is None
        }),
{
}

/// The introduction is acknowledged by `Enter` without any modifier, and by
/// nothing else.
pub proof fn law_introduction_is_acknowledged_by_enter(
    key: KeyEvent,
    view: View,
    reset: bool,
    quit: bool,
    redeploy: bool,
    pane: PaneId,
    movable: bool,
)
    ensures
        binding(key, view, false, true, reset, quit, redeploy, pane, movable) == Some(
            Msg::AcknowledgeBootstrapIntro,
        ) <==> key.code == KeyCode::Enter && !key.modifiers.shift && !key.modifiers.control
            && !key.modifiers.alt && !key.modifiers.logo && !key.modifiers.hyper
            && !key.modifiers.meta,
        binding(key, view, true, true, reset, quit, redeploy, pane, movable)
            != Some(Msg::AcknowledgeBootstrapIntro),
{
}

/// What the keys do in the focused controller source. Every character typed
/// without `Ctrl` stands for itself; with `Ctrl` there are the control
/// bindings and nothing else; the other keys move and edit, and shift selects.
pub proof fn law_what_keys_do_in_the_source(key: KeyEvent, movable: bool)
    ensures
        ({
            let bound = binding(
                key,
                View::Controller,
                false,
                false,
                false,
                false,
                false,
                PaneId::ControllerSource,
                movable,
            );
            let ctrl = key.modifiers.control;
            let shift = key.modifiers.shift;
            match key.code {
                KeyCode::Char(c) => {
                    &&& !ctrl ==> bound == Some(Msg::EditController(EditOp::Insert(c)))
                    &&& ctrl && !key.modifiers.alt ==> bound == if c == 'q' {
                        Some(Msg::RequestQuit)
                    } else if c == 'v' {
                        Some(Msg::ValidateController)
                    } else if c == 'a' {
                        Some(Msg::EditController(EditOp::SelectAll))
                    } else if c == 'z' {
                        Some(Msg::EditController(EditOp::Undo))
                    } else if c == 'y' {
                        Some(Msg::EditController(EditOp::Redo))
                    } else {
                        None
                    }
                },
                KeyCode::Enter => bound == Some(
                    if ctrl {
                        Msg::ValidateController
                    } else {
                        Msg::EditController(EditOp::Newline)
                    },
                ),
                KeyCode::Backspace => bound == Some(Msg::EditController(EditOp::Backspace)),
                KeyCode::Delete => bound == Some(Msg::EditController(EditOp::DeleteForward)),
                KeyCode::Tab => bound == Some(Msg::EditController(EditOp::Indent)),
                KeyCode::BackTab => bound == Some(Msg::EditController(EditOp::UnIndent)),
                KeyCode::Left => bound == Some(
                    Msg::EditController(
                        if ctrl {
                            EditOp::MoveWordLeft(shift)
                        } else {
                            EditOp::MoveLeft(shift)
                        },
                    ),
                ),
                KeyCode::Right => bound == Some(
                    Msg::EditController(
                        if ctrl {
                            EditOp::MoveWordRight(shift)
                        } else {
                            EditOp::MoveRight(shift)
                        },
                    ),
                ),
                KeyCode::Up => bound == Some(Msg::EditController(EditOp::MoveUp(shift))),
                KeyCode::Down => bound == Some(Msg::EditController(EditOp::MoveDown(shift))),
                KeyCode::Home => bound == Some(Msg::EditController(EditOp::MoveLineStart(shift))),
                KeyCode::End => bound == Some(Msg::EditController(EditOp::MoveLineEnd(shift))),
                KeyCode::PageUp => bound == Some(Msg::EditController(EditOp::PageUp(shift))),
                KeyCode::PageDown => bound == Some(Msg::EditController(EditOp::PageDown(shift))),
                KeyCode::Esc => bound is None,
                KeyCode::Insert => bound is None,
                KeyCode::Null => bound is None,
                KeyCode::Other => bound is None,
                KeyCode::F(_) => true,
            }
        }),
{
}

/// What the navigation keys do: they select in the focused list of signals and
/// in the focused telemetry of Operation, scroll Help and the focused report,
/// edit the focused source, and do nothing anywhere else.
pub proof fn law_what_navigation_keys_do(
    code: KeyCode,
    key: KeyEvent,
    view: View,
    pane: PaneId,
    movable: bool,
)
    requires
        key.code == code,
        code == KeyCode::Up || code == KeyCode::Down || code == KeyCode::PageUp || code
            == KeyCode::PageDown || code == KeyCode::Home || code == KeyCode::End,
        view != View::Controller || pane != PaneId::ControllerSource,
    ensures
        ({
            let bound = binding(key, view, false, false, false, false, false, pane, movable);
            let selects = view == View::Signals && pane == PaneId::SignalsList;
            let scrolls = view == View::Help || view == View::AfterAction && pane == PaneId::Report;
            let reviews = view == View::Operation && pane == PaneId::OperationTelemetry;
            &&& selects ==> bound == Some(
                match code {
                    KeyCode::Up => Msg::SelectPreviousSignal,
                    KeyCode::Down => Msg::SelectNextSignal,
                    KeyCode::PageUp => Msg::SelectSignalPageBackward(0),
                    KeyCode::PageDown => Msg::SelectSignalPageForward(0),
                    KeyCode::Home => Msg::SelectFirstSignal,
                    _ => Msg::SelectLastSignal,
                },
            )
            &&& scrolls ==> bound == Some(
                match code {
                    KeyCode::Up => Msg::ScrollUp,
                    KeyCode::Down => Msg::ScrollDown,
                    KeyCode::PageUp => Msg::ScrollPageBackward(0),
                    KeyCode::PageDown => Msg::ScrollPageForward(0),
                    KeyCode::Home => Msg::JumpScrollStart,
                    _ => Msg::JumpScrollEnd,
                },
            )
            &&& reviews ==> bound == Some(
                match code {
                    KeyCode::Up => Msg::SelectPreviousReviewPoint,
                    KeyCode::Down => Msg::SelectNextReviewPoint,
                    KeyCode::PageUp => Msg::SelectReviewPointPageBackward(0),
                    KeyCode::PageDown => Msg::SelectReviewPointPageForward(0),
                    KeyCode::Home => Msg::SelectFirstReviewPoint,
                    _ => Msg::SelectLastReviewPoint,
                },
            )
            &&& !selects && !scrolls && !reviews ==> bound is None
        }),
{
}

/// What the remaining keys do outside the focused source: `Enter` activates in
/// Target and in the focused list of signals, and steps a run in Operation;
/// `Space` pauses and resumes there; `Tab` switches the focused Run Inspector;
/// `Esc` leaves Help and Target; `Ctrl+Enter` and `Ctrl+V` validate in
/// Controller; `Ctrl+Q` asks to quit; and nothing else does anything.
pub proof fn law_what_other_keys_do(key: KeyEvent, view: View, pane: PaneId, movable: bool)
    requires
        view != View::Controller || pane != PaneId::ControllerSource,
        !(key.code is F),
        key.code != KeyCode::Up && key.code != KeyCode::Down && key.code != KeyCode::PageUp
            && key.code != KeyCode::PageDown && key.code != KeyCode::Home && key.code
            != KeyCode::End,
    ensures
        ({
            let bound = binding(key, view, false, false, false, false, false, pane, movable);
            let ctrl = key.modifiers.control;
            bound == if key.code == KeyCode::Char('q') && ctrl {
                Some(Msg::RequestQuit)
            } else if key.code == KeyCode::Esc && view == View::Help {
                Some(Msg::DismissHelp)
            } else if key.code == KeyCode::Esc && view == View::Target {
                Some(Msg::Navigate(View::Signals))
            } else if view == View::Controller && ctrl && (key.code == KeyCode::Enter || key.code
                == KeyCode::Char('v') && !key.modifiers.alt) {
                Some(Msg::ValidateController)
            } else if key.code == KeyCode::Enter && !ctrl && (view == View::Target || view
                == View::Signals && pane == PaneId::SignalsList) {
                Some(Msg::Activate)
            } else if key.code == KeyCode::Enter && !ctrl && view == View::Operation {
                Some(Msg::StepOperationTick)
            } else if key.code == KeyCode::Char(' ') && !ctrl && view == View::Operation {
                Some(Msg::TogglePauseOperation)
            } else if key.code == KeyCode::Tab && view == View::Operation && pane
                == PaneId::OperationTelemetry {
                Some(Msg::ToggleRunInspectorMode)
            } else {
                None::<Msg>
            }
        }),
{
}

/// A key with any modifier at all answers no confirmation.
pub proof fn law_modified_keys_answer_nothing(
    key: KeyEvent,
    view: View,
    reset: bool,
    quit: bool,
    redeploy: bool,
    pane: PaneId,
    movable: bool,
)
    requires
        reset || quit || redeploy,
        key.modifiers.shift || key.modifiers.control || key.modifiers.alt || key.modifiers.logo
            || key.modifiers.hyper || key.modifiers.meta,
    ensures
        binding(key, view, false, false, reset, quit, redeploy, pane, movable) == if key.code
            == KeyCode::Char('q') && key.modifiers.control {
            Some(Msg::RequestQuit)
        } else {
            None
        },
{
}

} // verus!
