//! The shared, focus-aware navigation vocabulary for non-editor console
//! surfaces.
//!
//! The arrow and page keys mean the same kind of thing everywhere (previous
//! and next, a page backward and forward, first and last), but each focused
//! surface interprets that meaning in its own way: a list moves a selection,
//! a scroll surface moves an offset, a chronology steps through review
//! points.

use vstd::prelude::*;
use vstd::view::View as _;

use super::key::KeyCode;
use super::state::{Msg, PaneId, View};

verus! {

/// A navigation key's meaning, independent of which surface interprets it.
/// The page size is `0` until the real size of the page is known.
#[derive(Debug, Clone, Copy, PartialEq, Eq, Structural)]
pub enum NavIntent {
    Previous,
    Next,
    PageBackward(usize),
    PageForward(usize),
    First,
    Last,
}

/// Which surface owns focus-aware navigation input.
#[derive(Debug, Clone, Copy, PartialEq, Eq, Structural)]
pub enum NavSurface {
    SignalsList,
    /// A read-only scroll surface: Help, and After Action's report.
    Scroll,
    ReviewRun,
}

/// The surface that owns navigation in a view with the given focus.
pub open spec fn surface_of(view: View, focused_pane: PaneId) -> Option<NavSurface> {
    if view == View::Signals && focused_pane == PaneId::SignalsList {
        Some(NavSurface::SignalsList)
    } else if view == View::Help || view == View::AfterAction && focused_pane == PaneId::Report {
        Some(NavSurface::Scroll)
    } else if view == View::Operation && focused_pane == PaneId::OperationTelemetry {
        Some(NavSurface::ReviewRun)
    } else {
        None
    }
}

/// Which surface, if any, owns navigation input for `view` focused on
/// `focused_pane`.
pub fn focused_nav_surface(view: View, focused_pane: PaneId) -> (surface: Option<NavSurface>)
    ensures
        surface == surface_of(view, focused_pane),
{
    match (view, focused_pane) {
        (View::Signals, PaneId::SignalsList) => Some(NavSurface::SignalsList),
        (View::Help, _) => Some(NavSurface::Scroll),
        (View::AfterAction, PaneId::Report) => Some(NavSurface::Scroll),
        (View::Operation, PaneId::OperationTelemetry) => Some(NavSurface::ReviewRun),
        _ => None,
    }
}

/// The meaning of a navigation key.
pub open spec fn intent_of(code: KeyCode) -> Option<NavIntent> {
    match code {
        KeyCode::Up => Some(NavIntent::Previous),
        KeyCode::Down => Some(NavIntent::Next),
        KeyCode::PageUp => Some(NavIntent::PageBackward(0)),
        KeyCode::PageDown => Some(NavIntent::PageForward(0)),
        KeyCode::Home => Some(NavIntent::First),
        KeyCode::End => Some(NavIntent::Last),
        _ => None,
    }
}

/// The meaning of a key, or `None` if it is no navigation key.
pub fn intent_for_key(code: KeyCode) -> (intent: Option<NavIntent>)
    ensures
        intent == intent_of(code),
{
    match code {
        KeyCode::Up => Some(NavIntent::Previous),
        KeyCode::Down => Some(NavIntent::Next),
        KeyCode::PageUp => Some(NavIntent::PageBackward(0)),
        KeyCode::PageDown => Some(NavIntent::PageForward(0)),
        KeyCode::Home => Some(NavIntent::First),
        KeyCode::End => Some(NavIntent::Last),
        _ => None,
    }
}

/// The message by which a surface carries out an intent.
pub open spec fn routed(surface: NavSurface, intent: NavIntent) -> Msg {
    match surface {
        NavSurface::SignalsList => match intent {
            NavIntent::Previous => Msg::SelectPreviousSignal,
            NavIntent::Next => Msg::SelectNextSignal,
            NavIntent::PageBackward(page) => Msg::SelectSignalPageBackward(page),
            NavIntent::PageForward(page) => Msg::SelectSignalPageForward(page),
            NavIntent::First => Msg::SelectFirstSignal,
            NavIntent::Last => Msg::SelectLastSignal,
        },
        NavSurface::Scroll => match intent {
            NavIntent::Previous => Msg::ScrollUp,
            NavIntent::Next => Msg::ScrollDown,
            NavIntent::PageBackward(page) => Msg::ScrollPageBackward(page),
            NavIntent::PageForward(page) => Msg::ScrollPageForward(page),
            NavIntent::First => Msg::JumpScrollStart,
            NavIntent::Last => Msg::JumpScrollEnd,
        },
        NavSurface::ReviewRun => match intent {
            NavIntent::Previous => Msg::SelectPreviousReviewPoint,
            NavIntent::Next => Msg::SelectNextReviewPoint,
            NavIntent::PageBackward(page) => Msg::SelectReviewPointPageBackward(page),
            NavIntent::PageForward(page) => Msg::SelectReviewPointPageForward(page),
            NavIntent::First => Msg::SelectFirstReviewPoint,
            NavIntent::Last => Msg::SelectLastReviewPoint,
        },
    }
}

/// Interprets `intent` for `surface`. Every surface supports the full
/// vocabulary.
pub fn route(surface: NavSurface, intent: NavIntent) -> (msg: Option<Msg>)
    ensures
        msg == Some(routed(surface, intent)),
{
    match (surface, intent) {
        (NavSurface::SignalsList, NavIntent::Previous) => Some(Msg::SelectPreviousSignal),
        (NavSurface::SignalsList, NavIntent::Next) => Some(Msg::SelectNextSignal),
        (NavSurface::SignalsList, NavIntent::PageBackward(page)) => Some(
            Msg::SelectSignalPageBackward(page),
        ),
        (NavSurface::SignalsList, NavIntent::PageForward(page)) => Some(
            Msg::SelectSignalPageForward(page),
        ),
        (NavSurface::SignalsList, NavIntent::First) => Some(Msg::SelectFirstSignal),
        (NavSurface::SignalsList, NavIntent::Last) => Some(Msg::SelectLastSignal),
        (NavSurface::Scroll, NavIntent::Previous) => Some(Msg::ScrollUp),
        (NavSurface::Scroll, NavIntent::Next) => Some(Msg::ScrollDown),
        (NavSurface::Scroll, NavIntent::PageBackward(page)) => Some(Msg::ScrollPageBackward(page)),
        (NavSurface::Scroll, NavIntent::PageForward(page)) => Some(Msg::ScrollPageForward(page)),
        (NavSurface::Scroll, NavIntent::First) => Some(Msg::JumpScrollStart),
        (NavSurface::Scroll, NavIntent::Last) => Some(Msg::JumpScrollEnd),
        (NavSurface::ReviewRun, NavIntent::Previous) => Some(Msg::SelectPreviousReviewPoint),
        (NavSurface::ReviewRun, NavIntent::Next) => Some(Msg::SelectNextReviewPoint),
        (NavSurface::ReviewRun, NavIntent::PageBackward(page)) => Some(
            Msg::SelectReviewPointPageBackward(page),
        ),
        (NavSurface::ReviewRun, NavIntent::PageForward(page)) => Some(
            Msg::SelectReviewPointPageForward(page),
        ),
        (NavSurface::ReviewRun, NavIntent::First) => Some(Msg::SelectFirstReviewPoint),
        (NavSurface::ReviewRun, NavIntent::Last) => Some(Msg::SelectLastReviewPoint),
    }
}

/// What a chronology message means while the Run Inspector shows the deployed
/// source.
pub open spec fn in_source_mode(msg: Msg) -> Msg {
    match msg {
        Msg::SelectPreviousReviewPoint => Msg::ScrollSourceUp,
        Msg::SelectNextReviewPoint => Msg::ScrollSourceDown,
        Msg::SelectFirstReviewPoint => Msg::JumpSourceStart,
        Msg::SelectLastReviewPoint => Msg::JumpSourceEnd,
        Msg::SelectReviewPointPageBackward(page) => Msg::ScrollSourcePageBackward(page),
        Msg::SelectReviewPointPageForward(page) => Msg::ScrollSourcePageForward(page),
        _ => msg,
    }
}

/// Rewrites a chronology message into its scrolling equivalent for the
/// deployed source. Other messages pass through unchanged.
pub fn route_review_run_source(msg: Msg) -> (rewritten: Msg)
    ensures
        rewritten == in_source_mode(msg),
{
    match msg {
        Msg::SelectPreviousReviewPoint => Msg::ScrollSourceUp,
        Msg::SelectNextReviewPoint => Msg::ScrollSourceDown,
        Msg::SelectFirstReviewPoint => Msg::JumpSourceStart,
        Msg::SelectLastReviewPoint => Msg::JumpSourceEnd,
        Msg::SelectReviewPointPageBackward(page) => Msg::ScrollSourcePageBackward(page),
        Msg::SelectReviewPointPageForward(page) => Msg::ScrollSourcePageForward(page),
        other => other,
    }
}

} // verus!
