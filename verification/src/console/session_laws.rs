//! What each intent of the player does to a session, and what it leaves alone.

use vstd::prelude::*;
use vstd::view::View as _;

use super::editor::EditOp;
use super::intel::{lemma_visible, STARTER_CONTROLLER};
use super::session::{RequestModel, SessionModel, ValidationModel};
use super::state::{bootstrap_steps, Msg, PaneId, RunInspectorMode, View, WorkingSet};

verus! {

/// The selection among the signals moves by one, by a page of at least one, or
/// to either end, and stops at the ends; nothing else changes.
pub proof fn law_signal_selection_moves_as_asked(session: SessionModel, page: usize)
    requires
        session.wf(),
    ensures
        ({
            let at = session.selected_signal;
            let last: int = if session.connected {
                3
            } else {
                2
            };
            let rows: int = if page == 0 {
                1
            } else {
                page as int
            };
            &&& 0 <= at <= last
            &&& session.after(Msg::SelectFirstSignal) == (SessionModel {
                selected_signal: 0,
                ..session
            })
            &&& session.after(Msg::SelectLastSignal) == (SessionModel {
                selected_signal: last,
                ..session
            })
            &&& at > 0 ==> session.after(Msg::SelectPreviousSignal) == (SessionModel {
                selected_signal: at - 1,
                ..session
            })
            &&& at == 0 ==> session.after(Msg::SelectPreviousSignal) == session
            &&& at < last ==> session.after(Msg::SelectNextSignal) == (SessionModel {
                selected_signal: at + 1,
                ..session
            })
            &&& at == last ==> session.after(Msg::SelectNextSignal) == session
            &&& rows <= at ==> session.after(Msg::SelectSignalPageBackward(page)) == (SessionModel {
                selected_signal: at - rows,
                ..session
            })
            &&& rows > at ==> session.after(Msg::SelectSignalPageBackward(page)) == (SessionModel {
                selected_signal: 0,
                ..session
            })
            &&& at + rows <= last ==> session.after(Msg::SelectSignalPageForward(page)) == (
            SessionModel { selected_signal: at + rows, ..session })
            &&& at + rows > last ==> session.after(Msg::SelectSignalPageForward(page)) == (
            SessionModel { selected_signal: last, ..session })
        }),
{
    reveal(SessionModel::wf);
    reveal(SessionModel::after_signals);
    lemma_visible(session.connected);
}

/// The session with the offset of Help, or else that of the report, replaced.
pub open spec fn with_offset(session: SessionModel, help: bool, offset: int) -> SessionModel {
    if help {
        SessionModel { help_scroll: offset, ..session }
    } else {
        SessionModel { report_scroll: offset, ..session }
    }
}

/// Help, and the report while it has the focus, scroll by one, by a page of at
/// least one, or to either end, and stop at the ends; nothing else changes.
pub proof fn law_panes_scroll_as_asked(session: SessionModel, page: usize)
    requires
        session.wf(),
        session.current_view == View::Help || session.current_view == View::AfterAction
            && session.focus.after_action == PaneId::Report,
    ensures
        ({
            let help = session.current_view == View::Help;
            let at = if help {
                session.help_scroll
            } else {
                session.report_scroll
            };
            let rows: int = if page == 0 {
                1
            } else {
                page as int
            };
            &&& session.after(Msg::JumpScrollStart) == with_offset(session, help, 0)
            &&& session.after(Msg::JumpScrollEnd) == with_offset(session, help, 500)
            &&& at > 0 ==> session.after(Msg::ScrollUp) == with_offset(session, help, at - 1)
            &&& at == 0 ==> session.after(Msg::ScrollUp) == session
            &&& at < 500 ==> session.after(Msg::ScrollDown) == with_offset(session, help, at + 1)
            &&& at == 500 ==> session.after(Msg::ScrollDown) == session
            &&& rows <= at ==> session.after(Msg::ScrollPageBackward(page)) == with_offset(
                session,
                help,
                at - rows,
            )
            &&& rows > at ==> session.after(Msg::ScrollPageBackward(page)) == with_offset(
                session,
                help,
                0,
            )
            &&& at + rows <= 500 ==> session.after(Msg::ScrollPageForward(page)) == with_offset(
                session,
                help,
                at + rows,
            )
            &&& at + rows > 500 ==> session.after(Msg::ScrollPageForward(page)) == with_offset(
                session,
                help,
                500,
            )
        }),
{
    reveal(SessionModel::wf);
    reveal(SessionModel::after_scroll);
}

/// No other view or pane scrolls.
pub proof fn law_other_panes_do_not_scroll(session: SessionModel, page: usize)
    requires
        session.wf(),
        session.current_view != View::Help,
        session.current_view != View::AfterAction || session.focus.after_action != PaneId::Report,
    ensures
        session.after(Msg::ScrollUp) == session,
        session.after(Msg::ScrollDown) == session,
        session.after(Msg::ScrollPageBackward(page)) == session,
        session.after(Msg::ScrollPageForward(page)) == session,
        session.after(Msg::JumpScrollStart) == session,
        session.after(Msg::JumpScrollEnd) == session,
{
    reveal(SessionModel::wf);
    reveal(SessionModel::after_scroll);
}

/// Bounding a scroll offset lowers it to the bound where it is above, and
/// changes nothing else.
pub proof fn law_offsets_are_bounded(session: SessionModel, pane: PaneId, max: int)
    ensures
        session.pane_clamped(PaneId::Help, max) == (SessionModel {
            help_scroll: if session.help_scroll > max {
                max
            } else {
                session.help_scroll
            },
            ..session
        }),
        session.pane_clamped(PaneId::Report, max) == (SessionModel {
            report_scroll: if session.report_scroll > max {
                max
            } else {
                session.report_scroll
            },
            ..session
        }),
        pane != PaneId::Help && pane != PaneId::Report ==> session.pane_clamped(pane, max)
            == session,
        session.source_clamped(max) == (SessionModel {
            source_scroll: if session.source_scroll > max {
                max
            } else {
                session.source_scroll
            },
            ..session
        }),
{
}

/// The selection in the chronology of a finished run starts at its last point
/// and moves by one, by a page of at least one, or to either end, and stops at
/// the ends; nothing else changes. Without such a chronology nothing happens.
pub proof fn law_review_selection_moves_as_asked(session: SessionModel, page: usize)
    requires
        session.wf(),
    ensures
        ({
            let len = (session.operation->0).review_points().len() as int;
            let at = match session.review_selected {
                Some(i) => i,
                None => len - 1,
            };
            let rows: int = if page == 0 {
                1
            } else {
                page as int
            };
            session.concluded() && len > 0 ==> {
                &&& 0 <= at < len
                &&& session.after(Msg::SelectFirstReviewPoint) == (SessionModel {
                    review_selected: Some(0),
                    ..session
                })
                &&& session.after(Msg::SelectLastReviewPoint) == (SessionModel {
                    review_selected: Some(len - 1),
                    ..session
                })
                &&& session.after(Msg::SelectPreviousReviewPoint) == (SessionModel {
                    review_selected: Some(
                        if at > 0 {
                            at - 1
                        } else {
                            0
                        },
                    ),
                    ..session
                })
                &&& session.after(Msg::SelectNextReviewPoint) == (SessionModel {
                    review_selected: Some(
                        if at + 1 < len {
                            at + 1
                        } else {
                            len - 1
                        },
                    ),
                    ..session
                })
                &&& session.after(Msg::SelectReviewPointPageBackward(page)) == (SessionModel {
                    review_selected: Some(
                        if at > rows {
                            at - rows
                        } else {
                            0
                        },
                    ),
                    ..session
                })
                &&& session.after(Msg::SelectReviewPointPageForward(page)) == (SessionModel {
                    review_selected: Some(
                        if at + rows < len {
                            at + rows
                        } else {
                            len - 1
                        },
                    ),
                    ..session
                })
            }
        }),
        !session.concluded() || (session.operation->0).review_points().len() == 0 ==> {
            &&& session.after(Msg::SelectFirstReviewPoint) == session
            &&& session.after(Msg::SelectLastReviewPoint) == session
            &&& session.after(Msg::SelectPreviousReviewPoint) == session
            &&& session.after(Msg::SelectNextReviewPoint) == session
            &&& session.after(Msg::SelectReviewPointPageBackward(page)) == session
            &&& session.after(Msg::SelectReviewPointPageForward(page)) == session
        },
{
    reveal(SessionModel::wf);
    reveal(SessionModel::after_review);
}

/// The deployed source of a finished run scrolls by one, by a page of at least
/// one, or to either end; nothing else changes. Without a finished run nothing
/// happens.
pub proof fn law_deployed_source_scrolls_as_asked(session: SessionModel, page: usize)
    requires
        session.wf(),
    ensures
        ({
            let at = session.source_scroll;
            let rows: int = if page == 0 {
                1
            } else {
                page as int
            };
            session.concluded() ==> {
                &&& session.after(Msg::JumpSourceStart) == (SessionModel {
                    source_scroll: 0,
                    ..session
                })
                &&& session.after(Msg::JumpSourceEnd) == (SessionModel {
                    source_scroll: 65535,
                    ..session
                })
                &&& session.after(Msg::ScrollSourceUp) == (SessionModel {
                    source_scroll: if at > 0 {
                        at - 1
                    } else {
                        0
                    },
                    ..session
                })
                &&& session.after(Msg::ScrollSourceDown) == (SessionModel {
                    source_scroll: if at < 65535 {
                        at + 1
                    } else {
                        65535
                    },
                    ..session
                })
                &&& session.after(Msg::ScrollSourcePageBackward(page)) == (SessionModel {
                    source_scroll: if at > rows {
                        at - rows
                    } else {
                        0
                    },
                    ..session
                })
                &&& session.after(Msg::ScrollSourcePageForward(page)) == (SessionModel {
                    source_scroll: if at + rows < 65535 {
                        at + rows
                    } else {
                        65535
                    },
                    ..session
                })
                &&& session.after(Msg::ToggleRunInspectorMode) == (SessionModel {
                    run_inspector_mode: if session.run_inspector_mode == RunInspectorMode::Timeline {
                        RunInspectorMode::Source
                    } else {
                        RunInspectorMode::Timeline
                    },
                    ..session
                })
            }
        }),
        !session.concluded() ==> {
            &&& session.after(Msg::JumpSourceStart) == session
            &&& session.after(Msg::JumpSourceEnd) == session
            &&& session.after(Msg::ScrollSourceUp) == session
            &&& session.after(Msg::ScrollSourceDown) == session
            &&& session.after(Msg::ScrollSourcePageBackward(page)) == session
            &&& session.after(Msg::ScrollSourcePageForward(page)) == session
            &&& session.after(Msg::ToggleRunInspectorMode) == session
        },
{
    reveal(SessionModel::wf);
    reveal(SessionModel::after_source_scroll);
}

/// Which views can be reached: Target once its signal was inspected,
/// Controller and Operation once the opportunity is worked, the others always.
/// Navigation changes nothing but the view, and whether an active run that is
/// left for Signals, Target or Controller is paused.
pub proof fn law_where_navigation_leads(session: SessionModel, view: View)
    ensures
        ({
            let allowed = match view {
                View::Signals => true,
                View::AfterAction => true,
                View::Help => true,
                View::Target => session.target_known || session.working_set is Some,
                View::Controller => session.working_set is Some,
                View::Operation => session.working_set is Some,
            };
            let after = session.after(Msg::Navigate(view));
            &&& session.reachable(view) == allowed
            &&& !allowed ==> after == session
            &&& allowed ==> after == (SessionModel {
                current_view: view,
                operation: after.operation,
                ..session
            })
            &&& (!session.active() || view == View::Operation || view == View::AfterAction || view
                == View::Help) ==> after.operation == session.operation
        }),
{
    reveal(SessionModel::after_navigation);
}

/// Help opens from every other view, at its top, and remembers that view;
/// opening it again, or dismissing it where it was not opened, does nothing.
pub proof fn law_help_opens_over_the_view(session: SessionModel)
    ensures
        session.current_view != View::Help ==> session.after(Msg::OpenHelp) == (SessionModel {
            current_view: View::Help,
            help_return_view: Some(session.current_view),
            help_scroll: 0,
            ..session
        }),
        session.current_view != View::Help ==> session.after(Msg::OpenHelp).help_opened_from()
            == Some(session.current_view),
        session.current_view == View::Help ==> session.after(Msg::OpenHelp) == session,
        session.help_return_view is None ==> session.after(Msg::DismissHelp) == session,
        session.current_view != View::Help ==> session.help_opened_from() is None,
{
    reveal(SessionModel::after_navigation);
}

/// What `Enter` does: the signal with the opportunity leads to Target, and
/// Target to Controller, with the starter controller where the opportunity was
/// not being worked yet.
pub proof fn law_what_activation_does(session: SessionModel)
    requires
        session.wf(),
    ensures
        session.current_view == View::Signals && !session.connected && session.selected_signal == 0
            ==> session.after(Msg::Activate) == (SessionModel {
            target_known: true,
            current_view: View::Target,
            ..session
        }),
        session.current_view == View::Signals && (session.connected || session.selected_signal != 0)
            ==> session.after(Msg::Activate) == session,
        session.current_view == View::Target ==> ({
            let after = session.after(Msg::Activate);
            &&& after.current_view == View::Controller
            &&& after.working_set == Some(WorkingSet::FirstContact)
            &&& session.working_set is Some ==> after == (SessionModel {
                current_view: View::Controller,
                ..session
            })
            &&& session.working_set is None ==> {
                &&& after.source() == Some(STARTER_CONTROLLER@)
                &&& (after.controller->0).cursor() == STARTER_CONTROLLER@.len()
                &&& (after.controller->0).buffer.past.len() == 0
                &&& (after.controller->0).buffer.now.selection is None
                &&& after.operation == session.operation
                &&& after.validation == session.validation
            }
        }),
        session.current_view != View::Signals && session.current_view != View::Target
            ==> session.after(Msg::Activate) == session,
{
    reveal(SessionModel::wf);
    reveal(SessionModel::after_navigation);
    lemma_visible(session.connected);
}

/// The focus moves to the other pane of the current view, and back: to every
/// other view it does nothing. It does not move in Help, before there is a run
/// to show, or while a confirmation is pending.
pub proof fn law_where_the_focus_moves(session: SessionModel, view: View)
    requires
        session.wf(),
    ensures
        ({
            let here = session.current_view;
            let after = session.after(Msg::FocusNextPane);
            let asked = session.quit_confirmation_pending || session.reset_confirmation_pending
                || session.redeploy_confirmation_pending;
            let movable = !asked && here != View::Help && (session.operation is Some || here
                != View::Operation && here != View::AfterAction);
            &&& session.focus_movable(here) == movable
            &&& after == (SessionModel { focus: after.focus, ..session })
            &&& view != here ==> after.focus.of(view) == session.focus.of(view)
            &&& !movable ==> after == session
            &&& movable ==> {
                &&& after.focus.of(here) != session.focus.of(here)
                &&& after.after(Msg::FocusNextPane) == session
                &&& match here {
                    View::Signals => after.focus.signals == PaneId::SignalsList
                        || after.focus.signals == PaneId::SelectedSignal,
                    View::Target => after.focus.target == PaneId::TargetIntelligence
                        || after.focus.target == PaneId::Provenance,
                    View::Controller => after.focus.controller == PaneId::ControllerSource
                        || after.focus.controller == PaneId::LuaFieldReference,
                    View::Operation => after.focus.operation == PaneId::Satellite
                        || after.focus.operation == PaneId::OperationTelemetry,
                    View::AfterAction => after.focus.after_action == PaneId::Report
                        || after.focus.after_action == PaneId::FinalFrame,
                    View::Help => false,
                }
            }
        }),
{
    reveal(SessionModel::wf);
    reveal(SessionModel::after_navigation);
}

/// An edit and a paste reach the controller alone: nothing else changes but
/// what is known of a source that has changed.
pub proof fn law_edits_reach_the_controller_alone(session: SessionModel, op: EditOp, text: String)
    ensures
        session.controller matches Some(document) ==> {
            let edited = session.after(Msg::EditController(op));
            let pasted = session.after(Msg::PasteController(text));
            &&& edited == (SessionModel {
                controller: Some(document.edit(op)),
                validation: if document.edit(op).source() == document.source() {
                    session.validation
                } else {
                    ValidationModel::Unchecked
                },
                ..session
            })
            &&& pasted == (SessionModel {
                controller: Some(document.paste(text@)),
                validation: if document.paste(text@).source() == document.source() {
                    session.validation
                } else {
                    ValidationModel::Unchecked
                },
                ..session
            })
        },
        session.controller is None ==> session.after(Msg::EditController(op)) == session
            && session.after(Msg::PasteController(text)) == session,
        session.after(Msg::ValidateController) == session,
{
    reveal(SessionModel::after_controller);
}

/// A reset asks first where there is something to lose. Confirmed, or with
/// nothing to lose, it leaves the starter controller, unchecked, with the
/// cursor at its end and nothing to take back; cancelled, it leaves everything
/// as it was.
pub proof fn law_what_a_reset_does(session: SessionModel, msg: Msg)
    requires
        session.controller is Some,
        msg == Msg::RequestResetController || msg == Msg::ConfirmResetController,
    ensures
        ({
            let after = session.after(msg);
            let asks = msg == Msg::RequestResetController && session.source() != Some(
                STARTER_CONTROLLER@,
            );
            &&& asks ==> after == (SessionModel { reset_confirmation_pending: true, ..session })
            &&& !asks ==> {
                &&& after.source() == Some(STARTER_CONTROLLER@)
                &&& after.validation == ValidationModel::Unchecked
                &&& (after.controller->0).cursor() == STARTER_CONTROLLER@.len()
                &&& (after.controller->0).buffer.past.len() == 0
                &&& (after.controller->0).buffer.future.len() == 0
                &&& (after.controller->0).buffer.now.selection is None
                &&& after == (SessionModel {
                    controller: after.controller,
                    validation: after.validation,
                    reset_confirmation_pending: after.reset_confirmation_pending,
                    ..session
                })
            }
            &&& msg == Msg::ConfirmResetController ==> !after.reset_confirmation_pending
        }),
        session.after(Msg::CancelResetController) == (SessionModel {
            reset_confirmation_pending: false,
            ..session
        }),
{
    reveal(SessionModel::after_controller);
}

/// Quitting asks first where the controller was modified or a run is active;
/// confirmed, or with nothing to lose, the session is to end; cancelled, it
/// goes on as it was.
pub proof fn law_what_quitting_does(session: SessionModel)
    ensures
        ({
            let loses = session.active() || session.source() is Some && session.source() != Some(
                STARTER_CONTROLLER@,
            );
            &&& loses ==> session.after(Msg::RequestQuit) == (SessionModel {
                quit_confirmation_pending: true,
                ..session
            })
            &&& !loses ==> session.after(Msg::RequestQuit) == (SessionModel {
                should_quit: true,
                ..session
            })
        }),
        session.after(Msg::ConfirmQuit) == (SessionModel { should_quit: true, ..session }),
        session.after(Msg::CancelQuit) == (SessionModel {
            quit_confirmation_pending: false,
            ..session
        }),
{
    reveal(SessionModel::after_quit);
}

/// Deploying asks first where a run is active, in the view of that run; else,
/// and once confirmed, the host is asked to load the source. Nothing is asked
/// of it without a controller, or by a cancelled deployment.
pub proof fn law_what_deploying_asks_for(session: SessionModel)
    ensures
        session.controller is Some && session.active() ==> session.after(Msg::RequestDeploy) == (
        SessionModel {
            redeploy_confirmation_pending: true,
            current_view: View::Operation,
            ..session
        }) && session.request(Msg::RequestDeploy) is None,
        session.controller is Some && !session.active() ==> session.after(Msg::RequestDeploy)
            == session && session.request(Msg::RequestDeploy) == Some(
            RequestModel::Deploy(session.source()->0),
        ),
        session.controller is Some ==> session.request(Msg::ConfirmDeploy) == Some(
            RequestModel::Deploy(session.source()->0),
        ) && session.request(Msg::ValidateController) == Some(
            RequestModel::Validate(session.source()->0),
        ),
        session.controller is None ==> session.request(Msg::RequestDeploy) is None
            && session.request(Msg::ConfirmDeploy) is None && session.request(
            Msg::ValidateController,
        ) is None && session.after(Msg::RequestDeploy) == session,
        session.after(Msg::ConfirmDeploy) == (SessionModel {
            redeploy_confirmation_pending: false,
            ..session
        }),
        session.after(Msg::CancelDeploy) == (SessionModel {
            redeploy_confirmation_pending: false,
            ..session
        }),
        session.request(Msg::CancelDeploy) is None,
{
    reveal(SessionModel::after_run);
    reveal(SessionModel::request);
}

/// Nothing is asked of the host but to check a source, to load one, and to
/// carry out a tick.
pub proof fn law_who_asks_the_host(session: SessionModel, msg: Msg)
    ensures
        session.request(msg) is Some ==> msg == Msg::ValidateController || msg == Msg::RequestDeploy
            || msg == Msg::ConfirmDeploy || msg == Msg::StepOperationTick,
{
    reveal(SessionModel::request);
}

/// Acknowledging the introduction only takes it away; a tick of Network
/// Bootstrap only advances that.
pub proof fn law_presentations_only_advance_themselves(session: SessionModel)
    ensures
        session.after(Msg::AcknowledgeBootstrapIntro) == (SessionModel {
            bootstrap_intro_visible: false,
            ..session
        }),
        session.bootstrapped() == (SessionModel {
            network_bootstrap_pending: session.bootstrapped().network_bootstrap_pending,
            network_bootstrap_step: session.bootstrapped().network_bootstrap_step,
            ..session
        }),
        !session.network_bootstrap_pending ==> session.bootstrapped() == session,
        session.network_bootstrap_pending && session.network_bootstrap_step < 9
            ==> session.bootstrapped().network_bootstrap_step == session.network_bootstrap_step + 1
            && session.bootstrapped().network_bootstrap_pending,
        session.network_bootstrap_pending && session.network_bootstrap_step >= 9
            ==> !session.bootstrapped().network_bootstrap_pending,
{
    reveal(SessionModel::after_navigation);
}

/// A new session: Signals with the first signal selected and the first pane of
/// every view focused, nothing worked, nothing deployed, and no connection.
pub proof fn law_how_a_session_begins()
    ensures
        ({
            let session = SessionModel::initial();
            &&& session.current_view == View::Signals
            &&& session.selected_signal == 0
            &&& session.help_opened_from() is None
            &&& session.working_set is None
            &&& session.controller is None
            &&& session.validation == ValidationModel::Unchecked
            &&& !session.target_known
            &&& session.operation is None
            &&& session.next_run_id == 1
            &&& session.review_selected is None
            &&& session.run_inspector_mode == RunInspectorMode::Timeline
            &&& session.source_scroll == 0
            &&& session.help_scroll == 0
            &&& session.report_scroll == 0
            &&& session.focus.signals == PaneId::SignalsList
            &&& session.focus.target == PaneId::TargetIntelligence
            &&& session.focus.controller == PaneId::ControllerSource
            &&& session.focus.operation == PaneId::Satellite
            &&& session.focus.after_action == PaneId::Report
            &&& !session.quit_confirmation_pending
            &&& !session.reset_confirmation_pending
            &&& !session.redeploy_confirmation_pending
            &&& !session.should_quit
            &&& !session.connected
            &&& !session.network_bootstrap_pending
            &&& session.network_bootstrap_step == 0
            &&& !session.bootstrap_intro_visible
        }),
{
}

/// The focus of each view, and the scroll offset of each pane, is its own.
pub proof fn law_views_and_panes_are_kept_apart(
    session: SessionModel,
    view: View,
    other: View,
    pane: PaneId,
)
    ensures
        view != View::Help ==> session.focus.with(view, pane).of(view) == pane,
        view != other ==> session.focus.with(view, pane).of(other) == session.focus.of(other),
        session.focus.of(View::Help) == PaneId::Help,
        session.focus.of(View::Signals) == session.focus.signals,
        session.focus.of(View::Target) == session.focus.target,
        session.focus.of(View::Controller) == session.focus.controller,
        session.focus.of(View::Operation) == session.focus.operation,
        session.focus.of(View::AfterAction) == session.focus.after_action,
        session.scroll(PaneId::Help) == session.help_scroll,
        session.scroll(PaneId::Report) == session.report_scroll,
        pane != PaneId::Help && pane != PaneId::Report ==> session.scroll(pane) == 0,
        session.focused() == session.focus.of(session.current_view),
        session.modified() <==> session.source() is Some && session.source() != Some(
            STARTER_CONTROLLER@,
        ),
        session.controller matches Some(document) ==> session.source() == Some(
            document.buffer.now.text,
        ),
{
}

/// The steps that Network Bootstrap reveals: from the uplink to the network
/// services, in seven steps.
pub proof fn law_how_network_bootstrap_unfolds()
    ensures
        bootstrap_steps().len() == 7,
        bootstrap_steps()[0]@ == "uplink established"@,
        bootstrap_steps()[1]@ == "peer network reachable"@,
        bootstrap_steps()[2]@ == "syncing console package index"@,
        bootstrap_steps()[3]@ == "verifying module signatures"@,
        bootstrap_steps()[4]@ == "syncing operator keys (signed: slaptijack@)"@,
        bootstrap_steps()[5]@ == "subscribing to shared intel feed"@,
        bootstrap_steps()[6]@ == "network services online"@,
{
}

} // verus!
