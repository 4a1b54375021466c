use human_exception::console::editor::EditOp;
use human_exception::console::intel::visible_signals;
use human_exception::console::state::{
    network_bootstrap_steps, AppState, ConclusionKind, Msg, OperationSnapshot, PaneId, Request, ReviewPointKind, RunInspectorMode, Validation,
    View, WorkingSet, NETWORK_BOOTSTRAP_LINGER_TICKS,
};
use human_exception::lua_controller::ControllerError;
use human_exception::simulation::Observation;

/// A session together with the Lua host that answers its requests.
struct Console {
    state: AppState,
    lua: Option<mlua::Lua>,
}

impl std::ops::Deref for Console {
    type Target = AppState;

    fn deref(&self) -> &AppState {
        &self.state
    }
}

impl std::ops::DerefMut for Console {
    fn deref_mut(&mut self) -> &mut AppState {
        &mut self.state
    }
}

fn load(source: &str) -> Result<mlua::Lua, ControllerError> {
    let lua = mlua::Lua::new();
    lua.set_global_hook(
        mlua::HookTriggers::new().every_nth_instruction(100_000),
        |_, _| Err(mlua::Error::runtime("execution limit")),
    )
    .expect("a fresh interpreter takes a hook");
    if let Err(error) = lua.load(source).exec() {
        return Err(ControllerError::ScriptInvalid(error.to_string()));
    }
    let callback: Result<mlua::Function, mlua::Error> = lua.globals().get("on_tick");
    match callback {
        Ok(_) => Ok(lua),
        Err(_) => Err(ControllerError::MissingCallback),
    }
}

fn call(lua: &mlua::Lua, observation: &Observation) -> Result<String, ControllerError> {
    let reply = || -> Result<mlua::Value, mlua::Error> {
        let table = lua.create_table()?;
        let drone = lua.create_table()?;
        drone.set("x", observation.drone_position.x)?;
        drone.set("y", observation.drone_position.y)?;
        table.set("drone", drone)?;
        table.set("tick", observation.tick)?;
        table.set("budget_remaining", observation.budget_remaining)?;
        let discovered = lua.create_table()?;
        for tile in &observation.discovered {
            let entry = lua.create_table()?;
            entry.set("x", tile.position.x)?;
            entry.set("y", tile.position.y)?;
            entry.set("traversable", tile.traversable)?;
            entry.set("uplink", tile.uplink)?;
            discovered.push(entry)?;
        }
        table.set("discovered", discovered)?;
        let callback: mlua::Function = lua.globals().get("on_tick")?;
        callback.call(table)
    };
    match reply() {
        Ok(mlua::Value::String(name)) => Ok(name.to_string_lossy()),
        Ok(other) => Err(ControllerError::InvalidAction(format!("{other:?}"))),
        Err(error) if error.to_string().contains("execution limit") => {
            Err(ControllerError::ExecutionLimitExceeded)
        }
        Err(error) => Err(ControllerError::CallbackFailed(error.to_string())),
    }
}

impl Console {
    fn new() -> Console {
        Console { state: AppState::new(), lua: None }
    }

    fn serve(&mut self, request: Option<Request>) -> bool {
        match request {
            None => false,
            Some(Request::Validate(source)) => {
                let outcome = load(&source).map(|_| ());
                self.state.validated(source, outcome);
                true
            }
            Some(Request::Deploy(source)) => {
                let outcome = match load(&source) {
                    Ok(lua) => {
                        self.lua = Some(lua);
                        Ok(())
                    }
                    Err(error) => Err(error),
                };
                self.state.deployed(source, outcome);
                true
            }
            Some(Request::Step(observation)) => {
                let reply = match &self.lua {
                    Some(lua) => call(lua, &observation),
                    None => Err(ControllerError::MissingCallback),
                };
                self.state.stepped(reply)
            }
        }
    }

    fn apply(&mut self, msg: Msg) {
        let request = self.state.apply(msg);
        self.serve(request);
    }

    fn advance_running_operation(&mut self) -> bool {
        let request = self.state.advance_running_operation();
        self.serve(request)
    }

    /// Scrolls the After Action report, and returns to the view before.
    fn scroll_report(&mut self, rows: usize) {
        let view = self.current_view();
        self.apply(Msg::Navigate(View::AfterAction));
        self.apply(Msg::ScrollPageForward(rows));
        self.apply(Msg::Navigate(view));
    }

    /// The first review point's state: what was known at deployment.
    fn initial_snapshot(&self) -> Option<OperationSnapshot> {
        let operation = self.operation()?;
        let first = operation.review_points.into_iter().next()?;
        Some(first.snapshot)
    }

    /// Replaces the controller source.
    fn replace_source(&mut self, source: &str) {
        self.apply(Msg::EditController(EditOp::SelectAll));
        self.apply(Msg::PasteController(source.to_string()));
    }
}

#[test]
fn starts_on_signals_with_no_working_set() {
    let state = Console::new();

    assert_eq!(state.current_view(), View::Signals);
    assert_eq!(state.working_set(), None);
    assert!(!state.should_quit());
}

#[test]
fn navigate_switches_the_current_view_for_always_available_views() {
    for view in [View::Signals, View::AfterAction] {
        let mut state = Console::new();
        state.apply(Msg::Navigate(view));
        assert_eq!(state.current_view(), view);
    }
}

#[test]
fn target_controller_and_operation_are_unreachable_before_their_prerequisites() {
    for view in [View::Target, View::Controller, View::Operation] {
        let mut state = Console::new();
        state.apply(Msg::Navigate(view));
        assert_eq!(
            state.current_view(),
            View::Signals,
            "{view:?} should not be reachable from a fresh session"
        );
    }
}

#[test]
fn target_becomes_reachable_once_the_actionable_signal_is_inspected() {
    let mut state = Console::new();
    state.apply(Msg::Activate);

    state.apply(Msg::Navigate(View::Signals));
    state.apply(Msg::Navigate(View::Target));

    assert_eq!(state.current_view(), View::Target);
}

#[test]
fn controller_and_operation_become_reachable_once_a_working_set_exists() {
    let mut state = Console::new();
    state.apply(Msg::Activate); // inspect First Contact
    state.apply(Msg::Activate); // commit to working it

    for view in [View::Controller, View::Operation] {
        state.apply(Msg::Navigate(view));
        assert_eq!(state.current_view(), view);
    }
}

#[test]
fn opening_help_remembers_the_prior_view() {
    let mut state = Console::new();
    state.apply(Msg::Navigate(View::AfterAction));

    state.apply(Msg::OpenHelp);

    assert_eq!(state.current_view(), View::Help);
}

#[test]
fn dismissing_help_restores_the_exact_prior_view() {
    let mut state = Console::new();
    state.apply(Msg::Navigate(View::AfterAction));
    state.apply(Msg::OpenHelp);

    state.apply(Msg::DismissHelp);

    assert_eq!(state.current_view(), View::AfterAction);
}

#[test]
fn dismissing_help_without_opening_it_is_a_no_op() {
    let mut state = Console::new();
    state.apply(Msg::Navigate(View::AfterAction));

    state.apply(Msg::DismissHelp);

    assert_eq!(state.current_view(), View::AfterAction);
}

#[test]
fn opening_help_twice_keeps_the_original_return_view() {
    let mut state = Console::new();
    state.apply(Msg::Navigate(View::AfterAction));

    state.apply(Msg::OpenHelp);
    state.apply(Msg::OpenHelp);
    state.apply(Msg::DismissHelp);

    assert_eq!(state.current_view(), View::AfterAction);
}

#[test]
fn every_view_resolves_a_focused_pane_that_belongs_to_it() {
    let state = Console::new();

    for view in [
        View::Help,
        View::Signals,
        View::Target,
        View::Controller,
        View::Operation,
        View::AfterAction,
    ] {
        let pane = state.focused_pane(view);
        assert!(
            view.panes().contains(&pane),
            "{pane:?} is not a pane of {view:?}"
        );
    }
}

#[test]
fn default_focused_panes_match_the_design_contract() {
    let state = Console::new();

    assert_eq!(state.focused_pane(View::Help), PaneId::Help);
    assert_eq!(state.focused_pane(View::Signals), PaneId::SignalsList);
    assert_eq!(state.focused_pane(View::Target), PaneId::TargetIntelligence);
    assert_eq!(
        state.focused_pane(View::Controller),
        PaneId::ControllerSource
    );
    assert_eq!(state.focused_pane(View::Operation), PaneId::Satellite);
    assert_eq!(state.focused_pane(View::AfterAction), PaneId::Report);
}

#[test]
fn focus_persists_independently_per_view_across_navigation() {
    let mut state = Console::new();
    state.set_focused_pane(View::Controller, PaneId::LuaFieldReference);
    state.set_focused_pane(View::Signals, PaneId::SelectedSignal);

    state.apply(Msg::Navigate(View::AfterAction));
    state.apply(Msg::Navigate(View::Signals));
    state.apply(Msg::Navigate(View::AfterAction));

    assert_eq!(
        state.focused_pane(View::Controller),
        PaneId::LuaFieldReference
    );
    assert_eq!(state.focused_pane(View::Signals), PaneId::SelectedSignal);
    assert_eq!(state.focused_pane(View::AfterAction), PaneId::Report);
}

#[test]
fn opening_and_dismissing_help_preserves_the_underlying_views_focus() {
    let mut state = Console::new();
    state.set_focused_pane(View::Signals, PaneId::SelectedSignal);

    state.apply(Msg::OpenHelp);
    assert_eq!(state.focused_pane(View::Help), PaneId::Help);

    state.apply(Msg::DismissHelp);
    assert_eq!(state.focused_pane(View::Signals), PaneId::SelectedSignal);
}

#[test]
fn signal_selection_does_not_move_past_the_ends_of_the_list() {
    let mut state = Console::new();

    state.apply(Msg::SelectPreviousSignal);
    assert_eq!(state.selected_signal(), 0);

    for _ in 0..visible_signals(false).len() + 2 {
        state.apply(Msg::SelectNextSignal);
    }
    assert_eq!(state.selected_signal(), visible_signals(false).len() - 1);
}

#[test]
fn home_and_end_jump_signal_selection_to_the_first_and_last_signal() {
    let mut state = Console::new();
    let last = visible_signals(false).len() - 1;

    state.apply(Msg::SelectLastSignal);
    assert_eq!(state.selected_signal(), last);

    state.apply(Msg::SelectFirstSignal);
    assert_eq!(state.selected_signal(), 0);

    // Inert at the boundary they already sit at.
    state.apply(Msg::SelectFirstSignal);
    assert_eq!(state.selected_signal(), 0);
}

#[test]
fn signal_page_movement_clamps_at_the_ends_without_wrapping() {
    let mut state = Console::new();
    let last = visible_signals(false).len() - 1;

    state.apply(Msg::SelectSignalPageForward(2));
    assert_eq!(state.selected_signal(), 2.min(last));

    state.apply(Msg::SelectSignalPageForward(last + 10));
    assert_eq!(state.selected_signal(), last);

    state.apply(Msg::SelectSignalPageBackward(2));
    assert_eq!(state.selected_signal(), last.saturating_sub(2));

    state.apply(Msg::SelectSignalPageBackward(last + 10));
    assert_eq!(state.selected_signal(), 0);
}

#[test]
fn signal_page_movement_treats_a_zero_page_size_as_one() {
    let mut state = Console::new();

    state.apply(Msg::SelectSignalPageForward(0));
    assert_eq!(
        state.selected_signal(),
        1.min(visible_signals(false).len() - 1)
    );

    state.apply(Msg::SelectSignalPageBackward(0));
    assert_eq!(state.selected_signal(), 0);
}

#[test]
fn activating_the_actionable_signal_marks_target_known_and_opens_it() {
    let mut state = Console::new();
    let actionable = visible_signals(false)
        .iter()
        .position(|signal| signal.is_actionable())
        .expect("exactly one signal is actionable");
    for _ in 0..actionable {
        state.apply(Msg::SelectNextSignal);
    }

    state.apply(Msg::Activate);

    assert!(state.view_available(View::Target));
    assert_eq!(state.current_view(), View::Target);
}

#[test]
fn activating_a_non_actionable_signal_is_a_no_op() {
    let mut state = Console::new();
    let non_actionable = visible_signals(false)
        .iter()
        .position(|signal| !signal.is_actionable())
        .expect("at least one signal is non-actionable");
    for _ in 0..non_actionable {
        state.apply(Msg::SelectNextSignal);
    }

    state.apply(Msg::Activate);

    assert!(!state.view_available(View::Target));
    assert_eq!(state.current_view(), View::Signals);
}

#[test]
fn activating_target_commits_the_working_set_and_seeds_the_starter_controller() {
    let mut state = Console::new();
    state.apply(Msg::Activate); // inspect
    state.apply(Msg::Activate); // commit

    assert_eq!(state.working_set(), Some(WorkingSet::FirstContact));
    assert_eq!(
        state.controller_source(),
        Some(human_exception::console::intel::STARTER_CONTROLLER.to_string())
    );
    assert_eq!(state.current_view(), View::Controller);
}

#[test]
fn reactivating_target_preserves_edited_controller_source() {
    let mut state = Console::new();
    state.apply(Msg::Activate);
    state.apply(Msg::Activate);
    state.apply(Msg::EditController(EditOp::Insert('!')));

    state.apply(Msg::Navigate(View::Target));
    state.apply(Msg::Activate);

    assert_eq!(
        state.controller_source(),
        Some(format!("{}!", human_exception::console::intel::STARTER_CONTROLLER))
    );
}

#[test]
fn editing_the_controller_marks_it_modified_and_resets_validation() {
    let mut state = Console::new();
    state.apply(Msg::Activate);
    state.apply(Msg::Activate);
    assert!(!state.controller_modified());

    state.apply(Msg::EditController(EditOp::Insert('x')));

    assert!(state.controller_modified());
    assert_eq!(state.validation(), &Validation::Unchecked);
}

#[test]
fn paste_controller_inserts_multiline_text_and_invalidates_validation() {
    let mut state = Console::new();
    state.apply(Msg::Activate);
    state.apply(Msg::Activate);
    state.apply(Msg::ValidateController);
    assert_eq!(state.validation(), &Validation::Valid);

    state.apply(Msg::PasteController("-- a\n-- b\n".to_string()));

    assert!(
        state
            .controller_source()
            .is_some_and(|source| source.ends_with("-- a\n-- b\n"))
    );
    assert_eq!(state.validation(), &Validation::Unchecked);
}

#[test]
fn paste_controller_with_empty_string_does_not_change_source_or_validation() {
    let mut state = Console::new();
    state.apply(Msg::Activate);
    state.apply(Msg::Activate);
    state.apply(Msg::ValidateController);
    assert_eq!(state.validation(), &Validation::Valid);
    let source_before = state.controller_source().unwrap().to_string();

    state.apply(Msg::PasteController(String::new()));

    assert_eq!(state.controller_source(), Some(source_before.clone()));
    assert_eq!(state.validation(), &Validation::Valid);
}

#[test]
fn paste_controller_with_no_loaded_controller_is_a_noop() {
    let mut state = Console::new();
    assert_eq!(state.controller_source(), None);

    state.apply(Msg::PasteController("x".to_string()));

    assert_eq!(state.controller_source(), None);
}

#[test]
fn moving_the_cursor_after_validating_preserves_the_result() {
    let mut state = Console::new();
    state.apply(Msg::Activate);
    state.apply(Msg::Activate);
    state.apply(Msg::ValidateController);
    assert_eq!(state.validation(), &Validation::Valid);

    state.apply(Msg::EditController(EditOp::MoveLeft(false)));
    state.apply(Msg::EditController(EditOp::MoveDown(false)));

    assert_eq!(
        state.validation(),
        &Validation::Valid,
        "cursor movement doesn't change the source, so a prior validation is still accurate"
    );
}

#[test]
fn a_no_op_boundary_delete_preserves_a_prior_validation() {
    let mut state = Console::new();
    state.apply(Msg::Activate);
    state.apply(Msg::Activate); // cursor starts at the end of the source
    state.apply(Msg::ValidateController);
    assert_eq!(state.validation(), &Validation::Valid);

    // DeleteForward at the document's end and Backspace at its start
    // are both no-ops (ControllerDocument::apply reports no mutation),
    // so neither should invalidate a result that's still accurate.
    state.apply(Msg::EditController(EditOp::DeleteForward));
    assert_eq!(
        state.validation(),
        &Validation::Valid,
        "DeleteForward at the end of the document didn't change anything"
    );

    state.apply(Msg::EditController(EditOp::PageUp(false)));
    state.apply(Msg::EditController(EditOp::PageUp(false)));
    state.apply(Msg::EditController(EditOp::MoveLineStart(false)));
    state.apply(Msg::EditController(EditOp::Backspace));
    assert_eq!(
        state.validation(),
        &Validation::Valid,
        "Backspace at the start of the document didn't change anything either"
    );
}

#[test]
fn creating_a_selection_without_mutating_preserves_a_prior_validation() {
    let mut state = Console::new();
    state.apply(Msg::Activate);
    state.apply(Msg::Activate);
    state.apply(Msg::ValidateController);
    assert_eq!(state.validation(), &Validation::Valid);

    state.apply(Msg::EditController(EditOp::MoveLineStart(true)));
    state.apply(Msg::EditController(EditOp::SelectAll));

    assert_eq!(
        state.validation(),
        &Validation::Valid,
        "creating a selection doesn't change the source, so a prior validation is still accurate"
    );
}

#[test]
fn undo_that_actually_changes_content_invalidates_a_prior_validation() {
    let mut state = Console::new();
    state.apply(Msg::Activate);
    state.apply(Msg::Activate);
    state.apply(Msg::ValidateController);
    assert_eq!(state.validation(), &Validation::Valid);

    // Appending 'x' at the end of the starter breaks its syntax, but
    // that doesn't matter here — either result (`Valid` or `Invalid`)
    // is something a subsequent undo must invalidate back to
    // `Unchecked`, since undo is itself a content-changing edit.
    state.apply(Msg::EditController(EditOp::Insert('x')));
    state.apply(Msg::ValidateController);
    assert_ne!(
        state.validation(),
        &Validation::Unchecked,
        "sanity: validating the edited script must produce a result to invalidate"
    );

    state.apply(Msg::EditController(EditOp::Undo));

    assert_eq!(
        state.validation(),
        &Validation::Unchecked,
        "undo restores the pre-'x' source, which is still a real content change"
    );
}

#[test]
fn undo_with_no_history_preserves_a_prior_validation() {
    let mut state = Console::new();
    state.apply(Msg::Activate);
    state.apply(Msg::Activate);
    state.apply(Msg::ValidateController);
    assert_eq!(state.validation(), &Validation::Valid);

    state.apply(Msg::EditController(EditOp::Undo));

    assert_eq!(
        state.validation(),
        &Validation::Valid,
        "there's nothing to undo yet, so nothing changed"
    );
}

#[test]
fn editing_the_controller_before_a_working_set_exists_is_a_no_op() {
    let mut state = Console::new();
    state.apply(Msg::EditController(EditOp::Insert('x')));
    assert_eq!(state.controller_source(), None);
}

#[test]
fn validating_a_valid_controller_reports_it_valid() {
    let mut state = Console::new();
    state.apply(Msg::Activate);
    state.apply(Msg::Activate);

    state.apply(Msg::ValidateController);

    assert_eq!(state.validation(), &Validation::Valid);
}

#[test]
fn validating_an_invalid_controller_reports_the_diagnostic() {
    let mut state = Console::new();
    state.apply(Msg::Activate);
    state.apply(Msg::Activate);
    for _ in 0..500 {
        state.apply(Msg::EditController(EditOp::Backspace));
    }
    state.apply(Msg::EditController(EditOp::Insert('(')));

    state.apply(Msg::ValidateController);

    assert!(matches!(state.validation(), Validation::Invalid(_)));
}

#[test]
fn resetting_an_unmodified_controller_needs_no_confirmation() {
    let mut state = Console::new();
    state.apply(Msg::Activate);
    state.apply(Msg::Activate);

    state.apply(Msg::RequestResetController);

    assert!(!state.reset_confirmation_pending());
    assert_eq!(
        state.controller_source(),
        Some(human_exception::console::intel::STARTER_CONTROLLER.to_string())
    );
}

#[test]
fn resetting_a_modified_controller_requires_confirmation() {
    let mut state = Console::new();
    state.apply(Msg::Activate);
    state.apply(Msg::Activate);
    state.apply(Msg::EditController(EditOp::Insert('x')));

    state.apply(Msg::RequestResetController);

    assert!(state.reset_confirmation_pending());
    assert!(state.controller_modified(), "the edit is not discarded yet");
}

#[test]
fn confirming_reset_restores_the_starter_controller() {
    let mut state = Console::new();
    state.apply(Msg::Activate);
    state.apply(Msg::Activate);
    state.apply(Msg::EditController(EditOp::Insert('x')));
    state.apply(Msg::RequestResetController);

    state.apply(Msg::ConfirmResetController);

    assert!(!state.reset_confirmation_pending());
    assert_eq!(
        state.controller_source(),
        Some(human_exception::console::intel::STARTER_CONTROLLER.to_string())
    );
}

#[test]
fn cancelling_reset_keeps_the_edit_and_clears_the_prompt() {
    let mut state = Console::new();
    state.apply(Msg::Activate);
    state.apply(Msg::Activate);
    state.apply(Msg::EditController(EditOp::Insert('x')));
    state.apply(Msg::RequestResetController);

    state.apply(Msg::CancelResetController);

    assert!(!state.reset_confirmation_pending());
    assert!(state.controller_modified());
}

#[test]
fn undoing_back_to_the_starter_text_clears_modified_and_needs_no_reset_confirmation() {
    let mut state = Console::new();
    state.apply(Msg::Activate);
    state.apply(Msg::Activate);
    assert!(!state.controller_modified());

    state.apply(Msg::EditController(EditOp::Insert('x')));
    assert!(state.controller_modified());

    state.apply(Msg::EditController(EditOp::Undo));

    assert!(
        !state.controller_modified(),
        "undoing back to exactly the starter text should clear \"modified\", \
         since it is a content comparison rather than an undo-depth flag"
    );
    assert_eq!(
        state.validation(),
        &Validation::Unchecked,
        "the undo did change content, so any prior validation is invalidated"
    );

    state.apply(Msg::RequestResetController);

    assert!(!state.reset_confirmation_pending());
    assert_eq!(
        state.controller_source(),
        Some(human_exception::console::intel::STARTER_CONTROLLER.to_string())
    );
}

#[test]
fn undoing_partway_back_still_leaves_the_controller_modified() {
    let mut state = Console::new();
    state.apply(Msg::Activate);
    state.apply(Msg::Activate);

    state.apply(Msg::EditController(EditOp::Insert('x')));
    state.apply(Msg::EditController(EditOp::Insert('y')));
    state.apply(Msg::EditController(EditOp::Undo));

    assert!(
        state.controller_modified(),
        "one undo removed only the second insert; the first still \
         differs from the starter text"
    );
}

#[test]
fn focus_next_pane_advances_through_a_views_panes_and_wraps_around() {
    let mut state = Console::new();
    assert_eq!(state.focused_pane(View::Signals), PaneId::SignalsList);

    state.apply(Msg::FocusNextPane);
    assert_eq!(state.focused_pane(View::Signals), PaneId::SelectedSignal);

    state.apply(Msg::FocusNextPane);
    assert_eq!(state.focused_pane(View::Signals), PaneId::SignalsList);
}

#[test]
fn focus_next_pane_is_inert_in_help() {
    let mut state = Console::new();
    state.apply(Msg::OpenHelp);
    assert_eq!(state.focused_pane(View::Help), PaneId::Help);

    state.apply(Msg::FocusNextPane);
    assert_eq!(state.focused_pane(View::Help), PaneId::Help);
}

#[test]
fn navigating_away_and_back_preserves_moved_focus() {
    let mut state = Console::new();
    state.apply(Msg::FocusNextPane);
    assert_eq!(state.focused_pane(View::Signals), PaneId::SelectedSignal);

    state.apply(Msg::Navigate(View::AfterAction));
    state.apply(Msg::Navigate(View::Signals));

    assert_eq!(state.focused_pane(View::Signals), PaneId::SelectedSignal);
}

#[test]
fn focus_movement_available_is_false_only_for_help() {
    let state = Console::new();
    assert!(!state.focus_movement_available(View::Help));
    assert!(state.focus_movement_available(View::Signals));
    assert!(state.focus_movement_available(View::Target));
    assert!(state.focus_movement_available(View::Controller));
}

#[test]
fn focus_movement_available_is_false_for_operation_and_after_action_before_any_deploy() {
    let state = Console::new();
    assert!(!state.focus_movement_available(View::Operation));
    assert!(!state.focus_movement_available(View::AfterAction));
}

#[test]
fn focus_movement_available_is_true_for_operation_and_after_action_once_deployed() {
    let mut state = Console::new();
    state.apply(Msg::Activate);
    state.apply(Msg::Activate);
    state.apply(Msg::RequestDeploy);

    assert!(state.focus_movement_available(View::Operation));
    assert!(state.focus_movement_available(View::AfterAction));
}

#[test]
fn focus_movement_available_is_false_while_reset_confirmation_is_pending() {
    let mut state = Console::new();
    state.apply(Msg::Activate);
    state.apply(Msg::Activate);
    state.apply(Msg::EditController(EditOp::Insert('x')));

    state.apply(Msg::RequestResetController);
    assert!(!state.focus_movement_available(View::Controller));
}

#[test]
fn focus_movement_available_is_false_while_quit_confirmation_is_pending() {
    let mut state = Console::new();
    state.apply(Msg::Activate);
    state.apply(Msg::Activate);
    state.apply(Msg::EditController(EditOp::Insert('x')));

    state.apply(Msg::RequestQuit);
    assert!(!state.focus_movement_available(View::Signals));
}

#[test]
fn focus_movement_available_is_false_while_redeploy_confirmation_is_pending() {
    let mut state = Console::new();
    state.apply(Msg::Activate);
    state.apply(Msg::Activate);

    state.apply(Msg::RequestDeploy);
    state.apply(Msg::RequestDeploy); // an active run already exists: pending confirmation
    assert!(!state.focus_movement_available(View::Operation));
}

#[test]
fn f8_on_the_undeployed_operation_placeholder_does_not_disturb_the_first_deployments_focus() {
    let mut state = Console::new();
    state.apply(Msg::Activate);
    state.apply(Msg::Activate);
    state.apply(Msg::Navigate(View::Operation));

    // A stray F8 press before anything is deployed must stay inert.
    state.apply(Msg::FocusNextPane);
    assert_eq!(state.focused_pane(View::Operation), PaneId::Satellite);

    state.apply(Msg::RequestDeploy);
    assert_eq!(state.focused_pane(View::Operation), PaneId::Satellite);
}

#[test]
fn help_scroll_moves_up_and_down_and_saturates_at_zero() {
    let mut state = Console::new();
    state.apply(Msg::OpenHelp);
    state.apply(Msg::ScrollDown);
    state.apply(Msg::ScrollDown);
    assert_eq!(state.scroll_offset(PaneId::Help), 2);

    state.apply(Msg::ScrollUp);
    state.apply(Msg::ScrollUp);
    state.apply(Msg::ScrollUp);
    assert_eq!(state.scroll_offset(PaneId::Help), 0);
}

#[test]
fn help_scroll_is_capped_and_recoverable() {
    let mut state = Console::new();
    state.apply(Msg::OpenHelp);
    for _ in 0..1000 {
        state.apply(Msg::ScrollDown);
    }
    let capped = state.scroll_offset(PaneId::Help);
    assert!(capped < 1000);

    for _ in 0..capped {
        state.apply(Msg::ScrollUp);
    }
    assert_eq!(state.scroll_offset(PaneId::Help), 0);
}

#[test]
fn scroll_offsets_are_independent_per_pane() {
    let mut state = Console::new();

    state.apply(Msg::OpenHelp);
    state.apply(Msg::ScrollDown);
    state.apply(Msg::ScrollDown);
    state.apply(Msg::DismissHelp);

    state.set_focused_pane(View::AfterAction, PaneId::Report);
    state.apply(Msg::Navigate(View::AfterAction));
    state.apply(Msg::ScrollDown);

    assert_eq!(state.scroll_offset(PaneId::Help), 2);
    assert_eq!(state.scroll_offset(PaneId::Report), 1);
}

#[test]
fn scrolling_a_non_scrollable_pane_is_a_no_op() {
    let mut state = Console::new();
    state.set_focused_pane(View::AfterAction, PaneId::FinalFrame);
    state.apply(Msg::Navigate(View::AfterAction));

    state.apply(Msg::ScrollDown);
    state.apply(Msg::ScrollDown);

    assert_eq!(state.scroll_offset(PaneId::FinalFrame), 0);
}

#[test]
fn help_page_movement_moves_by_the_carried_page_size_and_clamps_at_zero() {
    let mut state = Console::new();
    state.apply(Msg::OpenHelp);

    state.apply(Msg::ScrollPageForward(5));
    assert_eq!(state.scroll_offset(PaneId::Help), 5);

    state.apply(Msg::ScrollPageBackward(3));
    assert_eq!(state.scroll_offset(PaneId::Help), 2);

    state.apply(Msg::ScrollPageBackward(100));
    assert_eq!(
        state.scroll_offset(PaneId::Help),
        0,
        "paging backward past the start clamps to 0 rather than wrapping"
    );
}

#[test]
fn help_page_movement_treats_a_zero_page_size_as_one() {
    let mut state = Console::new();
    state.apply(Msg::OpenHelp);

    state.apply(Msg::ScrollPageForward(0));
    assert_eq!(state.scroll_offset(PaneId::Help), 1);

    state.apply(Msg::ScrollPageBackward(0));
    assert_eq!(state.scroll_offset(PaneId::Help), 0);
}

#[test]
fn help_page_forward_is_capped_by_max_pane_scroll() {
    let mut state = Console::new();
    state.apply(Msg::OpenHelp);

    state.apply(Msg::ScrollPageForward(10_000));
    assert!(state.scroll_offset(PaneId::Help) <= 500);
}

#[test]
fn home_and_end_jump_the_scroll_offset_to_the_start_and_sentinel_end() {
    let mut state = Console::new();
    state.apply(Msg::OpenHelp);
    state.apply(Msg::ScrollDown);
    state.apply(Msg::ScrollDown);

    state.apply(Msg::JumpScrollStart);
    assert_eq!(state.scroll_offset(PaneId::Help), 0);

    state.apply(Msg::JumpScrollEnd);
    assert_eq!(
        state.scroll_offset(PaneId::Help),
        500,
        "JumpScrollEnd sets the MAX_PANE_SCROLL sentinel; console::mod \
         clamps it down to the real content height after applying"
    );
}

#[test]
fn report_page_and_home_end_movement_is_independent_of_help() {
    let mut state = Console::new();

    state.set_focused_pane(View::AfterAction, PaneId::Report);
    state.apply(Msg::Navigate(View::AfterAction));
    state.apply(Msg::ScrollPageForward(4));
    assert_eq!(state.scroll_offset(PaneId::Report), 4);
    assert_eq!(state.scroll_offset(PaneId::Help), 0);

    state.apply(Msg::JumpScrollEnd);
    assert_eq!(state.scroll_offset(PaneId::Report), 500);
    assert_eq!(state.scroll_offset(PaneId::Help), 0);
}

#[test]
fn page_and_home_end_movement_on_a_non_scrollable_pane_is_a_no_op() {
    let mut state = Console::new();
    state.set_focused_pane(View::AfterAction, PaneId::FinalFrame);
    state.apply(Msg::Navigate(View::AfterAction));

    state.apply(Msg::ScrollPageForward(5));
    state.apply(Msg::JumpScrollEnd);

    assert_eq!(state.scroll_offset(PaneId::FinalFrame), 0);
}

#[test]
fn request_quit_sets_the_quit_flag_when_there_is_nothing_to_lose() {
    let mut state = Console::new();

    state.apply(Msg::RequestQuit);

    assert!(state.should_quit());
}

#[test]
fn request_quit_with_an_unmodified_controller_still_quits_immediately() {
    let mut state = Console::new();
    state.apply(Msg::Activate);
    state.apply(Msg::Activate);

    state.apply(Msg::RequestQuit);

    assert!(state.should_quit());
}

#[test]
fn request_quit_with_a_modified_controller_requires_confirmation() {
    let mut state = Console::new();
    state.apply(Msg::Activate);
    state.apply(Msg::Activate);
    state.apply(Msg::EditController(EditOp::Insert('x')));

    state.apply(Msg::RequestQuit);

    assert!(!state.should_quit());
    assert!(state.quit_confirmation_pending());
}

#[test]
fn confirming_quit_sets_the_quit_flag() {
    let mut state = Console::new();
    state.apply(Msg::Activate);
    state.apply(Msg::Activate);
    state.apply(Msg::EditController(EditOp::Insert('x')));
    state.apply(Msg::RequestQuit);

    state.apply(Msg::ConfirmQuit);

    assert!(state.should_quit());
}

#[test]
fn cancelling_quit_keeps_the_session_open_and_the_edit_intact() {
    let mut state = Console::new();
    state.apply(Msg::Activate);
    state.apply(Msg::Activate);
    state.apply(Msg::EditController(EditOp::Insert('x')));
    state.apply(Msg::RequestQuit);

    state.apply(Msg::CancelQuit);

    assert!(!state.should_quit());
    assert!(!state.quit_confirmation_pending());
    assert!(state.controller_modified());
}

/// Commits to First Contact (seeding the starter controller) and
/// returns a ready-to-deploy state, matching every deploy-focused
/// test's shared setup.
fn working_state() -> Console {
    let mut state = Console::new();
    state.apply(Msg::Activate);
    state.apply(Msg::Activate);
    state
}

const ALWAYS_ERRORS: &str = "function on_tick(observation) error('boom') end";
const ROUTE_TO_UPLINK: &str = r#"
    local route = { "north", "east", "east", "east", "east", "north", "north", "north" }
    local step = 0
    function on_tick(observation)
        step = step + 1
        return route[step]
    end
"#;

#[test]
fn deploying_the_starter_controller_navigates_to_operation_and_starts_running() {
    let mut state = working_state();

    state.apply(Msg::RequestDeploy);

    assert_eq!(state.current_view(), View::Operation);
    let op = state.operation().expect("a deploy just happened");
    assert!(!op.paused);
    assert!(!op.finished);
    assert!(op.records.is_empty());
    assert_eq!(op.deployed_source, human_exception::console::intel::STARTER_CONTROLLER);
}

#[test]
fn editing_the_controller_after_deploying_does_not_change_the_deployed_source() {
    let mut state = working_state();
    state.replace_source(ALWAYS_ERRORS);

    state.apply(Msg::RequestDeploy);
    let deployed = state
        .operation()
        .expect("a deploy just happened")
        .deployed_source
        .to_string();
    assert_eq!(deployed, ALWAYS_ERRORS);

    state.apply(Msg::EditController(EditOp::Insert('x')));
    state.apply(Msg::EditController(EditOp::Insert('y')));

    assert_eq!(
        state.controller_source().unwrap(),
        format!("{ALWAYS_ERRORS}xy"),
        "the working copy did change"
    );
    assert_eq!(
        state.operation().unwrap().deployed_source,
        deployed,
        "the frozen deploy snapshot must be unreachable from later edits \
         to the separate, still-mutable controller document"
    );

    // The provenance guarantee must also hold once the run has actually
    // finished and the player is looking at Review Run — reached here
    // by navigating back to `View::Operation` once `finished`, exactly
    // as `F5` does.
    state.advance_running_operation();
    assert!(state.operation().unwrap().finished);
    assert_eq!(state.operation().unwrap().deployed_source, deployed);

    state.apply(Msg::Navigate(View::Operation));
    assert_eq!(state.current_view(), View::Operation);
    assert_eq!(state.operation().unwrap().deployed_source, deployed);
}

#[test]
fn undoing_after_deploy_does_not_change_the_deployed_source() {
    let mut state = working_state();

    state.apply(Msg::RequestDeploy);
    let deployed = state
        .operation()
        .expect("a deploy just happened")
        .deployed_source
        .to_string();

    state.apply(Msg::EditController(EditOp::Insert('x')));
    state.apply(Msg::EditController(EditOp::Undo));

    assert_eq!(
        state.controller_source().unwrap(),
        deployed,
        "undo restored the working copy to the deployed text"
    );
    assert_eq!(
        state.operation().unwrap().deployed_source,
        deployed,
        "undo/redo on the working copy must never reach the frozen \
         deploy snapshot either"
    );
}

#[test]
fn run_inspector_starts_in_timeline_mode_once_a_run_finishes() {
    let mut state = working_state();
    state.apply(Msg::RequestDeploy);
    while state.advance_running_operation() {}

    assert!(state.operation().unwrap().finished);
    assert_eq!(state.run_inspector_mode(), RunInspectorMode::Timeline);
    assert_eq!(state.source_scroll(), 0);
}

#[test]
fn toggle_run_inspector_mode_is_a_noop_before_a_run_finishes() {
    let mut state = working_state();
    state.apply(Msg::RequestDeploy);
    assert!(!state.operation().unwrap().finished);

    state.apply(Msg::ToggleRunInspectorMode);

    assert_eq!(state.run_inspector_mode(), RunInspectorMode::Timeline);
}

#[test]
fn toggle_run_inspector_mode_is_a_noop_with_no_deployment_at_all() {
    let mut state = working_state();

    state.apply(Msg::ToggleRunInspectorMode);

    assert_eq!(state.run_inspector_mode(), RunInspectorMode::Timeline);
}

#[test]
fn toggle_run_inspector_mode_works_for_a_zero_tick_deploy_failure() {
    // A load failure never produces a review point, so TIMELINE has
    // nothing to browse — but SOURCE must still reach the exact source
    // that failed to load, not treat this deployment as unreachable.
    let mut state = working_state();
    state.replace_source("function on_tick(");
    state.apply(Msg::RequestDeploy);
    let op = state.operation().expect("a deploy just happened");
    assert!(op.finished);
    assert!(op.review_points.is_empty());

    state.apply(Msg::ToggleRunInspectorMode);

    assert_eq!(state.run_inspector_mode(), RunInspectorMode::Source);
}

#[test]
fn toggle_run_inspector_mode_switches_between_timeline_and_source_once_finished() {
    let mut state = working_state();
    state.apply(Msg::RequestDeploy);
    while state.advance_running_operation() {}
    assert!(state.operation().unwrap().finished);

    state.apply(Msg::ToggleRunInspectorMode);
    assert_eq!(state.run_inspector_mode(), RunInspectorMode::Source);

    state.apply(Msg::ToggleRunInspectorMode);
    assert_eq!(state.run_inspector_mode(), RunInspectorMode::Timeline);
}

#[test]
fn source_scroll_messages_move_the_scroll_offset_only_once_a_run_has_finished() {
    let mut state = working_state();
    state.apply(Msg::RequestDeploy);

    // Not finished yet: every source-scroll `Msg` is a no-op.
    state.apply(Msg::ScrollSourceDown);
    assert_eq!(state.source_scroll(), 0);

    while state.advance_running_operation() {}
    assert!(state.operation().unwrap().finished);

    state.apply(Msg::ScrollSourceDown);
    assert_eq!(state.source_scroll(), 1);
    state.apply(Msg::ScrollSourceDown);
    assert_eq!(state.source_scroll(), 2);
    state.apply(Msg::ScrollSourceUp);
    assert_eq!(state.source_scroll(), 1);
    // `Up` never goes negative.
    state.apply(Msg::ScrollSourceUp);
    state.apply(Msg::ScrollSourceUp);
    assert_eq!(state.source_scroll(), 0);

    state.apply(Msg::ScrollSourcePageForward(5));
    assert_eq!(state.source_scroll(), 5);
    state.apply(Msg::ScrollSourcePageBackward(2));
    assert_eq!(state.source_scroll(), 3);

    state.apply(Msg::JumpSourceEnd);
    assert_eq!(state.source_scroll(), u16::MAX);
    state.apply(Msg::JumpSourceStart);
    assert_eq!(state.source_scroll(), 0);
}

#[test]
fn redeploying_resets_run_inspector_mode_and_source_scroll() {
    let mut state = working_state();
    state.apply(Msg::RequestDeploy);
    while state.advance_running_operation() {}
    assert!(state.operation().unwrap().finished);
    state.apply(Msg::ToggleRunInspectorMode);
    state.apply(Msg::ScrollSourceDown);
    assert_eq!(state.run_inspector_mode(), RunInspectorMode::Source);
    assert_eq!(state.source_scroll(), 1);

    state.apply(Msg::ConfirmDeploy);

    assert_eq!(state.run_inspector_mode(), RunInspectorMode::Timeline);
    assert_eq!(state.source_scroll(), 0);
}

#[test]
fn a_run_finishing_over_several_ticks_resets_run_inspector_mode_and_source_scroll() {
    let mut state = working_state();
    state.replace_source(ROUTE_TO_UPLINK);
    state.apply(Msg::RequestDeploy);
    assert!(!state.operation().unwrap().finished);

    // Drive the run to completion via `step_operation`'s terminal
    // branch (`ROUTE_TO_UPLINK` finishes in a bounded number of ticks),
    // rather than `deploy`'s own reset, to prove both reset sites work.
    while !state.operation().unwrap().finished {
        state.advance_running_operation();
    }

    assert_eq!(state.run_inspector_mode(), RunInspectorMode::Timeline);
    assert_eq!(state.source_scroll(), 0);
}

#[test]
fn navigating_away_and_back_preserves_run_inspector_mode_and_source_scroll() {
    let mut state = working_state();
    state.apply(Msg::RequestDeploy);
    while state.advance_running_operation() {}
    assert!(state.operation().unwrap().finished);
    state.apply(Msg::ToggleRunInspectorMode);
    state.apply(Msg::ScrollSourceDown);
    state.apply(Msg::ScrollSourceDown);

    state.apply(Msg::Navigate(View::Controller));
    state.apply(Msg::Navigate(View::Operation));

    assert_eq!(state.run_inspector_mode(), RunInspectorMode::Source);
    assert_eq!(state.source_scroll(), 2);
}

#[test]
fn deploying_a_script_with_a_load_error_surfaces_it_without_a_live_run() {
    let mut state = working_state();
    state.replace_source("function on_tick(");

    state.apply(Msg::RequestDeploy);

    let op = state.operation().expect("deploy always records an outcome");
    assert!(op.finished);
    assert!(matches!(op.error, Some(ControllerError::ScriptInvalid(_))));
    // No live run was ever shown — go straight to the After Action
    // report rather than parking on an empty Operation view.
    assert_eq!(state.current_view(), View::AfterAction);
}

#[test]
fn deploying_a_script_with_a_load_error_has_no_initial_snapshot() {
    let mut state = working_state();
    state.replace_source("function on_tick(");

    state.apply(Msg::RequestDeploy);

    assert!(state.operation().is_some(), "deploy always records an outcome");
    assert!(
        state.initial_snapshot().is_none(),
        "a deployment that never started a live simulation must not \
         invent an initial execution snapshot"
    );
}

#[test]
fn deploying_the_starter_controller_retains_a_pretick_initial_snapshot() {
    let mut state = working_state();

    state.apply(Msg::RequestDeploy);

    let starting_budget = human_exception::simulation::Scenario::first_contact().starting_budget();
    let initial = state
        .initial_snapshot()
        .expect("a successfully loaded deployment retains a pre-tick snapshot");
    let scenario = human_exception::simulation::Scenario::first_contact();
    assert_eq!(initial.tick, 0);
    assert_eq!(initial.budget_remaining, starting_budget);
    assert_eq!(initial.map_width, scenario.map().width());
    assert_eq!(initial.map_height, scenario.map().height());
    assert_eq!(initial.drone_position, scenario.drone_start());
}

#[test]
fn the_initial_snapshot_stays_unchanged_after_ticks_complete() {
    let mut state = working_state();
    state.replace_source(ROUTE_TO_UPLINK);

    state.apply(Msg::RequestDeploy);
    let initial = state
        .initial_snapshot()
        .expect("a successful deploy retains a pre-tick snapshot");

    while state.advance_running_operation() {}

    assert!(state.operation().unwrap().finished);
    assert_eq!(
        state.initial_snapshot(),
        Some(initial),
        "the pre-tick snapshot must not change once later ticks complete"
    );
}

/// Two valid moves (both onto floor tiles adjacent to the fixed First
/// Contact drone start), then an unconditional error — used to exercise
/// a controller failure that happens after some ticks have already
/// completed, as opposed to `ALWAYS_ERRORS`'s first-tick failure.
const FAILS_AFTER_TWO_TICKS: &str = r#"
    local step = 0
    function on_tick(observation)
        step = step + 1
        if step > 2 then error('boom') end
        return "north"
    end
"#;

#[test]
fn a_successful_run_projects_initial_and_every_completed_tick_with_no_failure_point() {
    let mut state = working_state();
    state.replace_source(ROUTE_TO_UPLINK);
    state.apply(Msg::RequestDeploy);

    while state.advance_running_operation() {}

    let op = state.operation().unwrap();
    assert!(op.finished);
    assert_eq!(op.review_points.len(), 1 + op.records.len());
    assert!(matches!(op.review_points[0].kind, ReviewPointKind::Initial));
    for (point, record) in op.review_points[1..].iter().zip(op.records.iter()) {
        match point.kind {
            ReviewPointKind::Tick(r) => assert_eq!(r, record),
            other => panic!("expected a Tick point, got {other:?}"),
        }
    }
    let last = op.review_points.last().unwrap();
    match last.kind {
        ReviewPointKind::Tick(record) => {
            assert_eq!(record.outcome, human_exception::simulation::TickOutcome::Succeeded)
        }
        other => panic!("expected the terminal point to be a completed tick, got {other:?}"),
    }

    // First Contact's route to the uplink used here also passes through
    // its one hazard tile, so this run doubles as hazard-entry coverage:
    // the corresponding review point's structured events include it.
    assert!(op.review_points.iter().any(|point| {
        matches!(point.kind, ReviewPointKind::Tick(record)
        if record.events.iter().any(|event| matches!(
            event,
            human_exception::simulation::SimEvent::HazardEntered { .. }
        )))
    }));
}

#[test]
fn a_budget_exhausted_run_projects_no_synthetic_terminal_point() {
    let mut state = working_state();
    state.replace_source(ALWAYS_WAITS);
    state.apply(Msg::RequestDeploy);

    while state.advance_running_operation() {}

    let op = state.operation().unwrap();
    assert!(op.finished);
    assert_eq!(op.review_points.len(), 1 + op.records.len());
    let last = op.review_points.last().unwrap();
    match last.kind {
        ReviewPointKind::Tick(record) => assert_eq!(
            record.outcome,
            human_exception::simulation::TickOutcome::Failed(
                human_exception::simulation::FailureReason::BudgetExhausted
            )
        ),
        other => panic!("expected the terminal point to be a completed tick, got {other:?}"),
    }
}

#[test]
fn a_controller_failure_after_completed_ticks_appends_a_terminal_failure_point() {
    let mut state = working_state();
    state.replace_source(FAILS_AFTER_TWO_TICKS);
    state.apply(Msg::RequestDeploy);

    while state.advance_running_operation() {}

    let op = state.operation().unwrap();
    assert!(op.finished);
    assert_eq!(
        op.records.len(),
        2,
        "exactly two ticks completed before the failure"
    );
    assert_eq!(
        op.review_points.len(),
        1 + 2 + 1,
        "INITIAL, two ticks, one failure point"
    );

    let last_tick = op.review_points[2].clone();
    match last_tick.kind {
        ReviewPointKind::Tick(record) => assert_eq!(record, &op.records[1]),
        other => panic!("expected a Tick point, got {other:?}"),
    }

    let failure = op.review_points.last().unwrap();
    assert!(matches!(
        failure.kind,
        ReviewPointKind::TerminalFailure(ControllerError::CallbackFailed(_))
    ));
    assert_eq!(
        failure.snapshot, last_tick.snapshot,
        "the failure boundary carries the last completed tick's position and budget, \
         not a fabricated one"
    );
    assert!(
        failure.newly_discovered.is_empty(),
        "no tick executed for the failure boundary, so nothing new was discovered"
    );
}

#[test]
fn a_first_tick_controller_failure_appends_a_terminal_failure_point_without_a_tick() {
    let mut state = working_state();
    state.replace_source(ALWAYS_ERRORS);
    state.apply(Msg::RequestDeploy);

    state.advance_running_operation();

    let op = state.operation().unwrap();
    assert!(op.finished);
    assert!(
        op.records.is_empty(),
        "no tick completed before the failure"
    );
    assert_eq!(
        op.review_points.len(),
        2,
        "INITIAL and the failure point only"
    );
    assert!(matches!(op.review_points[0].kind, ReviewPointKind::Initial));
    assert!(matches!(
        op.review_points[1].kind,
        ReviewPointKind::TerminalFailure(ControllerError::CallbackFailed(_))
    ));
    assert_eq!(
        op.review_points[1].snapshot, op.review_points[0].snapshot,
        "with no completed tick, the failure boundary carries the initial snapshot"
    );
}

#[test]
fn a_deploy_time_load_failure_has_no_reviewable_points() {
    let mut state = working_state();
    state.replace_source("function on_tick(");

    state.apply(Msg::RequestDeploy);

    let op = state.operation().expect("deploy always records an outcome");
    assert!(op.finished);
    assert!(
        op.review_points.is_empty(),
        "a deployment that never started execution has no fabricated INITIAL, \
         tick, or satellite snapshot"
    );
    assert!(
        op.error.is_some(),
        "the deploy failure is still surfaced via `error`"
    );
}

#[test]
fn discovery_deltas_reflect_only_positions_new_since_the_preceding_review_point() {
    let mut state = working_state();
    state.replace_source(ROUTE_TO_UPLINK);
    state.apply(Msg::RequestDeploy);

    while state.advance_running_operation() {}

    let op = state.operation().unwrap();
    assert!(
        op.review_points[0].newly_discovered.is_empty(),
        "INITIAL has no preceding point to be new relative to"
    );
    let mut previously_known: std::collections::HashSet<_> = op.review_points[0]
        .snapshot
        .discovered
        .iter()
        .map(|tile| tile.position)
        .collect();
    let mut saw_new_tile = false;
    for point in &op.review_points[1..] {
        for tile in &point.newly_discovered {
            assert!(
                !previously_known.contains(&tile.position),
                "a tile reported as newly discovered must not have been known before"
            );
            saw_new_tile = true;
        }
        previously_known.extend(point.snapshot.discovered.iter().map(|tile| tile.position));
    }
    assert!(
        saw_new_tile,
        "this route should discover at least one new tile after INITIAL"
    );
}

#[test]
fn a_newly_completed_run_selects_its_terminal_review_point() {
    let mut state = working_state();
    state.replace_source(ROUTE_TO_UPLINK);
    state.apply(Msg::RequestDeploy);

    while state.advance_running_operation() {}

    let op = state.operation().unwrap();
    assert!(op.finished);
    assert_eq!(op.review_selected, Some(op.review_points.len() - 1));
}

#[test]
fn a_controller_failure_selects_its_terminal_review_point() {
    let mut state = working_state();
    state.replace_source(ALWAYS_ERRORS);
    state.apply(Msg::RequestDeploy);

    state.advance_running_operation();

    let op = state.operation().unwrap();
    assert!(op.finished);
    assert_eq!(op.review_selected, Some(op.review_points.len() - 1));
    assert!(matches!(
        op.review_points[op.review_selected.unwrap()].kind,
        ReviewPointKind::TerminalFailure(_)
    ));
}

#[test]
fn a_deploy_time_load_failure_has_no_review_selection() {
    let mut state = working_state();
    state.replace_source("function on_tick(");

    state.apply(Msg::RequestDeploy);

    assert_eq!(state.review_selected(), None);
    assert_eq!(state.operation().unwrap().review_selected, None);
}

#[test]
fn navigating_away_and_back_preserves_review_selection() {
    let mut state = working_state();
    state.replace_source(ROUTE_TO_UPLINK);
    state.apply(Msg::RequestDeploy);
    while state.advance_running_operation() {}
    let selected = state.review_selected();

    state.apply(Msg::Navigate(View::Controller));
    state.apply(Msg::Navigate(View::Operation));

    assert_eq!(state.review_selected(), selected);
}

#[test]
fn help_round_trip_preserves_review_selection() {
    let mut state = working_state();
    state.replace_source(ROUTE_TO_UPLINK);
    state.apply(Msg::RequestDeploy);
    while state.advance_running_operation() {}
    let selected = state.review_selected();

    state.apply(Msg::OpenHelp);
    state.apply(Msg::DismissHelp);

    assert_eq!(state.review_selected(), selected);
}

#[test]
fn redeploying_resets_review_selection_for_the_new_run() {
    let mut state = working_state();
    state.replace_source(ALWAYS_ERRORS);
    state.apply(Msg::RequestDeploy);
    state.advance_running_operation();
    assert!(
        state.review_selected().is_some(),
        "the first run's failure has a terminal review point selected"
    );

    // `ALWAYS_ERRORS` still loads fine — only the callback itself fails
    // once invoked — so this redeploy starts a fresh live run rather
    // than another synchronous load failure.
    state.apply(Msg::RequestDeploy);

    assert_eq!(
        state.review_selected(),
        None,
        "a fresh live deployment has nothing reviewable yet, and must not \
         carry over the prior run's selection"
    );

    state.advance_running_operation();
    let op = state.operation().unwrap();
    assert!(op.finished);
    assert_eq!(op.review_selected, Some(op.review_points.len() - 1));
}

/// A run with several review points to page/jump through: a completed
/// success run has `INITIAL` plus one point per tick, giving plenty of
/// room to exercise boundary clamping without wrapping.
fn deployed_and_run_to_completion(source: &str) -> Console {
    let mut state = working_state();
    state.replace_source(source);
    state.apply(Msg::RequestDeploy);
    while state.advance_running_operation() {}
    state
}

#[test]
fn up_and_down_reach_every_review_point_in_order_without_wrapping() {
    let mut state = deployed_and_run_to_completion(ROUTE_TO_UPLINK);
    let last = state.operation().unwrap().review_points.len() - 1;
    assert!(last > 1, "this route should complete in more than one tick");

    state.apply(Msg::SelectFirstReviewPoint);
    assert_eq!(state.review_selected(), Some(0));

    for expected in 1..=last {
        state.apply(Msg::SelectNextReviewPoint);
        assert_eq!(state.review_selected(), Some(expected));
    }
    // Inert at the terminal point — never wraps back to the start.
    state.apply(Msg::SelectNextReviewPoint);
    assert_eq!(state.review_selected(), Some(last));

    for expected in (0..last).rev() {
        state.apply(Msg::SelectPreviousReviewPoint);
        assert_eq!(state.review_selected(), Some(expected));
    }
    // Inert at the first point — never wraps back to the terminal one.
    state.apply(Msg::SelectPreviousReviewPoint);
    assert_eq!(state.review_selected(), Some(0));
}

#[test]
fn home_and_end_jump_straight_to_the_first_and_terminal_review_points() {
    let mut state = deployed_and_run_to_completion(ROUTE_TO_UPLINK);
    let last = state.operation().unwrap().review_points.len() - 1;
    assert!(last > 1);

    state.apply(Msg::SelectFirstReviewPoint);
    assert_eq!(state.review_selected(), Some(0));

    state.apply(Msg::SelectLastReviewPoint);
    assert_eq!(state.review_selected(), Some(last));

    state.apply(Msg::SelectPreviousReviewPoint);
    assert_eq!(state.review_selected(), Some(last - 1));
    state.apply(Msg::SelectFirstReviewPoint);
    assert_eq!(
        state.review_selected(),
        Some(0),
        "Home is a semantic jump to the first point, not one step back toward it"
    );

    state.apply(Msg::SelectLastReviewPoint);
    assert_eq!(state.review_selected(), Some(last));
}

#[test]
fn page_moves_clamp_to_valid_review_points() {
    let mut state = deployed_and_run_to_completion(ROUTE_TO_UPLINK);
    let last = state.operation().unwrap().review_points.len() - 1;
    assert!(
        last >= 3,
        "this route should complete in enough ticks to page through"
    );

    state.apply(Msg::SelectFirstReviewPoint);
    state.apply(Msg::SelectReviewPointPageForward(2));
    assert_eq!(state.review_selected(), Some(2));

    // A page larger than the remaining chronology clamps to the
    // terminal point rather than overshooting past it.
    state.apply(Msg::SelectReviewPointPageForward(last + 10));
    assert_eq!(state.review_selected(), Some(last));

    state.apply(Msg::SelectReviewPointPageBackward(2));
    assert_eq!(state.review_selected(), Some(last - 2));

    // Same clamping backward, at the first point.
    state.apply(Msg::SelectReviewPointPageBackward(last + 10));
    assert_eq!(state.review_selected(), Some(0));

    // A `0` page count (`event::map`'s placeholder before `console::mod`
    // fills in the real visible-row count) still moves by at least one
    // point rather than being a silent no-op.
    state.apply(Msg::SelectReviewPointPageForward(0));
    assert_eq!(state.review_selected(), Some(1));
}

#[test]
fn chronology_navigation_is_a_no_op_on_a_live_run() {
    let mut state = working_state();
    state.replace_source(ALWAYS_WAITS);
    state.apply(Msg::RequestDeploy);
    assert!(
        state.operation().is_some_and(|op| !op.finished),
        "the run should still be live"
    );

    for msg in [
        Msg::SelectPreviousReviewPoint,
        Msg::SelectNextReviewPoint,
        Msg::SelectFirstReviewPoint,
        Msg::SelectLastReviewPoint,
        Msg::SelectReviewPointPageBackward(1),
        Msg::SelectReviewPointPageForward(1),
    ] {
        state.apply(msg.clone());
        assert_eq!(
            state.review_selected(),
            None,
            "{msg:?} must not select a review point on a live run"
        );
    }
}

#[test]
fn chronology_navigation_is_a_no_op_before_any_deployment() {
    let mut state = working_state();
    for msg in [
        Msg::SelectPreviousReviewPoint,
        Msg::SelectNextReviewPoint,
        Msg::SelectFirstReviewPoint,
        Msg::SelectLastReviewPoint,
        Msg::SelectReviewPointPageBackward(1),
        Msg::SelectReviewPointPageForward(1),
    ] {
        state.apply(msg);
        assert_eq!(state.review_selected(), None);
    }
}

#[test]
fn chronology_navigation_leaves_live_operation_pacing_unaffected_on_a_finished_run() {
    // Preserve live Operation input behavior unchanged: chronology
    // navigation and `Space`/`Enter` pacing are different messages
    // entirely, but this guards against a shared no-op gate ever being
    // (mis)wired to also swallow pacing on a finished run.
    let mut state = deployed_and_run_to_completion(ALWAYS_WAITS);
    assert!(state.operation().unwrap().finished);

    state.apply(Msg::SelectNextReviewPoint);
    let selected_after_nav = state.review_selected();

    state.apply(Msg::TogglePauseOperation);
    state.apply(Msg::StepOperationTick);
    assert_eq!(
        state.review_selected(),
        selected_after_nav,
        "pacing controls on a finished run must stay no-ops, not disturb review selection"
    );
}

#[test]
fn a_finished_run_focuses_the_run_inspector_pane() {
    let mut state = working_state();
    state.set_focused_pane(View::Operation, PaneId::Satellite);
    state.replace_source(ALWAYS_ERRORS);
    state.apply(Msg::RequestDeploy);

    state.advance_running_operation();

    assert!(state.operation().unwrap().finished);
    assert_eq!(
        state.focused_pane(View::Operation),
        PaneId::OperationTelemetry
    );
}

#[test]
fn deploying_a_fresh_run_focuses_the_after_action_report() {
    let mut state = working_state();
    state.set_focused_pane(View::AfterAction, PaneId::FinalFrame);
    state.replace_source("function on_tick(");

    state.apply(Msg::RequestDeploy);

    assert_eq!(state.current_view(), View::AfterAction);
    assert_eq!(state.focused_pane(View::AfterAction), PaneId::Report);
}

#[test]
fn a_fresh_after_action_report_starts_scrolled_to_the_top() {
    let mut state = working_state();
    state.replace_source("function on_tick(");
    state.apply(Msg::RequestDeploy);
    state.scroll_report(5);

    // A load-error deploy finishes synchronously via `deploy()` itself.
    state.apply(Msg::RequestDeploy);

    assert_eq!(state.scroll_offset(PaneId::Report), 0);
}

#[test]
fn a_report_reached_by_stepping_a_running_operation_starts_scrolled_to_the_top() {
    let mut state = working_state();
    state.replace_source(ALWAYS_ERRORS);
    state.apply(Msg::RequestDeploy); // starter controller: running, unfinished
    state.scroll_report(5);

    state.advance_running_operation();

    assert!(state.operation().unwrap().finished);
    assert_eq!(state.scroll_offset(PaneId::Report), 0);
}

#[test]
fn redeploying_a_finished_operation_needs_no_confirmation() {
    let mut state = working_state();
    state.replace_source(ALWAYS_ERRORS);
    state.apply(Msg::RequestDeploy);
    state.advance_running_operation();
    assert!(state.operation().unwrap().finished);
    assert_eq!(state.current_view(), View::AfterAction);

    state.apply(Msg::RequestDeploy);

    assert!(!state.redeploy_confirmation_pending());
    // A fresh deploy replaces the finished operation's records and
    // resumes on Operation since the starter controller loads fine.
    assert!(state.operation().unwrap().records.is_empty());
    assert_eq!(state.current_view(), View::Operation);
}

#[test]
fn finishing_a_running_operation_focuses_the_after_action_report() {
    let mut state = working_state();
    state.replace_source(ALWAYS_ERRORS);
    state.apply(Msg::RequestDeploy);
    state.set_focused_pane(View::AfterAction, PaneId::FinalFrame);

    state.advance_running_operation();

    assert!(state.operation().unwrap().finished);
    assert_eq!(state.current_view(), View::AfterAction);
    assert_eq!(state.focused_pane(View::AfterAction), PaneId::Report);
}

#[test]
fn redeploying_an_active_operation_requires_confirmation() {
    let mut state = working_state();
    state.apply(Msg::RequestDeploy); // starter controller: running, unfinished

    state.apply(Msg::RequestDeploy);

    assert!(state.redeploy_confirmation_pending());
    // The original run is untouched until confirmed.
    assert!(state.operation().unwrap().records.is_empty());
}

#[test]
fn requesting_redeploy_from_elsewhere_navigates_to_operation_so_the_prompt_is_visible() {
    // F6 is a global binding: a player can pause a run by leaving to
    // Controller/Signals/Target and press F6 from there. The
    // confirmation prompt only ever renders inside Operation, so the
    // request must bring the player back to it — otherwise the pending
    // flag silently swallows most other input on a screen that gives
    // no indication anything is waiting on a response.
    let mut state = working_state();
    state.apply(Msg::RequestDeploy);
    state.apply(Msg::Navigate(View::Controller)); // pauses the run
    assert_eq!(state.current_view(), View::Controller);

    state.apply(Msg::RequestDeploy);

    assert!(state.redeploy_confirmation_pending());
    assert_eq!(state.current_view(), View::Operation);
}

#[test]
fn confirming_redeploy_replaces_the_active_operation() {
    let mut state = working_state();
    state.apply(Msg::RequestDeploy);
    state.apply(Msg::RequestDeploy); // pending confirmation

    state.apply(Msg::ConfirmDeploy);

    assert!(!state.redeploy_confirmation_pending());
    assert_eq!(state.current_view(), View::Operation);
}

#[test]
fn cancelling_redeploy_leaves_the_active_operation_running() {
    let mut state = working_state();
    state.apply(Msg::RequestDeploy);
    state.advance_running_operation();
    state.apply(Msg::RequestDeploy); // pending confirmation

    state.apply(Msg::CancelDeploy);

    assert!(!state.redeploy_confirmation_pending());
    assert_eq!(state.operation().unwrap().records.len(), 1);
}

#[test]
fn step_operation_tick_advances_exactly_one_tick_and_stays_paused() {
    let mut state = working_state();
    state.replace_source(ROUTE_TO_UPLINK);
    state.apply(Msg::RequestDeploy);
    state.apply(Msg::TogglePauseOperation);
    assert!(state.operation().unwrap().paused);

    state.apply(Msg::StepOperationTick);

    let op = state.operation().unwrap();
    assert_eq!(op.records.len(), 1);
    assert!(op.paused, "stepping while paused must not resume the run");
}

#[test]
fn toggle_pause_flips_paused_and_is_a_no_op_once_finished() {
    let mut state = working_state();
    state.replace_source(ALWAYS_ERRORS);
    state.apply(Msg::RequestDeploy);
    state.advance_running_operation();
    assert!(state.operation().unwrap().finished);

    state.apply(Msg::TogglePauseOperation);

    assert!(
        !state.operation().unwrap().paused,
        "a finished operation can't be paused/resumed"
    );
}

#[test]
fn navigating_away_from_an_active_operation_pauses_it() {
    let mut state = working_state();
    state.apply(Msg::RequestDeploy);
    assert!(!state.operation().unwrap().paused);

    state.apply(Msg::Navigate(View::Controller));

    assert!(state.operation().unwrap().paused);
    assert_eq!(state.current_view(), View::Controller);
}

#[test]
fn returning_to_operation_preserves_the_paused_state() {
    let mut state = working_state();
    state.apply(Msg::RequestDeploy);
    state.apply(Msg::Navigate(View::Controller));

    state.apply(Msg::Navigate(View::Operation));

    assert!(
        state.operation().unwrap().paused,
        "F2/F3/F4 pauses; returning to Operation must not silently resume"
    );
}

#[test]
fn opening_and_dismissing_help_does_not_change_the_paused_flag() {
    let mut state = working_state();
    state.apply(Msg::RequestDeploy);
    assert!(!state.operation().unwrap().paused);

    state.apply(Msg::OpenHelp);
    assert!(
        !state.operation().unwrap().paused,
        "Help pauses presentation via operation_auto_advancing, not the paused flag itself"
    );

    state.apply(Msg::DismissHelp);
    assert!(!state.operation().unwrap().paused);
}

#[test]
fn operation_auto_advancing_only_while_viewing_operation_unpaused_and_unfinished() {
    let mut state = working_state();
    assert!(!state.operation_auto_advancing(), "nothing deployed yet");

    state.apply(Msg::RequestDeploy);
    assert!(state.operation_auto_advancing());

    state.apply(Msg::Navigate(View::Controller));
    assert!(
        !state.operation_auto_advancing(),
        "left Operation and the run is now paused"
    );

    state.apply(Msg::Navigate(View::Operation));
    assert!(
        !state.operation_auto_advancing(),
        "back on Operation, but still paused from leaving"
    );

    state.apply(Msg::TogglePauseOperation);
    assert!(state.operation_auto_advancing());
}

#[test]
fn advance_running_operation_steps_once_when_auto_advancing_and_otherwise_is_a_no_op() {
    let mut state = working_state();
    assert!(!state.advance_running_operation());

    state.apply(Msg::RequestDeploy);
    let advanced = state.advance_running_operation();

    assert!(advanced);
    assert_eq!(state.operation().unwrap().records.len(), 1);

    state.apply(Msg::TogglePauseOperation);
    assert!(!state.advance_running_operation());
    assert_eq!(state.operation().unwrap().records.len(), 1);
}

#[test]
fn a_callback_error_finishes_the_operation_and_is_recorded() {
    let mut state = working_state();
    state.replace_source(ALWAYS_ERRORS);
    state.apply(Msg::RequestDeploy);

    state.advance_running_operation();

    let op = state.operation().unwrap();
    assert!(op.finished);
    assert!(matches!(op.error, Some(ControllerError::CallbackFailed(_))));
    assert_eq!(state.current_view(), View::AfterAction);
}

#[test]
fn running_a_route_to_completion_reaches_an_unambiguous_success() {
    let mut state = working_state();
    state.replace_source(ROUTE_TO_UPLINK);
    state.apply(Msg::RequestDeploy);

    for _ in 0..8 {
        state.advance_running_operation();
    }

    let op = state.operation().unwrap();
    assert!(op.finished);
    assert!(op.error.is_none());
    assert_eq!(
        op.records.last().map(|record| record.outcome),
        Some(human_exception::simulation::TickOutcome::Succeeded)
    );
    // This is the connecting run (a fresh state starts disconnected),
    // so it plays Network Bootstrap and lands on Signals rather than
    // After Action — see the `network_bootstrap_pending` tests below.
    assert_eq!(state.current_view(), View::Signals);
}

#[test]
fn an_unfinished_operation_has_no_conclusion_yet() {
    let mut state = working_state();
    state.apply(Msg::RequestDeploy);

    let op = state.operation().unwrap();

    assert!(!op.finished);
    assert!(op.conclusion.is_none());
}

#[test]
fn a_successful_run_reaches_a_success_conclusion_with_matching_evidence() {
    let mut state = working_state();
    state.replace_source(ROUTE_TO_UPLINK);
    state.apply(Msg::RequestDeploy);

    for _ in 0..8 {
        state.advance_running_operation();
    }

    let op = state.operation().unwrap();
    let conclusion = op.conclusion.expect("a finished run has a conclusion");
    assert!(matches!(conclusion.kind, ConclusionKind::Success));
    assert_eq!(conclusion.ticks_executed as usize, op.records.len());
    assert_eq!(
        conclusion.tiles_discovered as usize,
        op.current.discovered.len()
    );
    assert_eq!(conclusion.final_budget, op.current.budget_remaining);
    assert_eq!(conclusion.run_id, op.run_id);
}

const ALWAYS_WAITS: &str = "function on_tick(observation) return \"wait\" end";

#[test]
fn exhausting_the_budget_reaches_a_budget_exhausted_conclusion() {
    let mut state = working_state();
    state.replace_source(ALWAYS_WAITS);
    state.apply(Msg::RequestDeploy);

    for _ in 0..15 {
        state.advance_running_operation();
    }

    let op = state.operation().unwrap();
    assert!(op.finished);
    let conclusion = op.conclusion.expect("a finished run has a conclusion");
    assert!(matches!(conclusion.kind, ConclusionKind::BudgetExhausted));
    assert_eq!(conclusion.final_budget, 0);
}

#[test]
fn a_fresh_app_state_starts_disconnected() {
    assert!(!Console::new().connected());
}

#[test]
fn a_successful_first_contact_run_establishes_connectivity() {
    let mut state = working_state();
    state.replace_source(ROUTE_TO_UPLINK);
    state.apply(Msg::RequestDeploy);

    assert!(
        !state.connected(),
        "connectivity must not be recorded before the run actually succeeds"
    );

    for _ in 0..8 {
        state.advance_running_operation();
    }

    let op = state.operation().unwrap();
    assert!(op.finished);
    assert!(matches!(
        op.conclusion.as_ref().map(|c| &c.kind),
        Some(ConclusionKind::Success)
    ));
    assert!(state.connected());
}

#[test]
fn a_budget_exhausted_run_does_not_establish_connectivity() {
    let mut state = working_state();
    state.replace_source(ALWAYS_WAITS);
    state.apply(Msg::RequestDeploy);

    for _ in 0..15 {
        state.advance_running_operation();
    }

    assert!(state.operation().unwrap().finished);
    assert!(!state.connected());
}

#[test]
fn connectivity_once_established_survives_a_later_failed_run() {
    let mut state = working_state();
    state.replace_source(ROUTE_TO_UPLINK);
    state.apply(Msg::RequestDeploy);
    for _ in 0..8 {
        state.advance_running_operation();
    }
    assert!(state.connected());

    state.replace_source(ALWAYS_WAITS);
    state.apply(Msg::RequestDeploy);
    for _ in 0..15 {
        state.advance_running_operation();
    }

    assert!(
        state.connected(),
        "an already-established connection must not be undone by a later failed run"
    );
}

#[test]
fn a_fresh_app_state_has_no_network_bootstrap_pending() {
    assert!(!Console::new().network_bootstrap_pending());
}

#[test]
fn a_successful_first_contact_run_enters_network_bootstrap_pending_and_lands_on_signals() {
    let mut state = working_state();
    state.replace_source(ROUTE_TO_UPLINK);
    state.apply(Msg::RequestDeploy);

    for _ in 0..8 {
        state.advance_running_operation();
    }

    assert!(state.connected());
    assert!(state.network_bootstrap_pending());
    assert_eq!(
        state.current_view(),
        View::Signals,
        "the connecting success plays Network Bootstrap in place of the \
         automatic landing on After Action"
    );
}

#[test]
fn a_budget_exhausted_run_does_not_enter_network_bootstrap_pending() {
    let mut state = working_state();
    state.replace_source(ALWAYS_WAITS);
    state.apply(Msg::RequestDeploy);

    for _ in 0..15 {
        state.advance_running_operation();
    }

    assert!(!state.network_bootstrap_pending());
    assert_eq!(state.current_view(), View::AfterAction);
}

#[test]
fn a_controller_error_run_does_not_enter_network_bootstrap_pending() {
    let mut state = working_state();
    state.replace_source(ALWAYS_ERRORS);
    state.apply(Msg::RequestDeploy);

    state.advance_running_operation();

    assert!(state.operation().unwrap().finished);
    assert!(!state.network_bootstrap_pending());
    assert_eq!(state.current_view(), View::AfterAction);
}

#[test]
fn a_deploy_time_load_failure_does_not_enter_network_bootstrap_pending() {
    let mut state = working_state();
    state.replace_source("function on_tick(");

    state.apply(Msg::RequestDeploy);

    assert!(!state.connected());
    assert!(!state.network_bootstrap_pending());
    assert_eq!(state.current_view(), View::AfterAction);
}

#[test]
fn a_later_successful_run_after_connecting_does_not_replay_network_bootstrap() {
    let mut state = working_state();
    state.replace_source(ROUTE_TO_UPLINK);
    state.apply(Msg::RequestDeploy);
    for _ in 0..8 {
        state.advance_running_operation();
    }
    assert!(state.connected());
    assert!(state.network_bootstrap_pending());

    // Let the Network Bootstrap presentation actually finish (one extra
    // call beyond the step count, since the last step stays visible for
    // a cadence before the transition completes), then redeploy and
    // succeed again.
    while state.advance_network_bootstrap() {}
    assert!(!state.network_bootstrap_pending());
    state.replace_source(ROUTE_TO_UPLINK);
    state.apply(Msg::RequestDeploy);
    for _ in 0..8 {
        state.advance_running_operation();
    }

    assert!(
        !state.network_bootstrap_pending(),
        "a second success after connectivity is already established must not \
         re-trigger Network Bootstrap"
    );
    assert_eq!(
        state.current_view(),
        View::AfterAction,
        "a second success routes to After Action like any other terminal outcome"
    );
}

#[test]
fn reviewing_the_connecting_run_preserves_its_immutable_review_data() {
    let mut state = working_state();
    state.replace_source(ROUTE_TO_UPLINK);
    state.apply(Msg::RequestDeploy);
    for _ in 0..8 {
        state.advance_running_operation();
    }
    assert_eq!(state.current_view(), View::Signals);

    let review_selected_before = state.review_selected();
    let records_before = state.operation().unwrap().records.to_vec();

    state.apply(Msg::Navigate(View::Operation));

    assert_eq!(state.review_selected(), review_selected_before);
    assert_eq!(state.operation().unwrap().records, records_before);
    assert!(state.connected());
    assert!(state.network_bootstrap_pending());
}

fn connected_and_pending_network_bootstrap() -> Console {
    let mut state = working_state();
    state.replace_source(ROUTE_TO_UPLINK);
    state.apply(Msg::RequestDeploy);
    for _ in 0..8 {
        state.advance_running_operation();
    }
    assert!(state.network_bootstrap_pending());
    state
}

#[test]
fn presentation_connected_lags_durable_connectivity_until_bootstrap_completes() {
    let state = working_state();
    assert!(!state.connected());
    assert!(!state.presentation_connected());

    let mut state = connected_and_pending_network_bootstrap();
    assert!(
        state.connected(),
        "durable connectivity is recorded the instant success is determined"
    );
    assert!(
        !state.presentation_connected(),
        "but presentation must keep rendering as disconnected while the \
         modal is still playing"
    );

    while state.advance_network_bootstrap() {}
    assert!(!state.network_bootstrap_pending());
    assert!(
        state.presentation_connected(),
        "presentation catches up to durable connectivity only once the \
         transition completes"
    );
}

#[test]
fn network_bootstrap_auto_advancing_only_while_pending() {
    let state = working_state();
    assert!(
        !state.network_bootstrap_auto_advancing(),
        "nothing pending yet"
    );

    let mut state = connected_and_pending_network_bootstrap();
    assert!(state.network_bootstrap_auto_advancing());

    for _ in 0..network_bootstrap_steps().len() {
        state.advance_network_bootstrap();
    }
    assert!(
        state.network_bootstrap_auto_advancing(),
        "every step has shown, but the transition needs its linger \
         window and one more cadence to actually complete — see \
         advance_network_bootstrap_clears_pending_after_the_last_step_\
         and_then_no_ops"
    );

    for _ in 0..NETWORK_BOOTSTRAP_LINGER_TICKS {
        state.advance_network_bootstrap();
        assert!(
            state.network_bootstrap_auto_advancing(),
            "still lingering on the completed state"
        );
    }

    state.advance_network_bootstrap();
    assert!(
        !state.network_bootstrap_auto_advancing(),
        "the completing cadence has now run, so the transition is done"
    );
}

#[test]
fn advance_network_bootstrap_steps_once_when_pending_and_otherwise_is_a_no_op() {
    let mut state = working_state();
    assert!(!state.advance_network_bootstrap());

    let mut state = connected_and_pending_network_bootstrap();
    let advanced = state.advance_network_bootstrap();

    assert!(advanced);
    assert_eq!(state.network_bootstrap_steps_shown().len(), 1);
    assert_eq!(
        state.network_bootstrap_progress(),
        (1, network_bootstrap_steps().len())
    );
}

#[test]
fn advance_network_bootstrap_clears_pending_after_the_last_step_and_then_no_ops() {
    let mut state = connected_and_pending_network_bootstrap();

    for _ in 0..network_bootstrap_steps().len() {
        assert!(state.advance_network_bootstrap());
        assert!(
            state.network_bootstrap_pending(),
            "still pending — every step has been revealed, but the final \
             one hasn't been shown for a cadence yet"
        );
    }
    assert_eq!(
        state.network_bootstrap_steps_shown(),
        network_bootstrap_steps(),
        "every step is revealed by this point, and stays visible \
         through the linger window before the transition completes"
    );

    for _ in 0..NETWORK_BOOTSTRAP_LINGER_TICKS {
        assert!(state.advance_network_bootstrap());
        assert!(
            state.network_bootstrap_pending(),
            "still lingering on the completed, 100%-progress state"
        );
        assert_eq!(
            state.network_bootstrap_steps_shown(),
            network_bootstrap_steps(),
            "the fully-revealed step list stays as-is through lingering"
        );
    }

    assert!(
        state.advance_network_bootstrap(),
        "the completing cadence — no further step to reveal, but this is \
         what actually clears the flag"
    );
    assert!(
        !state.network_bootstrap_pending(),
        "the transition completes only after the last step has lingered \
         through its full window"
    );

    assert!(
        !state.advance_network_bootstrap(),
        "no further steps to advance, and it must never replay"
    );
}

#[test]
fn a_deploy_time_load_failure_reaches_a_controller_error_conclusion() {
    let mut state = working_state();
    state.replace_source("function on_tick(");

    state.apply(Msg::RequestDeploy);

    let op = state.operation().unwrap();
    let conclusion = op.conclusion.expect("a finished run has a conclusion");
    assert!(matches!(
        conclusion.kind,
        ConclusionKind::ControllerError(ControllerError::ScriptInvalid(_))
    ));
}

#[test]
fn a_callback_error_reaches_a_controller_error_conclusion() {
    let mut state = working_state();
    state.replace_source(ALWAYS_ERRORS);
    state.apply(Msg::RequestDeploy);

    state.advance_running_operation();

    let op = state.operation().unwrap();
    let conclusion = op.conclusion.expect("a finished run has a conclusion");
    assert!(matches!(
        conclusion.kind,
        ConclusionKind::ControllerError(ControllerError::CallbackFailed(_))
    ));
}

#[test]
fn a_missing_callback_reaches_a_controller_error_conclusion() {
    let mut state = working_state();
    state.replace_source("local x = 1");

    state.apply(Msg::RequestDeploy);

    let op = state.operation().unwrap();
    let conclusion = op.conclusion.expect("a finished run has a conclusion");
    assert!(matches!(
        conclusion.kind,
        ConclusionKind::ControllerError(ControllerError::MissingCallback)
    ));
}

#[test]
fn reviewing_a_finished_run_returns_to_operation_with_the_frozen_telemetry() {
    // Already connected, so this run is a non-connecting success and
    // this test stays about generic post-completion navigation rather
    // than the Network Bootstrap routing covered separately below.
    let mut state = working_state();
    state.set_connected(true);
    state.replace_source(ROUTE_TO_UPLINK);
    state.apply(Msg::RequestDeploy);
    for _ in 0..8 {
        state.advance_running_operation();
    }
    assert_eq!(state.current_view(), View::AfterAction);

    state.apply(Msg::Navigate(View::Operation));

    assert_eq!(state.current_view(), View::Operation);
    let op = state.operation().unwrap();
    assert_eq!(op.records.len(), 8);
    assert!(op.finished);
}

#[test]
fn each_deploy_gets_a_distinct_run_id() {
    let mut state = working_state();

    state.apply(Msg::RequestDeploy); // starter controller: still running
    let first_run_id = state.operation().unwrap().run_id;

    state.apply(Msg::RequestDeploy); // active run: needs confirmation
    state.apply(Msg::ConfirmDeploy);
    let second_run_id = state.operation().unwrap().run_id;

    assert_ne!(first_run_id, second_run_id);
}

#[test]
fn quitting_with_an_active_operation_requires_confirmation() {
    let mut state = working_state();
    assert!(!state.controller_modified());
    state.apply(Msg::RequestDeploy);

    state.apply(Msg::RequestQuit);

    assert!(!state.should_quit());
    assert!(state.quit_confirmation_pending());
}

#[test]
fn quitting_after_the_operation_finished_needs_no_confirmation_for_it() {
    let mut state = working_state();
    state.replace_source(ALWAYS_ERRORS);
    state.apply(Msg::RequestDeploy);
    state.advance_running_operation();
    assert!(state.operation().unwrap().finished);
    // Restore the controller to the unmodified starter so this test
    // isolates the finished operation's own contribution to the quit
    // gate from the (unrelated) modified-controller gate.
    state.replace_source(
        human_exception::console::intel::STARTER_CONTROLLER,
    );
    assert!(!state.controller_modified());

    state.apply(Msg::RequestQuit);

    assert!(state.should_quit());
}
