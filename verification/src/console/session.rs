//! The mathematical picture of a console session, and what every intent, and
//! every reply of the host, does to it.

use vstd::prelude::*;
use vstd::view::View as _;

use super::document::DocumentModel;
use super::intel::{visible, STARTER_CONTROLLER};
use super::state::{
    panes_of, FocusedPanes, Msg, PaneId, RunInspectorMode, View, WorkingSet,
    MAX_PANE_SCROLL, NETWORK_BOOTSTRAP_LINGER_TICKS, NETWORK_BOOTSTRAP_STEP_COUNT,
};
use crate::lua_controller::{
    judged, law_judged_action_is_possible, record_of, ErrorModel, RecordModel,
};
use crate::simulation::{
    faithful, first_contact_model, knows, law_discoveries_are_true, law_operation_ends, Action,
    DiscoveredTile, FailureReason, ObservationModel, Position, SimEvent, SimulationModel,
    TickOutcome,
};

verus! {

/// What a satellite frame shows.
#[verifier::ext_equal]
pub struct SnapshotModel {
    pub drone_position: Position,
    pub map_width: int,
    pub map_height: int,
    pub discovered: Seq<DiscoveredTile>,
    pub tick: int,
    pub budget_remaining: int,
}

/// The frame after a completed tick.
pub open spec fn frame_of(record: RecordModel) -> SnapshotModel {
    SnapshotModel {
        drone_position: record.drone_position,
        map_width: record.map_width,
        map_height: record.map_height,
        discovered: record.discovered,
        tick: record.tick,
        budget_remaining: record.budget_remaining,
    }
}

/// The frame of what can be observed now.
pub open spec fn observed(simulation: SimulationModel) -> SnapshotModel {
    SnapshotModel {
        drone_position: simulation.drone,
        map_width: simulation.scenario.width,
        map_height: simulation.scenario.height,
        discovered: simulation.discovered,
        tick: simulation.tick,
        budget_remaining: simulation.budget,
    }
}

/// The frame of a deployment that was never observed: the scenario's public
/// starting facts.
pub open spec fn unobserved() -> SnapshotModel {
    SnapshotModel {
        drone_position: first_contact_model().start,
        map_width: first_contact_model().width,
        map_height: first_contact_model().height,
        discovered: Seq::empty(),
        tick: 0,
        budget_remaining: first_contact_model().budget,
    }
}

/// The tiles of `next` whose position is not among those of `previous`, in
/// their order.
pub open spec fn new_tiles(previous: Seq<DiscoveredTile>, next: Seq<DiscoveredTile>) -> Seq<
    DiscoveredTile,
> {
    next.filter(|tile: DiscoveredTile| !knows(previous, tile.position))
}

/// What kind of boundary in the chronology a review point is.
#[verifier::ext_equal]
pub enum ReviewKindModel {
    Initial,
    Tick(RecordModel),
    TerminalFailure(ErrorModel),
}

/// One review point.
#[verifier::ext_equal]
pub struct ReviewPointModel {
    pub kind: ReviewKindModel,
    pub snapshot: SnapshotModel,
    pub newly_discovered: Seq<DiscoveredTile>,
}

/// The frame after `ticks` completed ticks.
pub open spec fn frame_after(
    initial: SnapshotModel,
    records: Seq<RecordModel>,
    ticks: int,
) -> SnapshotModel {
    if ticks <= 0 {
        initial
    } else {
        frame_of(records[ticks - 1])
    }
}

/// The review point at place `i` of a chronology: the initial observation,
/// the completed ticks in order, then the failure that ended the run.
pub open spec fn review_point(
    initial: SnapshotModel,
    records: Seq<RecordModel>,
    error: Option<ErrorModel>,
    i: int,
) -> ReviewPointModel {
    if i <= 0 {
        ReviewPointModel {
            kind: ReviewKindModel::Initial,
            snapshot: initial,
            newly_discovered: Seq::empty(),
        }
    } else if i <= records.len() {
        ReviewPointModel {
            kind: ReviewKindModel::Tick(records[i - 1]),
            snapshot: frame_of(records[i - 1]),
            newly_discovered: new_tiles(
                frame_after(initial, records, i - 1).discovered,
                records[i - 1].discovered,
            ),
        }
    } else {
        ReviewPointModel {
            kind: ReviewKindModel::TerminalFailure(error->0),
            snapshot: frame_after(initial, records, records.len() as int),
            newly_discovered: Seq::empty(),
        }
    }
}

/// The chronology of a run. A run that never started has none.
pub open spec fn chronology(
    initial: Option<SnapshotModel>,
    records: Seq<RecordModel>,
    error: Option<ErrorModel>,
) -> Seq<ReviewPointModel> {
    match initial {
        None => Seq::empty(),
        Some(initial) => Seq::new(
            1 + records.len() + if error is Some {
                1nat
            } else {
                0
            },
            |i: int| review_point(initial, records, error, i),
        ),
    }
}

/// Whether an event is the entering of a hazard.
pub open spec fn is_hazard(event: SimEvent) -> bool {
    event is HazardEntered
}

/// How many hazards were entered in the recorded ticks.
pub open spec fn hazards_in(records: Seq<RecordModel>) -> nat
    decreases records.len(),
{
    if records.len() == 0 {
        0
    } else {
        hazards_in(records.drop_last()) + records.last().events.filter(
            |event: SimEvent| is_hazard(event),
        ).len()
    }
}

/// How a finished run ended.
#[verifier::ext_equal]
pub enum ConclusionKindModel {
    Success,
    BudgetExhausted,
    ControllerError(ErrorModel),
}

/// The account of how a finished run ended.
#[verifier::ext_equal]
pub struct ConclusionModel {
    pub kind: ConclusionKindModel,
    pub ticks_executed: int,
    pub tiles_discovered: int,
    pub hazards_entered: int,
    pub final_budget: int,
    pub run_id: int,
}

/// A deployment.
#[verifier::ext_equal]
pub struct OperationModel {
    pub live: Option<SimulationModel>,
    pub deployed_source: Seq<char>,
    pub run_id: int,
    pub records: Seq<RecordModel>,
    pub initial_snapshot: Option<SnapshotModel>,
    pub paused: bool,
    pub error: Option<ErrorModel>,
}

impl OperationModel {
    /// Whether the run has ended: with an error, or with the simulation.
    pub open spec fn finished(self) -> bool {
        self.error is Some || (self.live is Some && !((self.live->0).outcome is Running))
    }

    /// A run that never started has only its error. One that started has its
    /// initial observation, one record for each tick, and the state that the
    /// last record shows; an error ends it only while it is running.
    #[verifier::opaque]
    pub open spec fn wf(self) -> bool {
        match self.live {
            None => self.error is Some && self.initial_snapshot is None && self.records.len() == 0,
            Some(live) => {
                &&& live.wf()
                &&& live.scenario == first_contact_model()
                &&& faithful(live.scenario, live.discovered)
                &&& self.initial_snapshot is Some
                &&& self.records.len() == live.tick
                &&& forall|i: int|
                    0 <= i < self.records.len() ==> (#[trigger] self.records[i]).tick == i + 1
                        && self.records[i].events.len() <= 2
                &&& if self.records.len() == 0 {
                    observed(live) == self.initial_snapshot->0 && live.outcome is Running
                } else {
                    observed(live) == frame_of(self.records.last()) && live.outcome
                        == self.records.last().outcome
                }
                &&& self.error is Some ==> live.outcome is Running
            },
        }
    }

    /// The chronology for Review Run.
    pub open spec fn review_points(self) -> Seq<ReviewPointModel> {
        chronology(self.initial_snapshot, self.records, self.error)
    }

    /// The most recent state: that of the last completed tick, or the initial
    /// one.
    pub open spec fn current(self) -> SnapshotModel {
        if self.records.len() > 0 {
            frame_of(self.records.last())
        } else {
            match self.initial_snapshot {
                Some(initial) => initial,
                None => unobserved(),
            }
        }
    }

    /// How the run ended, if it has.
    pub open spec fn conclusion_kind(self) -> Option<ConclusionKindModel> {
        if !self.finished() {
            None
        } else if self.error is Some {
            Some(ConclusionKindModel::ControllerError(self.error->0))
        } else if self.records.len() == 0 {
            None
        } else {
            match self.records.last().outcome {
                TickOutcome::Succeeded => Some(ConclusionKindModel::Success),
                TickOutcome::Failed(FailureReason::BudgetExhausted) => Some(
                    ConclusionKindModel::BudgetExhausted,
                ),
                TickOutcome::Running => None,
            }
        }
    }

    /// The account of how the run ended, if it has.
    pub open spec fn conclusion(self) -> Option<ConclusionModel> {
        match self.conclusion_kind() {
            None => None,
            Some(kind) => Some(
                ConclusionModel {
                    kind,
                    ticks_executed: self.records.len() as int,
                    tiles_discovered: self.current().discovered.len() as int,
                    hazards_entered: hazards_in(self.records) as int,
                    final_budget: self.current().budget_remaining,
                    run_id: self.run_id,
                },
            ),
        }
    }

    /// The deployment of `source` under the number `run_id`: a run that has
    /// just started, or one that failed to load.
    pub open spec fn deployed(source: Seq<char>, run_id: int, failure: Option<ErrorModel>) -> Self {
        let started = SimulationModel::started(first_contact_model());
        OperationModel {
            live: if failure is None {
                Some(started)
            } else {
                None
            },
            deployed_source: source,
            run_id,
            records: Seq::empty(),
            initial_snapshot: if failure is None {
                Some(observed(started))
            } else {
                None
            },
            paused: false,
            error: failure,
        }
    }

    /// The run after one more tick, in which the controller's reply was
    /// `reply`.
    pub open spec fn stepped(self, reply: Result<Seq<char>, ErrorModel>) -> Self {
        let live = self.live->0;
        match judged(live, reply) {
            Ok(action) => OperationModel {
                live: Some(live.stepped(action)),
                records: self.records.push(record_of(live, action)),
                ..self
            },
            Err(error) => OperationModel { error: Some(error), ..self },
        }
    }
}

/// The result of a validation.
#[verifier::ext_equal]
pub enum ValidationModel {
    Unchecked,
    Valid,
    Invalid(Seq<char>),
}

/// What the session asks of the host.
#[verifier::ext_equal]
pub enum RequestModel {
    Validate(Seq<char>),
    Deploy(Seq<char>),
    Step(ObservationModel),
}

/// The larger of a page size and one row.
pub open spec fn page_rows(page: usize) -> int {
    if page < 1 {
        1
    } else {
        page as int
    }
}

/// `a` less `b`, but not below zero.
pub open spec fn back(a: int, b: int) -> int {
    if a < b {
        0
    } else {
        a - b
    }
}

/// `a` and `b` together, but not above `limit`.
pub open spec fn ahead(a: int, b: int, limit: int) -> int {
    if a + b < limit {
        a + b
    } else {
        limit
    }
}

/// `a`, but not above `limit`.
pub open spec fn at_most(a: int, limit: int) -> int {
    if a < limit {
        a
    } else {
        limit
    }
}

/// A console session.
pub struct SessionModel {
    pub current_view: View,
    pub help_return_view: Option<View>,
    pub working_set: Option<WorkingSet>,
    pub selected_signal: int,
    pub target_known: bool,
    pub controller: Option<DocumentModel>,
    pub validation: ValidationModel,
    pub reset_confirmation_pending: bool,
    pub quit_confirmation_pending: bool,
    pub operation: Option<OperationModel>,
    pub next_run_id: int,
    pub redeploy_confirmation_pending: bool,
    pub help_scroll: int,
    pub report_scroll: int,
    pub focus: FocusedPanes,
    pub review_selected: Option<int>,
    pub run_inspector_mode: RunInspectorMode,
    pub source_scroll: int,
    pub should_quit: bool,
    pub connected: bool,
    pub network_bootstrap_pending: bool,
    pub network_bootstrap_step: int,
    pub bootstrap_intro_visible: bool,
}

impl SessionModel {
    /// A session that has just begun.
    pub open spec fn initial() -> SessionModel {
        SessionModel {
            current_view: View::Signals,
            help_return_view: None,
            working_set: None,
            selected_signal: 0,
            target_known: false,
            controller: None,
            validation: ValidationModel::Unchecked,
            reset_confirmation_pending: false,
            quit_confirmation_pending: false,
            operation: None,
            next_run_id: 1,
            redeploy_confirmation_pending: false,
            help_scroll: 0,
            report_scroll: 0,
            focus: FocusedPanes::defaults(),
            review_selected: None,
            run_inspector_mode: RunInspectorMode::Timeline,
            source_scroll: 0,
            should_quit: false,
            connected: false,
            network_bootstrap_pending: false,
            network_bootstrap_step: 0,
            bootstrap_intro_visible: false,
        }
    }

    /// What holds of every session:
    ///
    /// - the selected signal is one that is shown;
    /// - there is a controller exactly when an opportunity is being worked,
    ///   and nothing but a controller was ever checked;
    /// - every view's focus is on one of its own panes;
    /// - scroll offsets stay within their bound;
    /// - a selected review point is one of a finished run's chronology;
    /// - Network Bootstrap only plays once connected, and does not run over;
    /// - every run has a number below the next one.
    #[verifier::opaque]
    pub open spec fn wf(self) -> bool {
        &&& 0 <= self.selected_signal < visible(self.connected).len()
        &&& self.controller is Some <==> self.working_set is Some
        &&& self.controller is None ==> self.validation is Unchecked
        &&& self.controller matches Some(document) ==> document.wf()
        &&& self.operation matches Some(operation) ==> operation.wf()
            && operation.run_id < self.next_run_id
        &&& 1 <= self.next_run_id
        &&& 0 <= self.help_scroll <= MAX_PANE_SCROLL
        &&& 0 <= self.report_scroll <= MAX_PANE_SCROLL
        &&& 0 <= self.source_scroll <= u16::MAX
        &&& self.focus.wf()
        &&& self.review_selected matches Some(i) ==> self.reviewable() matches Some(len) && 0 <= i
            < len
        &&& self.network_bootstrap_pending ==> self.connected
        &&& 0 <= self.network_bootstrap_step <= NETWORK_BOOTSTRAP_STEP_COUNT
            + NETWORK_BOOTSTRAP_LINGER_TICKS
    }

    /// The working source.
    pub open spec fn source(self) -> Option<Seq<char>> {
        match self.controller {
            Some(document) => Some(document.source()),
            None => None,
        }
    }

    /// Whether the controller differs from the starter controller.
    pub open spec fn modified(self) -> bool {
        self.source() matches Some(source) && source != STARTER_CONTROLLER@
    }

    /// Whether there is a run that has not ended.
    pub open spec fn active(self) -> bool {
        self.operation matches Some(operation) && !operation.finished()
    }

    /// Whether there is a run that has ended.
    pub open spec fn concluded(self) -> bool {
        self.operation matches Some(operation) && operation.finished()
    }

    /// Whether the run advances on its own: it is being watched, and neither
    /// paused nor over.
    pub open spec fn advancing(self) -> bool {
        &&& self.current_view == View::Operation
        &&& self.operation matches Some(operation) && !operation.paused && !operation.finished()
    }

    /// The length of the chronology that can be reviewed, if there is one.
    pub open spec fn reviewable(self) -> Option<int> {
        match self.operation {
            Some(operation) => if operation.finished() && operation.review_points().len() > 0 {
                Some(operation.review_points().len() as int)
            } else {
                None
            },
            None => None,
        }
    }

    /// The place of the last signal that is shown.
    pub open spec fn last_signal(self) -> int {
        visible(self.connected).len() - 1
    }

    /// Whether `view` can be reached.
    pub open spec fn reachable(self, view: View) -> bool {
        match view {
            View::Signals => true,
            View::AfterAction => true,
            View::Help => true,
            View::Target => self.target_known || self.working_set is Some,
            View::Controller => self.working_set is Some,
            View::Operation => self.working_set is Some,
        }
    }

    /// Whether `view` offers a choice between panes right now: it does not
    /// while a confirmation is pending, in Help, or before there is a run to
    /// show.
    pub open spec fn focus_movable(self, view: View) -> bool {
        &&& !self.quit_confirmation_pending
        &&& !self.reset_confirmation_pending
        &&& !self.redeploy_confirmation_pending
        &&& match view {
            View::Help => false,
            View::Operation => self.operation is Some,
            View::AfterAction => self.operation is Some,
            _ => true,
        }
    }

    /// The scroll offset of a pane.
    pub open spec fn scroll(self, pane: PaneId) -> int {
        match pane {
            PaneId::Help => self.help_scroll,
            PaneId::Report => self.report_scroll,
            _ => 0,
        }
    }

    /// The focused pane of the current view.
    pub open spec fn focused(self) -> PaneId {
        self.focus.of(self.current_view)
    }

    /// The session with another scroll offset for the focused pane, if that
    /// is scrollable.
    pub open spec fn scrolled_to(self, offset: int) -> SessionModel {
        match self.focused() {
            PaneId::Help => SessionModel { help_scroll: offset, ..self },
            PaneId::Report => SessionModel { report_scroll: offset, ..self },
            _ => self,
        }
    }

    /// The session with a pane's offset bounded by `max`.
    pub open spec fn pane_clamped(self, pane: PaneId, max: int) -> SessionModel {
        match pane {
            PaneId::Help => SessionModel { help_scroll: at_most(self.help_scroll, max), ..self },
            PaneId::Report => SessionModel {
                report_scroll: at_most(self.report_scroll, max),
                ..self
            },
            _ => self,
        }
    }

    /// The session with the offset into the deployed source bounded by `max`.
    pub open spec fn source_clamped(self, max: int) -> SessionModel {
        SessionModel { source_scroll: at_most(self.source_scroll, max), ..self }
    }

    /// The scroll offset of the focused pane.
    pub open spec fn focused_scroll(self) -> int {
        self.scroll(self.focused())
    }

    /// The selected review point of a chronology of the given length: the
    /// last one, until the player selects another.
    pub open spec fn review_place(self, len: int) -> int {
        match self.review_selected {
            Some(i) => i,
            None => len - 1,
        }
    }

    /// The session with an earlier review point selected, if there is a
    /// chronology.
    pub open spec fn review_back(self, by: int) -> SessionModel {
        match self.reviewable() {
            Some(len) => SessionModel {
                review_selected: Some(back(self.review_place(len), by)),
                ..self
            },
            None => self,
        }
    }

    /// The session with a later review point selected, if there is a
    /// chronology.
    pub open spec fn review_ahead(self, by: int) -> SessionModel {
        match self.reviewable() {
            Some(len) => SessionModel {
                review_selected: Some(ahead(self.review_place(len), by, len - 1)),
                ..self
            },
            None => self,
        }
    }

    /// The session with the first review point selected, if there is one.
    pub open spec fn review_first(self) -> SessionModel {
        match self.reviewable() {
            Some(_) => SessionModel { review_selected: Some(0), ..self },
            None => self,
        }
    }

    /// The session with the last review point selected, if there is one.
    pub open spec fn review_last(self) -> SessionModel {
        match self.reviewable() {
            Some(len) => SessionModel { review_selected: Some(len - 1), ..self },
            None => self,
        }
    }

    /// The session with another offset into the deployed source, if there is
    /// a run to inspect.
    pub open spec fn source_scrolled_to(self, offset: int) -> SessionModel {
        if self.concluded() {
            SessionModel { source_scroll: offset, ..self }
        } else {
            self
        }
    }

    /// The session with its run paused or not.
    pub open spec fn with_paused(self, paused: bool) -> SessionModel {
        SessionModel {
            operation: Some(OperationModel { paused, ..self.operation->0 }),
            ..self
        }
    }

    /// The session showing `view`. Going to Signals, Target or Controller
    /// first pauses an active run.
    pub open spec fn navigated(self, view: View) -> SessionModel {
        if !self.reachable(view) {
            self
        } else if self.active() && (view == View::Signals || view == View::Target || view
            == View::Controller) {
            SessionModel { current_view: view, ..self.with_paused(true) }
        } else {
            SessionModel { current_view: view, ..self }
        }
    }

    /// The session after `Enter` in Signals or Target.
    pub open spec fn activated(self) -> SessionModel {
        match self.current_view {
            View::Signals => if self.selected_signal < visible(self.connected).len() && visible(
                self.connected,
            )[self.selected_signal].opportunity is Some {
                SessionModel { target_known: true, current_view: View::Target, ..self }
            } else {
                self
            },
            View::Target => match self.working_set {
                Some(WorkingSet::FirstContact) => SessionModel {
                    current_view: View::Controller,
                    ..self
                },
                None => SessionModel {
                    working_set: Some(WorkingSet::FirstContact),
                    controller: Some(DocumentModel::fresh(STARTER_CONTROLLER@)),
                    current_view: View::Controller,
                    ..self
                },
            },
            _ => self,
        }
    }

    /// The session with the focus on the next pane of the current view.
    pub open spec fn focus_moved(self) -> SessionModel {
        let view = self.current_view;
        if self.focus_movable(view) {
            let panes = panes_of(view);
            let next = if self.focused() == panes[0] {
                panes[1]
            } else {
                panes[0]
            };
            SessionModel { focus: self.focus.with(view, next), ..self }
        } else {
            self
        }
    }

    /// The session with `document` in place of its controller. A changed
    /// source is unchecked.
    pub open spec fn edited_to(self, document: DocumentModel) -> SessionModel {
        SessionModel {
            controller: Some(document),
            validation: if document.source() != (self.controller->0).source() {
                ValidationModel::Unchecked
            } else {
                self.validation
            },
            ..self
        }
    }

    /// The session with `text` pasted into its controller, if there is one.
    pub open spec fn pasted(self, text: Seq<char>) -> SessionModel {
        match self.controller {
            Some(document) => self.edited_to(document.paste(text)),
            None => self,
        }
    }

    /// The session with the starter controller restored.
    pub open spec fn controller_reset(self) -> SessionModel {
        if self.controller is Some {
            SessionModel {
                controller: Some(DocumentModel::fresh(STARTER_CONTROLLER@)),
                validation: ValidationModel::Unchecked,
                ..self
            }
        } else {
            self
        }
    }

    /// The session with Help opened over the current view.
    pub open spec fn help_opened(self) -> SessionModel {
        if self.current_view == View::Help {
            self
        } else {
            SessionModel {
                help_return_view: Some(self.current_view),
                current_view: View::Help,
                help_scroll: 0,
                ..self
            }
        }
    }

    /// The view that Help was opened from, while Help shows.
    pub open spec fn help_opened_from(self) -> Option<View> {
        if self.current_view == View::Help {
            self.help_return_view
        } else {
            None
        }
    }

    /// The session back in the view that Help was opened from.
    pub open spec fn help_dismissed(self) -> SessionModel {
        match self.help_return_view {
            Some(view) => SessionModel { current_view: view, help_return_view: None, ..self },
            None => self,
        }
    }

    /// The session with the Run Inspector in its other mode, if there is a
    /// run to inspect.
    pub open spec fn inspector_toggled(self) -> SessionModel {
        if self.concluded() {
            SessionModel {
                run_inspector_mode: match self.run_inspector_mode {
                    RunInspectorMode::Timeline => RunInspectorMode::Source,
                    RunInspectorMode::Source => RunInspectorMode::Timeline,
                },
                ..self
            }
        } else {
            self
        }
    }

    /// The session with its active run paused, or resumed.
    pub open spec fn pause_toggled(self) -> SessionModel {
        if self.active() {
            self.with_paused(!(self.operation->0).paused)
        } else {
            self
        }
    }

    /// The session after an intent that moves between views and panes.
    #[verifier::opaque]
    pub open spec fn after_navigation(self, msg: Msg) -> SessionModel {
        match msg {
            Msg::Navigate(view) => self.navigated(view),
            Msg::OpenHelp => self.help_opened(),
            Msg::DismissHelp => self.help_dismissed(),
            Msg::AcknowledgeBootstrapIntro => SessionModel {
                bootstrap_intro_visible: false,
                ..self
            },
            Msg::Activate => self.activated(),
            Msg::FocusNextPane => self.focus_moved(),
            _ => self,
        }
    }

    /// The session after an intent that selects a signal.
    #[verifier::opaque]
    pub open spec fn after_signals(self, msg: Msg) -> SessionModel {
        match msg {
            Msg::SelectPreviousSignal => SessionModel {
                selected_signal: back(self.selected_signal, 1),
                ..self
            },
            Msg::SelectNextSignal => SessionModel {
                selected_signal: ahead(self.selected_signal, 1, self.last_signal()),
                ..self
            },
            Msg::SelectFirstSignal => SessionModel { selected_signal: 0, ..self },
            Msg::SelectLastSignal => SessionModel { selected_signal: self.last_signal(), ..self },
            Msg::SelectSignalPageBackward(page) => SessionModel {
                selected_signal: back(self.selected_signal, page_rows(page)),
                ..self
            },
            Msg::SelectSignalPageForward(page) => SessionModel {
                selected_signal: ahead(self.selected_signal, page_rows(page), self.last_signal()),
                ..self
            },
            _ => self,
        }
    }

    /// The session after an intent that scrolls the focused pane.
    #[verifier::opaque]
    pub open spec fn after_scroll(self, msg: Msg) -> SessionModel {
        match msg {
            Msg::ScrollUp => self.scrolled_to(back(self.focused_scroll(), 1)),
            Msg::ScrollDown => self.scrolled_to(
                ahead(self.focused_scroll(), 1, MAX_PANE_SCROLL as int),
            ),
            Msg::ScrollPageBackward(page) => self.scrolled_to(
                back(self.focused_scroll(), page_rows(page)),
            ),
            Msg::ScrollPageForward(page) => self.scrolled_to(
                ahead(self.focused_scroll(), page_rows(page), MAX_PANE_SCROLL as int),
            ),
            Msg::JumpScrollStart => self.scrolled_to(0),
            Msg::JumpScrollEnd => self.scrolled_to(MAX_PANE_SCROLL as int),
            _ => self,
        }
    }

    /// The session after an intent that moves through the chronology of a finished run.
    #[verifier::opaque]
    pub open spec fn after_review(self, msg: Msg) -> SessionModel {
        match msg {
            Msg::SelectPreviousReviewPoint => self.review_back(1),
            Msg::SelectNextReviewPoint => self.review_ahead(1),
            Msg::SelectFirstReviewPoint => self.review_first(),
            Msg::SelectLastReviewPoint => self.review_last(),
            Msg::SelectReviewPointPageBackward(page) => self.review_back(page_rows(page)),
            Msg::SelectReviewPointPageForward(page) => self.review_ahead(page_rows(page)),
            _ => self,
        }
    }

    /// The session after an intent that inspects the deployed source of a finished run.
    #[verifier::opaque]
    pub open spec fn after_source_scroll(self, msg: Msg) -> SessionModel {
        match msg {
            Msg::ToggleRunInspectorMode => self.inspector_toggled(),
            Msg::ScrollSourceUp => self.source_scrolled_to(back(self.source_scroll, 1)),
            Msg::ScrollSourceDown => self.source_scrolled_to(
                ahead(self.source_scroll, 1, u16::MAX as int),
            ),
            Msg::ScrollSourcePageBackward(page) => self.source_scrolled_to(
                back(self.source_scroll, page_rows(page)),
            ),
            Msg::ScrollSourcePageForward(page) => self.source_scrolled_to(
                ahead(self.source_scroll, page_rows(page), u16::MAX as int),
            ),
            Msg::JumpSourceStart => self.source_scrolled_to(0),
            Msg::JumpSourceEnd => self.source_scrolled_to(u16::MAX as int),
            _ => self,
        }
    }

    /// The session after an intent that works on the controller.
    #[verifier::opaque]
    pub open spec fn after_controller(self, msg: Msg) -> SessionModel {
        match msg {
            Msg::EditController(op) => match self.controller {
                Some(document) => self.edited_to(document.edit(op)),
                None => self,
            },
            Msg::PasteController(text) => self.pasted(text@),
            Msg::ValidateController => self,
            Msg::RequestResetController => if self.modified() {
                SessionModel { reset_confirmation_pending: true, ..self }
            } else {
                self.controller_reset()
            },
            Msg::ConfirmResetController => SessionModel {
                reset_confirmation_pending: false,
                ..self.controller_reset()
            },
            Msg::CancelResetController => SessionModel {
                reset_confirmation_pending: false,
                ..self
            },
            _ => self,
        }
    }

    /// The session after an intent that ends the session.
    #[verifier::opaque]
    pub open spec fn after_quit(self, msg: Msg) -> SessionModel {
        match msg {
            Msg::RequestQuit => if self.modified() || self.active() {
                SessionModel { quit_confirmation_pending: true, ..self }
            } else {
                SessionModel { should_quit: true, ..self }
            },
            Msg::ConfirmQuit => SessionModel { should_quit: true, ..self },
            Msg::CancelQuit => SessionModel { quit_confirmation_pending: false, ..self },
            _ => self,
        }
    }

    /// The session after an intent that deploys a controller, or paces its run.
    #[verifier::opaque]
    pub open spec fn after_run(self, msg: Msg) -> SessionModel {
        match msg {
            Msg::RequestDeploy => if self.controller is Some && self.active() {
                SessionModel {
                    redeploy_confirmation_pending: true,
                    current_view: View::Operation,
                    ..self
                }
            } else {
                self
            },
            Msg::ConfirmDeploy => SessionModel { redeploy_confirmation_pending: false, ..self },
            Msg::CancelDeploy => SessionModel { redeploy_confirmation_pending: false, ..self },
            Msg::TogglePauseOperation => self.pause_toggled(),
            Msg::StepOperationTick => self,
            _ => self,
        }
    }

    /// The session after `msg`, as far as it does not wait for the host.
    pub open spec fn after(self, msg: Msg) -> SessionModel {
        match msg {
            Msg::Navigate(_)
            | Msg::OpenHelp
            | Msg::DismissHelp
            | Msg::AcknowledgeBootstrapIntro
            | Msg::Activate
            | Msg::FocusNextPane => self.after_navigation(msg),
            Msg::SelectPreviousSignal
            | Msg::SelectNextSignal
            | Msg::SelectFirstSignal
            | Msg::SelectLastSignal
            | Msg::SelectSignalPageBackward(_)
            | Msg::SelectSignalPageForward(_) => self.after_signals(msg),
            Msg::ScrollUp
            | Msg::ScrollDown
            | Msg::ScrollPageBackward(_)
            | Msg::ScrollPageForward(_)
            | Msg::JumpScrollStart
            | Msg::JumpScrollEnd => self.after_scroll(msg),
            Msg::SelectPreviousReviewPoint
            | Msg::SelectNextReviewPoint
            | Msg::SelectFirstReviewPoint
            | Msg::SelectLastReviewPoint
            | Msg::SelectReviewPointPageBackward(_)
            | Msg::SelectReviewPointPageForward(_) => self.after_review(msg),
            Msg::ToggleRunInspectorMode
            | Msg::ScrollSourceUp
            | Msg::ScrollSourceDown
            | Msg::ScrollSourcePageBackward(_)
            | Msg::ScrollSourcePageForward(_)
            | Msg::JumpSourceStart
            | Msg::JumpSourceEnd => self.after_source_scroll(msg),
            Msg::EditController(_)
            | Msg::PasteController(_)
            | Msg::ValidateController
            | Msg::RequestResetController
            | Msg::ConfirmResetController
            | Msg::CancelResetController => self.after_controller(msg),
            Msg::RequestQuit
            | Msg::ConfirmQuit
            | Msg::CancelQuit => self.after_quit(msg),
            Msg::RequestDeploy
            | Msg::ConfirmDeploy
            | Msg::CancelDeploy
            | Msg::TogglePauseOperation
            | Msg::StepOperationTick => self.after_run(msg),
        }
    }

    /// What `msg` asks of the host: to check the controller, to load it, or
    /// to call its `on_tick` with the current observation.
    #[verifier::opaque]
    pub open spec fn request(self, msg: Msg) -> Option<RequestModel> {
        match msg {
            Msg::ValidateController => match self.source() {
                Some(source) => Some(RequestModel::Validate(source)),
                None => None,
            },
            Msg::RequestDeploy => if self.active() {
                None
            } else {
                match self.source() {
                    Some(source) => Some(RequestModel::Deploy(source)),
                    None => None,
                }
            },
            Msg::ConfirmDeploy => match self.source() {
                Some(source) => Some(RequestModel::Deploy(source)),
                None => None,
            },
            Msg::StepOperationTick => if self.active() && (self.operation->0).paused {
                Some(self.next_tick())
            } else {
                None
            },
            _ => None,
        }
    }

    /// The request for the next tick of the run.
    pub open spec fn next_tick(self) -> RequestModel {
        RequestModel::Step(((self.operation->0).live->0).observation())
    }

    /// The session once the host has checked `source`. A reply about a source
    /// that is not the controller's counts for nothing.
    pub open spec fn validated(
        self,
        source: Seq<char>,
        failure: Option<ErrorModel>,
    ) -> SessionModel {
        if self.source() == Some(source) {
            SessionModel {
                validation: match failure {
                    None => ValidationModel::Valid,
                    Some(error) => ValidationModel::Invalid(error.message()),
                },
                ..self
            }
        } else {
            self
        }
    }

    /// The session once the host has loaded `source`, or failed to. A run
    /// that failed to load is over at once: its report is shown, and there is
    /// nothing to review. The Run Inspector and the report start afresh. A
    /// reply about a source that is not the controller's counts for nothing.
    pub open spec fn deployed(self, source: Seq<char>, failure: Option<ErrorModel>) -> SessionModel {
        if self.source() == Some(source) {
            self.running(source, failure)
        } else {
            self
        }
    }

    /// The session with a new run of `source`.
    pub open spec fn running(self, source: Seq<char>, failure: Option<ErrorModel>) -> SessionModel {
        SessionModel {
            operation: Some(OperationModel::deployed(source, self.next_run_id, failure)),
            next_run_id: self.next_run_id + 1,
            current_view: if failure is Some {
                View::AfterAction
            } else {
                View::Operation
            },
            review_selected: None,
            run_inspector_mode: RunInspectorMode::Timeline,
            source_scroll: 0,
            focus: (if failure is Some {
                self.focus.with(View::Operation, PaneId::OperationTelemetry)
            } else {
                self.focus
            }).with(View::AfterAction, PaneId::Report),
            report_scroll: 0,
            ..self
        }
    }

    /// Whether ending with `operation` is the success that connects the
    /// player.
    pub open spec fn connecting(self, operation: OperationModel) -> bool {
        !self.connected && operation.records.len() > 0 && operation.records.last().outcome
            == TickOutcome::Succeeded
    }

    /// The session once its run has ended as `operation`. The success that
    /// connects the player leads to Network Bootstrap and Signals, every
    /// other end to the report; the last review point is selected.
    pub open spec fn ended(self, operation: OperationModel) -> SessionModel {
        SessionModel {
            operation: Some(operation),
            connected: self.connected || self.connecting(operation),
            network_bootstrap_pending: self.network_bootstrap_pending || self.connecting(operation),
            current_view: if self.connecting(operation) {
                View::Signals
            } else {
                View::AfterAction
            },
            report_scroll: 0,
            focus: self.focus.with(View::AfterAction, PaneId::Report).with(
                View::Operation,
                PaneId::OperationTelemetry,
            ),
            review_selected: if operation.review_points().len() > 0 {
                Some(operation.review_points().len() - 1)
            } else {
                None
            },
            run_inspector_mode: RunInspectorMode::Timeline,
            source_scroll: 0,
            ..self
        }
    }

    /// The session once the host has called `on_tick` for an active run.
    pub open spec fn stepped(self, reply: Result<Seq<char>, ErrorModel>) -> SessionModel {
        if self.active() {
            let operation = (self.operation->0).stepped(reply);
            if operation.finished() {
                self.ended(operation)
            } else {
                SessionModel { operation: Some(operation), ..self }
            }
        } else {
            self
        }
    }

    /// The session after one tick of Network Bootstrap: one more step shown,
    /// then the held completion, then its end.
    pub open spec fn bootstrapped(self) -> SessionModel {
        if !self.network_bootstrap_pending {
            self
        } else if self.network_bootstrap_step < NETWORK_BOOTSTRAP_STEP_COUNT
            + NETWORK_BOOTSTRAP_LINGER_TICKS {
            SessionModel { network_bootstrap_step: self.network_bootstrap_step + 1, ..self }
        } else {
            SessionModel { network_bootstrap_pending: false, ..self }
        }
    }
}

/// A fresh deployment is consistent.
pub proof fn lemma_deployed_wf(source: Seq<char>, run_id: int, failure: Option<ErrorModel>)
    ensures
        OperationModel::deployed(source, run_id, failure).wf(),
{
    reveal(OperationModel::wf);
    let started = SimulationModel::started(first_contact_model());
    law_discoveries_are_true(
        SimulationModel { discovered: Seq::empty(), ..started },
        Action::Wait,
    );
}

/// A tick keeps a run consistent.
pub proof fn lemma_stepped_wf(operation: OperationModel, reply: Result<Seq<char>, ErrorModel>)
    requires
        operation.wf(),
        !operation.finished(),
    ensures
        operation.live is Some,
        (operation.live->0).wf(),
        (operation.live->0).outcome is Running,
        operation.stepped(reply).wf(),
{
    reveal(OperationModel::wf);
    let live = operation.live->0;
    match judged(live, reply) {
        Ok(action) => {
            assert(live.refusal(action) is None) by {
                law_judged_action_is_possible(live, reply);
            }
            law_discoveries_are_true(live, action);
            law_operation_ends(live, action);
            let after = operation.stepped(reply);
            assert(after.records.last() == record_of(live, action));
            assert forall|i: int| 0 <= i < after.records.len() implies (
            #[trigger] after.records[i]).tick == i + 1 && after.records[i].events.len() <= 2 by {
                if i < operation.records.len() {
                    assert(after.records[i] == operation.records[i]);
                }
            }
        },
        Err(_) => {},
    }
}

} // verus!
