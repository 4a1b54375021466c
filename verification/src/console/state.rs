//! Session and navigation state for the resistance console.
//!
//! This module is independent of any rendering or terminal library. Work that
//! only the host can do (checking, loading and running Lua) leaves it as a
//! `Request`, and comes back as a reply.

use ratatui_code_editor::editor::Editor;
use vstd::prelude::*;
use vstd::view::View as _;

use super::document::ControllerDocument;
use super::editor::EditOp;
use super::intel::{lemma_visible, visible, visible_signals, STARTER_CONTROLLER};
use super::session::{
    ahead, back, chronology, frame_of, hazards_in, is_hazard, lemma_deployed_wf,
    lemma_stepped_wf, new_tiles, observed, page_rows, review_point, ConclusionKindModel,
    ConclusionModel, OperationModel, RequestModel, ReviewKindModel, ReviewPointModel,
    SessionModel, SnapshotModel, ValidationModel,
};
use crate::lua_controller::{
    reply_model, ControllerError, ErrorModel, LiveOperation, RecordModel, TickRecord,
};
use crate::simulation::{
    copy_tiles, first_contact_model, knows, law_discoveries_fit_the_map, DiscoveredTile,
    FailureReason, Observation, Position, Scenario, SimEvent, TickOutcome,
};
use crate::text::same_text;

verus! {

/// The furthest that any scrollable pane can scroll: comfortably above the
/// number of lines of any such pane, so that the player never has to scroll
/// back an impractical distance. The bound that depends on the content and
/// the frame is applied by `AppState::clamp_scroll`.
pub const MAX_PANE_SCROLL: u16 = 500;

/// How many ticks Network Bootstrap holds at its fully revealed state before
/// it closes, so that the player can register that it is complete.
pub const NETWORK_BOOTSTRAP_LINGER_TICKS: usize = 2;

/// How many steps Network Bootstrap reveals.
pub const NETWORK_BOOTSTRAP_STEP_COUNT: usize = 7;

/// The result of the most recent validation, or the fact that the current
/// source was not checked, or was edited since.
#[derive(Debug, Clone, PartialEq, Eq)]
pub enum Validation {
    Unchecked,
    Valid,
    Invalid(String),
}

/// A major state the console can be showing.
#[derive(Debug, Clone, Copy, PartialEq, Eq, Hash, Structural)]
pub enum View {
    Signals,
    Target,
    Controller,
    Operation,
    AfterAction,
    Help,
}

/// Which of its two read-only surfaces the Run Inspector shows: the
/// chronology with the evidence of the selected review point, or the complete
/// deployed source.
#[derive(Debug, Clone, Copy, PartialEq, Eq, Structural)]
pub enum RunInspectorMode {
    Timeline,
    Source,
}

/// A named pane. Every view has one or two of them.
#[derive(Debug, Clone, Copy, PartialEq, Eq, Hash, Structural)]
pub enum PaneId {
    Help,
    SignalsList,
    SelectedSignal,
    TargetIntelligence,
    Provenance,
    ControllerSource,
    LuaFieldReference,
    Satellite,
    OperationTelemetry,
    Report,
    FinalFrame,
}

/// The opportunity the player has chosen to work.
#[derive(Debug, Clone, Copy, PartialEq, Eq, Hash, Structural)]
pub enum WorkingSet {
    FirstContact,
}

/// A player intent, decoupled from whatever key produced it.
///
/// Page sizes are `0` until the real size of the page is known: see
/// `console::should_redraw`.
#[derive(Debug, Clone, PartialEq, Eq)]
pub enum Msg {
    Navigate(View),
    OpenHelp,
    DismissHelp,
    /// Dismisses the first-launch bootstrap introduction.
    AcknowledgeBootstrapIntro,
    SelectPreviousSignal,
    SelectNextSignal,
    SelectFirstSignal,
    SelectLastSignal,
    SelectSignalPageBackward(usize),
    SelectSignalPageForward(usize),
    /// Inspects the selected signal in Signals, or commits to working the
    /// current dossier's opportunity in Target.
    Activate,
    /// Moves focus to the next pane of the current view, wrapping around.
    FocusNextPane,
    /// Scrolls the focused pane by one row, if it is scrollable.
    ScrollUp,
    ScrollDown,
    /// Scrolls the focused pane by one page, if it is scrollable.
    ScrollPageBackward(usize),
    ScrollPageForward(usize),
    /// Jumps to the beginning or the end of the focused pane.
    JumpScrollStart,
    JumpScrollEnd,
    /// Moves through the chronology of a finished run; never wraps.
    SelectPreviousReviewPoint,
    SelectNextReviewPoint,
    SelectFirstReviewPoint,
    SelectLastReviewPoint,
    SelectReviewPointPageBackward(usize),
    SelectReviewPointPageForward(usize),
    /// Flips the Run Inspector of a finished run between its two modes.
    ToggleRunInspectorMode,
    /// Scrolls the deployed source of a finished run.
    ScrollSourceUp,
    ScrollSourceDown,
    ScrollSourcePageBackward(usize),
    ScrollSourcePageForward(usize),
    JumpSourceStart,
    JumpSourceEnd,
    /// An editing or cursor-movement key applied to the controller source.
    EditController(EditOp),
    /// Pasted text, with its line ends already normalized.
    PasteController(String),
    /// Checks whether the controller source can be loaded, without running
    /// anything.
    ValidateController,
    /// Restores the starter controller, after a confirmation if that would
    /// discard edits.
    RequestResetController,
    ConfirmResetController,
    CancelResetController,
    /// Quits, after a confirmation if the controller is modified or a run is
    /// active.
    RequestQuit,
    ConfirmQuit,
    CancelQuit,
    /// Deploys the controller, after a confirmation if a run is active.
    RequestDeploy,
    ConfirmDeploy,
    CancelDeploy,
    /// Pauses or resumes the active run.
    TogglePauseOperation,
    /// Advances a paused run by one tick.
    StepOperationTick,
}

/// Whether the content of `pane` can be scrolled.
pub open spec fn scrollable(pane: PaneId) -> bool {
    pane == PaneId::Help || pane == PaneId::Report
}

/// Whether the content of `pane` can be scrolled: only Help and the After
/// Action report can.
pub fn pane_is_scrollable(pane: PaneId) -> (result: bool)
    ensures
        result == scrollable(pane),
{
    match pane {
        PaneId::Help | PaneId::Report => true,
        _ => false,
    }
}

/// The panes of a view, in order.
pub open spec fn panes_of(view: View) -> Seq<PaneId> {
    match view {
        View::Help => seq![PaneId::Help],
        View::Signals => seq![PaneId::SignalsList, PaneId::SelectedSignal],
        View::Target => seq![PaneId::TargetIntelligence, PaneId::Provenance],
        View::Controller => seq![PaneId::ControllerSource, PaneId::LuaFieldReference],
        View::Operation => seq![PaneId::Satellite, PaneId::OperationTelemetry],
        View::AfterAction => seq![PaneId::Report, PaneId::FinalFrame],
    }
}

impl View {
    /// The pane that has the focus until another one is given it: the first
    /// of the view's panes.
    pub fn default_pane(self) -> (pane: PaneId)
        ensures
            pane == panes_of(self)[0],
    {
        match self {
            View::Help => PaneId::Help,
            View::Signals => PaneId::SignalsList,
            View::Target => PaneId::TargetIntelligence,
            View::Controller => PaneId::ControllerSource,
            View::Operation => PaneId::Satellite,
            View::AfterAction => PaneId::Report,
        }
    }

    /// Every pane of the view, in order.
    pub fn panes(self) -> (panes: &'static [PaneId])
        ensures
            panes@ == panes_of(self),
    {
        match self {
            View::Help => &[PaneId::Help],
            View::Signals => &[PaneId::SignalsList, PaneId::SelectedSignal],
            View::Target => &[PaneId::TargetIntelligence, PaneId::Provenance],
            View::Controller => &[PaneId::ControllerSource, PaneId::LuaFieldReference],
            View::Operation => &[PaneId::Satellite, PaneId::OperationTelemetry],
            View::AfterAction => &[PaneId::Report, PaneId::FinalFrame],
        }
    }
}

/// The focused pane of each view that has more than one.
#[derive(Debug, Clone, Copy, PartialEq, Eq, Structural)]
pub struct FocusedPanes {
    pub signals: PaneId,
    pub target: PaneId,
    pub controller: PaneId,
    pub operation: PaneId,
    pub after_action: PaneId,
}

impl FocusedPanes {
    /// The first pane of each view.
    pub open spec fn defaults() -> FocusedPanes {
        FocusedPanes {
            signals: PaneId::SignalsList,
            target: PaneId::TargetIntelligence,
            controller: PaneId::ControllerSource,
            operation: PaneId::Satellite,
            after_action: PaneId::Report,
        }
    }

    /// The focused pane of a view.
    pub open spec fn of(self, view: View) -> PaneId {
        match view {
            View::Help => PaneId::Help,
            View::Signals => self.signals,
            View::Target => self.target,
            View::Controller => self.controller,
            View::Operation => self.operation,
            View::AfterAction => self.after_action,
        }
    }

    /// With the focus of a view on `pane`.
    pub open spec fn with(self, view: View, pane: PaneId) -> FocusedPanes {
        match view {
            View::Help => self,
            View::Signals => FocusedPanes { signals: pane, ..self },
            View::Target => FocusedPanes { target: pane, ..self },
            View::Controller => FocusedPanes { controller: pane, ..self },
            View::Operation => FocusedPanes { operation: pane, ..self },
            View::AfterAction => FocusedPanes { after_action: pane, ..self },
        }
    }

    /// Every view's focus is on one of its own panes.
    pub open spec fn wf(self) -> bool {
        &&& self.signals == PaneId::SignalsList || self.signals == PaneId::SelectedSignal
        &&& self.target == PaneId::TargetIntelligence || self.target == PaneId::Provenance
        &&& self.controller == PaneId::ControllerSource || self.controller
            == PaneId::LuaFieldReference
        &&& self.operation == PaneId::Satellite || self.operation == PaneId::OperationTelemetry
        &&& self.after_action == PaneId::Report || self.after_action == PaneId::FinalFrame
    }
}

impl Validation {
    pub open spec fn view(&self) -> ValidationModel {
        match self {
            Validation::Unchecked => ValidationModel::Unchecked,
            Validation::Valid => ValidationModel::Valid,
            Validation::Invalid(message) => ValidationModel::Invalid(message@),
        }
    }
}

/// The pictures of a list of tick records.
pub open spec fn record_models(records: Seq<TickRecord>) -> Seq<RecordModel> {
    Seq::new(records.len(), |i: int| records[i]@)
}

/// The picture of an error, if there is one.
pub open spec fn error_model(error: Option<ControllerError>) -> Option<ErrorModel> {
    match error {
        Some(error) => Some(error@),
        None => None,
    }
}

/// The picture of a failed outcome.
pub open spec fn failure_model(outcome: Result<(), ControllerError>) -> Option<ErrorModel> {
    match outcome {
        Ok(_) => None,
        Err(error) => Some(error@),
    }
}

/// The picture of a borrowed error, if there is one.
pub open spec fn borrowed_error_model(error: Option<&ControllerError>) -> Option<ErrorModel> {
    match error {
        Some(error) => Some(error@),
        None => None,
    }
}

/// The picture of a snapshot, if there is one.
pub open spec fn snapshot_model(snapshot: Option<OperationSnapshot>) -> Option<SnapshotModel> {
    match snapshot {
        Some(snapshot) => Some(snapshot@),
        None => None,
    }
}

/// The picture of an index, if there is one.
pub open spec fn index_model(index: Option<usize>) -> Option<int> {
    match index {
        Some(index) => Some(index as int),
        None => None,
    }
}

/// A satellite-feed-safe snapshot of a deployment's state: only ever built
/// from what could be observed, or from the scenario's public starting facts.
#[derive(Debug, Clone, PartialEq, Eq)]
pub struct OperationSnapshot {
    pub drone_position: Position,
    pub map_width: i32,
    pub map_height: i32,
    pub discovered: Vec<DiscoveredTile>,
    pub tick: u32,
    pub budget_remaining: u32,
}

impl OperationSnapshot {
    pub open spec fn view(&self) -> SnapshotModel {
        SnapshotModel {
            drone_position: self.drone_position,
            map_width: self.map_width as int,
            map_height: self.map_height as int,
            discovered: self.discovered@,
            tick: self.tick as int,
            budget_remaining: self.budget_remaining as int,
        }
    }

    /// The state after a completed tick.
    fn of_record(record: &TickRecord) -> (snapshot: OperationSnapshot)
        ensures
            snapshot@ == frame_of(record@),
    {
        OperationSnapshot {
            drone_position: record.drone_position,
            map_width: record.map_width,
            map_height: record.map_height,
            discovered: copy_tiles(&record.discovered),
            tick: record.tick,
            budget_remaining: record.budget_remaining,
        }
    }

    fn copy(&self) -> (snapshot: OperationSnapshot)
        ensures
            snapshot@ == self@,
    {
        OperationSnapshot {
            drone_position: self.drone_position,
            map_width: self.map_width,
            map_height: self.map_height,
            discovered: copy_tiles(&self.discovered),
            tick: self.tick,
            budget_remaining: self.budget_remaining,
        }
    }
}

/// A snapshot of what can be observed of a live operation now.
pub fn observe_snapshot(live: &LiveOperation) -> (snapshot: OperationSnapshot)
    ensures
        snapshot@ == observed(live@),
{
    let observation = live.observe();
    OperationSnapshot {
        drone_position: observation.drone_position,
        map_width: live.map_width(),
        map_height: live.map_height(),
        discovered: observation.discovered,
        tick: observation.tick,
        budget_remaining: observation.budget_remaining,
    }
}

/// What kind of boundary in the chronology a [`ReviewPoint`] is.
#[derive(Debug, Clone, Copy)]
pub enum ReviewPointKind<'a> {
    /// The observation before the first tick.
    Initial,
    /// A completed tick.
    Tick(&'a TickRecord),
    /// A controller failure after the deployment started, with no further
    /// tick: the state is that of the point before.
    TerminalFailure(&'a ControllerError),
}

impl<'a> ReviewPointKind<'a> {
    pub open spec fn view(&self) -> ReviewKindModel {
        match self {
            ReviewPointKind::Initial => ReviewKindModel::Initial,
            ReviewPointKind::Tick(record) => ReviewKindModel::Tick(record@),
            ReviewPointKind::TerminalFailure(error) => ReviewKindModel::TerminalFailure(error@),
        }
    }
}

/// One inspectable boundary in an operation's chronology.
#[derive(Debug, Clone)]
pub struct ReviewPoint<'a> {
    pub kind: ReviewPointKind<'a>,
    /// The state at this point, with everything discovered so far.
    pub snapshot: OperationSnapshot,
    /// The tiles discovered since the point before.
    pub newly_discovered: Vec<DiscoveredTile>,
}

impl<'a> ReviewPoint<'a> {
    pub open spec fn view(&self) -> ReviewPointModel {
        ReviewPointModel {
            kind: self.kind@,
            snapshot: self.snapshot@,
            newly_discovered: self.newly_discovered@,
        }
    }
}

/// The pictures of a list of review points.
pub open spec fn review_models(points: Seq<ReviewPoint>) -> Seq<ReviewPointModel> {
    Seq::new(points.len(), |i: int| points[i]@)
}

/// The tiles of `next` whose position is not among those of `previous`. Both
/// lists are cumulative, so that these are the tiles discovered in between.
pub fn discovered_since(previous: &[DiscoveredTile], next: &[DiscoveredTile]) -> (tiles: Vec<
    DiscoveredTile,
>)
    ensures
        tiles@ == new_tiles(previous@, next@),
{
    let ghost is_new = |tile: DiscoveredTile| !knows(previous@, tile.position);
    let mut tiles: Vec<DiscoveredTile> = Vec::new();
    for i in 0..next.len()
        invariant
            is_new == (|tile: DiscoveredTile| !knows(previous@, tile.position)),
            tiles@ == next@.take(i as int).filter(is_new),
    {
        proof {
            reveal(Seq::filter);
            assert(next@.take(i + 1).drop_last() =~= next@.take(i as int));
            assert(next@.take(i + 1).last() == next@[i as int]);
        }
        let position = next[i].position;
        let mut known = false;
        for j in 0..previous.len()
            invariant
                known == exists|k: int|
                    0 <= k < j && (#[trigger] previous@[k]).position == position,
        {
            if previous[j].position == position {
                known = true;
            }
        }
        assert(known == knows(previous@, position));
        if !known {
            tiles.push(next[i]);
        }
    }
    assert(next@.take(next@.len() as int) =~= next@);
    tiles
}

/// Projects an operation's facts into its chronology: the initial
/// observation, one point for each completed tick, then the failure that
/// ended the run, if one did. Empty where the deployment never started.
pub fn review_points<'a>(
    initial_snapshot: &'a Option<OperationSnapshot>,
    records: &'a [TickRecord],
    error: Option<&'a ControllerError>,
) -> (points: Vec<ReviewPoint<'a>>)
    ensures
        review_models(points@) == chronology(
            snapshot_model(*initial_snapshot),
            record_models(records@),
            borrowed_error_model(error),
        ),
{
    let mut points: Vec<ReviewPoint<'a>> = Vec::new();
    let ghost models = record_models(records@);
    let ghost failure = borrowed_error_model(error);
    match initial_snapshot {
        None => {},
        Some(initial) => {
            points.push(
                ReviewPoint {
                    kind: ReviewPointKind::Initial,
                    snapshot: initial.copy(),
                    newly_discovered: Vec::new(),
                },
            );
            for i in 0..records.len()
                invariant
                    models == record_models(records@),
                    points@.len() == i + 1,
                    forall|j: int|
                        0 <= j <= i ==> (#[trigger] points@[j])@ == review_point(
                            initial@,
                            models,
                            failure,
                            j,
                        ),
            {
                let record: &'a TickRecord = &records[i];
                let newly_discovered = if i == 0 {
                    discovered_since(&initial.discovered, &record.discovered)
                } else {
                    discovered_since(&records[i - 1].discovered, &record.discovered)
                };
                points.push(
                    ReviewPoint {
                        kind: ReviewPointKind::Tick(record),
                        snapshot: OperationSnapshot::of_record(record),
                        newly_discovered,
                    },
                );
            }
            match error {
                Some(err) => {
                    let last_snapshot = if records.len() == 0 {
                        initial.copy()
                    } else {
                        OperationSnapshot::of_record(&records[records.len() - 1])
                    };
                    points.push(
                        ReviewPoint {
                            kind: ReviewPointKind::TerminalFailure(err),
                            snapshot: last_snapshot,
                            newly_discovered: Vec::new(),
                        },
                    );
                },
                None => {},
            }
        },
    }
    points
}

/// How a finished deployment ended.
#[derive(Debug, Clone, Copy)]
pub enum ConclusionKind<'a> {
    Success,
    BudgetExhausted,
    ControllerError(&'a ControllerError),
}

impl<'a> ConclusionKind<'a> {
    pub open spec fn view(&self) -> ConclusionKindModel {
        match self {
            ConclusionKind::Success => ConclusionKindModel::Success,
            ConclusionKind::BudgetExhausted => ConclusionKindModel::BudgetExhausted,
            ConclusionKind::ControllerError(error) => ConclusionKindModel::ControllerError(error@),
        }
    }
}

/// The account of how a finished deployment ended, with the evidence that the
/// report shows.
#[derive(Debug, Clone, Copy)]
pub struct OperationConclusion<'a> {
    pub kind: ConclusionKind<'a>,
    pub ticks_executed: u32,
    pub tiles_discovered: u32,
    pub hazards_entered: u32,
    pub final_budget: u32,
    pub run_id: u32,
}

impl<'a> OperationConclusion<'a> {
    pub open spec fn view(&self) -> ConclusionModel {
        ConclusionModel {
            kind: self.kind@,
            ticks_executed: self.ticks_executed as int,
            tiles_discovered: self.tiles_discovered as int,
            hazards_entered: self.hazards_entered as int,
            final_budget: self.final_budget as int,
            run_id: self.run_id as int,
        }
    }
}

/// The picture of a conclusion, if there is one.
pub open spec fn conclusion_model(conclusion: Option<OperationConclusion>) -> Option<
    ConclusionModel,
> {
    match conclusion {
        Some(conclusion) => Some(conclusion@),
        None => None,
    }
}

/// A read-only view of the current deployment for rendering.
pub struct OperationView<'a> {
    pub deployed_source: &'a str,
    pub run_id: u32,
    pub records: &'a [TickRecord],
    pub paused: bool,
    pub finished: bool,
    pub error: Option<&'a ControllerError>,
    pub starting_budget: u32,
    /// The most recent state: that of the last completed tick, or the one at
    /// the start.
    pub current: OperationSnapshot,
    /// How the run ended, if it has.
    pub conclusion: Option<OperationConclusion<'a>>,
    /// The chronology for Review Run.
    pub review_points: Vec<ReviewPoint<'a>>,
    /// The selected review point, as an index into `review_points`.
    pub review_selected: Option<usize>,
    /// Which mode the Run Inspector shows.
    pub run_inspector_mode: RunInspectorMode,
    /// The Run Inspector's offset into `deployed_source`.
    pub source_scroll: u16,
}

impl<'a> OperationView<'a> {
    /// Whether this is what there is to show of `session`, in which
    /// `operation` is deployed.
    pub open spec fn shows(&self, session: SessionModel, operation: OperationModel) -> bool {
        &&& self.deployed_source@ == operation.deployed_source
        &&& self.run_id == operation.run_id
        &&& record_models(self.records@) == operation.records
        &&& self.paused == operation.paused
        &&& self.finished == operation.finished()
        &&& borrowed_error_model(self.error) == operation.error
        &&& self.starting_budget == first_contact_model().budget
        &&& self.current@ == operation.current()
        &&& conclusion_model(self.conclusion) == operation.conclusion()
        &&& review_models(self.review_points@) == operation.review_points()
        &&& index_model(self.review_selected) == session.review_selected
        &&& self.run_inspector_mode == session.run_inspector_mode
        &&& self.source_scroll == session.source_scroll
    }
}

/// A deployed controller and what its run has accumulated.
///
/// `live` is `None` only when the source failed to load; `error` then holds
/// that failure. Once `live` is there, `error` stays `None` until a tick
/// fails, which ends the run.
struct Operation {
    live: Option<LiveOperation>,
    /// The exact source that was deployed, whatever the player has typed
    /// since.
    deployed_source: String,
    /// The number of this deployment in the session.
    run_id: u32,
    /// One entry per completed tick, oldest first.
    records: Vec<TickRecord>,
    /// What could be observed before the first tick. It never changes, so
    /// that what was known at deployment can be told from what the first
    /// tick discovered.
    initial_snapshot: Option<OperationSnapshot>,
    paused: bool,
    error: Option<ControllerError>,
}

impl Operation {
    spec fn view(&self) -> OperationModel {
        OperationModel {
            live: match self.live {
                Some(live) => Some(live@),
                None => None,
            },
            deployed_source: self.deployed_source@,
            run_id: self.run_id as int,
            records: record_models(self.records@),
            initial_snapshot: snapshot_model(self.initial_snapshot),
            paused: self.paused,
            error: error_model(self.error),
        }
    }

    /// Whether the run has ended.
    fn is_finished(&self) -> (finished: bool)
        ensures
            finished == self@.finished(),
    {
        if self.error.is_some() {
            return true;
        }
        match &self.live {
            Some(live) => live.is_finished(),
            None => false,
        }
    }

    /// The most recent state.
    fn current(&self) -> (snapshot: OperationSnapshot)
        ensures
            snapshot@ == self@.current(),
    {
        if self.records.len() > 0 {
            return OperationSnapshot::of_record(&self.records[self.records.len() - 1]);
        }
        match &self.initial_snapshot {
            // No tick has completed yet: nothing has changed since deployment.
            Some(initial) => initial.copy(),
            // The deployment failed: nothing was ever observed.
            None => {
                let scenario = Scenario::first_contact();
                OperationSnapshot {
                    drone_position: scenario.drone_start(),
                    map_width: scenario.map().width(),
                    map_height: scenario.map().height(),
                    discovered: Vec::new(),
                    tick: 0,
                    budget_remaining: scenario.starting_budget(),
                }
            },
        }
    }

    /// How the run ended, if it has.
    fn conclusion_kind(&self) -> (kind: Option<ConclusionKind<'_>>)
        ensures
            match kind {
                Some(kind) => self@.conclusion_kind() == Some(kind@),
                None => self@.conclusion_kind() is None,
            },
    {
        if !self.is_finished() {
            return None;
        }
        match &self.error {
            Some(error) => {
                return Some(ConclusionKind::ControllerError(error));
            },
            None => {},
        }
        if self.records.len() == 0 {
            return None;
        }
        match self.records[self.records.len() - 1].outcome {
            TickOutcome::Succeeded => Some(ConclusionKind::Success),
            TickOutcome::Failed(FailureReason::BudgetExhausted) => Some(
                ConclusionKind::BudgetExhausted,
            ),
            TickOutcome::Running => None,
        }
    }

    /// How many hazards were entered.
    fn hazards_entered(&self) -> (count: usize)
        requires
            self@.wf(),
        ensures
            count == hazards_in(self@.records),
            count <= 2 * self@.records.len(),
    {
        reveal(OperationModel::wf);
        let ghost models = self@.records;
        let mut count: usize = 0;
        for i in 0..self.records.len()
            invariant
                self@.wf(),
                models == self@.records,
                count == hazards_in(models.take(i as int)),
                count <= 2 * i,
                models.len() <= 15,
        {
            reveal(OperationModel::wf);
            let events = &self.records[i].events;
            let ghost hazardous = |event: SimEvent| is_hazard(event);
            let ghost before = count;
            let mut entered: usize = 0;
            assert(models[i as int].events == events@);
            for j in 0..events.len()
                invariant
                    hazardous == (|event: SimEvent| is_hazard(event)),
                    entered == events@.take(j as int).filter(hazardous).len(),
                    entered <= j,
                    events@.len() <= 2,
            {
                proof {
                    reveal(Seq::filter);
                    assert(events@.take(j + 1).drop_last() =~= events@.take(j as int));
                    assert(events@.take(j + 1).last() == events@[j as int]);
                }
                match events[j] {
                    SimEvent::HazardEntered { .. } => {
                        entered = entered + 1;
                    },
                    _ => {},
                }
            }
            count = count + entered;
            assert(events@.take(events@.len() as int) =~= events@);
            assert(models.take(i + 1).drop_last() =~= models.take(i as int));
            assert(models.take(i + 1).last() == models[i as int]);
        }
        assert(models.take(models.len() as int) =~= models);
        count
    }

    /// The account of how the run ended, if it has.
    fn conclusion(&self) -> (conclusion: Option<OperationConclusion<'_>>)
        requires
            self@.wf(),
        ensures
            conclusion_model(conclusion) == self@.conclusion(),
    {
        match self.conclusion_kind() {
            None => None,
            Some(kind) => {
                let current = self.current();
                proof {
                    lemma_operation_bounds(self@);
                }
                Some(
                    OperationConclusion {
                        kind,
                        ticks_executed: self.records.len() as u32,
                        tiles_discovered: current.discovered.len() as u32,
                        hazards_entered: self.hazards_entered() as u32,
                        final_budget: current.budget_remaining,
                        run_id: self.run_id,
                    },
                )
            },
        }
    }

    /// Carries out one more tick, with the controller's reply.
    fn step(&mut self, reply: Result<String, ControllerError>)
        requires
            old(self)@.live is Some,
            (old(self)@.live->0).wf(),
            (old(self)@.live->0).outcome is Running,
        ensures
            final(self)@ == old(self)@.stepped(reply_model(reply)),
    {
        match &mut self.live {
            Some(live) => match live.step(reply) {
                Ok(record) => {
                    self.records.push(record);
                    assert(self@.records =~= old(self)@.records.push(record@));
                },
                Err(error) => {
                    self.error = Some(error);
                },
            },
            None => {},
        }
    }

    /// Whether the last completed tick reached the uplink.
    fn succeeded(&self) -> (succeeded: bool)
        ensures
            succeeded == (self@.records.len() > 0 && self@.records.last().outcome
                == TickOutcome::Succeeded),
    {
        if self.records.len() == 0 {
            return false;
        }
        match self.records[self.records.len() - 1].outcome {
            TickOutcome::Succeeded => true,
            _ => false,
        }
    }

    /// How many review points the chronology has.
    fn review_len(&self) -> (len: usize)
        ensures
            len == self@.review_points().len(),
    {
        let points = review_points(&self.initial_snapshot, &self.records, self.error.as_ref());
        assert(review_models(points@).len() == points@.len());
        points.len()
    }
}

/// A run has at most as many ticks as its budget, and discovers at most as
/// many tiles as the map has.
proof fn lemma_operation_bounds(operation: OperationModel)
    requires
        operation.wf(),
    ensures
        operation.records.len() <= 15,
        operation.current().discovered.len() <= 25,
{
    reveal(OperationModel::wf);
    match operation.live {
        Some(live) => {
            law_discoveries_fit_the_map(live.scenario, live.discovered);
            assert(live.scenario.width * live.scenario.height == 25);
        },
        None => {},
    }
}

/// Work that only the host can do.
#[derive(Debug, Clone, PartialEq, Eq)]
pub enum Request {
    /// Check whether the source can be loaded and defines `on_tick`; answered
    /// by [`AppState::validated`].
    Validate(String),
    /// Load the source for a new run; answered by [`AppState::deployed`].
    Deploy(String),
    /// Call the run's `on_tick` with the observation; answered by
    /// [`AppState::stepped`].
    Step(Observation),
}

impl Request {
    pub open spec fn view(&self) -> RequestModel {
        match self {
            Request::Validate(source) => RequestModel::Validate(source@),
            Request::Deploy(source) => RequestModel::Deploy(source@),
            Request::Step(observation) => RequestModel::Step(observation@),
        }
    }
}

/// The picture of a request, if there is one.
pub open spec fn request_model(request: Option<Request>) -> Option<RequestModel> {
    match request {
        Some(request) => Some(request@),
        None => None,
    }
}

/// The synchronization steps that Network Bootstrap reveals, one at a time.
pub open spec fn bootstrap_steps() -> Seq<&'static str> {
    seq![
        "uplink established",
        "peer network reachable",
        "syncing console package index",
        "verifying module signatures",
        "syncing operator keys (signed: slaptijack@)",
        "subscribing to shared intel feed",
        "network services online",
    ]
}

/// The synchronization steps that Network Bootstrap reveals, one at a time.
pub fn network_bootstrap_steps() -> (steps: &'static [&'static str])
    ensures
        steps@ == bootstrap_steps(),
        steps@.len() == NETWORK_BOOTSTRAP_STEP_COUNT,
{
    &[
        "uplink established",
        "peer network reachable",
        "syncing console package index",
        "verifying module signatures",
        "syncing operator keys (signed: slaptijack@)",
        "subscribing to shared intel feed",
        "network services online",
    ]
}

/// The console's full session state.
pub struct AppState {
    current_view: View,
    help_return_view: Option<View>,
    working_set: Option<WorkingSet>,
    /// Index into the visible signals.
    selected_signal: usize,
    /// Whether the player has inspected the actionable signal, which makes
    /// Target reachable even before the opportunity is worked.
    target_known: bool,
    /// The controller, from the moment that the opportunity is worked.
    controller: Option<ControllerDocument>,
    /// The result of the most recent validation of the present source.
    validation: Validation,
    reset_confirmation_pending: bool,
    quit_confirmation_pending: bool,
    /// The current deployment. It stays after the player navigates away or
    /// the run ends, until another deployment replaces it.
    operation: Option<Operation>,
    /// The number of the next deployment.
    next_run_id: u32,
    redeploy_confirmation_pending: bool,
    help_scroll: u16,
    report_scroll: u16,
    focus: FocusedPanes,
    /// Index into the current operation's review points. Set when a run ends
    /// and moved by the player only.
    review_selected: Option<usize>,
    run_inspector_mode: RunInspectorMode,
    source_scroll: u16,
    should_quit: bool,
    /// Whether the player has ever succeeded at First Contact. Never
    /// reverted.
    connected: bool,
    /// Whether Network Bootstrap is playing, which it does once, right after
    /// the success that connects the player.
    network_bootstrap_pending: bool,
    /// How many ticks of Network Bootstrap have passed.
    network_bootstrap_step: usize,
    /// Whether the first-launch introduction is showing.
    bootstrap_intro_visible: bool,
}

impl Default for AppState {
    fn default() -> (state: Self)
        ensures
            state@ == SessionModel::initial(),
            state.wf(),
    {
        reveal(AppState::view);
        reveal(SessionModel::wf);
        proof {
            lemma_visible(false);
        }
        AppState {
            current_view: View::Signals,
            help_return_view: None,
            working_set: None,
            selected_signal: 0,
            target_known: false,
            controller: None,
            validation: Validation::Unchecked,
            reset_confirmation_pending: false,
            quit_confirmation_pending: false,
            operation: None,
            next_run_id: 1,
            redeploy_confirmation_pending: false,
            help_scroll: 0,
            report_scroll: 0,
            focus: FocusedPanes {
                signals: PaneId::SignalsList,
                target: PaneId::TargetIntelligence,
                controller: PaneId::ControllerSource,
                operation: PaneId::Satellite,
                after_action: PaneId::Report,
            },
            review_selected: None,
            run_inspector_mode: RunInspectorMode::Timeline,
            source_scroll: 0,
            should_quit: false,
            connected: false,
            network_bootstrap_pending: false,
            network_bootstrap_step: 0,
            bootstrap_intro_visible: false,
        }
    }
}

/// The focused pane of a view is one of the view's own panes.
pub proof fn law_focus_belongs_to_view(focus: FocusedPanes, view: View)
    requires
        focus.wf(),
    ensures
        panes_of(view).contains(focus.of(view)),
{
    let panes = panes_of(view);
    assert(panes[0] == focus.of(view) || panes[1] == focus.of(view));
}

/// A page of at least one row.
fn at_least_one(page: usize) -> (rows: usize)
    ensures
        rows == page_rows(page),
{
    if page < 1 {
        1
    } else {
        page
    }
}

impl AppState {
    #[verifier::opaque]
    pub closed spec fn view(&self) -> SessionModel {
        SessionModel {
            current_view: self.current_view,
            help_return_view: self.help_return_view,
            working_set: self.working_set,
            selected_signal: self.selected_signal as int,
            target_known: self.target_known,
            controller: match self.controller {
                Some(document) => Some(document@),
                None => None,
            },
            validation: self.validation@,
            reset_confirmation_pending: self.reset_confirmation_pending,
            quit_confirmation_pending: self.quit_confirmation_pending,
            operation: match self.operation {
                Some(operation) => Some(operation@),
                None => None,
            },
            next_run_id: self.next_run_id as int,
            redeploy_confirmation_pending: self.redeploy_confirmation_pending,
            help_scroll: self.help_scroll as int,
            report_scroll: self.report_scroll as int,
            focus: self.focus,
            review_selected: index_model(self.review_selected),
            run_inspector_mode: self.run_inspector_mode,
            source_scroll: self.source_scroll as int,
            should_quit: self.should_quit,
            connected: self.connected,
            network_bootstrap_pending: self.network_bootstrap_pending,
            network_bootstrap_step: self.network_bootstrap_step as int,
            bootstrap_intro_visible: self.bootstrap_intro_visible,
        }
    }

    /// What holds of every session: see `SessionModel::wf`.
    pub open spec fn wf(&self) -> bool {
        self@.wf()
    }

    /// A session that has just begun.
    pub fn new() -> (state: Self)
        ensures
            state@ == SessionModel::initial(),
            state.wf(),
    {
        reveal(SessionModel::wf);
        Self::default()
    }

    /// Whether the player has established operator-network connectivity.
    pub fn connected(&self) -> (connected: bool)
        ensures
            connected == self@.connected,
    {
        reveal(AppState::view);
        self.connected
    }

    /// Whether the console presents itself as connected: only once Network
    /// Bootstrap is over.
    pub fn presentation_connected(&self) -> (connected: bool)
        ensures
            connected == (self@.connected && !self@.network_bootstrap_pending),
    {
        reveal(AppState::view);
        self.connected && !self.network_bootstrap_pending
    }

    /// Seeds the connectivity from what was stored durably. Never used to
    /// take the connection away.
    pub fn set_connected(&mut self, connected: bool)
        requires
            old(self).wf(),
            connected || !old(self)@.connected,
        ensures
            final(self)@ == (SessionModel { connected, ..old(self)@ }),
            final(self).wf(),
    {
        reveal(AppState::view);
        reveal(SessionModel::wf);
        proof {
            lemma_visible(false);
            lemma_visible(true);
        }
        self.connected = connected;
    }

    /// Whether Network Bootstrap is playing.
    pub fn network_bootstrap_pending(&self) -> (pending: bool)
        ensures
            pending == self@.network_bootstrap_pending,
    {
        reveal(AppState::view);
        self.network_bootstrap_pending
    }

    /// Whether Network Bootstrap advances with the timer, which it does for
    /// as long as it plays.
    pub fn network_bootstrap_auto_advancing(&self) -> (advancing: bool)
        ensures
            advancing == self@.network_bootstrap_pending,
    {
        reveal(AppState::view);
        self.network_bootstrap_pending
    }

    /// Advances Network Bootstrap by one tick, if it is playing, and tells
    /// whether anything changed.
    pub fn advance_network_bootstrap(&mut self) -> (changed: bool)
        requires
            old(self).wf(),
        ensures
            final(self)@ == old(self)@.bootstrapped(),
            final(self).wf(),
            changed == old(self)@.network_bootstrap_pending,
    {
        reveal(AppState::view);
        reveal(SessionModel::wf);
        if !self.network_bootstrap_auto_advancing() {
            return false;
        }
        let total_ticks = network_bootstrap_steps().len() + NETWORK_BOOTSTRAP_LINGER_TICKS;
        if self.network_bootstrap_step < total_ticks {
            self.network_bootstrap_step = self.network_bootstrap_step + 1;
        } else {
            self.network_bootstrap_pending = false;
        }
        true
    }

    /// The Network Bootstrap steps revealed so far, oldest first.
    pub fn network_bootstrap_steps_shown(&self) -> (steps: &'static [&'static str])
        requires
            self.wf(),
        ensures
            steps@ == bootstrap_steps().take(
                if self@.network_bootstrap_step < NETWORK_BOOTSTRAP_STEP_COUNT {
                    self@.network_bootstrap_step
                } else {
                    NETWORK_BOOTSTRAP_STEP_COUNT as int
                },
            ),
    {
        reveal(AppState::view);
        reveal(SessionModel::wf);
        let steps = network_bootstrap_steps();
        let shown = if self.network_bootstrap_step < steps.len() {
            self.network_bootstrap_step
        } else {
            steps.len()
        };
        steps.split_at(shown).0
    }

    /// How many steps are revealed, and how many there are.
    pub fn network_bootstrap_progress(&self) -> (progress: (usize, usize))
        requires
            self.wf(),
        ensures
            progress.0 == (if self@.network_bootstrap_step < NETWORK_BOOTSTRAP_STEP_COUNT {
                self@.network_bootstrap_step
            } else {
                NETWORK_BOOTSTRAP_STEP_COUNT as int
            }),
            progress.1 == NETWORK_BOOTSTRAP_STEP_COUNT,
    {
        reveal(AppState::view);
        reveal(SessionModel::wf);
        let total = network_bootstrap_steps().len();
        let revealed = if self.network_bootstrap_step < total {
            self.network_bootstrap_step
        } else {
            total
        };
        (revealed, total)
    }

    /// Whether the first-launch introduction is showing.
    pub fn bootstrap_intro_visible(&self) -> (visible: bool)
        ensures
            visible == self@.bootstrap_intro_visible,
    {
        reveal(AppState::view);
        self.bootstrap_intro_visible
    }

    /// Seeds whether the first-launch introduction shows.
    pub fn set_bootstrap_intro_visible(&mut self, visible: bool)
        requires
            old(self).wf(),
        ensures
            final(self)@ == (SessionModel { bootstrap_intro_visible: visible, ..old(self)@ }),
            final(self).wf(),
    {
        reveal(AppState::view);
        reveal(SessionModel::wf);
        self.bootstrap_intro_visible = visible;
    }

    /// The view that is showing.
    pub fn current_view(&self) -> (view: View)
        ensures
            view == self@.current_view,
    {
        reveal(AppState::view);
        self.current_view
    }

    /// The view that Help was opened from, if Help is showing.
    pub fn help_return_view(&self) -> (view: Option<View>)
        ensures
            view == self@.help_opened_from(),
    {
        reveal(AppState::view);
        if self.current_view == View::Help {
            self.help_return_view
        } else {
            None
        }
    }

    /// The opportunity being worked.
    pub fn working_set(&self) -> (working_set: Option<WorkingSet>)
        ensures
            working_set == self@.working_set,
    {
        reveal(AppState::view);
        self.working_set
    }

    /// The selected signal, as an index into the visible ones.
    pub fn selected_signal(&self) -> (selected: usize)
        ensures
            selected == self@.selected_signal,
    {
        reveal(AppState::view);
        self.selected_signal
    }

    /// The working source, if there is a controller.
    pub fn controller_source(&self) -> (source: Option<String>)
        ensures
            match source {
                Some(source) => self@.source() == Some(source@),
                None => self@.source() is None,
            },
    {
        reveal(AppState::view);
        match &self.controller {
            Some(controller) => Some(controller.source()),
            None => None,
        }
    }

    /// The controller document, if there is one.
    pub fn controller(&self) -> (controller: Option<&ControllerDocument>)
        ensures
            match controller {
                Some(controller) => self@.controller == Some(controller@),
                None => self@.controller is None,
            },
    {
        reveal(AppState::view);
        self.controller.as_ref()
    }

    /// The controller's widget, with its offsets moved so that the cursor is
    /// visible in an area of the given size, to be drawn there.
    pub fn render_controller(&mut self, width: u16, height: u16) -> (editor: Option<&Editor>)
        requires
            old(self).wf(),
        ensures
            final(self).wf(),
            final(self)@ == old(self)@,
            match editor {
                Some(editor) => {
                    &&& old(self)@.controller is Some
                    &&& (old(self)@.controller->0).drawn_by(*editor, width as int, height as int)
                },
                None => old(self)@.controller is None,
            },
    {
        reveal(AppState::view);
        reveal(SessionModel::wf);
        match &mut self.controller {
            Some(controller) => Some(controller.sync_for_render(width, height)),
            None => None,
        }
    }

    /// Whether the source differs from the starter controller.
    pub fn controller_modified(&self) -> (modified: bool)
        ensures
            modified == self@.modified(),
    {
        reveal(AppState::view);
        match self.controller_source() {
            Some(source) => !same_text(source.as_str(), STARTER_CONTROLLER),
            None => false,
        }
    }

    /// The result of the most recent validation.
    pub fn validation(&self) -> (validation: &Validation)
        ensures
            validation@ == self@.validation,
    {
        reveal(AppState::view);
        &self.validation
    }

    /// Whether a reset waits to be confirmed.
    pub fn reset_confirmation_pending(&self) -> (pending: bool)
        ensures
            pending == self@.reset_confirmation_pending,
    {
        reveal(AppState::view);
        self.reset_confirmation_pending
    }

    /// Whether quitting waits to be confirmed.
    pub fn quit_confirmation_pending(&self) -> (pending: bool)
        ensures
            pending == self@.quit_confirmation_pending,
    {
        reveal(AppState::view);
        self.quit_confirmation_pending
    }

    /// Whether a redeployment waits to be confirmed.
    pub fn redeploy_confirmation_pending(&self) -> (pending: bool)
        ensures
            pending == self@.redeploy_confirmation_pending,
    {
        reveal(AppState::view);
        self.redeploy_confirmation_pending
    }

    /// The selected review point.
    pub fn review_selected(&self) -> (selected: Option<usize>)
        ensures
            index_model(selected) == self@.review_selected,
    {
        reveal(AppState::view);
        self.review_selected
    }

    /// The number of the next deployment.
    pub fn next_run_id(&self) -> (run_id: u32)
        ensures
            run_id == self@.next_run_id,
    {
        reveal(AppState::view);
        self.next_run_id
    }

    /// A read-only view of the current deployment, if there is one.
    pub fn operation(&self) -> (operation: Option<OperationView<'_>>)
        requires
            self.wf(),
        ensures
            match operation {
                Some(operation) => self@.operation is Some && operation.shows(
                    self@,
                    self@.operation->0,
                ),
                None => self@.operation is None,
            },
    {
        reveal(AppState::view);
        reveal(SessionModel::wf);
        match &self.operation {
            None => None,
            Some(op) => {
                let review_points = review_points(
                    &op.initial_snapshot,
                    &op.records,
                    op.error.as_ref(),
                );
                assert(review_models(review_points@).len() == review_points@.len());
                let review_selected = match self.review_selected {
                    Some(i) => if i < review_points.len() {
                        Some(i)
                    } else {
                        None
                    },
                    None => None,
                };
                Some(
                    OperationView {
                        deployed_source: op.deployed_source.as_str(),
                        run_id: op.run_id,
                        records: &op.records,
                        paused: op.paused,
                        finished: op.is_finished(),
                        error: op.error.as_ref(),
                        starting_budget: Scenario::first_contact().starting_budget(),
                        current: op.current(),
                        conclusion: op.conclusion(),
                        review_points,
                        review_selected,
                        run_inspector_mode: self.run_inspector_mode,
                        source_scroll: self.source_scroll,
                    },
                )
            },
        }
    }

    /// Whether there is a run that has not ended, which a redeployment or
    /// quitting would abandon.
    fn operation_active(&self) -> (active: bool)
        ensures
            active == self@.active(),
    {
        reveal(AppState::view);
        match &self.operation {
            Some(op) => !op.is_finished(),
            None => false,
        }
    }

    /// The length of the chronology, if there is one to navigate: the run has
    /// ended, and had started.
    fn review_chronology_len(&self) -> (len: Option<usize>)
        ensures
            index_model(len) == self@.reviewable(),
            len matches Some(len) ==> len > 0,
    {
        reveal(AppState::view);
        match &self.operation {
            Some(op) => {
                if !op.is_finished() {
                    return None;
                }
                let len = op.review_len();
                if len > 0 {
                    Some(len)
                } else {
                    None
                }
            },
            None => None,
        }
    }

    /// Whether the Run Inspector can be used: a run has ended, whether or not
    /// there is anything to review.
    fn run_inspector_available(&self) -> (available: bool)
        ensures
            available == self@.concluded(),
    {
        reveal(AppState::view);
        match &self.operation {
            Some(op) => op.is_finished(),
            None => false,
        }
    }

    /// Whether the run advances with the timer: it is being watched, and is
    /// neither paused nor over.
    pub fn operation_auto_advancing(&self) -> (advancing: bool)
        ensures
            advancing == self@.advancing(),
    {
        reveal(AppState::view);
        if self.current_view != View::Operation {
            return false;
        }
        match &self.operation {
            Some(op) => !op.paused && !op.is_finished(),
            None => false,
        }
    }

    /// What the timer asks of the host: the next tick, if the run advances on
    /// its own.
    pub fn advance_running_operation(&self) -> (request: Option<Request>)
        requires
            self.wf(),
        ensures
            request_model(request) == if self@.advancing() {
                Some(self@.next_tick())
            } else {
                None
            },
    {
        reveal(AppState::view);
        reveal(SessionModel::wf);
        if !self.operation_auto_advancing() {
            return None;
        }
        self.request_step()
    }

    /// The request for the next tick, if there is an active run.
    fn request_step(&self) -> (request: Option<Request>)
        requires
            self.wf(),
        ensures
            request_model(request) == if self@.active() {
                Some(self@.next_tick())
            } else {
                None
            },
    {
        reveal(AppState::view);
        reveal(SessionModel::wf);
        if !self.operation_active() {
            return None;
        }
        reveal(OperationModel::wf);
        match &self.operation {
            Some(op) => match &op.live {
                Some(live) => Some(Request::Step(live.observe())),
                None => None,
            },
            None => None,
        }
    }

    /// The scroll offset of a pane; a pane that cannot be scrolled is at its
    /// top.
    pub fn scroll_offset(&self, pane: PaneId) -> (offset: u16)
        ensures
            offset == self@.scroll(pane),
    {
        reveal(AppState::view);
        match pane {
            PaneId::Help => self.help_scroll,
            PaneId::Report => self.report_scroll,
            _ => 0,
        }
    }

    /// Bounds a pane's stored offset, so that scrolling back takes effect at
    /// once.
    pub fn clamp_scroll(&mut self, pane: PaneId, max: u16)
        requires
            old(self).wf(),
        ensures
            final(self).wf(),
            final(self)@ == old(self)@.pane_clamped(pane, max as int),
    {
        reveal(AppState::view);
        reveal(SessionModel::wf);
        match pane {
            PaneId::Help => if self.help_scroll > max {
                self.help_scroll = max;
            },
            PaneId::Report => if self.report_scroll > max {
                self.report_scroll = max;
            },
            _ => {},
        }
    }

    /// Which mode the Run Inspector shows.
    pub fn run_inspector_mode(&self) -> (mode: RunInspectorMode)
        ensures
            mode == self@.run_inspector_mode,
    {
        reveal(AppState::view);
        self.run_inspector_mode
    }

    /// The Run Inspector's offset into the deployed source.
    pub fn source_scroll(&self) -> (offset: u16)
        ensures
            offset == self@.source_scroll,
    {
        reveal(AppState::view);
        self.source_scroll
    }

    /// Bounds the stored offset into the deployed source.
    pub fn clamp_source_scroll(&mut self, max: u16)
        requires
            old(self).wf(),
        ensures
            final(self).wf(),
            final(self)@ == old(self)@.source_clamped(max as int),
    {
        reveal(AppState::view);
        reveal(SessionModel::wf);
        if self.source_scroll > max {
            self.source_scroll = max;
        }
    }

    /// The focused pane of a view.
    pub fn focused_pane(&self, view: View) -> (pane: PaneId)
        ensures
            pane == self@.focus.of(view),
    {
        reveal(AppState::view);
        match view {
            View::Help => PaneId::Help,
            View::Signals => self.focus.signals,
            View::Target => self.focus.target,
            View::Controller => self.focus.controller,
            View::Operation => self.focus.operation,
            View::AfterAction => self.focus.after_action,
        }
    }

    /// Moves the focus of a view to one of its own panes. The only place
    /// where a focus is written.
    pub fn set_focused_pane(&mut self, view: View, pane: PaneId)
        requires
            old(self).wf(),
            panes_of(view).contains(pane),
        ensures
            final(self).wf(),
            final(self)@ == (SessionModel {
                focus: old(self)@.focus.with(view, pane),
                ..old(self)@
            }),
    {
        reveal(AppState::view);
        reveal(SessionModel::wf);
        match view {
            View::Help => {},
            View::Signals => {
                self.focus.signals = pane;
            },
            View::Target => {
                self.focus.target = pane;
            },
            View::Controller => {
                self.focus.controller = pane;
            },
            View::Operation => {
                self.focus.operation = pane;
            },
            View::AfterAction => {
                self.focus.after_action = pane;
            },
        }
    }

    /// Whether `view` offers a choice between panes right now.
    pub fn focus_movement_available(&self, view: View) -> (available: bool)
        ensures
            available == self@.focus_movable(view),
    {
        reveal(AppState::view);
        if self.quit_confirmation_pending || self.reset_confirmation_pending
            || self.redeploy_confirmation_pending {
            return false;
        }
        match view {
            View::Help => false,
            View::Operation | View::AfterAction => self.operation.is_some(),
            View::Signals | View::Target | View::Controller => true,
        }
    }

    /// Whether the session is over.
    pub fn should_quit(&self) -> (quit: bool)
        ensures
            quit == self@.should_quit,
    {
        reveal(AppState::view);
        self.should_quit
    }

    /// Whether `view` can be reached, given what the player has inspected or
    /// committed to.
    pub fn view_available(&self, view: View) -> (available: bool)
        ensures
            available == self@.reachable(view),
    {
        reveal(AppState::view);
        match view {
            View::Signals | View::AfterAction | View::Help => true,
            View::Target => self.target_known || self.working_set.is_some(),
            View::Controller | View::Operation => self.working_set.is_some(),
        }
    }

    /// Applies one player intent. Where it needs work that only the host can
    /// do, that work is returned, and its outcome comes back through
    /// [`AppState::validated`], [`AppState::deployed`] or
    /// [`AppState::stepped`].
    pub fn apply(&mut self, msg: Msg) -> (request: Option<Request>)
        requires
            old(self).wf(),
        ensures
            final(self).wf(),
            final(self)@ == old(self)@.after(msg),
            request_model(request) == old(self)@.request(msg),
    {
        match msg {
            Msg::Navigate(_)
            | Msg::OpenHelp
            | Msg::DismissHelp
            | Msg::AcknowledgeBootstrapIntro
            | Msg::Activate
            | Msg::FocusNextPane => self.apply_navigation(msg),
            Msg::SelectPreviousSignal
            | Msg::SelectNextSignal
            | Msg::SelectFirstSignal
            | Msg::SelectLastSignal
            | Msg::SelectSignalPageBackward(_)
            | Msg::SelectSignalPageForward(_) => self.apply_signals(msg),
            Msg::ScrollUp
            | Msg::ScrollDown
            | Msg::ScrollPageBackward(_)
            | Msg::ScrollPageForward(_)
            | Msg::JumpScrollStart
            | Msg::JumpScrollEnd => self.apply_scroll(msg),
            Msg::SelectPreviousReviewPoint
            | Msg::SelectNextReviewPoint
            | Msg::SelectFirstReviewPoint
            | Msg::SelectLastReviewPoint
            | Msg::SelectReviewPointPageBackward(_)
            | Msg::SelectReviewPointPageForward(_) => self.apply_review(msg),
            Msg::ToggleRunInspectorMode
            | Msg::ScrollSourceUp
            | Msg::ScrollSourceDown
            | Msg::ScrollSourcePageBackward(_)
            | Msg::ScrollSourcePageForward(_)
            | Msg::JumpSourceStart
            | Msg::JumpSourceEnd => self.apply_source_scroll(msg),
            Msg::EditController(_)
            | Msg::PasteController(_)
            | Msg::ValidateController
            | Msg::RequestResetController
            | Msg::ConfirmResetController
            | Msg::CancelResetController => self.apply_controller(msg),
            Msg::RequestQuit
            | Msg::ConfirmQuit
            | Msg::CancelQuit => self.apply_quit(msg),
            Msg::RequestDeploy
            | Msg::ConfirmDeploy
            | Msg::CancelDeploy
            | Msg::TogglePauseOperation
            | Msg::StepOperationTick => self.apply_run(msg),
        }
    }

    /// Intents that move between views and panes.
    fn apply_navigation(&mut self, msg: Msg) -> (request: Option<Request>)
        requires
            old(self).wf(),
            msg is Navigate || msg is OpenHelp || msg is DismissHelp || msg is AcknowledgeBootstrapIntro || msg is Activate || msg is FocusNextPane,
        ensures
            final(self).wf(),
            final(self)@ == old(self)@.after(msg),
            request_model(request) == old(self)@.request(msg),
    {
        reveal(SessionModel::after_navigation);
        reveal(SessionModel::request);
        match msg {
            Msg::Navigate(view) => self.navigate(view),
            Msg::OpenHelp => self.open_help(),
            Msg::DismissHelp => self.dismiss_help(),
            Msg::AcknowledgeBootstrapIntro => self.set_bootstrap_intro_visible(false),
            Msg::Activate => self.activate(),
            Msg::FocusNextPane => self.focus_next_pane(),
            _ => {},
        }
        None
    }

    /// Intents that select a signal.
    fn apply_signals(&mut self, msg: Msg) -> (request: Option<Request>)
        requires
            old(self).wf(),
            msg is SelectPreviousSignal || msg is SelectNextSignal || msg is SelectFirstSignal || msg is SelectLastSignal || msg is SelectSignalPageBackward || msg is SelectSignalPageForward,
        ensures
            final(self).wf(),
            final(self)@ == old(self)@.after(msg),
            request_model(request) == old(self)@.request(msg),
    {
        reveal(SessionModel::after_signals);
        reveal(SessionModel::request);
        match msg {
            Msg::SelectPreviousSignal => self.select_signal_back(1),
            Msg::SelectNextSignal => self.select_signal_ahead(1),
            Msg::SelectFirstSignal => self.select_first_signal(),
            Msg::SelectLastSignal => self.select_last_signal(),
            Msg::SelectSignalPageBackward(page) => self.select_signal_back(at_least_one(page)),
            Msg::SelectSignalPageForward(page) => self.select_signal_ahead(at_least_one(page)),
            _ => {},
        }
        None
    }

    /// Intents that scroll the focused pane.
    fn apply_scroll(&mut self, msg: Msg) -> (request: Option<Request>)
        requires
            old(self).wf(),
            msg is ScrollUp || msg is ScrollDown || msg is ScrollPageBackward || msg is ScrollPageForward || msg is JumpScrollStart || msg is JumpScrollEnd,
        ensures
            final(self).wf(),
            final(self)@ == old(self)@.after(msg),
            request_model(request) == old(self)@.request(msg),
    {
        reveal(SessionModel::after_scroll);
        reveal(SessionModel::request);
        match msg {
            Msg::ScrollUp => self.scroll_back(1),
            Msg::ScrollDown => self.scroll_ahead(1),
            Msg::ScrollPageBackward(page) => self.scroll_back(at_least_one(page)),
            Msg::ScrollPageForward(page) => self.scroll_ahead(at_least_one(page)),
            Msg::JumpScrollStart => self.set_focused_scroll(0),
            Msg::JumpScrollEnd => self.set_focused_scroll(MAX_PANE_SCROLL),
            _ => {},
        }
        None
    }

    /// Intents that move through the chronology of a finished run.
    fn apply_review(&mut self, msg: Msg) -> (request: Option<Request>)
        requires
            old(self).wf(),
            msg is SelectPreviousReviewPoint || msg is SelectNextReviewPoint || msg is SelectFirstReviewPoint || msg is SelectLastReviewPoint || msg is SelectReviewPointPageBackward || msg is SelectReviewPointPageForward,
        ensures
            final(self).wf(),
            final(self)@ == old(self)@.after(msg),
            request_model(request) == old(self)@.request(msg),
    {
        reveal(SessionModel::after_review);
        reveal(SessionModel::request);
        match msg {
            Msg::SelectPreviousReviewPoint => self.review_back(1),
            Msg::SelectNextReviewPoint => self.review_ahead(1),
            Msg::SelectFirstReviewPoint => self.review_first(),
            Msg::SelectLastReviewPoint => self.review_last(),
            Msg::SelectReviewPointPageBackward(page) => self.review_back(at_least_one(page)),
            Msg::SelectReviewPointPageForward(page) => self.review_ahead(at_least_one(page)),
            _ => {},
        }
        None
    }

    /// Intents that inspect the deployed source of a finished run.
    fn apply_source_scroll(&mut self, msg: Msg) -> (request: Option<Request>)
        requires
            old(self).wf(),
            msg is ToggleRunInspectorMode || msg is ScrollSourceUp || msg is ScrollSourceDown || msg is ScrollSourcePageBackward || msg is ScrollSourcePageForward || msg is JumpSourceStart || msg is JumpSourceEnd,
        ensures
            final(self).wf(),
            final(self)@ == old(self)@.after(msg),
            request_model(request) == old(self)@.request(msg),
    {
        reveal(SessionModel::after_source_scroll);
        reveal(SessionModel::request);
        match msg {
            Msg::ToggleRunInspectorMode => self.toggle_run_inspector_mode(),
            Msg::ScrollSourceUp => self.scroll_source_back(1),
            Msg::ScrollSourceDown => self.scroll_source_ahead(1),
            Msg::ScrollSourcePageBackward(page) => self.scroll_source_back(at_least_one(page)),
            Msg::ScrollSourcePageForward(page) => self.scroll_source_ahead(at_least_one(page)),
            Msg::JumpSourceStart => self.set_source_scroll(0),
            // Past any end: the frame's own bound is applied afterwards.
            Msg::JumpSourceEnd => self.set_source_scroll(u16::MAX),
            _ => {},
        }
        None
    }

    /// Intents that work on the controller.
    fn apply_controller(&mut self, msg: Msg) -> (request: Option<Request>)
        requires
            old(self).wf(),
            msg is EditController || msg is PasteController || msg is ValidateController || msg is RequestResetController || msg is ConfirmResetController || msg is CancelResetController,
        ensures
            final(self).wf(),
            final(self)@ == old(self)@.after(msg),
            request_model(request) == old(self)@.request(msg),
    {
        reveal(SessionModel::after_controller);
        reveal(SessionModel::request);
        match msg {
            Msg::EditController(op) => self.edit_controller(op),
            Msg::PasteController(text) => self.paste_controller(text.as_str()),
            Msg::ValidateController => {
                return self.request_validation();
            },
            Msg::RequestResetController => {
                if self.controller_modified() {
                    self.set_reset_pending(true);
                } else {
                    self.reset_controller();
                }
            },
            Msg::ConfirmResetController => {
                self.reset_controller();
                self.set_reset_pending(false);
            },
            Msg::CancelResetController => self.set_reset_pending(false),
            _ => {},
        }
        None
    }

    /// Intents that end the session.
    fn apply_quit(&mut self, msg: Msg) -> (request: Option<Request>)
        requires
            old(self).wf(),
            msg is RequestQuit || msg is ConfirmQuit || msg is CancelQuit,
        ensures
            final(self).wf(),
            final(self)@ == old(self)@.after(msg),
            request_model(request) == old(self)@.request(msg),
    {
        reveal(SessionModel::after_quit);
        reveal(SessionModel::request);
        match msg {
            Msg::RequestQuit => {
                if self.controller_modified() || self.operation_active() {
                    self.set_quit_pending(true);
                } else {
                    self.quit();
                }
            },
            Msg::ConfirmQuit => self.quit(),
            Msg::CancelQuit => self.set_quit_pending(false),
            _ => {},
        }
        None
    }

    /// Intents that deploy a controller, or pace its run.
    fn apply_run(&mut self, msg: Msg) -> (request: Option<Request>)
        requires
            old(self).wf(),
            msg is RequestDeploy || msg is ConfirmDeploy || msg is CancelDeploy || msg is TogglePauseOperation || msg is StepOperationTick,
        ensures
            final(self).wf(),
            final(self)@ == old(self)@.after(msg),
            request_model(request) == old(self)@.request(msg),
    {
        reveal(SessionModel::after_run);
        reveal(SessionModel::request);
        match msg {
            Msg::RequestDeploy => {
                if !self.operation_active() {
                    return self.request_deploy();
                }
                if self.has_controller() {
                    self.ask_to_redeploy();
                }
            },
            Msg::ConfirmDeploy => {
                self.dismiss_redeploy();
                return self.request_deploy();
            },
            Msg::CancelDeploy => self.dismiss_redeploy(),
            Msg::TogglePauseOperation => self.toggle_pause(),
            // A running run advances with the timer: stepping it too would
            // skip what the player is watching.
            Msg::StepOperationTick => {
                if self.operation_paused() {
                    return self.request_step();
                }
            },
            _ => {},
        }
        None
    }

    /// The request to check the working source, if there is a controller.
    fn request_validation(&self) -> (request: Option<Request>)
        ensures
            request_model(request) == match self@.source() {
                Some(source) => Some(RequestModel::Validate(source)),
                None => None,
            },
    {
        reveal(AppState::view);
        match self.controller_source() {
            Some(source) => Some(Request::Validate(source)),
            None => None,
        }
    }

    fn has_controller(&self) -> (loaded: bool)
        ensures
            loaded == (self@.controller is Some),
    {
        reveal(AppState::view);
        self.controller.is_some()
    }

    /// Whether there is a deployment that is paused.
    fn operation_paused(&self) -> (paused: bool)
        ensures
            paused == (self@.operation is Some && (self@.operation->0).paused),
    {
        reveal(AppState::view);
        match &self.operation {
            Some(op) => op.paused,
            None => false,
        }
    }

    fn open_help(&mut self)
        requires
            old(self).wf(),
        ensures
            final(self).wf(),
            final(self)@ == old(self)@.help_opened(),
    {
        reveal(AppState::view);
        reveal(SessionModel::wf);
        if self.current_view != View::Help {
            self.help_return_view = Some(self.current_view);
            self.current_view = View::Help;
            self.help_scroll = 0;
        }
    }

    fn dismiss_help(&mut self)
        requires
            old(self).wf(),
        ensures
            final(self).wf(),
            final(self)@ == old(self)@.help_dismissed(),
    {
        reveal(AppState::view);
        reveal(SessionModel::wf);
        if let Some(view) = self.help_return_view {
            self.current_view = view;
            self.help_return_view = None;
        }
    }

    fn select_first_signal(&mut self)
        requires
            old(self).wf(),
        ensures
            final(self).wf(),
            final(self)@ == (SessionModel { selected_signal: 0, ..old(self)@ }),
    {
        reveal(AppState::view);
        reveal(SessionModel::wf);
        self.selected_signal = 0;
    }

    fn select_last_signal(&mut self)
        requires
            old(self).wf(),
        ensures
            final(self).wf(),
            final(self)@ == (SessionModel {
                selected_signal: old(self)@.last_signal(),
                ..old(self)@
            }),
    {
        reveal(AppState::view);
        reveal(SessionModel::wf);
        self.selected_signal = self.last_signal();
    }

    fn review_first(&mut self)
        requires
            old(self).wf(),
        ensures
            final(self).wf(),
            final(self)@ == old(self)@.review_first(),
    {
        reveal(AppState::view);
        reveal(SessionModel::wf);
        if self.review_chronology_len().is_some() {
            self.review_selected = Some(0);
        }
    }

    fn review_last(&mut self)
        requires
            old(self).wf(),
        ensures
            final(self).wf(),
            final(self)@ == old(self)@.review_last(),
    {
        reveal(AppState::view);
        reveal(SessionModel::wf);
        if let Some(len) = self.review_chronology_len() {
            self.review_selected = Some(len - 1);
        }
    }

    fn toggle_run_inspector_mode(&mut self)
        requires
            old(self).wf(),
        ensures
            final(self).wf(),
            final(self)@ == old(self)@.inspector_toggled(),
    {
        reveal(AppState::view);
        reveal(SessionModel::wf);
        if self.run_inspector_available() {
            self.run_inspector_mode = match self.run_inspector_mode {
                RunInspectorMode::Timeline => RunInspectorMode::Source,
                RunInspectorMode::Source => RunInspectorMode::Timeline,
            };
        }
    }

    fn set_source_scroll(&mut self, offset: u16)
        requires
            old(self).wf(),
        ensures
            final(self).wf(),
            final(self)@ == old(self)@.source_scrolled_to(offset as int),
    {
        reveal(AppState::view);
        reveal(SessionModel::wf);
        if self.run_inspector_available() {
            self.source_scroll = offset;
        }
    }

    fn set_reset_pending(&mut self, pending: bool)
        requires
            old(self).wf(),
        ensures
            final(self).wf(),
            final(self)@ == (SessionModel {
                reset_confirmation_pending: pending,
                ..old(self)@
            }),
    {
        reveal(AppState::view);
        reveal(SessionModel::wf);
        self.reset_confirmation_pending = pending;
    }

    fn set_quit_pending(&mut self, pending: bool)
        requires
            old(self).wf(),
        ensures
            final(self).wf(),
            final(self)@ == (SessionModel {
                quit_confirmation_pending: pending,
                ..old(self)@
            }),
    {
        reveal(AppState::view);
        reveal(SessionModel::wf);
        self.quit_confirmation_pending = pending;
    }

    fn quit(&mut self)
        requires
            old(self).wf(),
        ensures
            final(self).wf(),
            final(self)@ == (SessionModel { should_quit: true, ..old(self)@ }),
    {
        reveal(AppState::view);
        reveal(SessionModel::wf);
        self.should_quit = true;
    }

    /// Asks whether the active run is to be replaced. The prompt is part of
    /// Operation: it would be invisible in any other view.
    fn ask_to_redeploy(&mut self)
        requires
            old(self).wf(),
        ensures
            final(self).wf(),
            final(self)@ == (SessionModel {
                redeploy_confirmation_pending: true,
                current_view: View::Operation,
                ..old(self)@
            }),
    {
        reveal(AppState::view);
        reveal(SessionModel::wf);
        self.redeploy_confirmation_pending = true;
        self.current_view = View::Operation;
    }

    fn dismiss_redeploy(&mut self)
        requires
            old(self).wf(),
        ensures
            final(self).wf(),
            final(self)@ == (SessionModel {
                redeploy_confirmation_pending: false,
                ..old(self)@
            }),
    {
        reveal(AppState::view);
        reveal(SessionModel::wf);
        self.redeploy_confirmation_pending = false;
    }

    fn navigate(&mut self, view: View)
        requires
            old(self).wf(),
        ensures
            final(self).wf(),
            final(self)@ == old(self)@.navigated(view),
    {
        reveal(AppState::view);
        reveal(SessionModel::wf);
        if self.view_available(view) {
            let leaves = match view {
                View::Signals | View::Target | View::Controller => true,
                _ => false,
            };
            if leaves && self.operation_active() {
                self.set_paused(true);
            }
            self.current_view = view;
        }
    }

    fn set_paused(&mut self, paused: bool)
        requires
            old(self).wf(),
            old(self)@.active(),
        ensures
            final(self).wf(),
            final(self)@ == old(self)@.with_paused(paused),
    {
        reveal(AppState::view);
        reveal(SessionModel::wf);
        reveal(OperationModel::wf);
        match &mut self.operation {
            Some(op) => {
                op.paused = paused;
            },
            None => {},
        }
    }

    fn toggle_pause(&mut self)
        requires
            old(self).wf(),
        ensures
            final(self).wf(),
            final(self)@ == old(self)@.pause_toggled(),
    {
        reveal(AppState::view);
        reveal(SessionModel::wf);
        if self.operation_active() {
            let paused = match &self.operation {
                Some(op) => op.paused,
                None => false,
            };
            self.set_paused(!paused);
        }
    }

    /// The index of the last visible signal.
    fn last_signal(&self) -> (last: usize)
        ensures
            last == self@.last_signal(),
    {
        reveal(AppState::view);
        proof {
            lemma_visible(self.connected);
        }
        visible_signals(self.connected).len() - 1
    }

    fn select_signal_back(&mut self, by: usize)
        requires
            old(self).wf(),
        ensures
            final(self).wf(),
            final(self)@ == (SessionModel {
                selected_signal: back(old(self)@.selected_signal, by as int),
                ..old(self)@
            }),
    {
        reveal(AppState::view);
        reveal(SessionModel::wf);
        self.selected_signal = if self.selected_signal < by {
            0
        } else {
            self.selected_signal - by
        };
    }

    fn select_signal_ahead(&mut self, by: usize)
        requires
            old(self).wf(),
        ensures
            final(self).wf(),
            final(self)@ == (SessionModel {
                selected_signal: ahead(
                    old(self)@.selected_signal,
                    by as int,
                    old(self)@.last_signal(),
                ),
                ..old(self)@
            }),
    {
        reveal(AppState::view);
        reveal(SessionModel::wf);
        let last = self.last_signal();
        self.selected_signal = if by < last - self.selected_signal {
            self.selected_signal + by
        } else {
            last
        };
    }

    /// Moves focus to the next pane of the current view, wrapping around,
    /// where there is a choice.
    fn focus_next_pane(&mut self)
        requires
            old(self).wf(),
        ensures
            final(self).wf(),
            final(self)@ == old(self)@.focus_moved(),
    {
        reveal(AppState::view);
        reveal(SessionModel::wf);
        let view = self.current_view;
        if !self.focus_movement_available(view) {
            return;
        }
        let panes = view.panes();
        let next = if self.focused_pane(view) == panes[0] {
            panes[1]
        } else {
            panes[0]
        };
        assert(panes_of(view)[0] == next || panes_of(view)[1] == next);
        self.set_focused_pane(view, next);
    }

    /// Sets the focused pane's offset, if the pane can be scrolled.
    fn set_focused_scroll(&mut self, offset: u16)
        requires
            old(self).wf(),
            offset <= MAX_PANE_SCROLL,
        ensures
            final(self).wf(),
            final(self)@ == old(self)@.scrolled_to(offset as int),
    {
        reveal(AppState::view);
        reveal(SessionModel::wf);
        match self.focused_pane(self.current_view) {
            PaneId::Help => {
                self.help_scroll = offset;
            },
            PaneId::Report => {
                self.report_scroll = offset;
            },
            _ => {},
        }
    }

    fn scroll_back(&mut self, by: usize)
        requires
            old(self).wf(),
        ensures
            final(self).wf(),
            final(self)@ == old(self)@.scrolled_to(back(old(self)@.focused_scroll(), by as int)),
    {
        reveal(AppState::view);
        reveal(SessionModel::wf);
        let offset = self.scroll_offset(self.focused_pane(self.current_view));
        let target = if (offset as usize) < by {
            0
        } else {
            offset - by as u16
        };
        self.set_focused_scroll(target);
    }

    fn scroll_ahead(&mut self, by: usize)
        requires
            old(self).wf(),
        ensures
            final(self).wf(),
            final(self)@ == old(self)@.scrolled_to(
                ahead(old(self)@.focused_scroll(), by as int, MAX_PANE_SCROLL as int),
            ),
    {
        reveal(AppState::view);
        reveal(SessionModel::wf);
        let offset = self.scroll_offset(self.focused_pane(self.current_view));
        let target = if by < (MAX_PANE_SCROLL - offset) as usize {
            offset + by as u16
        } else {
            MAX_PANE_SCROLL
        };
        self.set_focused_scroll(target);
    }

    fn review_back(&mut self, by: usize)
        requires
            old(self).wf(),
        ensures
            final(self).wf(),
            final(self)@ == old(self)@.review_back(by as int),
    {
        reveal(AppState::view);
        reveal(SessionModel::wf);
        if let Some(len) = self.review_chronology_len() {
            let current = match self.review_selected {
                Some(i) => i,
                None => len - 1,
            };
            self.review_selected = Some(
                if current < by {
                    0
                } else {
                    current - by
                },
            );
        }
    }

    fn review_ahead(&mut self, by: usize)
        requires
            old(self).wf(),
        ensures
            final(self).wf(),
            final(self)@ == old(self)@.review_ahead(by as int),
    {
        reveal(AppState::view);
        reveal(SessionModel::wf);
        if let Some(len) = self.review_chronology_len() {
            let current = match self.review_selected {
                Some(i) => i,
                None => len - 1,
            };
            self.review_selected = Some(
                if by < len - 1 - current {
                    current + by
                } else {
                    len - 1
                },
            );
        }
    }

    fn scroll_source_back(&mut self, by: usize)
        requires
            old(self).wf(),
        ensures
            final(self).wf(),
            final(self)@ == old(self)@.source_scrolled_to(
                back(old(self)@.source_scroll, by as int),
            ),
    {
        reveal(AppState::view);
        reveal(SessionModel::wf);
        if self.run_inspector_available() {
            self.source_scroll = if (self.source_scroll as usize) < by {
                0
            } else {
                self.source_scroll - by as u16
            };
        }
    }

    /// Not bounded by the panes' own limit: the deployed source can be of any
    /// length, and must stay reachable to its end.
    fn scroll_source_ahead(&mut self, by: usize)
        requires
            old(self).wf(),
        ensures
            final(self).wf(),
            final(self)@ == old(self)@.source_scrolled_to(
                ahead(old(self)@.source_scroll, by as int, u16::MAX as int),
            ),
    {
        reveal(AppState::view);
        reveal(SessionModel::wf);
        if self.run_inspector_available() {
            self.source_scroll = if by < (u16::MAX - self.source_scroll) as usize {
                self.source_scroll + by as u16
            } else {
                u16::MAX
            };
        }
    }

    fn edit_controller(&mut self, op: EditOp)
        requires
            old(self).wf(),
        ensures
            final(self).wf(),
            final(self)@ == match old(self)@.controller {
                Some(document) => old(self)@.edited_to(document.edit(op)),
                None => old(self)@,
            },
    {
        reveal(AppState::view);
        reveal(SessionModel::wf);
        let mut changed = false;
        match &mut self.controller {
            Some(controller) => {
                changed = controller.apply(op);
            },
            None => {},
        }
        if changed {
            self.validation = Validation::Unchecked;
        }
    }

    fn paste_controller(&mut self, text: &str)
        requires
            old(self).wf(),
        ensures
            final(self).wf(),
            final(self)@ == old(self)@.pasted(text@),
    {
        reveal(AppState::view);
        reveal(SessionModel::wf);
        let mut changed = false;
        match &mut self.controller {
            Some(controller) => {
                changed = controller.insert_text(text);
            },
            None => {},
        }
        if changed {
            self.validation = Validation::Unchecked;
        }
    }

    fn reset_controller(&mut self)
        requires
            old(self).wf(),
        ensures
            final(self).wf(),
            final(self)@ == old(self)@.controller_reset(),
    {
        reveal(AppState::view);
        reveal(SessionModel::wf);
        let mut reset = false;
        match &mut self.controller {
            Some(controller) => {
                controller.reset(STARTER_CONTROLLER);
                reset = true;
            },
            None => {},
        }
        if reset {
            self.validation = Validation::Unchecked;
        }
    }

    fn activate(&mut self)
        requires
            old(self).wf(),
        ensures
            final(self).wf(),
            final(self)@ == old(self)@.activated(),
    {
        reveal(AppState::view);
        reveal(SessionModel::wf);
        match self.current_view {
            View::Signals => {
                let signals = visible_signals(self.connected);
                let signal = signals[self.selected_signal];
                assert(*signal == visible(self.connected)[self@.selected_signal]);
                if signal.is_actionable() {
                    self.target_known = true;
                    self.current_view = View::Target;
                }
            },
            View::Target => {
                let working = match self.working_set {
                    Some(WorkingSet::FirstContact) => true,
                    None => false,
                };
                if !working {
                    self.working_set = Some(WorkingSet::FirstContact);
                    self.controller = Some(ControllerDocument::new(STARTER_CONTROLLER));
                }
                self.current_view = View::Controller;
            },
            _ => {},
        }
    }

    /// The request to load the working source, if there is a controller.
    fn request_deploy(&self) -> (request: Option<Request>)
        ensures
            request_model(request) == match self@.source() {
                Some(source) => Some(RequestModel::Deploy(source)),
                None => None,
            },
    {
        reveal(AppState::view);
        match self.controller_source() {
            Some(source) => Some(Request::Deploy(source)),
            None => None,
        }
    }

    /// Takes in whether `source` could be loaded. The reply only counts while
    /// `source` is the controller's.
    pub fn validated(&mut self, source: String, outcome: Result<(), ControllerError>)
        requires
            old(self).wf(),
        ensures
            final(self).wf(),
            final(self)@ == old(self)@.validated(source@, failure_model(outcome)),
    {
        reveal(AppState::view);
        reveal(SessionModel::wf);
        if self.holds_source(&source) {
            self.validation = match outcome {
                Ok(()) => Validation::Valid,
                Err(error) => Validation::Invalid(error.describe()),
            };
        }
    }

    /// Whether `source` is the controller's.
    fn holds_source(&self, source: &String) -> (holds: bool)
        ensures
            holds == (self@.source() == Some(source@)),
    {
        match self.controller_source() {
            Some(present) => same_text(present.as_str(), source.as_str()),
            None => false,
        }
    }

    /// Takes in whether `source` was loaded for a new run, which replaces any
    /// earlier one. The reply only counts while `source` is the controller's.
    #[verifier::rlimit(50)]
    pub fn deployed(&mut self, source: String, outcome: Result<(), ControllerError>)
        requires
            old(self).wf(),
            old(self)@.next_run_id < u32::MAX,
        ensures
            final(self).wf(),
            final(self)@ == old(self)@.deployed(source@, failure_model(outcome)),
    {
        reveal(AppState::view);
        reveal(SessionModel::wf);
        if !self.holds_source(&source) {
            return;
        }
        proof {
            lemma_deployed_wf(source@, self@.next_run_id, failure_model(outcome));
            assert(panes_of(View::Operation)[1] == PaneId::OperationTelemetry);
            assert(panes_of(View::AfterAction)[0] == PaneId::Report);
        }
        let run_id = self.next_run_id;
        self.next_run_id = self.next_run_id + 1;
        self.review_selected = None;
        let failed = outcome.is_err();
        let operation = match outcome {
            Ok(()) => {
                let live = LiveOperation::deploy();
                // Taken now, so that no later tick can change what was known
                // at deployment.
                let initial_snapshot = Some(observe_snapshot(&live));
                Operation {
                    live: Some(live),
                    deployed_source: source,
                    run_id,
                    records: Vec::new(),
                    initial_snapshot,
                    paused: false,
                    error: None,
                }
            },
            Err(error) => Operation {
                live: None,
                deployed_source: source,
                run_id,
                records: Vec::new(),
                initial_snapshot: None,
                paused: false,
                error: Some(error),
            },
        };
        assert(operation@ =~= OperationModel::deployed(
            source@,
            run_id as int,
            failure_model(outcome),
        ));
        self.operation = Some(operation);
        // A run that failed to load has nothing to watch.
        self.current_view = if failed {
            View::AfterAction
        } else {
            View::Operation
        };
        self.run_inspector_mode = RunInspectorMode::Timeline;
        self.source_scroll = 0;
        if failed {
            self.set_focused_pane(View::Operation, PaneId::OperationTelemetry);
        }
        self.report_scroll = 0;
        self.set_focused_pane(View::AfterAction, PaneId::Report);
    }

    /// Takes in what the host's call of `on_tick` gave, and tells whether a
    /// tick took place: it does only in an active run.
    #[verifier::rlimit(50)]
    pub fn stepped(&mut self, reply: Result<String, ControllerError>) -> (advanced: bool)
        requires
            old(self).wf(),
        ensures
            final(self).wf(),
            final(self)@ == old(self)@.stepped(reply_model(reply)),
            advanced == old(self)@.active(),
    {
        reveal(AppState::view);
        reveal(SessionModel::wf);
        if !self.operation_active() {
            return false;
        }
        proof {
            lemma_stepped_wf(self@.operation->0, reply_model(reply));
            lemma_visible(false);
            lemma_visible(true);
            assert(panes_of(View::Operation)[1] == PaneId::OperationTelemetry);
            assert(panes_of(View::AfterAction)[0] == PaneId::Report);
        }
        let ghost before = self@;
        match &mut self.operation {
            Some(op) => op.step(reply),
            None => {},
        }
        assert(self@ == (SessionModel {
            operation: Some((before.operation->0).stepped(reply_model(reply))),
            ..before
        }));
        let (finished, succeeded, review_len) = match &self.operation {
            Some(op) => (op.is_finished(), op.succeeded(), op.review_len()),
            None => (false, false, 0),
        };
        if finished {
            let just_connected = !self.connected && succeeded;
            if just_connected {
                self.connected = true;
                self.network_bootstrap_pending = true;
            }
            self.current_view = if just_connected {
                View::Signals
            } else {
                View::AfterAction
            };
            self.review_selected = if review_len > 0 {
                Some(review_len - 1)
            } else {
                None
            };
            self.report_scroll = 0;
            self.run_inspector_mode = RunInspectorMode::Timeline;
            self.source_scroll = 0;
            self.set_focused_pane(View::AfterAction, PaneId::Report);
            self.set_focused_pane(View::Operation, PaneId::OperationTelemetry);
        }
        true
    }
}

} // verus!
