//! What holds of runs: their ticks, their chronology and their account.

use vstd::prelude::*;
use vstd::view::View as _;

use super::session::{
    chronology, hazards_in, is_hazard, new_tiles, ConclusionKindModel, OperationModel,
    SessionModel, SnapshotModel,
};
use super::state::{
    record_models, review_models, Msg, OperationConclusion, OperationSnapshot, OperationView,
    PaneId, ReviewPointKind, RunInspectorMode, View,
};
use crate::lua_controller::{
    action_name, judged, law_judged_action_is_possible, law_named_action_is_judged, ErrorModel,
    RecordModel, TickRecord,
};
use crate::simulation::{
    first_contact_model, knows, law_what_happens_in_a_tick, Action, DiscoveredTile, Observation,
    Position, SimEvent, SimulationModel, Tile,
};

verus! {

/// Every completed tick's review point shows the state that its record holds,
/// in every part; the first point shows the initial observation, and a failure
/// the state in which it came.
pub proof fn law_review_points_show_their_records(
    initial: SnapshotModel,
    records: Seq<RecordModel>,
    error: Option<ErrorModel>,
    i: int,
)
    ensures
        ({
            let points = chronology(Some(initial), records, error);
            &&& points[0].snapshot == initial
            &&& 1 <= i <= records.len() ==> {
                &&& points[i].snapshot.drone_position == records[i - 1].drone_position
                &&& points[i].snapshot.map_width == records[i - 1].map_width
                &&& points[i].snapshot.map_height == records[i - 1].map_height
                &&& points[i].snapshot.discovered == records[i - 1].discovered
                &&& points[i].snapshot.tick == records[i - 1].tick
                &&& points[i].snapshot.budget_remaining == records[i - 1].budget_remaining
            }
            &&& error is Some && records.len() == 0 ==> points.last().snapshot == initial
            &&& error is Some && records.len() > 0 ==> {
                &&& points.last().snapshot.drone_position == records.last().drone_position
                &&& points.last().snapshot.map_width == records.last().map_width
                &&& points.last().snapshot.map_height == records.last().map_height
                &&& points.last().snapshot.discovered == records.last().discovered
                &&& points.last().snapshot.tick == records.last().tick
                &&& points.last().snapshot.budget_remaining == records.last().budget_remaining
            }
        }),
{
}

/// Where a frame's list of tiles continues the one before it, as the lists of
/// a run do, the new tiles are exactly those that were added, in their order.
pub proof fn law_new_tiles_are_the_added_ones(
    previous: Seq<DiscoveredTile>,
    added: Seq<DiscoveredTile>,
)
    requires
        forall|i: int, j: int|
            0 <= i < previous.len() && 0 <= j < added.len() ==> (#[trigger] previous[i]).position
                != (#[trigger] added[j]).position,
    ensures
        new_tiles(previous, previous + added) == added,
{
    let is_new = |tile: DiscoveredTile| !knows(previous, tile.position);
    Seq::filter_distributes_over_add(previous, added, is_new);
    assert forall|i: int| 0 <= i < previous.len() implies !is_new(#[trigger] previous[i]) by {
        assert(knows(previous, previous[i].position));
    }
    assert forall|j: int| 0 <= j < added.len() implies is_new(#[trigger] added[j]) by {
        if knows(previous, added[j].position) {
            let i = choose|i: int|
                0 <= i < previous.len() && (#[trigger] previous[i]).position == added[j].position;
            assert(previous[i].position != added[j].position);
        }
    }
    lemma_filter_none(previous, is_new);
    lemma_filter_all(added, is_new);
    assert(Seq::<DiscoveredTile>::empty() + added =~= added);
}

proof fn lemma_filter_none<A>(s: Seq<A>, pred: spec_fn(A) -> bool)
    requires
        forall|i: int| 0 <= i < s.len() ==> !pred(#[trigger] s[i]),
    ensures
        s.filter(pred) == Seq::<A>::empty(),
    decreases s.len(),
{
    reveal(Seq::filter);
    if s.len() > 0 {
        assert(!pred(s[s.len() - 1]));
        assert forall|i: int| 0 <= i < s.drop_last().len() implies !pred(
            #[trigger] s.drop_last()[i],
        ) by {
            assert(s.drop_last()[i] == s[i]);
        }
        lemma_filter_none(s.drop_last(), pred);
    }
}

proof fn lemma_filter_all<A>(s: Seq<A>, pred: spec_fn(A) -> bool)
    requires
        forall|i: int| 0 <= i < s.len() ==> pred(#[trigger] s[i]),
    ensures
        s.filter(pred) == s,
    decreases s.len(),
{
    reveal(Seq::filter);
    if s.len() > 0 {
        assert(pred(s[s.len() - 1]));
        assert forall|i: int| 0 <= i < s.drop_last().len() implies pred(
            #[trigger] s.drop_last()[i],
        ) by {
            assert(s.drop_last()[i] == s[i]);
        }
        lemma_filter_all(s.drop_last(), pred);
        assert(s.drop_last().push(s.last()) =~= s);
    }
}

/// Hazards are counted event by event: those of two runs of records together
/// are those of the first and those of the second.
pub proof fn law_hazards_add_up(a: Seq<RecordModel>, b: Seq<RecordModel>)
    ensures
        hazards_in(a + b) == hazards_in(a) + hazards_in(b),
        hazards_in(Seq::empty()) == 0,
    decreases b.len(),
{
    if b.len() == 0 {
        assert(a + b =~= a);
    } else {
        law_hazards_add_up(a, b.drop_last());
        assert((a + b).drop_last() =~= a + b.drop_last());
        assert((a + b).last() == b.last());
    }
}

/// Of the events of a tick, each hazard entered counts as one, and nothing
/// else counts.
pub proof fn law_each_hazard_counts_once(record: RecordModel)
    ensures
        record.events.len() == 0 ==> hazards_in(seq![record]) == 0,
        record.events.len() > 0 ==> hazards_in(seq![record]) == hazards_in(
            seq![RecordModel { events: record.events.drop_last(), ..record }],
        ) + match record.events.last() {
            SimEvent::HazardEntered { .. } => 1int,
            SimEvent::UplinkReached { .. } => 0,
        },
{
    reveal(Seq::filter);
    reveal_with_fuel(hazards_in, 2);
    let shorter = RecordModel { events: record.events.drop_last(), ..record };
    assert(seq![record].drop_last() =~= Seq::<RecordModel>::empty());
    assert(seq![shorter].drop_last() =~= Seq::<RecordModel>::empty());
    assert(seq![record].last() == record);
    assert(seq![shorter].last() == shorter);
}

/// A run in which no hazard was entered has none in its account.
pub proof fn law_no_hazard_is_counted_without_its_event(records: Seq<RecordModel>)
    requires
        forall|i: int, j: int|
            0 <= i < records.len() && 0 <= j < records[i].events.len() ==> !(
            (#[trigger] records[i].events[j]) is HazardEntered),
    ensures
        hazards_in(records) == 0,
    decreases records.len(),
{
    if records.len() > 0 {
        let rest = records.drop_last();
        let last = records.len() - 1;
        assert forall|i: int, j: int|
            0 <= i < rest.len() && 0 <= j < rest[i].events.len() implies !(
        (#[trigger] rest[i].events[j]) is HazardEntered) by {
            assert(rest[i] == records[i]);
            assert(!(records[i].events[j] is HazardEntered));
        }
        law_no_hazard_is_counted_without_its_event(rest);
        let events = records.last().events;
        let hazardous = |event: SimEvent| is_hazard(event);
        assert forall|j: int| 0 <= j < events.len() implies !hazardous(#[trigger] events[j]) by {
            assert(!(records[last].events[j] is HazardEntered));
        }
        lemma_filter_none(events, hazardous);
    }
}

/// A tick adds one to the hazards of a run exactly where it took the drone
/// onto a hazard tile.
pub proof fn law_hazards_are_counted_where_they_are_entered(
    operation: OperationModel,
    reply: Result<Seq<char>, ErrorModel>,
)
    requires
        operation.wf(),
        !operation.finished(),
    ensures
        ({
            let after = operation.stepped(reply);
            let from = (operation.live->0).drone;
            let to = (after.live->0).drone;
            let entered = from != to
                && (operation.live->0).scenario.rows[to.y as int][to.x as int] == Tile::Hazard;
            hazards_in(after.records) == hazards_in(operation.records) + if entered {
                1int
            } else {
                0
            }
        }),
{
    reveal(OperationModel::wf);
    reveal(Seq::filter);
    let live = operation.live->0;
    let after = operation.stepped(reply);
    match judged(live, reply) {
        Ok(action) => {
            law_judged_action_is_possible(live, reply);
            law_what_happens_in_a_tick(live, action);
            let record = after.records.last();
            assert(after.records.drop_last() =~= operation.records);
            let events = live.events(action);
            let hazardous = |event: SimEvent| is_hazard(event);
            reveal_with_fuel(Seq::filter, 3);
            if events.len() > 0 {
                assert(events.last() == events[events.len() - 1]);
                if events.len() > 1 {
                    assert(events.drop_last().last() == events[0]);
                }
            }
        },
        Err(_) => {},
    }
}

/// The account of a finished run: its number, its ticks, and the tiles and the
/// budget of its last state.
pub proof fn law_conclusion_gives_the_last_state(operation: OperationModel)
    requires
        operation.wf(),
        operation.finished(),
    ensures
        ({
            let conclusion = operation.conclusion()->0;
            &&& operation.conclusion() is Some
            &&& conclusion.run_id == operation.run_id
            &&& conclusion.ticks_executed == operation.records.len()
            &&& conclusion.hazards_entered == hazards_in(operation.records)
            &&& operation.records.len() > 0 ==> {
                &&& conclusion.tiles_discovered == operation.records.last().discovered.len()
                &&& conclusion.final_budget == operation.records.last().budget_remaining
            }
            &&& operation.live matches Some(live) ==> {
                &&& conclusion.ticks_executed == live.tick
                &&& conclusion.tiles_discovered == live.discovered.len()
                &&& conclusion.final_budget == live.budget
            }
            &&& operation.live is None ==> {
                &&& conclusion.ticks_executed == 0
                &&& conclusion.tiles_discovered == 0
                &&& conclusion.hazards_entered == 0
                &&& conclusion.final_budget == 15
            }
        }),
{
    reveal(OperationModel::wf);
}

/// How a finished run is said to have ended: as a success exactly where its
/// last tick reached the uplink, as out of budget exactly where its last tick
/// used that up, and else with its error.
pub proof fn law_conclusion_gives_the_outcome(operation: OperationModel)
    requires
        operation.wf(),
        operation.finished(),
    ensures
        ({
            let kind = (operation.conclusion()->0).kind;
            &&& kind is Success <==> operation.error is None && operation.records.len() > 0
                && operation.records.last().outcome is Succeeded
            &&& kind is BudgetExhausted <==> operation.error is None && operation.records.len() > 0
                && operation.records.last().outcome is Failed
            &&& kind is ControllerError <==> operation.error is Some
            &&& operation.error matches Some(error) ==> kind == ConclusionKindModel::ControllerError(
                error,
            )
        }),
        operation.live matches Some(live) ==> ((operation.conclusion()->0).kind is Success
            <==> live.outcome is Succeeded),
{
    reveal(OperationModel::wf);
}

/// An unfinished run has no account.
pub proof fn law_no_conclusion_before_the_end(operation: OperationModel)
    requires
        operation.error is None,
        operation.live matches Some(live) ==> live.outcome is Running,
    ensures
        !operation.finished(),
        operation.conclusion() is None,
{
}

/// The current state of a run: that of its last tick, or the initial one; it
/// is that of the simulation behind it.
pub proof fn law_current_state_is_the_last(operation: OperationModel)
    requires
        operation.wf(),
    ensures
        operation.live matches Some(live) ==> {
            &&& operation.current().drone_position == live.drone
            &&& operation.current().tick == live.tick
            &&& operation.current().budget_remaining == live.budget
            &&& operation.current().discovered == live.discovered
            &&& operation.current().map_width == live.scenario.width
            &&& operation.current().map_height == live.scenario.height
        },
        operation.live is None ==> {
            &&& operation.current().drone_position == (Position { x: 0, y: 0 })
            &&& operation.current().tick == 0
            &&& operation.current().budget_remaining == 15
            &&& operation.current().discovered.len() == 0
            &&& operation.current().map_width == 5
            &&& operation.current().map_height == 5
        },
{
    reveal(OperationModel::wf);
}

/// What a reply does to an active run. The name of a possible action adds the
/// record of that action's tick, and nothing else. A name that is no action's,
/// an action that is not possible, or a failed call ends the run with an
/// error, adds no record, and costs nothing.
pub proof fn law_what_a_reply_does(
    operation: OperationModel,
    action: Action,
    reply: Result<Seq<char>, ErrorModel>,
)
    requires
        operation.wf(),
        !operation.finished(),
    ensures
        ({
            let live = operation.live->0;
            let named = operation.stepped(Ok(action_name(action)));
            live.refusal(action) is None ==> {
                &&& named.live == Some(live.stepped(action))
                &&& named.error is None
                &&& named.records.len() == operation.records.len() + 1
                &&& named.records.drop_last() == operation.records
                &&& named.records.last().action == action
                &&& named.records.last().tick == operation.records.len() + 1
                &&& named.records.last().drone_position == live.stepped(action).drone
                &&& named.records.last().budget_remaining == live.stepped(action).budget
                &&& named.records.last().discovered == live.stepped(action).discovered
                &&& named.records.last().events == live.events(action)
                &&& named.records.last().outcome == live.stepped(action).outcome
            }
        }),
        (operation.live->0).refusal(action) is Some ==> {
            let refused = operation.stepped(Ok(action_name(action)));
            &&& refused.error matches Some(error) && error is InvalidAction
            &&& refused.finished()
            &&& refused.live == operation.live
            &&& refused.records == operation.records
        },
        reply is Err ==> {
            let failed = operation.stepped(reply);
            &&& failed.error == Some(reply->Err_0)
            &&& failed.finished()
            &&& failed.live == operation.live
            &&& failed.records == operation.records
        },
{
    reveal(OperationModel::wf);
    let live = operation.live->0;
    law_named_action_is_judged(live, action);
    let named = operation.stepped(Ok(action_name(action)));
    if live.refusal(action) is None {
        assert(named.records.drop_last() =~= operation.records);
    }
}

/// A tick is shown after it was carried out: the run ends in the view that its
/// outcome leads to, with the last review point selected; as long as it goes
/// on, the session stays as it is.
pub proof fn law_where_a_tick_leads(session: SessionModel, reply: Result<Seq<char>, ErrorModel>)
    requires
        session.wf(),
        session.active(),
    ensures
        ({
            let after = session.stepped(reply);
            let operation = after.operation->0;
            &&& operation == (session.operation->0).stepped(reply)
            &&& !operation.finished() ==> after == (SessionModel {
                operation: after.operation,
                ..session
            })
            &&& operation.finished() ==> {
                let connects = !session.connected && operation.error is None
                    && operation.records.len() > 0 && operation.records.last().outcome is Succeeded;
                &&& after.current_view == if connects {
                    View::Signals
                } else {
                    View::AfterAction
                }
                &&& after.connected == (session.connected || connects)
                &&& after.network_bootstrap_pending == (session.network_bootstrap_pending
                    || connects)
                &&& after.review_selected == Some(operation.review_points().len() - 1)
                &&& after.run_inspector_mode == RunInspectorMode::Timeline
                &&& after.source_scroll == 0
                &&& after.report_scroll == 0
                &&& after.focus.after_action == PaneId::Report
                &&& after.focus.operation == PaneId::OperationTelemetry
                &&& after.focus.signals == session.focus.signals
                &&& after.focus.target == session.focus.target
                &&& after.focus.controller == session.focus.controller
                &&& after.selected_signal == session.selected_signal
                &&& after.controller == session.controller
                &&& after.help_scroll == session.help_scroll
                &&& after.should_quit == session.should_quit
            }
        }),
{
    reveal(SessionModel::wf);
    reveal(OperationModel::wf);
    let before = session.operation->0;
    let live = before.live->0;
    match judged(live, reply) {
        Ok(action) => {
            assert(before.stepped(reply).error is None);
        },
        Err(_) => {
            if before.records.len() > 0 {
                assert(before.records.last().outcome is Running);
            }
        },
    }
}

/// What a deployment leads to: a run that has not begun, watched in Operation,
/// or, where the source could not be loaded, a run that is over with that
/// error, reported in After Action; with nothing selected for review.
pub proof fn law_what_a_deployment_leads_to(
    session: SessionModel,
    source: Seq<char>,
    failure: Option<ErrorModel>,
)
    requires
        session.wf(),
        session.source() == Some(source),
    ensures
        ({
            let after = session.deployed(source, failure);
            let operation = after.operation->0;
            &&& after.operation is Some
            &&& operation.deployed_source == source
            &&& operation.run_id == session.next_run_id
            &&& after.next_run_id == session.next_run_id + 1
            &&& operation.records.len() == 0
            &&& !operation.paused
            &&& operation.error == failure
            &&& failure is None ==> {
                &&& operation.live == Some(SimulationModel::started(first_contact_model()))
                &&& operation.initial_snapshot is Some
                &&& (operation.initial_snapshot->0).drone_position == (Position { x: 0, y: 0 })
                &&& (operation.initial_snapshot->0).tick == 0
                &&& (operation.initial_snapshot->0).budget_remaining == 15
                &&& (operation.initial_snapshot->0).map_width == 5
                &&& (operation.initial_snapshot->0).map_height == 5
                &&& (operation.initial_snapshot->0).discovered == (
                operation.live->0).discovered
                &&& after.current_view == View::Operation
                &&& !operation.finished()
                &&& after.focus.operation == session.focus.operation
            }
            &&& failure is Some ==> {
                &&& operation.live is None
                &&& operation.initial_snapshot is None
                &&& operation.review_points().len() == 0
                &&& after.current_view == View::AfterAction
                &&& operation.finished()
                &&& after.focus.operation == PaneId::OperationTelemetry
            }
            &&& after.review_selected is None
            &&& after.run_inspector_mode == RunInspectorMode::Timeline
            &&& after.source_scroll == 0
            &&& after.report_scroll == 0
            &&& after.focus.after_action == PaneId::Report
            &&& after.connected == session.connected
            &&& after.selected_signal == session.selected_signal
        }),
{
}

/// A tick is asked of the host with what can be observed of the run, and only
/// for an active run that is paused, by a single step.
pub proof fn law_ticks_are_asked_for_with_the_current_state(session: SessionModel)
    requires
        session.wf(),
    ensures
        session.request(Msg::StepOperationTick) is Some <==> session.active() && (
        session.operation->0).paused,
        session.active() ==> {
            let current = (session.operation->0).current();
            &&& session.next_tick() is Step
            &&& session.next_tick()->Step_0.drone_position == current.drone_position
            &&& session.next_tick()->Step_0.tick == current.tick
            &&& session.next_tick()->Step_0.budget_remaining == current.budget_remaining
            &&& session.next_tick()->Step_0.discovered == current.discovered
        },
        session.request(Msg::StepOperationTick) matches Some(request) ==> request
            == session.next_tick(),
{
    reveal(SessionModel::wf);
    reveal(OperationModel::wf);
    reveal(SessionModel::request);
}

/// A run advances on its own exactly while it is being watched, and is neither
/// paused nor over.
pub proof fn law_when_a_run_advances(session: SessionModel)
    ensures
        session.advancing() <==> session.current_view == View::Operation && session.active() && !(
        session.operation->0).paused,
        session.active() <==> session.operation is Some && (session.operation->0).error is None && (
        (session.operation->0).live matches Some(live) ==> live.outcome is Running),
        session.concluded() <==> session.operation is Some && !session.active(),
        session.active() ==> (session.after(Msg::TogglePauseOperation).operation->0).paused == !(
        session.operation->0).paused,
        !session.active() ==> session.after(Msg::TogglePauseOperation) == session,
        session.after(Msg::StepOperationTick) == session,
{
    reveal(SessionModel::after_run);
}

/// What is handed out is what the contracts speak of, part by part: of a tick
/// record, an observation, a frame and an account.
pub proof fn law_parts_are_handed_out_as_they_are(
    record: TickRecord,
    observation: Observation,
    frame: OperationSnapshot,
    conclusion: OperationConclusion,
)
    ensures
        record@.tick == record.tick,
        record@.drone_position == record.drone_position,
        record@.map_width == record.map_width,
        record@.map_height == record.map_height,
        record@.action == record.action,
        record@.budget_remaining == record.budget_remaining,
        record@.discovered == record.discovered@,
        record@.events == record.events@,
        record@.outcome == record.outcome,
        observation@.drone_position == observation.drone_position,
        observation@.tick == observation.tick,
        observation@.budget_remaining == observation.budget_remaining,
        observation@.discovered == observation.discovered@,
        frame@.drone_position == frame.drone_position,
        frame@.map_width == frame.map_width,
        frame@.map_height == frame.map_height,
        frame@.discovered == frame.discovered@,
        frame@.tick == frame.tick,
        frame@.budget_remaining == frame.budget_remaining,
        conclusion@.ticks_executed == conclusion.ticks_executed,
        conclusion@.tiles_discovered == conclusion.tiles_discovered,
        conclusion@.hazards_entered == conclusion.hazards_entered,
        conclusion@.final_budget == conclusion.final_budget,
        conclusion@.run_id == conclusion.run_id,
        conclusion@.kind is Success <==> conclusion.kind is Success,
        conclusion@.kind is BudgetExhausted <==> conclusion.kind is BudgetExhausted,
{
}

/// What is shown of a deployed run: its source, number and ticks, whether it
/// is paused or over, its last state, its account and its chronology, and what
/// of that is selected.
pub proof fn law_what_is_shown_of_a_run(
    shown: OperationView,
    session: SessionModel,
    operation: OperationModel,
    i: int,
)
    requires
        shown.shows(session, operation),
        operation.wf(),
    ensures
        shown.deployed_source@ == operation.deployed_source,
        shown.run_id == operation.run_id,
        shown.paused == operation.paused,
        shown.finished <==> operation.conclusion() is Some,
        shown.error is Some <==> operation.error is Some,
        shown.starting_budget == 15,
        shown.records@.len() == operation.records.len(),
        0 <= i < shown.records@.len() ==> shown.records@[i]@ == operation.records[i],
        operation.records.len() > 0 ==> shown.current.drone_position
            == operation.records.last().drone_position && shown.current.tick
            == operation.records.last().tick && shown.current.budget_remaining
            == operation.records.last().budget_remaining && shown.current.discovered@
            == operation.records.last().discovered,
        shown.conclusion is Some <==> shown.finished,
        shown.conclusion matches Some(conclusion) ==> {
            &&& conclusion.ticks_executed == operation.records.len()
            &&& conclusion.hazards_entered == hazards_in(operation.records)
            &&& conclusion.run_id == operation.run_id
        },
        operation.initial_snapshot is Some ==> shown.review_points@.len() == 1
            + operation.records.len() + if operation.error is Some {
            1int
        } else {
            0
        },
        operation.initial_snapshot is Some && 1 <= i <= operation.records.len() ==> {
            let point = shown.review_points@[i];
            let record = operation.records[i - 1];
            &&& point.snapshot.drone_position == record.drone_position
            &&& point.snapshot.map_width == record.map_width
            &&& point.snapshot.map_height == record.map_height
            &&& point.snapshot.discovered@ == record.discovered
            &&& point.snapshot.tick == record.tick
            &&& point.snapshot.budget_remaining == record.budget_remaining
            &&& point.kind matches ReviewPointKind::Tick(shown_record) && shown_record@ == record
        },
        operation.initial_snapshot is None ==> shown.review_points@.len() == 0,
        shown.review_selected is Some <==> session.review_selected is Some,
        shown.review_selected matches Some(selected) ==> session.review_selected == Some(
            selected as int,
        ),
        shown.run_inspector_mode == session.run_inspector_mode,
        shown.source_scroll == session.source_scroll,
{
    reveal(OperationModel::wf);
    let models = record_models(shown.records@);
    assert(models.len() == shown.records@.len());
    if 0 <= i < shown.records@.len() {
        assert(models[i] == shown.records@[i]@);
    }
    let points = review_models(shown.review_points@);
    assert(points.len() == shown.review_points@.len());
    if operation.initial_snapshot is Some && 1 <= i <= operation.records.len() {
        assert(points[i] == shown.review_points@[i]@);
        law_review_points_show_their_records(
            operation.initial_snapshot->0,
            operation.records,
            operation.error,
            i,
        );
    }
}

} // verus!
