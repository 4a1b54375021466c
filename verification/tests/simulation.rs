use human_exception::lua_controller::{name_of, parse_action, ControllerError, LiveOperation};
use human_exception::satellite::render_satellite_view;
use human_exception::simulation::{
    Action, DiscoveredTile, FailureReason, MoveError, Position, Scenario, SimEvent, Simulation,
    Tile, TickOutcome,
};

fn started() -> Simulation {
    Simulation::new(Scenario::first_contact())
}

fn at(x: i32, y: i32) -> Position {
    Position { x, y }
}

fn known(simulation: &Simulation, x: i32, y: i32) -> Option<DiscoveredTile> {
    simulation.observe().discovered.into_iter().find(|tile| tile.position == at(x, y))
}

fn walk(simulation: &mut Simulation, actions: &[Action]) {
    for action in actions {
        simulation.step(*action).expect("every action of the walk is possible");
    }
}

#[test]
fn first_contact_is_a_five_by_five_map_with_a_budget_of_fifteen() {
    let scenario = Scenario::first_contact();

    assert_eq!(scenario.map().width(), 5);
    assert_eq!(scenario.map().height(), 5);
    assert_eq!(scenario.drone_start(), at(0, 0));
    assert_eq!(scenario.starting_budget(), 15);
}

#[test]
fn the_drone_knows_its_surroundings_from_the_start() {
    let simulation = started();

    assert_eq!(simulation.observe().discovered.len(), 3);
    assert_eq!(known(&simulation, 0, 0).map(|tile| tile.tile), Some(Tile::Floor));
    assert_eq!(known(&simulation, 0, 1).map(|tile| tile.tile), Some(Tile::Floor));
    assert_eq!(known(&simulation, 1, 0).map(|tile| tile.traversable), Some(false));
    assert_eq!(known(&simulation, 2, 0), None);
}

#[test]
fn every_action_costs_one_unit_of_budget() {
    let mut simulation = started();

    walk(&mut simulation, &[Action::Wait, Action::Scan, Action::MoveNorth]);

    assert_eq!(simulation.observe().budget_remaining, 12);
    assert_eq!(simulation.observe().tick, 3);
    assert_eq!(simulation.observe().drone_position, at(0, 1));
}

#[test]
fn a_scan_reveals_the_square_round_the_drone_through_walls() {
    let mut simulation = started();

    let events = simulation.step(Action::Scan).expect("a scan is always possible");

    assert!(events.is_empty());
    assert_eq!(simulation.observe().drone_position, at(0, 0));
    assert_eq!(simulation.observe().discovered.len(), 9);
    assert_eq!(known(&simulation, 2, 2).map(|tile| tile.tile), Some(Tile::Wall));
    assert_eq!(known(&simulation, 3, 0), None);
}

#[test]
fn discoveries_persist_and_are_listed_once() {
    let mut simulation = started();
    walk(&mut simulation, &[Action::Scan]);
    let before = simulation.observe().discovered;

    walk(&mut simulation, &[Action::Scan, Action::MoveNorth, Action::MoveNorth]);
    let after = simulation.observe().discovered;

    assert_eq!(&after[..before.len()], &before[..]);
    for (i, tile) in after.iter().enumerate() {
        assert!(after[i + 1..].iter().all(|other| other.position != tile.position));
    }
}

#[test]
fn a_move_off_the_map_is_refused_and_costs_nothing() {
    let mut simulation = started();
    let before = simulation.observe();

    assert_eq!(simulation.step(Action::MoveSouth), Err(MoveError::OffMap));
    assert_eq!(simulation.step(Action::MoveWest), Err(MoveError::OffMap));

    assert_eq!(simulation.observe(), before);
    assert_eq!(simulation.outcome(), TickOutcome::Running);
}

#[test]
fn a_move_into_a_wall_is_refused_and_costs_nothing() {
    let mut simulation = started();
    let before = simulation.observe();

    assert_eq!(simulation.step(Action::MoveEast), Err(MoveError::IntoWall));

    assert_eq!(simulation.observe(), before);
}

const TO_THE_HAZARD: [Action; 5] = [
    Action::MoveNorth,
    Action::MoveEast,
    Action::MoveEast,
    Action::MoveEast,
    Action::MoveEast,
];

#[test]
fn entering_a_hazard_costs_five_more_once() {
    let mut simulation = started();
    walk(&mut simulation, &TO_THE_HAZARD);
    assert_eq!(simulation.observe().budget_remaining, 10);

    let events = simulation.step(Action::MoveNorth).expect("a hazard can be entered");
    assert_eq!(events, vec![SimEvent::HazardEntered { position: at(4, 2), amount: 5 }]);
    assert_eq!(simulation.observe().budget_remaining, 4);

    walk(&mut simulation, &[Action::Wait]);
    assert_eq!(simulation.observe().budget_remaining, 3);
}

#[test]
fn reaching_the_uplink_succeeds_on_either_route() {
    let mut past_the_hazard = started();
    walk(&mut past_the_hazard, &TO_THE_HAZARD);
    walk(&mut past_the_hazard, &[Action::MoveNorth, Action::MoveNorth]);
    let events = past_the_hazard.step(Action::MoveNorth).expect("the uplink can be entered");
    assert_eq!(events, vec![SimEvent::UplinkReached { position: at(4, 4) }]);
    assert_eq!(past_the_hazard.outcome(), TickOutcome::Succeeded);
    assert_eq!(past_the_hazard.observe().budget_remaining, 2);

    let mut around = started();
    walk(&mut around, &[Action::MoveNorth; 4]);
    walk(&mut around, &[Action::MoveEast; 4]);
    assert_eq!(around.outcome(), TickOutcome::Succeeded);
    assert_eq!(around.observe().budget_remaining, 7);
}

#[test]
fn reaching_the_uplink_with_the_last_unit_of_budget_succeeds() {
    let mut simulation = started();
    walk(&mut simulation, &[Action::Wait; 7]);
    walk(&mut simulation, &[Action::MoveNorth; 4]);
    walk(&mut simulation, &[Action::MoveEast; 4]);

    assert_eq!(simulation.observe().budget_remaining, 0);
    assert_eq!(simulation.outcome(), TickOutcome::Succeeded);
}

#[test]
fn running_out_of_budget_fails_the_operation() {
    let mut simulation = started();
    walk(&mut simulation, &[Action::Wait; 14]);
    assert_eq!(simulation.outcome(), TickOutcome::Running);

    walk(&mut simulation, &[Action::Wait]);

    assert_eq!(simulation.outcome(), TickOutcome::Failed(FailureReason::BudgetExhausted));
}

#[test]
fn a_hazard_that_costs_more_than_is_left_uses_up_the_budget() {
    let mut simulation = started();
    walk(&mut simulation, &[Action::Wait; 6]);
    walk(&mut simulation, &TO_THE_HAZARD);
    assert_eq!(simulation.observe().budget_remaining, 4);

    walk(&mut simulation, &[Action::MoveNorth]);

    assert_eq!(simulation.observe().budget_remaining, 0);
    assert_eq!(simulation.outcome(), TickOutcome::Failed(FailureReason::BudgetExhausted));
}

#[test]
fn parse_action_knows_the_six_names_and_no_other() {
    for action in [
        Action::MoveNorth,
        Action::MoveSouth,
        Action::MoveEast,
        Action::MoveWest,
        Action::Wait,
        Action::Scan,
    ] {
        assert_eq!(parse_action(name_of(action)), Some(action));
    }
    assert_eq!(parse_action("North"), None);
    assert_eq!(parse_action(""), None);
    assert_eq!(parse_action("north "), None);
}

#[test]
fn a_live_operation_records_each_tick() {
    let mut live = LiveOperation::deploy();
    assert_eq!((live.map_width(), live.map_height()), (5, 5));

    let record = live.step(Ok("north".to_string())).expect("the move is possible");

    assert_eq!(record.tick, 1);
    assert_eq!(record.drone_position, at(0, 1));
    assert_eq!((record.map_width, record.map_height), (5, 5));
    assert_eq!(record.action, Action::MoveNorth);
    assert_eq!(record.budget_remaining, 14);
    assert_eq!(record.discovered, live.observe().discovered);
    assert!(record.events.is_empty());
    assert_eq!(record.outcome, TickOutcome::Running);
    assert!(!live.is_finished());
}

#[test]
fn a_reply_that_is_no_possible_action_is_an_error_and_costs_nothing() {
    let mut live = LiveOperation::deploy();
    let before = live.observe();

    let unknown = live.step(Ok("dance".to_string()));
    assert_eq!(
        unknown,
        Err(ControllerError::InvalidAction("unknown action 'dance'".to_string()))
    );
    let off_map = live.step(Ok("south".to_string()));
    assert_eq!(
        off_map,
        Err(ControllerError::InvalidAction("south leads off the map".to_string()))
    );
    let wall = live.step(Ok("east".to_string()));
    assert_eq!(
        wall,
        Err(ControllerError::InvalidAction("east leads into a wall".to_string()))
    );
    let failed = live.step(Err(ControllerError::ExecutionLimitExceeded));
    assert_eq!(failed, Err(ControllerError::ExecutionLimitExceeded));

    assert_eq!(live.observe(), before);
}

#[test]
fn errors_describe_themselves() {
    let cases = [
        (
            ControllerError::ScriptUnreadable("gone".to_string()),
            "could not read controller script: gone",
        ),
        (ControllerError::ScriptInvalid("x".to_string()), "controller script error: x"),
        (
            ControllerError::MissingCallback,
            "controller script does not define an on_tick function",
        ),
        (ControllerError::CallbackFailed("boom".to_string()), "controller runtime error: boom"),
        (ControllerError::InvalidAction("y".to_string()), "invalid controller action: y"),
        (ControllerError::ExecutionLimitExceeded, "controller execution limit exceeded"),
    ];
    for (error, message) in cases {
        assert_eq!(error.describe(), message);
    }
}

#[test]
fn the_satellite_view_shows_what_is_known_north_at_the_top() {
    let mut simulation = started();
    walk(&mut simulation, &[Action::Scan]);
    let observation = simulation.observe();

    let picture = render_satellite_view(
        observation.drone_position,
        simulation.map_width(),
        simulation.map_height(),
        &observation.discovered,
    );

    assert_eq!(picture, "? ? ? ? ?\n? ? ? ? ?\n. # # ? ?\n. . . ? ?\n@ # # ? ?");
}

#[test]
fn the_satellite_view_shows_hazard_and_uplink() {
    let mut simulation = started();
    walk(&mut simulation, &TO_THE_HAZARD);
    walk(&mut simulation, &[Action::Scan, Action::MoveNorth, Action::MoveNorth]);
    let observation = simulation.observe();

    let picture = render_satellite_view(
        observation.drone_position,
        simulation.map_width(),
        simulation.map_height(),
        &observation.discovered,
    );

    assert_eq!(picture, "? ? ? ? U\n? ? # # @\n. # # # ~\n. . . . .\n. # # # .");
}
