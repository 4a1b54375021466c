//! The deterministic operation simulation: a drone on a facility map, with a
//! limited budget, that learns about the map as it goes.
//!
//! Every action costs one unit of budget; entering a hazard costs more. What
//! a controller may know of the map is what `observe` gives out: the tiles
//! discovered so far, and nothing else.

use vstd::prelude::*;

verus! {

/// What every action costs.
pub const ACTION_COST: u32 = 1;

/// What entering a hazard costs on top of the action.
pub const HAZARD_COST: u32 = 5;

/// How far a scan reaches in each direction.
pub const SCAN_RADIUS: i32 = 2;

/// No map is larger than this in either direction.
pub const MAX_MAP_SIZE: i32 = 1000;

/// A position on the map; `x` grows to the east and `y` to the north.
#[derive(Debug, Clone, Copy, PartialEq, Eq, Hash, Structural)]
pub struct Position {
    pub x: i32,
    pub y: i32,
}

/// What a tile of the map is made of.
#[derive(Debug, Clone, Copy, PartialEq, Eq, Structural)]
pub enum Tile {
    Floor,
    Wall,
    Hazard,
}

/// A tile as the drone knows it.
#[derive(Debug, Clone, Copy, PartialEq, Eq, Structural)]
pub struct DiscoveredTile {
    pub position: Position,
    pub tile: Tile,
    /// Whether the drone could occupy the tile.
    pub traversable: bool,
    /// Whether the tile is the network-uplink objective.
    pub uplink: bool,
}

/// What a controller can have the drone do in one tick.
#[derive(Debug, Clone, Copy, PartialEq, Eq, Structural)]
pub enum Action {
    MoveNorth,
    MoveSouth,
    MoveEast,
    MoveWest,
    Wait,
    Scan,
}

/// Why an operation failed.
#[derive(Debug, Clone, Copy, PartialEq, Eq, Structural)]
pub enum FailureReason {
    BudgetExhausted,
}

/// Whether an operation goes on, or how it ended.
#[derive(Debug, Clone, Copy, PartialEq, Eq, Structural)]
pub enum TickOutcome {
    Running,
    Succeeded,
    Failed(FailureReason),
}

/// Something that happened in a tick besides the action itself.
#[derive(Debug, Clone, Copy, PartialEq, Eq, Structural)]
pub enum SimEvent {
    /// The drone entered a hazard, which cost `amount` extra.
    HazardEntered { position: Position, amount: u32 },
    /// The drone reached the uplink.
    UplinkReached { position: Position },
}

/// Why a move is not possible.
#[derive(Debug, Clone, Copy, PartialEq, Eq, Structural)]
pub enum MoveError {
    OffMap,
    IntoWall,
}

/// The mathematical picture of a scenario: its map, row by row from the
/// south, and where and with what budget the drone starts.
#[verifier::ext_equal]
pub struct ScenarioModel {
    pub rows: Seq<Seq<Tile>>,
    pub width: int,
    pub height: int,
    pub start: Position,
    pub uplink: Position,
    pub budget: int,
}

impl ScenarioModel {
    /// Whether the position is on the map.
    pub open spec fn on_map(self, p: Position) -> bool {
        0 <= p.x < self.width && 0 <= p.y < self.height
    }

    /// The tile at a position of the map.
    pub open spec fn tile(self, p: Position) -> Tile {
        self.rows[p.y as int][p.x as int]
    }

    /// The tile at a position of the map, as the drone gets to know it.
    pub open spec fn seen(self, p: Position) -> DiscoveredTile {
        DiscoveredTile {
            position: p,
            tile: self.tile(p),
            traversable: self.tile(p) != Tile::Wall,
            uplink: p == self.uplink,
        }
    }

    /// The rows make up the map, which is of a reasonable size; the drone
    /// starts on it, off the uplink, with some budget.
    pub open spec fn wf(self) -> bool {
        &&& 0 < self.width <= MAX_MAP_SIZE
        &&& 0 < self.height <= MAX_MAP_SIZE
        &&& self.rows.len() == self.height
        &&& forall|y: int| 0 <= y < self.height ==> (#[trigger] self.rows[y]).len() == self.width
        &&& self.on_map(self.start)
        &&& self.tile(self.start) != Tile::Wall
        &&& self.start != self.uplink
        &&& 0 < self.budget <= u32::MAX
    }
}

/// The map of a facility.
pub struct FacilityMap {
    width: i32,
    height: i32,
    rows: Vec<Vec<Tile>>,
}

impl FacilityMap {
    /// The tiles, row by row from the south.
    pub closed spec fn tiles(&self) -> Seq<Seq<Tile>> {
        Seq::new(self.rows@.len(), |y: int| self.rows@[y]@)
    }

    pub closed spec fn spec_width(&self) -> int {
        self.width as int
    }

    pub closed spec fn spec_height(&self) -> int {
        self.height as int
    }

    /// How many tiles the map has from west to east.
    pub fn width(&self) -> (width: i32)
        ensures
            width == self.spec_width(),
    {
        self.width
    }

    /// How many tiles the map has from south to north.
    pub fn height(&self) -> (height: i32)
        ensures
            height == self.spec_height(),
    {
        self.height
    }
}

/// A fixed operation: a map, a start, an objective and a budget.
pub struct Scenario {
    map: FacilityMap,
    drone_start: Position,
    uplink: Position,
    starting_budget: u32,
}

/// The tile of the First Contact map at column `x` and row `y`: a ring of
/// floor round two blocks of wall, with one hazard on the eastern side.
pub open spec fn first_contact_tile(x: int, y: int) -> Tile {
    if x == 4 && y == 2 {
        Tile::Hazard
    } else if 1 <= x <= 3 && (y == 0 || y == 2 || y == 3) {
        Tile::Wall
    } else {
        Tile::Floor
    }
}

/// The First Contact scenario: five by five tiles, from the south-western
/// corner to the uplink in the north-eastern one, with a budget of fifteen.
pub open spec fn first_contact_model() -> ScenarioModel {
    ScenarioModel {
        rows: Seq::new(5, |y: int| Seq::new(5, |x: int| first_contact_tile(x, y))),
        width: 5,
        height: 5,
        start: Position { x: 0, y: 0 },
        uplink: Position { x: 4, y: 4 },
        budget: 15,
    }
}

impl Scenario {
    pub closed spec fn view(&self) -> ScenarioModel {
        ScenarioModel {
            rows: self.map.tiles(),
            width: self.map.spec_width(),
            height: self.map.spec_height(),
            start: self.drone_start,
            uplink: self.uplink,
            budget: self.starting_budget as int,
        }
    }

    /// The fixed First Contact training operation.
    pub fn first_contact() -> (scenario: Scenario)
        ensures
            scenario@ == first_contact_model(),
            scenario@.wf(),
    {
        let open: Vec<Tile> = vec![Tile::Floor, Tile::Floor, Tile::Floor, Tile::Floor, Tile::Floor];
        let top: Vec<Tile> = vec![Tile::Floor, Tile::Floor, Tile::Floor, Tile::Floor, Tile::Floor];
        let south: Vec<Tile> = vec![Tile::Floor, Tile::Wall, Tile::Wall, Tile::Wall, Tile::Floor];
        let north: Vec<Tile> = vec![Tile::Floor, Tile::Wall, Tile::Wall, Tile::Wall, Tile::Floor];
        let hazardous: Vec<Tile> = vec![
            Tile::Floor,
            Tile::Wall,
            Tile::Wall,
            Tile::Wall,
            Tile::Hazard,
        ];
        let scenario = Scenario {
            map: FacilityMap { width: 5, height: 5, rows: vec![south, open, hazardous, north, top] },
            drone_start: Position { x: 0, y: 0 },
            uplink: Position { x: 4, y: 4 },
            starting_budget: 15,
        };
        assert(scenario@.rows =~~= first_contact_model().rows);
        scenario
    }

    /// The map of the facility.
    pub fn map(&self) -> (map: &FacilityMap)
        ensures
            map.tiles() == self@.rows,
            map.spec_width() == self@.width,
            map.spec_height() == self@.height,
    {
        &self.map
    }

    /// Where the drone starts.
    pub fn drone_start(&self) -> (start: Position)
        ensures
            start == self@.start,
    {
        self.drone_start
    }

    /// The budget that the drone starts with.
    pub fn starting_budget(&self) -> (budget: u32)
        ensures
            budget == self@.budget,
    {
        self.starting_budget
    }
}

/// Whether the tile at `p` is among the discovered ones.
pub open spec fn knows(discovered: Seq<DiscoveredTile>, p: Position) -> bool {
    exists|i: int| 0 <= i < discovered.len() && (#[trigger] discovered[i]).position == p
}

/// What is discovered once the drone has also seen `p`: a tile that is off
/// the map or known already adds nothing.
pub open spec fn learned(
    scenario: ScenarioModel,
    discovered: Seq<DiscoveredTile>,
    p: Position,
) -> Seq<DiscoveredTile> {
    if scenario.on_map(p) && !knows(discovered, p) {
        discovered.push(scenario.seen(p))
    } else {
        discovered
    }
}

/// What is discovered once the drone has also seen `seen`, in that order.
pub open spec fn learned_all(
    scenario: ScenarioModel,
    discovered: Seq<DiscoveredTile>,
    seen: Seq<Position>,
) -> Seq<DiscoveredTile>
    decreases seen.len(),
{
    if seen.len() == 0 {
        discovered
    } else {
        learned(scenario, learned_all(scenario, discovered, seen.drop_last()), seen.last())
    }
}

/// The position one step from `p` in the direction of a move; any other
/// action stays.
pub open spec fn target(p: Position, action: Action) -> Position {
    match action {
        Action::MoveNorth => Position { x: p.x, y: (p.y + 1) as i32 },
        Action::MoveSouth => Position { x: p.x, y: (p.y - 1) as i32 },
        Action::MoveEast => Position { x: (p.x + 1) as i32, y: p.y },
        Action::MoveWest => Position { x: (p.x - 1) as i32, y: p.y },
        Action::Wait => p,
        Action::Scan => p,
    }
}

/// Whether an action moves the drone.
pub open spec fn is_move(action: Action) -> bool {
    action != Action::Wait && action != Action::Scan
}

/// The drone's own tile and its four neighbours.
pub open spec fn neighbourhood(p: Position) -> Seq<Position> {
    seq![
        p,
        target(p, Action::MoveNorth),
        target(p, Action::MoveSouth),
        target(p, Action::MoveEast),
        target(p, Action::MoveWest),
    ]
}

/// The square of tiles that a scan reveals, row by row from the south-west.
pub open spec fn scan_area(p: Position) -> Seq<Position> {
    Seq::new(
        25,
        |i: int|
            Position { x: (p.x - SCAN_RADIUS + i % 5) as i32, y: (p.y - SCAN_RADIUS + i / 5) as i32 },
    )
}

/// The mathematical picture of a simulation.
#[verifier::ext_equal]
pub struct SimulationModel {
    pub scenario: ScenarioModel,
    pub drone: Position,
    pub tick: int,
    pub budget: int,
    pub discovered: Seq<DiscoveredTile>,
    pub outcome: TickOutcome,
}

impl SimulationModel {
    /// The drone stands on the map; while the operation runs there is budget
    /// left; every tick so far has cost something.
    pub open spec fn wf(self) -> bool {
        &&& self.scenario.wf()
        &&& self.scenario.on_map(self.drone)
        &&& 0 <= self.tick
        &&& 0 <= self.budget
        &&& self.tick + self.budget <= self.scenario.budget
        &&& self.outcome is Running ==> self.budget > 0
    }

    /// A scenario that was just started: the drone knows its surroundings.
    pub open spec fn started(scenario: ScenarioModel) -> SimulationModel {
        SimulationModel {
            scenario,
            drone: scenario.start,
            tick: 0,
            budget: scenario.budget,
            discovered: learned_all(scenario, Seq::empty(), neighbourhood(scenario.start)),
            outcome: TickOutcome::Running,
        }
    }

    /// What a controller may know.
    pub open spec fn observation(self) -> ObservationModel {
        ObservationModel {
            drone_position: self.drone,
            tick: self.tick,
            budget_remaining: self.budget,
            discovered: self.discovered,
        }
    }

    /// Why the action is not possible here, if it is not.
    pub open spec fn refusal(self, action: Action) -> Option<MoveError> {
        let to = target(self.drone, action);
        if !self.scenario.on_map(to) {
            Some(MoveError::OffMap)
        } else if is_move(action) && self.scenario.tile(to) == Tile::Wall {
            Some(MoveError::IntoWall)
        } else {
            None
        }
    }

    /// Whether the action takes the drone into a hazard.
    pub open spec fn enters_hazard(self, action: Action) -> bool {
        is_move(action) && self.scenario.tile(target(self.drone, action)) == Tile::Hazard
    }

    /// What the action costs.
    pub open spec fn cost(self, action: Action) -> int {
        ACTION_COST + if self.enters_hazard(action) {
            HAZARD_COST as int
        } else {
            0
        }
    }

    /// The simulation after an action that is possible.
    pub open spec fn stepped(self, action: Action) -> SimulationModel {
        let drone = target(self.drone, action);
        let budget = if self.budget < self.cost(action) {
            0
        } else {
            self.budget - self.cost(action)
        };
        let scanned = if action == Action::Scan {
            learned_all(self.scenario, self.discovered, scan_area(self.drone))
        } else {
            self.discovered
        };
        SimulationModel {
            scenario: self.scenario,
            drone,
            tick: self.tick + 1,
            budget,
            discovered: learned_all(self.scenario, scanned, neighbourhood(drone)),
            outcome: if drone == self.scenario.uplink {
                TickOutcome::Succeeded
            } else if budget == 0 {
                TickOutcome::Failed(FailureReason::BudgetExhausted)
            } else {
                TickOutcome::Running
            },
        }
    }

    /// What happens in the tick of an action that is possible.
    pub open spec fn events(self, action: Action) -> Seq<SimEvent> {
        let to = target(self.drone, action);
        let hazard = if self.enters_hazard(action) {
            seq![SimEvent::HazardEntered { position: to, amount: HAZARD_COST }]
        } else {
            Seq::empty()
        };
        if to == self.scenario.uplink {
            hazard.push(SimEvent::UplinkReached { position: to })
        } else {
            hazard
        }
    }
}

/// What a controller may know: the drone's own state and the tiles it has
/// discovered.
#[derive(Debug, Clone, PartialEq, Eq)]
pub struct Observation {
    pub drone_position: Position,
    pub tick: u32,
    pub budget_remaining: u32,
    pub discovered: Vec<DiscoveredTile>,
}

/// The mathematical picture of an observation.
#[verifier::ext_equal]
pub struct ObservationModel {
    pub drone_position: Position,
    pub tick: int,
    pub budget_remaining: int,
    pub discovered: Seq<DiscoveredTile>,
}

impl Observation {
    pub open spec fn view(&self) -> ObservationModel {
        ObservationModel {
            drone_position: self.drone_position,
            tick: self.tick as int,
            budget_remaining: self.budget_remaining as int,
            discovered: self.discovered@,
        }
    }
}

/// A copy of a list of discovered tiles.
pub fn copy_tiles(tiles: &[DiscoveredTile]) -> (copy: Vec<DiscoveredTile>)
    ensures
        copy@ == tiles@,
{
    let mut copy: Vec<DiscoveredTile> = Vec::new();
    for i in 0..tiles.len()
        invariant
            copy@ =~= tiles@.take(i as int),
    {
        copy.push(tiles[i]);
    }
    copy
}

/// An operation under way in a scenario.
pub struct Simulation {
    scenario: Scenario,
    drone_position: Position,
    tick: u32,
    budget_remaining: u32,
    discovered: Vec<DiscoveredTile>,
    outcome: TickOutcome,
}

impl Simulation {
    pub closed spec fn view(&self) -> SimulationModel {
        SimulationModel {
            scenario: self.scenario@,
            drone: self.drone_position,
            tick: self.tick as int,
            budget: self.budget_remaining as int,
            discovered: self.discovered@,
            outcome: self.outcome,
        }
    }

    /// Starts an operation: the drone is at its start, with the full budget,
    /// and sees its surroundings.
    pub fn new(scenario: Scenario) -> (simulation: Simulation)
        requires
            scenario@.wf(),
        ensures
            simulation@ == SimulationModel::started(scenario@),
            simulation@.wf(),
    {
        let drone_position = scenario.drone_start;
        let budget_remaining = scenario.starting_budget;
        let mut simulation = Simulation {
            scenario,
            drone_position,
            tick: 0,
            budget_remaining,
            discovered: Vec::new(),
            outcome: TickOutcome::Running,
        };
        simulation.look_around();
        simulation
    }

    /// How the operation stands.
    pub fn outcome(&self) -> (outcome: TickOutcome)
        ensures
            outcome == self@.outcome,
    {
        self.outcome
    }

    /// How many tiles the map has from west to east.
    pub fn map_width(&self) -> (width: i32)
        ensures
            width == self@.scenario.width,
    {
        self.scenario.map().width()
    }

    /// How many tiles the map has from south to north.
    pub fn map_height(&self) -> (height: i32)
        ensures
            height == self@.scenario.height,
    {
        self.scenario.map().height()
    }

    /// What a controller may know at this point.
    pub fn observe(&self) -> (observation: Observation)
        ensures
            observation@ == self@.observation(),
    {
        Observation {
            drone_position: self.drone_position,
            tick: self.tick,
            budget_remaining: self.budget_remaining,
            discovered: copy_tiles(&self.discovered),
        }
    }

    /// Carries out one action. An impossible move changes nothing, and costs
    /// nothing.
    pub fn step(&mut self, action: Action) -> (result: Result<Vec<SimEvent>, MoveError>)
        requires
            old(self)@.wf(),
            old(self)@.outcome is Running,
        ensures
            match result {
                Ok(events) => {
                    &&& old(self)@.refusal(action) is None
                    &&& final(self)@ == old(self)@.stepped(action)
                    &&& events@ == old(self)@.events(action)
                },
                Err(error) => {
                    &&& old(self)@.refusal(action) == Some(error)
                    &&& final(self)@ == old(self)@
                },
            },
            final(self)@.wf(),
    {
        let from = self.drone_position;
        let to = match action {
            Action::MoveNorth => Position { x: from.x, y: from.y + 1 },
            Action::MoveSouth => Position { x: from.x, y: from.y - 1 },
            Action::MoveEast => Position { x: from.x + 1, y: from.y },
            Action::MoveWest => Position { x: from.x - 1, y: from.y },
            Action::Wait => from,
            Action::Scan => from,
        };
        let moves = match action {
            Action::Wait => false,
            Action::Scan => false,
            _ => true,
        };
        let tile = match self.tile_at(to) {
            Some(tile) => tile,
            None => {
                return Err(MoveError::OffMap);
            },
        };
        if moves && tile == Tile::Wall {
            return Err(MoveError::IntoWall);
        }
        let mut events: Vec<SimEvent> = Vec::new();
        let mut cost: u32 = ACTION_COST;
        if moves && tile == Tile::Hazard {
            cost = cost + HAZARD_COST;
            events.push(SimEvent::HazardEntered { position: to, amount: HAZARD_COST });
        }
        if action == Action::Scan {
            self.scan();
        }
        self.drone_position = to;
        self.look_around();
        self.tick = self.tick + 1;
        self.budget_remaining = if self.budget_remaining < cost {
            0
        } else {
            self.budget_remaining - cost
        };
        if to == self.scenario.uplink {
            events.push(SimEvent::UplinkReached { position: to });
            self.outcome = TickOutcome::Succeeded;
        } else if self.budget_remaining == 0 {
            self.outcome = TickOutcome::Failed(FailureReason::BudgetExhausted);
        }
        Ok(events)
    }

    /// The tile at a position, if it is on the map.
    fn tile_at(&self, p: Position) -> (tile: Option<Tile>)
        requires
            self@.scenario.wf(),
        ensures
            tile == if self@.scenario.on_map(p) {
                Some(self@.scenario.tile(p))
            } else {
                None
            },
    {
        let map = &self.scenario.map;
        if 0 <= p.x && p.x < map.width && 0 <= p.y && p.y < map.height {
            assert(self@.scenario.rows[p.y as int].len() == map.width);
            Some(map.rows[p.y as usize][p.x as usize])
        } else {
            None
        }
    }

    /// Whether the tile at a position has been discovered.
    fn is_known(&self, p: Position) -> (known: bool)
        ensures
            known == knows(self@.discovered, p),
    {
        for i in 0..self.discovered.len()
            invariant
                forall|j: int| 0 <= j < i ==> (#[trigger] self.discovered@[j]).position != p,
        {
            if self.discovered[i].position == p {
                return true;
            }
        }
        false
    }

    /// Remembers the tile at a position, unless it is off the map or known.
    fn learn(&mut self, p: Position)
        requires
            old(self)@.scenario.wf(),
        ensures
            final(self)@ == (SimulationModel {
                discovered: learned(old(self)@.scenario, old(self)@.discovered, p),
                ..old(self)@
            }),
    {
        match self.tile_at(p) {
            Some(tile) => {
                if !self.is_known(p) {
                    let discovered = DiscoveredTile {
                        position: p,
                        tile,
                        traversable: tile != Tile::Wall,
                        uplink: p == self.scenario.uplink,
                    };
                    self.discovered.push(discovered);
                }
            },
            None => {},
        }
    }

    /// Remembers the drone's own tile and its four neighbours.
    fn look_around(&mut self)
        requires
            old(self)@.scenario.wf(),
            old(self)@.scenario.on_map(old(self)@.drone),
        ensures
            final(self)@ == (SimulationModel {
                discovered: learned_all(
                    old(self)@.scenario,
                    old(self)@.discovered,
                    neighbourhood(old(self)@.drone),
                ),
                ..old(self)@
            }),
    {
        let p = self.drone_position;
        let ghost around = neighbourhood(p);
        proof {
            reveal_with_fuel(learned_all, 6);
            assert(around.drop_last() =~= around.take(4));
            assert(around.take(4).drop_last() =~= around.take(3));
            assert(around.take(3).drop_last() =~= around.take(2));
            assert(around.take(2).drop_last() =~= around.take(1));
            assert(around.take(1).drop_last() =~= around.take(0));
        }
        self.learn(p);
        self.learn(Position { x: p.x, y: p.y + 1 });
        self.learn(Position { x: p.x, y: p.y - 1 });
        self.learn(Position { x: p.x + 1, y: p.y });
        self.learn(Position { x: p.x - 1, y: p.y });
    }

    /// Remembers every tile of the square round the drone, walls or not.
    fn scan(&mut self)
        requires
            old(self)@.scenario.wf(),
            old(self)@.scenario.on_map(old(self)@.drone),
        ensures
            final(self)@ == (SimulationModel {
                discovered: learned_all(
                    old(self)@.scenario,
                    old(self)@.discovered,
                    scan_area(old(self)@.drone),
                ),
                ..old(self)@
            }),
    {
        let p = self.drone_position;
        let ghost area = scan_area(p);
        let ghost before = self@;
        for i in 0..25i32
            invariant
                area == scan_area(p),
                before.scenario.wf(),
                before.scenario.on_map(p),
                before == old(self)@,
                self@ == (SimulationModel {
                    discovered: learned_all(before.scenario, before.discovered, area.take(i as int)),
                    ..before
                }),
        {
            let seen = Position { x: p.x - SCAN_RADIUS + i % 5, y: p.y - SCAN_RADIUS + i / 5 };
            assert(area.take(i + 1).drop_last() =~= area.take(i as int));
            assert(area.take(i + 1).last() == seen);
            self.learn(seen);
        }
        assert(area.take(25) =~= area);
    }
}

/// Whether what is discovered is true of the scenario, each tile once.
pub open spec fn faithful(scenario: ScenarioModel, discovered: Seq<DiscoveredTile>) -> bool {
    &&& forall|i: int|
        0 <= i < discovered.len() ==> scenario.on_map((#[trigger] discovered[i]).position)
            && discovered[i] == scenario.seen(discovered[i].position)
    &&& forall|i: int, j: int|
        0 <= i < j < discovered.len() ==> (#[trigger] discovered[i]).position != (
        #[trigger] discovered[j]).position
}

/// Learning keeps what was discovered, and adds the seen tiles of the map.
proof fn lemma_learned_all(
    scenario: ScenarioModel,
    discovered: Seq<DiscoveredTile>,
    seen: Seq<Position>,
)
    ensures
        discovered.len() <= learned_all(scenario, discovered, seen).len(),
        forall|i: int|
            0 <= i < discovered.len() ==> learned_all(scenario, discovered, seen)[i]
                == #[trigger] discovered[i],
        forall|p: Position| #[trigger]
            knows(learned_all(scenario, discovered, seen), p) <==> knows(discovered, p) || (
            scenario.on_map(p) && seen.contains(p)),
        faithful(scenario, discovered) ==> faithful(
            scenario,
            learned_all(scenario, discovered, seen),
        ),
    decreases seen.len(),
{
    if seen.len() > 0 {
        let rest = seen.drop_last();
        let before = learned_all(scenario, discovered, rest);
        let after = learned_all(scenario, discovered, seen);
        lemma_learned_all(scenario, discovered, rest);
        assert forall|p: Position| #[trigger] knows(after, p) <==> knows(discovered, p) || (
        scenario.on_map(p) && seen.contains(p)) by {
            assert(seen.contains(p) <==> rest.contains(p) || seen.last() == p) by {
                if seen.contains(p) {
                    let i = choose|i: int| 0 <= i < seen.len() && seen[i] == p;
                    if i < seen.len() - 1 {
                        assert(rest[i] == p);
                    }
                }
                if rest.contains(p) {
                    let i = choose|i: int| 0 <= i < rest.len() && rest[i] == p;
                    assert(seen[i] == p);
                }
                if seen.last() == p {
                    assert(seen[seen.len() - 1] == p);
                }
            }
            if knows(before, p) {
                let i = choose|i: int|
                    0 <= i < before.len() && (#[trigger] before[i]).position == p;
                assert(after[i].position == p);
            }
            if knows(after, p) && !knows(before, p) {
                let i = choose|i: int| 0 <= i < after.len() && (#[trigger] after[i]).position == p;
                if i < before.len() {
                    assert(before[i].position == p);
                }
            }
            if scenario.on_map(p) && seen.last() == p && !knows(before, p) {
                assert(after[before.len() as int].position == p);
            }
        }
        if faithful(scenario, discovered) {
            assert forall|i: int, j: int| 0 <= i < j < after.len() implies (
            #[trigger] after[i]).position != (#[trigger] after[j]).position by {
                if j == before.len() {
                    assert(before[i].position == after[i].position);
                }
            }
        }
    }
}

/// What the drone knows when the operation starts, and after every tick from
/// then on, is true of the map.
pub proof fn law_discoveries_are_true(simulation: SimulationModel, action: Action)
    requires
        faithful(simulation.scenario, simulation.discovered),
    ensures
        faithful(
            simulation.scenario,
            SimulationModel::started(simulation.scenario).discovered,
        ),
        faithful(simulation.scenario, simulation.stepped(action).discovered),
{
    let scenario = simulation.scenario;
    lemma_learned_all(scenario, Seq::empty(), neighbourhood(scenario.start));
    lemma_learned_all(scenario, simulation.discovered, scan_area(simulation.drone));
    let scanned = if action == Action::Scan {
        learned_all(scenario, simulation.discovered, scan_area(simulation.drone))
    } else {
        simulation.discovered
    };
    lemma_learned_all(scenario, scanned, neighbourhood(target(simulation.drone, action)));
}

/// The place of a tile of a map of the given width, counted row by row.
spec fn place(width: int, tile: DiscoveredTile) -> int {
    tile.position.y * width + tile.position.x
}

/// No more tiles are discovered than the map has.
pub proof fn law_discoveries_fit_the_map(
    scenario: ScenarioModel,
    discovered: Seq<DiscoveredTile>,
)
    requires
        scenario.wf(),
        faithful(scenario, discovered),
    ensures
        discovered.len() <= scenario.width * scenario.height,
{
    let (width, height) = (scenario.width, scenario.height);
    let places = Seq::new(discovered.len(), |i: int| place(width, discovered[i]));
    assert(width * height >= 0) by (nonlinear_arith)
        requires
            width > 0,
            height > 0,
    ;
    assert forall|i: int| 0 <= i < places.len() implies 0 <= #[trigger] places[i] < width
        * height by {
        let p = discovered[i].position;
        assert(0 <= p.y * width + p.x < width * height) by (nonlinear_arith)
            requires
                0 <= p.x < width,
                0 <= p.y < height,
        ;
    }
    assert(places.no_duplicates()) by {
        assert forall|i: int, j: int|
            0 <= i < places.len() && 0 <= j < places.len() && i != j implies places[i]
            != places[j] by {
            let (p, q) = (discovered[i].position, discovered[j].position);
            assert(p != q);
            assert(p.y * width + p.x != q.y * width + q.x) by (nonlinear_arith)
                requires
                    0 <= p.x < width,
                    0 <= q.x < width,
                    p.x != q.x || p.y != q.y,
            ;
        }
    }
    places.unique_seq_to_set();
    vstd::set_lib::lemma_int_range(0, width * height);
    vstd::set_lib::lemma_len_subset(
        places.to_set(),
        vstd::set_lib::set_int_range(0, width * height),
    );
}

/// Discoveries persist: what was discovered before a tick is discovered after
/// it, in the same places of the list.
pub proof fn law_discoveries_persist(simulation: SimulationModel, action: Action)
    ensures
        simulation.discovered.len() <= simulation.stepped(action).discovered.len(),
        forall|i: int|
            0 <= i < simulation.discovered.len() ==> simulation.stepped(action).discovered[i]
                == #[trigger] simulation.discovered[i],
{
    let scenario = simulation.scenario;
    lemma_learned_all(scenario, simulation.discovered, scan_area(simulation.drone));
    let scanned = if action == Action::Scan {
        learned_all(scenario, simulation.discovered, scan_area(simulation.drone))
    } else {
        simulation.discovered
    };
    lemma_learned_all(scenario, scanned, neighbourhood(target(simulation.drone, action)));
    assert forall|i: int| 0 <= i < simulation.discovered.len() implies simulation.stepped(
        action,
    ).discovered[i] == #[trigger] simulation.discovered[i] by {
        assert(scanned[i] == simulation.discovered[i]);
    }
}

/// Whether `p` is the drone's own tile or one of its four neighbours.
pub open spec fn adjacent(drone: Position, p: Position) -> bool {
    ||| p.x == drone.x && -1 <= p.y - drone.y <= 1
    ||| p.y == drone.y && -1 <= p.x - drone.x <= 1
}

/// Whether `p` lies in the square that a scan reveals.
pub open spec fn in_scan_range(drone: Position, p: Position) -> bool {
    -SCAN_RADIUS <= p.x - drone.x <= SCAN_RADIUS && -SCAN_RADIUS <= p.y - drone.y <= SCAN_RADIUS
}

proof fn lemma_neighbourhood(scenario: ScenarioModel, drone: Position, p: Position)
    requires
        scenario.wf(),
        scenario.on_map(drone),
        scenario.on_map(p),
    ensures
        neighbourhood(drone).contains(p) <==> adjacent(drone, p),
{
    let around = neighbourhood(drone);
    if adjacent(drone, p) {
        assert(around[0] == p || around[1] == p || around[2] == p || around[3] == p || around[4]
            == p);
    }
}

proof fn lemma_scan_area(scenario: ScenarioModel, drone: Position, p: Position)
    requires
        scenario.wf(),
        scenario.on_map(drone),
        scenario.on_map(p),
    ensures
        scan_area(drone).contains(p) <==> in_scan_range(drone, p),
{
    let area = scan_area(drone);
    if in_scan_range(drone, p) {
        let i = (p.y - drone.y + SCAN_RADIUS) * 5 + (p.x - drone.x + SCAN_RADIUS);
        assert(area[i] == p);
    }
}

/// What a tick discovers: besides what was known, exactly the tiles of the
/// map that are adjacent to where the drone then is and, in a scan, those of
/// the square round the drone, walls or not.
pub proof fn law_what_a_tick_discovers(simulation: SimulationModel, action: Action, p: Position)
    requires
        simulation.wf(),
        simulation.refusal(action) is None,
        simulation.scenario.on_map(p),
    ensures
        knows(simulation.stepped(action).discovered, p) <==> knows(simulation.discovered, p)
            || adjacent(simulation.stepped(action).drone, p) || (action == Action::Scan
            && in_scan_range(simulation.drone, p)),
{
    let scenario = simulation.scenario;
    let drone = target(simulation.drone, action);
    lemma_learned_all(scenario, simulation.discovered, scan_area(simulation.drone));
    let scanned = if action == Action::Scan {
        learned_all(scenario, simulation.discovered, scan_area(simulation.drone))
    } else {
        simulation.discovered
    };
    lemma_learned_all(scenario, scanned, neighbourhood(drone));
    lemma_neighbourhood(scenario, drone, p);
    lemma_scan_area(scenario, simulation.drone, p);
    assert(knows(simulation.stepped(action).discovered, p) <==> knows(scanned, p)
        || neighbourhood(drone).contains(p));
}

/// Reaching the uplink succeeds, also on the action that uses up the budget.
pub proof fn law_reaching_the_uplink_succeeds(simulation: SimulationModel, action: Action)
    requires
        target(simulation.drone, action) == simulation.scenario.uplink,
    ensures
        simulation.stepped(action).outcome == TickOutcome::Succeeded,
{
}

/// An operation whose budget runs out short of the uplink has failed, and one
/// with budget left short of the uplink goes on.
pub proof fn law_budget_decides_short_of_the_uplink(simulation: SimulationModel, action: Action)
    requires
        target(simulation.drone, action) != simulation.scenario.uplink,
    ensures
        simulation.stepped(action).outcome == if simulation.stepped(action).budget == 0 {
            TickOutcome::Failed(FailureReason::BudgetExhausted)
        } else {
            TickOutcome::Running
        },
{
}

/// Waiting and scanning cost the price of an action, also on a hazard, and
/// leave the drone where it is.
pub proof fn law_staying_costs_one_action(simulation: SimulationModel, action: Action)
    requires
        simulation.wf(),
        simulation.outcome is Running,
        !is_move(action),
    ensures
        simulation.refusal(action) is None,
        simulation.stepped(action).drone == simulation.drone,
        simulation.stepped(action).budget == simulation.budget - ACTION_COST,
{
}

/// Every tick of a running operation uses up budget, so that an operation has
/// no more ticks than its starting budget.
pub proof fn law_operation_ends(simulation: SimulationModel, action: Action)
    requires
        simulation.wf(),
        simulation.outcome is Running,
        simulation.refusal(action) is None,
    ensures
        simulation.stepped(action).budget < simulation.budget,
        simulation.stepped(action).tick == simulation.tick + 1,
        simulation.stepped(action).wf(),
        simulation.stepped(action).tick <= simulation.scenario.budget,
{
}

/// Where an action takes the drone, as a controller observes it: one step to
/// the north, south, east or west, or nowhere.
pub proof fn law_actions_move_the_drone(simulation: SimulationModel, action: Action)
    requires
        simulation.wf(),
    ensures
        ({
            let before = simulation.observation().drone_position;
            let after = simulation.stepped(action).observation().drone_position;
            &&& before == simulation.drone
            &&& after == simulation.stepped(action).drone
            &&& after.x - before.x == match action {
                Action::MoveEast => 1int,
                Action::MoveWest => -1,
                Action::MoveNorth => 0,
                Action::MoveSouth => 0,
                Action::Wait => 0,
                Action::Scan => 0,
            }
            &&& after.y - before.y == match action {
                Action::MoveNorth => 1int,
                Action::MoveSouth => -1,
                Action::MoveEast => 0,
                Action::MoveWest => 0,
                Action::Wait => 0,
                Action::Scan => 0,
            }
        }),
{
}

/// A move and the opposite move lead back to where the drone was.
pub proof fn law_opposite_moves_cancel(simulation: SimulationModel, there: Action, back: Action)
    requires
        simulation.wf(),
        simulation.outcome is Running,
        simulation.refusal(there) is None,
        there == Action::MoveNorth && back == Action::MoveSouth || there == Action::MoveSouth
            && back == Action::MoveNorth || there == Action::MoveEast && back == Action::MoveWest
            || there == Action::MoveWest && back == Action::MoveEast,
    ensures
        simulation.stepped(there).drone != simulation.drone,
        simulation.stepped(there).stepped(back).drone == simulation.drone,
        simulation.scenario.tile(simulation.drone) != Tile::Wall ==> simulation.stepped(
            there,
        ).refusal(back) is None,
{
}

/// An action is possible unless it would take the drone off the map, or into a
/// wall.
pub proof fn law_what_is_refused(simulation: SimulationModel, action: Action)
    requires
        simulation.wf(),
    ensures
        ({
            let scenario = simulation.scenario;
            let to = simulation.stepped(action).drone;
            let on_map = 0 <= to.x < scenario.width && 0 <= to.y < scenario.height;
            let into_wall = on_map && to != simulation.drone
                && scenario.rows[to.y as int][to.x as int] == Tile::Wall;
            &&& simulation.refusal(action) == Some(MoveError::OffMap) <==> !on_map
            &&& simulation.refusal(action) == Some(MoveError::IntoWall) <==> into_wall
            &&& simulation.refusal(action) is None <==> on_map && !into_wall
        }),
{
}

/// What a tick costs: one unit, and five more exactly where it took the drone
/// onto a hazard; never more than there is.
pub proof fn law_what_a_tick_costs(simulation: SimulationModel, action: Action)
    requires
        simulation.wf(),
        simulation.refusal(action) is None,
    ensures
        ({
            let after = simulation.stepped(action);
            let entered = after.drone != simulation.drone
                && simulation.scenario.rows[after.drone.y as int][after.drone.x as int]
                == Tile::Hazard;
            let price: int = if entered {
                6
            } else {
                1
            };
            &&& price <= simulation.budget ==> after.budget == simulation.budget - price
            &&& price > simulation.budget ==> after.budget == 0
            &&& after.tick == simulation.tick + 1
            &&& after.scenario == simulation.scenario
            &&& after.observation().tick == after.tick
            &&& after.observation().budget_remaining == after.budget
            &&& after.observation().discovered == after.discovered
        }),
{
}

/// How an operation stands after a tick: it has succeeded exactly where the
/// drone is on the uplink, it has failed where the budget is used up short of
/// it, and otherwise it goes on.
pub proof fn law_how_a_tick_ends(simulation: SimulationModel, action: Action)
    ensures
        ({
            let after = simulation.stepped(action);
            &&& after.outcome is Succeeded <==> after.drone == simulation.scenario.uplink
            &&& after.outcome is Failed <==> after.drone != simulation.scenario.uplink
                && after.budget == 0
            &&& after.outcome is Running <==> after.drone != simulation.scenario.uplink
                && after.budget != 0
        }),
{
}

/// What happens in a tick: the entering of a hazard exactly where the drone
/// came onto one, for five units of budget, and then the reaching of the
/// uplink exactly where the drone is on it.
pub proof fn law_what_happens_in_a_tick(simulation: SimulationModel, action: Action)
    requires
        simulation.wf(),
        simulation.refusal(action) is None,
    ensures
        ({
            let to = simulation.stepped(action).drone;
            let entered = to != simulation.drone
                && simulation.scenario.rows[to.y as int][to.x as int] == Tile::Hazard;
            let reached = to == simulation.scenario.uplink;
            let events = simulation.events(action);
            &&& events.len() == (if entered {
                1int
            } else {
                0
            }) + if reached {
                1int
            } else {
                0
            }
            &&& entered ==> events[0] == (SimEvent::HazardEntered { position: to, amount: 5 })
            &&& reached ==> events.last() == (SimEvent::UplinkReached { position: to })
        }),
{
}

/// Every tile that is discovered is described as it is: what it is made of,
/// whether the drone could stand on it, and whether it is the uplink.
pub proof fn law_tiles_are_described_as_they_are(simulation: SimulationModel, action: Action)
    requires
        faithful(simulation.scenario, simulation.discovered),
    ensures
        forall|i: int|
            0 <= i < simulation.stepped(action).discovered.len() ==> ({
                let tile = #[trigger] simulation.stepped(action).discovered[i];
                let p = tile.position;
                &&& 0 <= p.x < simulation.scenario.width
                &&& 0 <= p.y < simulation.scenario.height
                &&& tile.tile == simulation.scenario.rows[p.y as int][p.x as int]
                &&& tile.traversable <==> tile.tile == Tile::Floor || tile.tile == Tile::Hazard
                &&& tile.uplink <==> p == simulation.scenario.uplink
            }),
        forall|i: int, j: int|
            0 <= i < j < simulation.stepped(action).discovered.len() ==> (
            #[trigger] simulation.stepped(action).discovered[i]).position != (
            #[trigger] simulation.stepped(action).discovered[j]).position,
{
    law_discoveries_are_true(simulation, action);
}

/// A tile is known exactly where one of the discovered tiles has its position.
pub proof fn law_known_tiles_are_listed(discovered: Seq<DiscoveredTile>, p: Position)
    ensures
        knows(discovered, p) <==> exists|i: int|
            0 <= i < discovered.len() && (#[trigger] discovered[i]).position == p,
{
}

/// What the drone sees in a tick: its own tile and the four beside it, where
/// it then stands; in a scan also the five by five tiles round it.
pub proof fn law_what_a_tick_shows(simulation: SimulationModel, action: Action, p: Position)
    requires
        simulation.wf(),
        simulation.refusal(action) is None,
        0 <= p.x < simulation.scenario.width,
        0 <= p.y < simulation.scenario.height,
    ensures
        ({
            let after = simulation.stepped(action);
            let (east, north) = (p.x - after.drone.x, p.y - after.drone.y);
            let beside = east == 0 && -1 <= north <= 1 || north == 0 && -1 <= east <= 1;
            let scanned = action == Action::Scan && -2 <= east <= 2 && -2 <= north <= 2;
            knows(after.discovered, p) <==> knows(simulation.discovered, p) || beside || scanned
        }),
{
    law_what_a_tick_discovers(simulation, action, p);
}

/// A started operation: nothing done and nothing spent, the drone at the start
/// of the scenario, and of the map only that tile and the four beside it known.
pub proof fn law_how_an_operation_starts(scenario: ScenarioModel, p: Position)
    requires
        scenario.wf(),
        0 <= p.x < scenario.width,
        0 <= p.y < scenario.height,
    ensures
        ({
            let started = SimulationModel::started(scenario);
            let (east, north) = (p.x - scenario.start.x, p.y - scenario.start.y);
            &&& started.scenario == scenario
            &&& started.drone == scenario.start
            &&& started.tick == 0
            &&& started.budget == scenario.budget
            &&& started.outcome is Running
            &&& knows(started.discovered, p) <==> east == 0 && -1 <= north <= 1 || north == 0 && -1
                <= east <= 1
            &&& faithful(scenario, started.discovered)
        }),
{
    lemma_learned_all(scenario, Seq::empty(), neighbourhood(scenario.start));
    lemma_neighbourhood(scenario, scenario.start, p);
}

/// The First Contact map: two routes of equal length, one up the western and
/// along the northern edge, and one along the second row and up the eastern
/// edge, where the one hazard lies; everything else is wall.
pub proof fn law_first_contact_has_two_routes(x: int, y: int)
    requires
        0 <= x < 5,
        0 <= y < 5,
    ensures
        ({
            let scenario = first_contact_model();
            let tile = scenario.rows[y][x];
            &&& scenario.width == 5
            &&& scenario.height == 5
            &&& scenario.start == (Position { x: 0, y: 0 })
            &&& scenario.uplink == (Position { x: 4, y: 4 })
            &&& scenario.budget == 15
            &&& tile == Tile::Hazard <==> x == 4 && y == 2
            &&& tile == Tile::Wall <==> x != 0 && x != 4 && y != 1 && y != 4
        }),
{
}

} // verus!
