//! What a Lua controller does to an operation.
//!
//! Loading a script and calling its `on_tick` is the host's work; here is
//! what follows from it: which replies of `on_tick` are actions, and what a
//! tick of a live operation records.

use vstd::prelude::*;

use crate::simulation::{
    first_contact_model, Action, DiscoveredTile, MoveError, Observation,
    Position, Scenario, SimEvent, Simulation, SimulationModel, TickOutcome,
};
use crate::text::same_text;

verus! {

/// Why a controller could not be loaded, or did not get through a tick.
#[derive(Debug, Clone, PartialEq, Eq)]
pub enum ControllerError {
    /// The script could not be read.
    ScriptUnreadable(String),
    /// The script is not valid Lua, or failed while it was loaded.
    ScriptInvalid(String),
    /// The script defines no global function `on_tick`.
    MissingCallback,
    /// `on_tick` raised an error.
    CallbackFailed(String),
    /// `on_tick` returned something that is no action, or a move that is not
    /// possible.
    InvalidAction(String),
    /// The script ran for too long.
    ExecutionLimitExceeded,
}

/// The mathematical picture of a controller error.
#[verifier::ext_equal]
pub enum ErrorModel {
    ScriptUnreadable(Seq<char>),
    ScriptInvalid(Seq<char>),
    MissingCallback,
    CallbackFailed(Seq<char>),
    InvalidAction(Seq<char>),
    ExecutionLimitExceeded,
}

impl ErrorModel {
    /// The message for the player.
    pub open spec fn message(self) -> Seq<char> {
        match self {
            ErrorModel::ScriptUnreadable(detail) => "could not read controller script: "@ + detail,
            ErrorModel::ScriptInvalid(detail) => "controller script error: "@ + detail,
            ErrorModel::MissingCallback => "controller script does not define an on_tick function"@,
            ErrorModel::CallbackFailed(detail) => "controller runtime error: "@ + detail,
            ErrorModel::InvalidAction(detail) => "invalid controller action: "@ + detail,
            ErrorModel::ExecutionLimitExceeded => "controller execution limit exceeded"@,
        }
    }
}

impl ControllerError {
    pub open spec fn view(&self) -> ErrorModel {
        match self {
            ControllerError::ScriptUnreadable(detail) => ErrorModel::ScriptUnreadable(detail@),
            ControllerError::ScriptInvalid(detail) => ErrorModel::ScriptInvalid(detail@),
            ControllerError::MissingCallback => ErrorModel::MissingCallback,
            ControllerError::CallbackFailed(detail) => ErrorModel::CallbackFailed(detail@),
            ControllerError::InvalidAction(detail) => ErrorModel::InvalidAction(detail@),
            ControllerError::ExecutionLimitExceeded => ErrorModel::ExecutionLimitExceeded,
        }
    }

    /// Writes the message for the player.
    pub fn describe(&self) -> (message: String)
        ensures
            message@ == self@.message(),
    {
        match self {
            ControllerError::ScriptUnreadable(detail) => {
                "could not read controller script: ".to_owned().concat(detail.as_str())
            },
            ControllerError::ScriptInvalid(detail) => {
                "controller script error: ".to_owned().concat(detail.as_str())
            },
            ControllerError::MissingCallback => {
                "controller script does not define an on_tick function".to_owned()
            },
            ControllerError::CallbackFailed(detail) => {
                "controller runtime error: ".to_owned().concat(detail.as_str())
            },
            ControllerError::InvalidAction(detail) => {
                "invalid controller action: ".to_owned().concat(detail.as_str())
            },
            ControllerError::ExecutionLimitExceeded => {
                "controller execution limit exceeded".to_owned()
            },
        }
    }
}

/// The name by which a controller returns an action.
pub open spec fn action_name(action: Action) -> Seq<char> {
    match action {
        Action::MoveNorth => "north"@,
        Action::MoveSouth => "south"@,
        Action::MoveEast => "east"@,
        Action::MoveWest => "west"@,
        Action::Wait => "wait"@,
        Action::Scan => "scan"@,
    }
}

/// The name by which a controller returns `action`.
pub fn name_of(action: Action) -> (name: &'static str)
    ensures
        name@ == action_name(action),
{
    match action {
        Action::MoveNorth => "north",
        Action::MoveSouth => "south",
        Action::MoveEast => "east",
        Action::MoveWest => "west",
        Action::Wait => "wait",
        Action::Scan => "scan",
    }
}

/// No two actions have the same name.
pub proof fn law_action_names_differ(a: Action, b: Action)
    requires
        a != b,
    ensures
        action_name(a) != action_name(b),
{
    reveal_strlit("north");
    reveal_strlit("south");
    reveal_strlit("east");
    reveal_strlit("west");
    reveal_strlit("wait");
    reveal_strlit("scan");
    let (x, y) = (action_name(a), action_name(b));
    assert(x.len() != y.len() || x[0] != y[0] || x[1] != y[1]);
}

/// The action that `name` names, if it names one.
pub fn parse_action(name: &str) -> (action: Option<Action>)
    ensures
        match action {
            Some(action) => name@ == action_name(action),
            None => forall|action: Action| name@ != #[trigger] action_name(action),
        },
{
    if same_text(name, "north") {
        Some(Action::MoveNorth)
    } else if same_text(name, "south") {
        Some(Action::MoveSouth)
    } else if same_text(name, "east") {
        Some(Action::MoveEast)
    } else if same_text(name, "west") {
        Some(Action::MoveWest)
    } else if same_text(name, "wait") {
        Some(Action::Wait)
    } else if same_text(name, "scan") {
        Some(Action::Scan)
    } else {
        None
    }
}

/// What one completed tick did.
#[derive(Debug, Clone, PartialEq, Eq)]
pub struct TickRecord {
    pub tick: u32,
    pub drone_position: Position,
    pub map_width: i32,
    pub map_height: i32,
    pub action: Action,
    pub budget_remaining: u32,
    pub discovered: Vec<DiscoveredTile>,
    pub events: Vec<SimEvent>,
    pub outcome: TickOutcome,
}

/// The mathematical picture of a tick record.
#[verifier::ext_equal]
pub struct RecordModel {
    pub tick: int,
    pub drone_position: Position,
    pub map_width: int,
    pub map_height: int,
    pub action: Action,
    pub budget_remaining: int,
    pub discovered: Seq<DiscoveredTile>,
    pub events: Seq<SimEvent>,
    pub outcome: TickOutcome,
}

impl TickRecord {
    pub open spec fn view(&self) -> RecordModel {
        RecordModel {
            tick: self.tick as int,
            drone_position: self.drone_position,
            map_width: self.map_width as int,
            map_height: self.map_height as int,
            action: self.action,
            budget_remaining: self.budget_remaining as int,
            discovered: self.discovered@,
            events: self.events@,
            outcome: self.outcome,
        }
    }
}

/// What a tick with `action` records: the state that it leads to, and what
/// happened on the way.
pub open spec fn record_of(simulation: SimulationModel, action: Action) -> RecordModel {
    let after = simulation.stepped(action);
    RecordModel {
        tick: after.tick,
        drone_position: after.drone,
        map_width: after.scenario.width,
        map_height: after.scenario.height,
        action,
        budget_remaining: after.budget,
        discovered: after.discovered,
        events: simulation.events(action),
        outcome: after.outcome,
    }
}

/// What there is to say of a move that is not possible.
pub open spec fn refusal_text(action: Action, error: MoveError) -> Seq<char> {
    action_name(action) + match error {
        MoveError::OffMap => " leads off the map"@,
        MoveError::IntoWall => " leads into a wall"@,
    }
}

/// What there is to say of a reply that names no action.
pub open spec fn unknown_action_text(name: Seq<char>) -> Seq<char> {
    "unknown action '"@ + name + "'"@
}

/// The mathematical picture of a host's reply: the name that `on_tick`
/// returned, or why the call failed.
pub open spec fn reply_model(reply: Result<String, ControllerError>) -> Result<
    Seq<char>,
    ErrorModel,
> {
    match reply {
        Ok(name) => Ok(name@),
        Err(error) => Err(error@),
    }
}

/// The action that a reply leads to in `simulation`, or what is wrong with
/// it: a failed call, a name that no action has, or a move that is not
/// possible.
pub open spec fn judged(simulation: SimulationModel, reply: Result<Seq<char>, ErrorModel>) -> Result<
    Action,
    ErrorModel,
> {
    match reply {
        Err(error) => Err(error),
        Ok(name) => if exists|action: Action| #[trigger] action_name(action) == name {
            let action = choose|action: Action| #[trigger] action_name(action) == name;
            match simulation.refusal(action) {
                None => Ok(action),
                Some(error) => Err(ErrorModel::InvalidAction(refusal_text(action, error))),
            }
        } else {
            Err(ErrorModel::InvalidAction(unknown_action_text(name)))
        },
    }
}

/// A reply that names an action leads to that action where it is possible,
/// and to an error where it is not.
pub proof fn law_named_action_is_judged(simulation: SimulationModel, action: Action)
    ensures
        judged(simulation, Ok(action_name(action))) == match simulation.refusal(action) {
            None => Ok::<Action, ErrorModel>(action),
            Some(error) => Err(ErrorModel::InvalidAction(refusal_text(action, error))),
        },
{
    let name = action_name(action);
    let chosen = choose|chosen: Action| #[trigger] action_name(chosen) == name;
    if chosen != action {
        law_action_names_differ(chosen, action);
    }
}

/// Only an action that is possible is ever carried out.
pub proof fn law_judged_action_is_possible(
    simulation: SimulationModel,
    reply: Result<Seq<char>, ErrorModel>,
)
    ensures
        judged(simulation, reply) matches Ok(action) ==> simulation.refusal(action) is None,
{
}

/// A deployed controller's operation, from deployment until it has ended.
pub struct LiveOperation {
    simulation: Simulation,
}

impl LiveOperation {
    pub closed spec fn view(&self) -> SimulationModel {
        self.simulation@
    }

    /// A fresh operation in the First Contact scenario.
    pub fn deploy() -> (live: LiveOperation)
        ensures
            live@ == SimulationModel::started(first_contact_model()),
            live@.wf(),
    {
        LiveOperation { simulation: Simulation::new(Scenario::first_contact()) }
    }

    /// What `on_tick` is given for the next tick.
    pub fn observe(&self) -> (observation: Observation)
        ensures
            observation@ == self@.observation(),
    {
        self.simulation.observe()
    }

    /// How many tiles the map has from west to east.
    pub fn map_width(&self) -> (width: i32)
        ensures
            width == self@.scenario.width,
    {
        self.simulation.map_width()
    }

    /// How many tiles the map has from south to north.
    pub fn map_height(&self) -> (height: i32)
        ensures
            height == self@.scenario.height,
    {
        self.simulation.map_height()
    }

    /// Whether the operation has ended.
    pub fn is_finished(&self) -> (finished: bool)
        ensures
            finished == !(self@.outcome is Running),
    {
        match self.simulation.outcome() {
            TickOutcome::Running => false,
            _ => true,
        }
    }

    /// Carries out the tick for which the host called `on_tick`. `reply` is
    /// the name that it returned, or why the call failed. An error changes
    /// nothing, and costs nothing.
    pub fn step(&mut self, reply: Result<String, ControllerError>) -> (result: Result<
        TickRecord,
        ControllerError,
    >)
        requires
            old(self)@.wf(),
            old(self)@.outcome is Running,
        ensures
            final(self)@.wf(),
            match judged(old(self)@, reply_model(reply)) {
                Ok(action) => {
                    &&& result is Ok
                    &&& (result->Ok_0)@ == record_of(old(self)@, action)
                    &&& final(self)@ == old(self)@.stepped(action)
                },
                Err(error) => {
                    &&& result is Err
                    &&& (result->Err_0)@ == error
                    &&& final(self)@ == old(self)@
                },
            },
    {
        let name = match reply {
            Err(error) => {
                return Err(error);
            },
            Ok(name) => name,
        };
        let action = match parse_action(name.as_str()) {
            Some(action) => action,
            None => {
                return Err(
                    ControllerError::InvalidAction(
                        "unknown action '".to_owned().concat(name.as_str()).concat("'"),
                    ),
                );
            },
        };
        proof {
            law_named_action_is_judged(self@, action);
        }
        match self.simulation.step(action) {
            Ok(events) => {
                let after = self.simulation.observe();
                Ok(
                    TickRecord {
                        tick: after.tick,
                        drone_position: after.drone_position,
                        map_width: self.simulation.map_width(),
                        map_height: self.simulation.map_height(),
                        action,
                        budget_remaining: after.budget_remaining,
                        discovered: after.discovered,
                        events,
                        outcome: self.simulation.outcome(),
                    },
                )
            },
            Err(error) => {
                let detail = match error {
                    MoveError::OffMap => " leads off the map",
                    MoveError::IntoWall => " leads into a wall",
                };
                Err(ControllerError::InvalidAction(name_of(action).to_owned().concat(detail)))
            },
        }
    }
}

/// The six names that a controller can return, and the action that each stands
/// for.
pub proof fn law_six_names_are_actions()
    ensures
        action_name(Action::MoveNorth) == "north"@,
        action_name(Action::MoveSouth) == "south"@,
        action_name(Action::MoveEast) == "east"@,
        action_name(Action::MoveWest) == "west"@,
        action_name(Action::Wait) == "wait"@,
        action_name(Action::Scan) == "scan"@,
{
}

/// Whatever else a controller returns leads to no action, and the error says
/// what it returned; a call that failed keeps its own error.
pub proof fn law_other_replies_are_errors(
    simulation: SimulationModel,
    name: Seq<char>,
    error: ErrorModel,
)
    ensures
        judged(simulation, Err(error)) == Err::<Action, ErrorModel>(error),
        name != "north"@ && name != "south"@ && name != "east"@ && name != "west"@ && name
            != "wait"@ && name != "scan"@ ==> judged(simulation, Ok(name)) == Err::<
            Action,
            ErrorModel,
        >(ErrorModel::InvalidAction("unknown action '"@ + name + "'"@)),
        judged(simulation, Ok(name)) matches Ok(action) ==> name == action_name(action),
{
}

/// What a tick records is what can be observed after it, together with the
/// action and what happened.
pub proof fn law_records_show_the_state_after(simulation: SimulationModel, action: Action)
    ensures
        ({
            let record = record_of(simulation, action);
            let after = simulation.stepped(action);
            &&& record.action == action
            &&& record.drone_position == after.observation().drone_position
            &&& record.tick == after.observation().tick
            &&& record.tick == simulation.tick + 1
            &&& record.budget_remaining == after.observation().budget_remaining
            &&& record.discovered == after.observation().discovered
            &&& record.map_width == simulation.scenario.width
            &&& record.map_height == simulation.scenario.height
            &&& record.events == simulation.events(action)
            &&& record.outcome == after.outcome
        }),
{
}

/// The message for the player says what kind of error it is, and ends with the
/// detail.
pub proof fn law_messages_carry_the_detail(detail: Seq<char>)
    ensures
        ErrorModel::ScriptUnreadable(detail).message() == "could not read controller script: "@
            + detail,
        ErrorModel::ScriptInvalid(detail).message() == "controller script error: "@ + detail,
        ErrorModel::CallbackFailed(detail).message() == "controller runtime error: "@ + detail,
        ErrorModel::InvalidAction(detail).message() == "invalid controller action: "@ + detail,
{
}

} // verus!
