//! The command line: what a start of the program leads to, and what the
//! headless runner reports.

use vstd::prelude::*;

use crate::lua_controller::{action_name, name_of, ControllerError, RecordModel, TickRecord};
use crate::simulation::{Action, FailureReason, Position, SimEvent, TickOutcome};
use crate::text::{
    decimal, law_numerals_are_read_back, law_signed_numerals_are_read_back, numeral_value,
    push_decimal, push_signed_decimal, right_aligned, signed_decimal,
};

verus! {

/// The first line of everything that the program prints.
pub const BANNER: &'static str = "HUMAN EXCEPTION // resistance console";

/// The exit code of a success.
pub const EXIT_SUCCESS: i32 = 0;

/// The exit code of an operation that ran to its end and failed.
pub const EXIT_OPERATION_FAILED: i32 = 1;

/// The exit code of a wrong use of the command line.
pub const EXIT_USAGE: i32 = 2;

/// The exit code of a script that could not be loaded or executed, and of a
/// console session that failed.
pub const EXIT_ERROR: i32 = 3;

/// What a start of the program leads to.
#[derive(Debug, Clone, Copy, PartialEq, Eq, Structural)]
pub enum Startup {
    /// Print the version.
    Version,
    /// Run the script without the console.
    RunScript,
    /// Reject the command line, for the given reason.
    Reject(UsageError),
    /// Enter the console.
    Console,
}

/// Why a well-formed command line makes no sense.
#[derive(Debug, Clone, Copy, PartialEq, Eq, Structural)]
pub enum UsageError {
    MissingScript,
    ScriptWithoutDeveloperMode,
}

impl UsageError {
    /// The reason for the player.
    pub fn describe(self) -> (detail: &'static str)
        ensures
            detail@ == match self {
                UsageError::MissingScript => "--developer-mode requires a script path to run"@,
                UsageError::ScriptWithoutDeveloperMode =>
                    "direct script execution requires --developer-mode; it is contributor/test tooling, not a normal way to play"@,
            },
    {
        match self {
            UsageError::MissingScript => "--developer-mode requires a script path to run",
            UsageError::ScriptWithoutDeveloperMode =>
                "direct script execution requires --developer-mode; it is contributor/test tooling, not a normal way to play",
        }
    }
}

/// What the given flags lead to. A script is only run in developer mode, and
/// developer mode only runs a script; asking for the version comes first.
pub fn startup(version: bool, developer_mode: bool, has_script: bool) -> (startup: Startup)
    ensures
        startup == if version {
            Startup::Version
        } else if developer_mode && has_script {
            Startup::RunScript
        } else if developer_mode {
            Startup::Reject(UsageError::MissingScript)
        } else if has_script {
            Startup::Reject(UsageError::ScriptWithoutDeveloperMode)
        } else {
            Startup::Console
        },
{
    if version {
        return Startup::Version;
    }
    match (developer_mode, has_script) {
        (true, true) => Startup::RunScript,
        (true, false) => Startup::Reject(UsageError::MissingScript),
        (false, true) => Startup::Reject(UsageError::ScriptWithoutDeveloperMode),
        (false, false) => Startup::Console,
    }
}

/// Whether a start without arguments enters the console: only where both ends
/// are a terminal.
pub fn is_interactive(stdout_is_terminal: bool, stdin_is_terminal: bool) -> (interactive: bool)
    ensures
        interactive == (stdout_is_terminal && stdin_is_terminal),
{
    stdout_is_terminal && stdin_is_terminal
}

/// What there is to say of an argument that was not understood, which is
/// named where it is known.
pub fn bad_argument_detail(argument: Option<&str>) -> (detail: String)
    ensures
        detail@ == match argument {
            Some(argument) => "unrecognized directive '"@ + argument@ + "'"@,
            None => "unrecognized directive"@,
        },
{
    match argument {
        Some(argument) => "unrecognized directive '".to_owned().concat(argument).concat("'"),
        None => "unrecognized directive".to_owned(),
    }
}

/// The name of an action, as the telemetry shows it.
pub fn format_action(action: Action) -> (name: &'static str)
    ensures
        name@ == action_name(action),
{
    name_of(action)
}

/// Why an operation failed, in words.
pub open spec fn failure_text(reason: FailureReason) -> Seq<char> {
    match reason {
        FailureReason::BudgetExhausted =>
            "the operation ran out of budget before reaching the uplink"@,
    }
}

/// Why an operation failed, in words.
pub fn format_failure(reason: FailureReason) -> (text: String)
    ensures
        text@ == failure_text(reason),
{
    match reason {
        FailureReason::BudgetExhausted =>
            "the operation ran out of budget before reaching the uplink".to_owned(),
    }
}

/// A position in round brackets.
pub open spec fn coordinates(x: int, y: int) -> Seq<char> {
    seq!['('] + signed_decimal(x) + ", "@ + signed_decimal(y) + seq![')']
}

/// The telemetry line of a tick.
pub open spec fn tick_line(record: RecordModel) -> Seq<char> {
    "tick "@ + right_aligned(decimal(record.tick), 2) + " | drone "@ + coordinates(
        record.drone_position.x as int,
        record.drone_position.y as int,
    ) + " | action: "@ + action_name(record.action) + " | budget remaining: "@ + decimal(
        record.budget_remaining,
    )
}

/// Writes a position in round brackets behind `out`.
fn push_coordinates(out: &mut String, x: i32, y: i32)
    ensures
        final(out)@ == old(out)@ + coordinates(x as int, y as int),
{
    out.push('(');
    push_signed_decimal(out, x as i64);
    out.append(", ");
    push_signed_decimal(out, y as i64);
    out.push(')');
    assert(out@ =~= old(out)@ + coordinates(x as int, y as int));
}

/// The telemetry line of a tick.
pub fn format_tick_line(record: &TickRecord) -> (line: String)
    ensures
        line@ == tick_line(record@),
{
    let mut line = "tick ".to_owned();
    let ghost tick = decimal(record.tick as int);
    proof {
        lemma_right_aligned_numeral(record.tick as int);
    }
    if record.tick < 10 {
        line.push(' ');
    }
    push_decimal(&mut line, record.tick as u64);
    assert(line@ =~= "tick "@ + right_aligned(tick, 2));
    line.append(" | drone ");
    push_coordinates(&mut line, record.drone_position.x, record.drone_position.y);
    line.append(" | action: ");
    line.append(format_action(record.action));
    line.append(" | budget remaining: ");
    push_decimal(&mut line, record.budget_remaining as u64);
    line
}

/// A numeral is aligned to two columns by one space before a single digit.
proof fn lemma_right_aligned_numeral(n: int)
    requires
        0 <= n,
    ensures
        right_aligned(decimal(n), 2) == if n < 10 {
            seq![' '] + decimal(n)
        } else {
            decimal(n)
        },
{
    reveal_with_fuel(right_aligned, 2);
    if n >= 10 {
        lemma_numeral_has_a_digit(n / 10);
    }
}

/// No numeral is empty.
proof fn lemma_numeral_has_a_digit(n: int)
    requires
        0 <= n,
    ensures
        decimal(n).len() > 0,
{
}

/// The report of an event, if the telemetry reports it.
pub open spec fn event_line(event: SimEvent) -> Option<Seq<char>> {
    match event {
        SimEvent::HazardEntered { position, amount } => Some(
            "  hazard triggered at "@ + coordinates(position.x as int, position.y as int) + ": -"@
                + decimal(amount as int) + " budget"@,
        ),
        SimEvent::UplinkReached { .. } => None,
    }
}

/// The reports of the events of a tick, in order.
pub open spec fn event_lines(events: Seq<SimEvent>) -> Seq<Seq<char>>
    decreases events.len(),
{
    if events.len() == 0 {
        Seq::empty()
    } else {
        let before = event_lines(events.drop_last());
        match event_line(events.last()) {
            Some(line) => before.push(line),
            None => before,
        }
    }
}

/// The texts of a list of lines.
pub open spec fn texts(lines: Seq<String>) -> Seq<Seq<char>> {
    Seq::new(lines.len(), |i: int| lines[i]@)
}

/// The reports of the events of a tick, in order.
pub fn format_event_lines(record: &TickRecord) -> (lines: Vec<String>)
    ensures
        texts(lines@) == event_lines(record@.events),
{
    let mut lines: Vec<String> = Vec::new();
    let events = &record.events;
    for i in 0..events.len()
        invariant
            events@ == record@.events,
            texts(lines@) == event_lines(events@.take(i as int)),
    {
        assert(events@.take(i + 1).drop_last() =~= events@.take(i as int));
        assert(events@.take(i + 1).last() == events@[i as int]);
        let ghost before = lines@;
        match events[i] {
            SimEvent::HazardEntered { position, amount } => {
                let mut line = "  hazard triggered at ".to_owned();
                push_coordinates(&mut line, position.x, position.y);
                line.append(": -");
                push_decimal(&mut line, amount as u64);
                line.append(" budget");
                let ghost text = line@;
                lines.push(line);
                assert(texts(lines@) =~= texts(before).push(text));
            },
            SimEvent::UplinkReached { .. } => {},
        }
    }
    assert(events@.take(events@.len() as int) =~= events@);
    lines
}

/// The final report of a headless run.
#[derive(Debug, Clone, PartialEq, Eq)]
pub struct FinalReport {
    pub message: String,
    pub exit_code: i32,
    /// Whether the message is about an error rather than about how the
    /// operation ended.
    pub is_error: bool,
}

/// The message at the end of an operation: the outcome, what it means, and
/// what there is to do next.
pub open spec fn outcome_message(outcome: TickOutcome, tick_count: int) -> Seq<char> {
    match outcome {
        TickOutcome::Succeeded => "FOOTHOLD ESTABLISHED after "@ + decimal(tick_count)
            + " tick(s). Resistance access to the facility network was established. FIRST CONTACT COMPLETE. No further operation is available at this facility."@,
        TickOutcome::Failed(reason) => "OPERATION FAILED: "@ + failure_text(reason)
            + ". No facility foothold was established. FIRST CONTACT INCOMPLETE."@,
        TickOutcome::Running => Seq::empty(),
    }
}

/// The final report of a headless run that ended, after `tick_count` ticks,
/// with an outcome or with an error.
pub fn final_report(result: Result<TickOutcome, ControllerError>, tick_count: u32) -> (report:
    FinalReport)
    requires
        result matches Ok(outcome) ==> !(outcome is Running),
    ensures
        match result {
            Ok(outcome) => {
                &&& report.message@ == outcome_message(outcome, tick_count as int)
                &&& report.exit_code == if outcome is Succeeded {
                    EXIT_SUCCESS
                } else {
                    EXIT_OPERATION_FAILED
                }
                &&& !report.is_error
            },
            Err(error) => {
                &&& report.message@ == "Uplink rejected: "@ + error@.message()
                &&& report.exit_code == EXIT_ERROR
                &&& report.is_error
            },
        },
        report.exit_code == match result {
            Ok(TickOutcome::Succeeded) => 0int,
            Ok(_) => 1,
            Err(_) => 3,
        },
{
    match result {
        Ok(TickOutcome::Failed(reason)) => FinalReport {
            message: "OPERATION FAILED: ".to_owned().concat(
                format_failure(reason).as_str(),
            ).concat(". No facility foothold was established. FIRST CONTACT INCOMPLETE."),
            exit_code: EXIT_OPERATION_FAILED,
            is_error: false,
        },
        Ok(_) => {
            let mut message = "FOOTHOLD ESTABLISHED after ".to_owned();
            push_decimal(&mut message, tick_count as u64);
            message.append(
                " tick(s). Resistance access to the facility network was established. FIRST CONTACT COMPLETE. No further operation is available at this facility.",
            );
            FinalReport { message, exit_code: EXIT_SUCCESS, is_error: false }
        },
        Err(error) => FinalReport {
            message: "Uplink rejected: ".to_owned().concat(error.describe().as_str()),
            exit_code: EXIT_ERROR,
            is_error: true,
        },
    }
}

/// Whether `text` is a numeral that is read back as `n`.
pub open spec fn reads_as(text: Seq<char>, n: int) -> bool {
    if n < 0 {
        text.len() > 0 && text[0] == '-' && numeral_value(text.subrange(1, text.len() as int)) == -n
    } else {
        text.len() > 0 && text[0] != '-' && numeral_value(text) == n
    }
}

/// The telemetry line of a tick can be read back: it gives the tick, with a
/// space before a single digit, the position, the name of the action and the
/// remaining budget, in that order. The parts are handed out.
pub proof fn law_tick_lines_are_read_back(record: RecordModel) -> (parts: (
    Seq<char>,
    Seq<char>,
    Seq<char>,
    Seq<char>,
))
    requires
        0 <= record.tick,
        0 <= record.budget_remaining,
    ensures
        tick_line(record) == "tick "@ + (if record.tick < 10 {
            seq![' '] + parts.0
        } else {
            parts.0
        }) + " | drone "@ + (seq!['('] + parts.1 + ", "@ + parts.2 + seq![')']) + " | action: "@
            + action_name(record.action) + " | budget remaining: "@ + parts.3,
        reads_as(parts.0, record.tick),
        reads_as(parts.1, record.drone_position.x as int),
        reads_as(parts.2, record.drone_position.y as int),
        reads_as(parts.3, record.budget_remaining),
{
    lemma_right_aligned_numeral(record.tick);
    law_numerals_are_read_back(record.tick);
    law_numerals_are_read_back(record.budget_remaining);
    law_signed_numerals_are_read_back(record.drone_position.x as int);
    law_signed_numerals_are_read_back(record.drone_position.y as int);
    if record.drone_position.x >= 0 {
        law_numerals_are_read_back(record.drone_position.x as int);
    }
    if record.drone_position.y >= 0 {
        law_numerals_are_read_back(record.drone_position.y as int);
    }
    (
        decimal(record.tick),
        signed_decimal(record.drone_position.x as int),
        signed_decimal(record.drone_position.y as int),
        decimal(record.budget_remaining),
    )
}

/// The events of a tick are reported one by one and in order: those of two
/// lists together are those of the first, then those of the second.
pub proof fn law_event_reports_add_up(a: Seq<SimEvent>, b: Seq<SimEvent>)
    ensures
        event_lines(a + b) == event_lines(a) + event_lines(b),
        event_lines(Seq::empty()) == Seq::<Seq<char>>::empty(),
    decreases b.len(),
{
    if b.len() == 0 {
        assert(a + b =~= a);
        assert(event_lines(a) + event_lines(b) =~= event_lines(a));
    } else {
        law_event_reports_add_up(a, b.drop_last());
        assert((a + b).drop_last() =~= a + b.drop_last());
        assert((a + b).last() == b.last());
        assert(event_lines(a + b) =~= event_lines(a) + event_lines(b));
    }
}

/// A hazard is reported in one line that gives its position and its cost, and
/// the reaching of the uplink in none. The numerals are handed out.
pub proof fn law_hazards_alone_are_reported(position: Position, amount: u32) -> (parts: (
    Seq<char>,
    Seq<char>,
    Seq<char>,
))
    ensures
        event_lines(seq![SimEvent::UplinkReached { position }]).len() == 0,
        event_lines(seq![SimEvent::HazardEntered { position, amount }]) == seq![
            "  hazard triggered at "@ + (seq!['('] + parts.0 + ", "@ + parts.1 + seq![')'])
                + ": -"@ + parts.2 + " budget"@,
        ],
        reads_as(parts.0, position.x as int),
        reads_as(parts.1, position.y as int),
        reads_as(parts.2, amount as int),
{
    reveal_with_fuel(event_lines, 2);
    let hazard = seq![SimEvent::HazardEntered { position, amount }];
    let uplink = seq![SimEvent::UplinkReached { position }];
    assert(hazard.drop_last() =~= Seq::<SimEvent>::empty());
    assert(uplink.drop_last() =~= Seq::<SimEvent>::empty());
    law_numerals_are_read_back(amount as int);
    law_signed_numerals_are_read_back(position.x as int);
    law_signed_numerals_are_read_back(position.y as int);
    if position.x >= 0 {
        law_numerals_are_read_back(position.x as int);
    }
    if position.y >= 0 {
        law_numerals_are_read_back(position.y as int);
    }
    let parts = (
        signed_decimal(position.x as int),
        signed_decimal(position.y as int),
        decimal(amount as int),
    );
    assert(event_lines(hazard) =~= seq![
        "  hazard triggered at "@ + (seq!['('] + parts.0 + ", "@ + parts.1 + seq![')']) + ": -"@
            + parts.2 + " budget"@,
    ]);
    parts
}

/// The message of a success gives the number of ticks, and that of a failure
/// the reason. The numeral is handed out.
pub proof fn law_messages_give_the_outcome(ticks: int) -> (numeral: Seq<char>)
    requires
        0 <= ticks,
    ensures
        outcome_message(TickOutcome::Succeeded, ticks) == "FOOTHOLD ESTABLISHED after "@ + numeral
            + " tick(s). Resistance access to the facility network was established. FIRST CONTACT COMPLETE. No further operation is available at this facility."@,
        reads_as(numeral, ticks),
        outcome_message(TickOutcome::Failed(FailureReason::BudgetExhausted), ticks)
            == "OPERATION FAILED: "@ + "the operation ran out of budget before reaching the uplink"@
            + ". No facility foothold was established. FIRST CONTACT INCOMPLETE."@,
{
    law_numerals_are_read_back(ticks);
    decimal(ticks)
}

} // verus!
