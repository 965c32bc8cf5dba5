//! What the program does between start and exit: the steps before the first
//! query, and the loop that takes a line, sends it, shows what came back and
//! takes the next line until the exit word is typed.

use crate::client::ApiError;
use crate::text::{
    eq_ignore_ascii_case, folded_code, lemma_same_code_same_char, same_ignoring_ascii_case,
    same_text, trim, trimmed,
};
use vstd::prelude::*;
use vstd::string::*;

verus! {

/// Whether `query` is the word that ends the loop: `exit`, in any mix of
/// upper and lower case.
pub open spec fn is_exit_word(query: Seq<char>) -> bool {
    same_ignoring_ascii_case(query, "exit"@)
}

/// Tells whether `query` is the exit word.
pub fn is_exit_command(query: &str) -> (exit: bool)
    ensures
        exit == is_exit_word(query@),
{
    eq_ignore_ascii_case(query, "exit")
}

/// The exit word spelled out: four letters, each in either case.
pub proof fn lemma_exit_word_letters(query: Seq<char>)
    ensures
        is_exit_word(query) <==> {
            &&& query.len() == 4
            &&& (query[0] == 'e' || query[0] == 'E')
            &&& (query[1] == 'x' || query[1] == 'X')
            &&& (query[2] == 'i' || query[2] == 'I')
            &&& (query[3] == 't' || query[3] == 'T')
        },
{
    reveal_strlit("exit");
    let word = "exit"@;
    assert(word.len() == 4);
    assert(word[0] == 'e' && word[1] == 'x' && word[2] == 'i' && word[3] == 't');
    assert('e' as u32 == 0x65 && 'E' as u32 == 0x45);
    assert('x' as u32 == 0x78 && 'X' as u32 == 0x58);
    assert('i' as u32 == 0x69 && 'I' as u32 == 0x49);
    assert('t' as u32 == 0x74 && 'T' as u32 == 0x54);
    if is_exit_word(query) {
        assert forall|i: int| 0 <= i < 4 implies query[i] as u32 == word[i] as u32 || query[i]
            as u32 + 0x20 == word[i] as u32 by {
            assert(folded_code(query[i]) == folded_code(word[i]));
        }
        lemma_either_case(query[0], 'e', 'E');
        lemma_either_case(query[1], 'x', 'X');
        lemma_either_case(query[2], 'i', 'I');
        lemma_either_case(query[3], 't', 'T');
    }
}

/// A character with the code of `lower` or of `upper` is one of the two.
proof fn lemma_either_case(c: char, lower: char, upper: char)
    requires
        c as u32 == lower as u32 || c as u32 == upper as u32,
    ensures
        c == lower || c == upper,
{
    if c as u32 == lower as u32 {
        lemma_same_code_same_char(c, lower);
    } else {
        lemma_same_code_same_char(c, upper);
    }
}

/// Where the query loop stands.
#[derive(Debug, Clone, Copy, PartialEq, Eq, Structural)]
pub enum LoopState {
    /// Waiting for the user to type a line.
    AwaitingInput,
    /// A query is on its way and its outcome is awaited.
    AwaitingResponse,
    /// The exit word was typed.
    Terminated,
}

/// What happened outside the loop.
#[derive(Debug, Clone)]
pub enum Event {
    /// The user typed a line.
    Line(String),
    /// The query came back with an answer.
    Answered(String),
    /// The query failed.
    Failed(ApiError),
}

/// What the loop asks to be done next.
#[derive(Debug, Clone)]
pub enum Action {
    /// Send this query, then report how it ended.
    Send(String),
    /// Show this answer, then read the next line.
    ShowAnswer(String),
    /// Show this error on the error stream, then read the next line.
    ShowError(ApiError),
    /// Leave the program.
    Exit,
    /// The event does not belong to the state: do nothing.
    Ignore,
}

/// The state after `event`.
///
/// A line is awaited only in `AwaitingInput`: the exit word, with or
/// without white space around it, ends the loop, and any other line, an
/// empty one too, is sent as a query. An outcome is awaited only in
/// `AwaitingResponse`, and answer and failure alike lead back to
/// `AwaitingInput`. Any other event leaves the state as it is.
pub open spec fn next_state(state: LoopState, event: Event) -> LoopState {
    match (state, event) {
        (LoopState::AwaitingInput, Event::Line(line)) => if is_exit_word(trimmed(line@)) {
            LoopState::Terminated
        } else {
            LoopState::AwaitingResponse
        },
        (LoopState::AwaitingResponse, Event::Answered(_)) => LoopState::AwaitingInput,
        (LoopState::AwaitingResponse, Event::Failed(_)) => LoopState::AwaitingInput,
        _ => state,
    }
}

/// Whether `action` is what `event` calls for in `state`.
pub open spec fn is_action_for(action: Action, state: LoopState, event: Event) -> bool {
    match (state, event) {
        (LoopState::AwaitingInput, Event::Line(line)) => if is_exit_word(trimmed(line@)) {
            action is Exit
        } else {
            action is Send && action->Send_0@ == trimmed(line@)
        },
        (LoopState::AwaitingResponse, Event::Answered(answer)) => action == Action::ShowAnswer(
            answer,
        ),
        (LoopState::AwaitingResponse, Event::Failed(error)) => action == Action::ShowError(error),
        _ => action is Ignore,
    }
}

/// One step of the query loop: the next state, and what to do now.
pub fn step(state: LoopState, event: Event) -> (next: (LoopState, Action))
    ensures
        next.0 == next_state(state, event),
        is_action_for(next.1, state, event),
{
    match state {
        LoopState::AwaitingInput => match event {
            Event::Line(line) => {
                let query = trim(line.as_str());
                if is_exit_command(query) {
                    (LoopState::Terminated, Action::Exit)
                } else {
                    (LoopState::AwaitingResponse, Action::Send(String::from_str(query)))
                }
            },
            _ => (state, Action::Ignore),
        },
        LoopState::AwaitingResponse => match event {
            Event::Answered(answer) => (LoopState::AwaitingInput, Action::ShowAnswer(answer)),
            Event::Failed(error) => (LoopState::AwaitingInput, Action::ShowError(error)),
            Event::Line(_) => (state, Action::Ignore),
        },
        LoopState::Terminated => (state, Action::Ignore),
    }
}

/// The loop ends on the exit word and on nothing else: a step reaches
/// `Terminated` exactly when a line was awaited and the line, without the
/// white space around it, is the exit word. A failed query in particular
/// leads back to `AwaitingInput`, however many have failed before.
pub proof fn lemma_only_exit_terminates(state: LoopState, event: Event)
    requires
        state != LoopState::Terminated,
    ensures
        next_state(state, event) == LoopState::Terminated <==> state == LoopState::AwaitingInput
            && event is Line && is_exit_word(trimmed(event->Line_0@)),
        state == LoopState::AwaitingResponse && event is Failed ==> next_state(state, event)
            == LoopState::AwaitingInput,
{
}

/// What the command line asks for.
#[derive(Debug, Clone, Copy, PartialEq, Eq, Structural)]
pub enum Command {
    /// No subcommand: go on to the queries.
    Run,
    /// `configure`: ask for the configuration anew first.
    Configure,
    /// `show-config`: show the configuration first.
    ShowConfig,
}

/// The command that a subcommand name stands for.
pub open spec fn command_named(subcommand: Option<Seq<char>>) -> Command {
    match subcommand {
        Some(name) => if name == "configure"@ {
            Command::Configure
        } else if name == "show-config"@ {
            Command::ShowConfig
        } else {
            Command::Run
        },
        None => Command::Run,
    }
}

/// The command for the subcommand that was given, if one was.
pub fn command_of(subcommand: Option<&str>) -> (command: Command)
    ensures
        command == command_named(
            match subcommand {
                Some(name) => Some(name@),
                None => None,
            },
        ),
{
    proof {
        reveal_strlit("configure");
        reveal_strlit("show-config");
        assert("configure"@.len() == 9 && "show-config"@.len() == 11);
    }
    match subcommand {
        Some(name) => {
            if same_text(name, "configure") {
                Command::Configure
            } else if same_text(name, "show-config") {
                Command::ShowConfig
            } else {
                Command::Run
            }
        },
        None => Command::Run,
    }
}

/// One thing to do before the first query.
#[derive(Debug, Clone, Copy, PartialEq, Eq, Structural)]
pub enum StartupStep {
    /// Run the wizard and save what it gives.
    RunWizard,
    /// Show the configuration.
    ShowConfig,
    /// Enter the query loop.
    EnterLoop,
}

/// The steps from start to the query loop: the wizard first where no
/// configuration was found; then what the command asks for; then the loop.
pub open spec fn startup_plan(config_found: bool, command: Command) -> Seq<StartupStep> {
    let first = if config_found {
        Seq::<StartupStep>::empty()
    } else {
        seq![StartupStep::RunWizard]
    };
    let second = match command {
        Command::Run => Seq::<StartupStep>::empty(),
        Command::Configure => seq![StartupStep::RunWizard],
        Command::ShowConfig => seq![StartupStep::ShowConfig],
    };
    first + second + seq![StartupStep::EnterLoop]
}

/// How often `step` occurs in `plan`.
pub open spec fn occurrences(plan: Seq<StartupStep>, step: StartupStep) -> nat
    decreases plan.len(),
{
    if plan.len() == 0 {
        0
    } else {
        occurrences(plan.drop_last(), step) + if plan.last() == step {
            1nat
        } else {
            0nat
        }
    }
}

/// The steps to take at start, in order.
pub fn plan_startup(config_found: bool, command: Command) -> (plan: Vec<StartupStep>)
    ensures
        plan@ == startup_plan(config_found, command),
{
    let mut plan: Vec<StartupStep> = Vec::new();
    if !config_found {
        plan.push(StartupStep::RunWizard);
    }
    match command {
        Command::Run => {},
        Command::Configure => {
            plan.push(StartupStep::RunWizard);
        },
        Command::ShowConfig => {
            plan.push(StartupStep::ShowConfig);
        },
    }
    plan.push(StartupStep::EnterLoop);
    assert(plan@ =~= startup_plan(config_found, command));
    plan
}

/// Every plan ends with the query loop and enters it once. Where no
/// configuration was found and the command does not ask for the wizard
/// itself, the wizard runs exactly once, and before the loop; where one was
/// found and the command does not ask for it, the wizard does not run.
pub proof fn lemma_wizard_runs_once(config_found: bool, command: Command)
    ensures
        startup_plan(config_found, command).last() == StartupStep::EnterLoop,
        occurrences(startup_plan(config_found, command), StartupStep::EnterLoop) == 1,
        command != Command::Configure ==> occurrences(
            startup_plan(config_found, command),
            StartupStep::RunWizard,
        ) == if config_found {
            0nat
        } else {
            1nat
        },
        !config_found ==> startup_plan(config_found, command)[0] == StartupStep::RunWizard,
{
    let plan = startup_plan(config_found, command);
    reveal_with_fuel(occurrences, 4);
    let before_loop = plan.drop_last();
    if before_loop.len() > 0 {
        let before_command = before_loop.drop_last();
        if before_command.len() > 0 {
            assert(before_command.drop_last().len() == 0);
        }
    }
}

} // verus!
