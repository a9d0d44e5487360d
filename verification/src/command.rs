//! The five operations of the client and the settings they share.

use std::collections::HashMap;
use vstd::prelude::*;
use vstd::std_specs::iter::IteratorSpec;
use crate::text::same_text;

verus! {

/// One of the five operations.
#[derive(Debug, PartialEq, Eq, Structural, Clone, Copy)]
pub enum CommandType {
    Scores,
    Schedule,
    Teams,
    Live,
    Standings,
}

/// A resolved command.
#[derive(Debug)]
pub struct Command {
    pub command_type: CommandType,
}

/// The operation that a command word names, if it names one.
pub open spec fn command_named(word: Seq<char>) -> Option<CommandType> {
    if word == "scores"@ {
        Some(CommandType::Scores)
    } else if word == "schedule"@ {
        Some(CommandType::Schedule)
    } else if word == "teams"@ {
        Some(CommandType::Teams)
    } else if word == "live"@ {
        Some(CommandType::Live)
    } else if word == "standings"@ {
        Some(CommandType::Standings)
    } else {
        None
    }
}

/// What the program's arguments resolve to: the first is the program's own
/// name, the second the command word; further arguments are ignored.
pub open spec fn resolved(args: Seq<String>) -> Result<CommandType, Seq<char>> {
    if args.len() < 2 {
        Err("Didn't enter any command"@)
    } else {
        match command_named(args[1]@) {
            Some(command_type) => Ok(command_type),
            None => Err("Invalid command type"@),
        }
    }
}

impl Command {
    /// Resolves the program's arguments, of which no more than the first
    /// two are taken.
    pub fn build<A: Iterator<Item = String>>(mut args: A) -> (r: Result<Command, &'static str>)
        ensures
            args.obeys_prophetic_iter_laws() ==> match resolved(args.remaining()) {
                Ok(command_type) => r matches Ok(command) && command.command_type == command_type,
                Err(text) => r matches Err(message) && message@ == text,
            },
    {
        args.next();
        let command_type = match args.next() {
            Some(arg) => {
                let word = arg.as_str();
                if same_text(word, "scores") {
                    CommandType::Scores
                } else if same_text(word, "schedule") {
                    CommandType::Schedule
                } else if same_text(word, "teams") {
                    CommandType::Teams
                } else if same_text(word, "live") {
                    CommandType::Live
                } else if same_text(word, "standings") {
                    CommandType::Standings
                } else {
                    return Err("Invalid command type");
                }
            },
            None => {
                return Err("Didn't enter any command");
            },
        };
        Ok(Command { command_type })
    }
}

/// Whether the command's result is something other than a list of fixtures:
/// the roster editor and the standings tables are.
pub open spec fn not_fixtures(command_type: CommandType) -> bool {
    command_type == CommandType::Teams || command_type == CommandType::Standings
}

/// Tests `not_fixtures`.
pub fn check_if_not_fixtures_trait_type(cmd: &Command) -> (r: bool)
    ensures
        r == not_fixtures(cmd.command_type),
{
    match cmd.command_type {
        CommandType::Teams => true,
        CommandType::Standings => true,
        _ => false,
    }
}

/// What every operation starts from: the leagues to ask about and the
/// command to fall back on.
pub struct Settings {
    pub teams: HashMap<String, u64>,
    pub preferred_leagues: Vec<u64>,
    pub full_leagues: Vec<u64>,
    pub default: CommandType,
}

/// The leagues shown in schedules and standings.
pub open spec fn preferred_league_ids() -> Seq<u64> {
    seq![39u64, 135u64, 78u64]
}

/// The leagues asked about in one live query; the preferred ones are among them.
pub open spec fn full_league_ids() -> Seq<u64> {
    seq![39u64, 140u64, 88u64, 78u64, 135u64, 61u64, 94u64, 253u64]
}

/// The settings of every run: the two league lists, no teams, and the
/// schedule as the command to fall back on.
pub fn load_settings() -> (settings: Settings)
    ensures
        settings.teams@ == Map::<String, u64>::empty(),
        settings.preferred_leagues@ == preferred_league_ids(),
        settings.full_leagues@ == full_league_ids(),
        settings.default == CommandType::Schedule,
{
    let pref_leagues_vec: Vec<u64> = vec![39, 135, 78];
    let full_leagues_vec: Vec<u64> = vec![39, 140, 88, 78, 135, 61, 94, 253];
    let teams_vec: HashMap<String, u64> = HashMap::new();
    proof {
        assert(pref_leagues_vec@ =~= preferred_league_ids());
        assert(full_leagues_vec@ =~= full_league_ids());
    }
    Settings {
        teams: teams_vec,
        preferred_leagues: pref_leagues_vec,
        full_leagues: full_leagues_vec,
        default: CommandType::Schedule,
    }
}

/// Every preferred league is also in the full list.
pub proof fn lemma_preferred_within_full()
    ensures
        forall|i: int|
            0 <= i < preferred_league_ids().len() ==> full_league_ids().contains(
                #[trigger] preferred_league_ids()[i],
            ),
{
    assert(full_league_ids()[0] == 39u64);
    assert(full_league_ids()[4] == 135u64);
    assert(full_league_ids()[3] == 78u64);
}

} // verus!
