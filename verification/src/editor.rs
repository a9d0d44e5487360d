//! Editing the roster by hand: what to say and do after each line that the
//! user types and each answer that the team search gives. The caller
//! prints, reads, asks the service and writes the file; the decisions are
//! made here.

use vstd::prelude::*;
use crate::normalize::{team_of_search, try_get_team_id};
use crate::roster::{add_team_to_csv, entry_line};
use crate::text::{chars_of, push_chars, texts, trim, trim_range, CharClass};
use crate::urls::{get_team_search_url, team_search_url};

verus! {

/// Where an editing session stands.
#[derive(Debug, PartialEq, Eq)]
pub enum EditState {
    /// The user is asked whether to add or to remove.
    Choosing,
    /// The user is asked for the team to add.
    NamingAdd,
    /// The service is asked for the team that the user typed.
    Searching(String),
    /// The user is asked for the team to remove.
    NamingRemove,
    /// The session is over.
    Closed,
}

/// What happened since the last action.
#[derive(Debug, PartialEq, Eq)]
pub enum EditEvent {
    /// The user typed a line.
    Line(String),
    /// The team search answered with a body, or the request failed.
    Searched(Result<String, String>),
}

/// What the caller is to do next.
#[derive(Debug, PartialEq, Eq)]
pub enum EditAction {
    /// Print the lines, read a line and come back with it.
    Prompt(Vec<String>),
    /// Print the first lines, the roster and the last lines, read a line
    /// and come back with it.
    PromptWithRoster(Vec<String>, Vec<String>),
    /// Ask the service at this address and come back with the answer.
    Search(String),
    /// Add the row to the roster file and print the lines.
    Append(Vec<u8>, Vec<String>),
    /// Remove the team from the roster file and print the lines.
    Remove(String, Vec<String>),
    /// Print the lines.
    Say(Vec<String>),
    /// Nothing: the event has no meaning where the session stands.
    Ignore,
}

/// What the user chose.
#[derive(Debug, PartialEq, Eq, Structural, Clone, Copy)]
pub enum EditChoice {
    Add,
    Remove,
    Invalid,
}

/// The choice that a typed line states, by the first character that is
/// no white space: `a` to add, `r` to remove, any other is invalid.
pub open spec fn choice_of(line: Seq<char>) -> EditChoice {
    let typed = trim(line, CharClass::Whitespace);
    if typed.len() > 0 && typed[0] == 'a' {
        EditChoice::Add
    } else if typed.len() > 0 && typed[0] == 'r' {
        EditChoice::Remove
    } else {
        EditChoice::Invalid
    }
}

/// Reads the user's choice.
pub fn edit_choice(line: &str) -> (choice: EditChoice)
    ensures
        choice == choice_of(line@),
{
    let chars = chars_of(line);
    assert(chars@.subrange(0, chars@.len() as int) =~= chars@);
    let (from, to) = trim_range(&chars, 0, chars.len(), CharClass::Whitespace);
    if from < to && chars[from] == 'a' {
        EditChoice::Add
    } else if from < to && chars[from] == 'r' {
        EditChoice::Remove
    } else {
        EditChoice::Invalid
    }
}

/// The team that a typed line names: the line without the white space
/// around it.
pub fn get_team_input(line: &str) -> (team: String)
    ensures
        team@ == trim(line@, CharClass::Whitespace),
{
    let chars = chars_of(line);
    assert(chars@.subrange(0, chars@.len() as int) =~= chars@);
    let (from, to) = trim_range(&chars, 0, chars.len(), CharClass::Whitespace);
    let mut team = String::new();
    push_chars(&mut team, &chars, from, to);
    team
}

/// The first question of a session.
pub open spec fn choice_prompt() -> Seq<Seq<char>> {
    seq!["Type 'a' to add a team or 'r' to remove a team"@]
}

/// The question for the team to add.
pub open spec fn add_prompt() -> Seq<Seq<char>> {
    seq!["Enter a team to add to your list of teams: "@]
}

/// What stands before the roster in the question for the team to remove.
pub open spec fn remove_prompt_head() -> Seq<Seq<char>> {
    seq![Seq::<char>::empty(), "Your current teams: "@]
}

/// What stands after the roster in the question for the team to remove.
pub open spec fn remove_prompt_tail() -> Seq<Seq<char>> {
    seq![Seq::<char>::empty(), "Enter a team to remove from your list of teams:"@]
}

/// The confirmation of an added team.
pub open spec fn added_line(team: Seq<char>) -> Seq<char> {
    "Added "@ + team
}

/// The confirmation of a removed team; it is given whether or not the
/// roster had the team.
pub open spec fn removed_line(team: Seq<char>) -> Seq<char> {
    "Removed "@ + team + " from your teams list"@
}

/// What is said where the search finds no team.
pub open spec fn rejected_line() -> Seq<char> {
    "Not a valid team."@
}

/// Begins a session: the first question.
pub fn begin_teams_edit() -> (r: (EditState, EditAction))
    ensures
        r.0 == EditState::Choosing,
        r.1 matches EditAction::Prompt(lines) && texts(lines@) == choice_prompt(),
{
    let lines = vec![String::from_str("Type 'a' to add a team or 'r' to remove a team")];
    assert(texts(lines@) =~= choice_prompt());
    (EditState::Choosing, EditAction::Prompt(lines))
}

fn one_line(line: String) -> (lines: Vec<String>)
    ensures
        texts(lines@) == seq![line@],
{
    let lines = vec![line];
    assert(texts(lines@) =~= seq![line@]);
    lines
}

/// What follows the answer of the team search for `team`: the first team
/// found is added under the name and identifier that the service gives;
/// where the request failed, the answer cannot be read or no team was
/// found, nothing is added.
pub fn add_team(team: &str, answer: &Result<String, String>) -> (action: EditAction)
    ensures
        match *answer {
            Ok(body) => match team_of_search(body@) {
                Ok(info) => match entry_line(info.team@) {
                    Some(row) => action matches EditAction::Append(bytes, lines) && bytes@ == row
                        && texts(lines@) == seq![added_line(team@)],
                    None => action matches EditAction::Say(lines) && texts(lines@) == seq![
                        rejected_line(),
                    ],
                },
                Err(_) => action matches EditAction::Say(lines) && texts(lines@) == seq![
                    rejected_line(),
                ],
            },
            Err(_) => action matches EditAction::Say(lines) && texts(lines@) == seq![
                rejected_line(),
            ],
        },
{
    let found = match answer {
        Ok(body) => match try_get_team_id(body.as_str()) {
            Ok(info) => match add_team_to_csv(&info.team) {
                Ok(row) => Some(row),
                Err(_) => None,
            },
            Err(_) => None,
        },
        Err(_) => None,
    };
    match found {
        Some(row) => {
            let mut line = String::from_str("Added ");
            line.append(team);
            EditAction::Append(row, one_line(line))
        },
        None => EditAction::Say(one_line(String::from_str("Not a valid team."))),
    }
}

/// One step of a session: where it stands next and what to do, for where
/// it stood and what happened.
pub fn prompt_teams_edit(state: EditState, event: EditEvent) -> (r: (EditState, EditAction))
    ensures
        match (state, event) {
            (EditState::Choosing, EditEvent::Line(line)) => match choice_of(line@) {
                EditChoice::Add => r.0 == EditState::NamingAdd && (r.1 matches EditAction::Prompt(
                    lines,
                ) && texts(lines@) == add_prompt()),
                EditChoice::Remove => r.0 == EditState::NamingRemove && (r.1
                    matches EditAction::PromptWithRoster(head, tail) && texts(head@)
                    == remove_prompt_head() && texts(tail@) == remove_prompt_tail()),
                EditChoice::Invalid => r.0 == EditState::Closed && (r.1 matches EditAction::Say(
                    lines,
                ) && texts(lines@) == seq!["Invalid input"@]),
            },
            (EditState::NamingAdd, EditEvent::Line(line)) => (r.0 matches EditState::Searching(
                team,
            ) && team@ == trim(line@, CharClass::Whitespace)) && (r.1 matches EditAction::Search(
                url,
            ) && url@ == team_search_url(trim(line@, CharClass::Whitespace))),
            (EditState::Searching(team), EditEvent::Searched(answer)) => r.0 == EditState::Closed
                && match answer {
                Ok(body) => match team_of_search(body@) {
                    Ok(info) => match entry_line(info.team@) {
                        Some(row) => r.1 matches EditAction::Append(bytes, lines) && bytes@ == row
                            && texts(lines@) == seq![added_line(team@)],
                        None => r.1 matches EditAction::Say(lines) && texts(lines@) == seq![
                            rejected_line(),
                        ],
                    },
                    Err(_) => r.1 matches EditAction::Say(lines) && texts(lines@) == seq![
                        rejected_line(),
                    ],
                },
                Err(_) => r.1 matches EditAction::Say(lines) && texts(lines@) == seq![
                    rejected_line(),
                ],
            },
            (EditState::NamingRemove, EditEvent::Line(line)) => r.0 == EditState::Closed && (r.1
                matches EditAction::Remove(team, lines) && team@ == trim(
                line@,
                CharClass::Whitespace,
            ) && texts(lines@) == seq![removed_line(trim(line@, CharClass::Whitespace))]),
            _ => r.0 == state && r.1 == EditAction::Ignore,
        },
{
    match (state, event) {
        (EditState::Choosing, EditEvent::Line(line)) => match edit_choice(line.as_str()) {
            EditChoice::Add => (
                EditState::NamingAdd,
                EditAction::Prompt(
                    one_line(String::from_str("Enter a team to add to your list of teams: ")),
                ),
            ),
            EditChoice::Remove => {
                let head = vec![String::new(), String::from_str("Your current teams: ")];
                let tail = vec![
                    String::new(),
                    String::from_str("Enter a team to remove from your list of teams:"),
                ];
                assert(texts(head@) =~= remove_prompt_head());
                assert(texts(tail@) =~= remove_prompt_tail());
                (EditState::NamingRemove, EditAction::PromptWithRoster(head, tail))
            },
            EditChoice::Invalid => (
                EditState::Closed,
                EditAction::Say(one_line(String::from_str("Invalid input"))),
            ),
        },
        (EditState::NamingAdd, EditEvent::Line(line)) => {
            let team = get_team_input(line.as_str());
            let url = get_team_search_url(team.as_str());
            (EditState::Searching(team), EditAction::Search(url))
        },
        (EditState::Searching(team), EditEvent::Searched(answer)) => {
            let action = add_team(team.as_str(), &answer);
            (EditState::Closed, action)
        },
        (EditState::NamingRemove, EditEvent::Line(line)) => {
            let team = get_team_input(line.as_str());
            let mut said = String::from_str("Removed ");
            said.append(team.as_str());
            said.append(" from your teams list");
            (EditState::Closed, EditAction::Remove(team, one_line(said)))
        },
        (state, _) => (state, EditAction::Ignore),
    }
}

} // verus!
