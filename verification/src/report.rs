//! What a command shows once its requests are answered: the lines for the
//! terminal, and the lines for the error stream.

use std::collections::HashMap;
use vstd::prelude::*;
use crate::clock::{civil_at, clock_text, Zone};
use crate::command::{check_if_not_fixtures_trait_type, not_fixtures, Command, CommandType};
use crate::model::Fixture;
use crate::normalize::{
    normalized_fixtures, parse_fixtures, parse_standings, standings_batch, unfold, ParseError,
};
use crate::render::{
    can_print_standings, can_render, is_live_row, is_schedule_row, is_score_row,
    is_standings_lines, joined, lemma_joined_prefix, print_based_on_command,
    print_standings_by_league, renderable, standings_ready,
};
use crate::text::texts;

verus! {

/// Whether `row` is the row of the fixture under a command that shows
/// fixtures, with times in `zone`. In the machine's own zone the time
/// shown is whatever the machine reads; in a fixed zone it is the
/// calendar's reading.
pub open spec fn is_fixture_row(
    row: Seq<char>,
    fixture: Fixture,
    command_type: CommandType,
    zone: Zone,
) -> bool {
    match command_type {
        CommandType::Live => is_live_row(row, fixture),
        CommandType::Scores => is_score_row(row, fixture),
        CommandType::Schedule => match zone {
            Zone::Fixed(seconds) => civil_at(fixture.fixture.timestamp as int, seconds as int)
                is Some && is_schedule_row(
                row,
                fixture,
                clock_text(
                    civil_at(fixture.fixture.timestamp as int, seconds as int).unwrap().hour as nat,
                    civil_at(
                        fixture.fixture.timestamp as int,
                        seconds as int,
                    ).unwrap().minute as nat,
                ),
            ),
            Zone::Local => exists|hour: nat, minute: nat|
                hour < 24 && minute < 60 && is_schedule_row(
                    row,
                    fixture,
                    #[trigger] clock_text(hour, minute),
                ),
        },
        CommandType::Teams => false,
        CommandType::Standings => false,
    }
}

/// What a group of fixtures begins with: in a schedule, an empty line and
/// the name of the league of its first fixture; else nothing.
pub open spec fn group_heading(group: Seq<Fixture>, command_type: CommandType) -> Seq<Seq<char>> {
    if command_type == CommandType::Schedule && group.len() > 0 {
        seq![Seq::<char>::empty(), group[0].league.name@]
    } else {
        Seq::empty()
    }
}

/// Whether `lines` are the group as shown: its heading, then a row for
/// each fixture in the group's order.
pub open spec fn is_group_lines(
    lines: Seq<Seq<char>>,
    group: Seq<Fixture>,
    command_type: CommandType,
    zone: Zone,
) -> bool {
    exists|rows: Seq<Seq<char>>| #[trigger]
        rows.len() == group.len() && (forall|i: int|
            0 <= i < group.len() ==> is_fixture_row(
                #[trigger] rows[i],
                group[i],
                command_type,
                zone,
            )) && lines == group_heading(group, command_type) + rows
}

/// Whether the fixture's row can be written: it reports what the row
/// shows, its sides can be coloured and, for a schedule in a fixed zone,
/// the calendar reaches its kick-off.
pub open spec fn showable(
    command_type: CommandType,
    colors: Map<u64, String>,
    fixture: Fixture,
    zone: Zone,
) -> bool {
    renderable(command_type, colors, fixture) && (command_type == CommandType::Schedule
        ==> match zone {
        Zone::Fixed(seconds) => civil_at(fixture.fixture.timestamp as int, seconds as int)
            is Some,
        Zone::Local => true,
    })
}

/// One group of fixtures as shown; `None` where the row of one of them
/// cannot be written.
pub fn format_group(
    group: &Vec<Fixture>,
    cmd: &Command,
    colors_hashmap: &HashMap<u64, String>,
    zone: Zone,
) -> (r: Option<Vec<String>>)
    requires
        !not_fixtures(cmd.command_type),
    ensures
        r matches Some(lines) ==> is_group_lines(texts(lines@), group@, cmd.command_type, zone),
        r is Some ==> forall|i: int|
            0 <= i < group@.len() ==> showable(
                cmd.command_type,
                colors_hashmap@,
                #[trigger] group@[i],
                zone,
            ),
        (zone is Fixed || cmd.command_type != CommandType::Schedule) && (forall|i: int|
            0 <= i < group@.len() ==> showable(
                cmd.command_type,
                colors_hashmap@,
                #[trigger] group@[i],
                zone,
            )) ==> r is Some,
{
    let mut lines: Vec<String> = Vec::new();
    if cmd.command_type == CommandType::Schedule && group.len() > 0 {
        lines.push(String::new());
        lines.push(group[0].league.name.clone());
    }
    assert(texts(lines@) =~= group_heading(group@, cmd.command_type));
    let ghost mut rows: Seq<Seq<char>> = Seq::empty();
    let mut i: usize = 0;
    while i < group.len()
        invariant
            i <= group@.len(),
            !not_fixtures(cmd.command_type),
            rows.len() == i,
            forall|j: int|
                0 <= j < i ==> is_fixture_row(
                    #[trigger] rows[j],
                    group@[j],
                    cmd.command_type,
                    zone,
                ),
            forall|j: int|
                0 <= j < i ==> showable(
                    cmd.command_type,
                    colors_hashmap@,
                    #[trigger] group@[j],
                    zone,
                ),
            texts(lines@) == group_heading(group@, cmd.command_type) + rows,
        decreases group@.len() - i,
    {
        if !can_render(cmd, colors_hashmap, &group[i]) {
            return None;
        }
        match print_based_on_command(&group[i], cmd, colors_hashmap, zone) {
            Some(row) => {
                let ghost had = texts(lines@);
                let ghost shown = row@;
                proof {
                    rows = rows.push(shown);
                }
                lines.push(row);
                assert(texts(lines@) =~= had.push(shown));
                assert(had.push(shown) =~= group_heading(group@, cmd.command_type) + rows);
            },
            None => {
                return None;
            },
        }
        i = i + 1;
    }
    Some(lines)
}

/// Whether the groups hold no fixture to show: there is no group, or one
/// empty group.
pub open spec fn nothing_to_show(groups: Seq<Seq<Fixture>>) -> bool {
    groups.len() == 0 || (groups.len() == 1 && groups[0].len() == 0)
}

/// The line shown in place of fixtures where there are none.
pub open spec fn no_fixtures_line() -> Seq<char> {
    "No fixtures :("@
}

/// Whether `lines` are the groups as shown: the one line that says so
/// where there is nothing to show, else the groups one after another.
pub open spec fn is_fixture_lines(
    lines: Seq<Seq<char>>,
    groups: Seq<Seq<Fixture>>,
    command_type: CommandType,
    zone: Zone,
) -> bool {
    if nothing_to_show(groups) {
        lines == seq![no_fixtures_line()]
    } else {
        exists|blocks: Seq<Seq<Seq<char>>>| #[trigger]
            blocks.len() == groups.len() && (forall|i: int|
                0 <= i < groups.len() ==> is_group_lines(
                    #[trigger] blocks[i],
                    groups[i],
                    command_type,
                    zone,
                )) && lines == joined(blocks, blocks.len() as int)
    }
}

/// Whether the row of every fixture of every group can be written.
pub open spec fn all_showable(
    command_type: CommandType,
    colors: Map<u64, String>,
    groups: Seq<Seq<Fixture>>,
    zone: Zone,
) -> bool {
    forall|i: int, j: int|
        0 <= i < groups.len() && 0 <= j < groups[i].len() ==> showable(
            command_type,
            colors,
            #[trigger] groups[i][j],
            zone,
        )
}

/// The groups of fixtures as shown; `None` where the row of one of them
/// cannot be written.
pub fn format_fixtures(
    groups: &Vec<Vec<Fixture>>,
    cmd: &Command,
    colors_hashmap: &HashMap<u64, String>,
    zone: Zone,
) -> (r: Option<Vec<String>>)
    requires
        !not_fixtures(cmd.command_type),
    ensures
        r matches Some(lines) ==> is_fixture_lines(
            texts(lines@),
            unfold(groups@),
            cmd.command_type,
            zone,
        ),
        r is Some ==> all_showable(cmd.command_type, colors_hashmap@, unfold(groups@), zone),
        (zone is Fixed || cmd.command_type != CommandType::Schedule) && all_showable(
            cmd.command_type,
            colors_hashmap@,
            unfold(groups@),
            zone,
        ) ==> r is Some,
{
    let mut lines: Vec<String> = Vec::new();
    if groups.len() == 0 || (groups.len() == 1 && groups[0].len() == 0) {
        lines.push(String::from_str("No fixtures :("));
        assert(texts(lines@) =~= seq![no_fixtures_line()]);
        return Some(lines);
    }
    let ghost mut blocks: Seq<Seq<Seq<char>>> = Seq::empty();
    assert(texts(lines@) =~= joined(blocks, 0));
    let mut i: usize = 0;
    while i < groups.len()
        invariant
            i <= groups@.len(),
            !not_fixtures(cmd.command_type),
            blocks.len() == i,
            forall|j: int|
                0 <= j < i ==> is_group_lines(
                    #[trigger] blocks[j],
                    unfold(groups@)[j],
                    cmd.command_type,
                    zone,
                ),
            forall|a: int, b: int|
                0 <= a < i && 0 <= b < unfold(groups@)[a].len() ==> showable(
                    cmd.command_type,
                    colors_hashmap@,
                    #[trigger] unfold(groups@)[a][b],
                    zone,
                ),
            texts(lines@) == joined(blocks, i as int),
        decreases groups@.len() - i,
    {
        assert(unfold(groups@)[i as int] == groups@[i as int]@);
        match format_group(&groups[i], cmd, colors_hashmap, zone) {
            Some(block) => {
                proof {
                    let ghost before = blocks;
                    blocks = blocks.push(texts(block@));
                    lemma_joined_prefix(before, blocks, i as int);
                }
                let mut block = block;
                let ghost added = block@;
                let ghost had = lines@;
                lines.append(&mut block);
                assert(texts(lines@) =~= texts(had) + texts(added));
            },
            None => {
                assert(!all_showable(cmd.command_type, colors_hashmap@, unfold(groups@), zone)
                    || !(zone is Fixed || cmd.command_type != CommandType::Schedule)) by {
                    if zone is Fixed || cmd.command_type != CommandType::Schedule {
                        if all_showable(cmd.command_type, colors_hashmap@, unfold(groups@), zone) {
                            assert forall|k: int|
                                0 <= k < groups@[i as int]@.len() implies showable(
                                cmd.command_type,
                                colors_hashmap@,
                                #[trigger] groups@[i as int]@[k],
                                zone,
                            ) by {
                                assert(unfold(groups@)[i as int][k] == groups@[i as int]@[k]);
                            }
                        }
                    }
                }
                return None;
            },
        }
        i = i + 1;
    }
    Some(lines)
}

/// What a command shows.
#[derive(Debug)]
pub struct Report {
    /// The lines for the terminal.
    pub lines: Vec<String>,
    /// The lines for the error stream.
    pub errors: Vec<String>,
    /// `false` where the work stopped at a record whose row cannot be
    /// written; then no line is handed out.
    pub complete: bool,
}

/// The line for a failed request.
pub open spec fn api_error_line(error: Seq<char>) -> Seq<char> {
    "Error from the API: "@ + error
}

/// The line for fixtures that cannot be read.
pub open spec fn fixtures_error_line(error: ParseError) -> Seq<char> {
    "Error parsing fixtures: "@ + error.text()
}

/// The line for standings that cannot be read.
pub open spec fn standings_error_line(error: ParseError) -> Seq<char> {
    "Error parsing standings: "@ + error.text()
}

fn error_report(head: &str, error: &str) -> (report: Report)
    ensures
        report.lines@.len() == 0,
        texts(report.errors@) == seq![head@ + error@],
        report.complete,
{
    let mut line = String::from_str(head);
    line.append(error);
    let errors = vec![line];
    assert(texts(errors@) =~= seq![head@ + error@]);
    Report { lines: Vec::new(), errors, complete: true }
}

/// What a command shows for the outcome of its requests. A failed batch
/// gives one error line. The roster editor shows nothing here. Standings
/// and fixtures are read from the bodies and shown, or give one error
/// line where they cannot be read.
pub fn run(
    cmd: &Command,
    fetched: Result<Vec<String>, String>,
    colors_hashmap: &HashMap<u64, String>,
    zone: Zone,
) -> (report: Report)
    ensures
        match fetched {
            Err(error) => report.lines@.len() == 0 && texts(report.errors@) == seq![
                api_error_line(error@),
            ] && report.complete,
            Ok(bodies) => match cmd.command_type {
                CommandType::Teams => report.lines@.len() == 0 && report.errors@.len() == 0
                    && report.complete,
                CommandType::Standings => match standings_batch(texts(bodies@)) {
                    Err(e) => report.lines@.len() == 0 && texts(report.errors@) == seq![
                        standings_error_line(e),
                    ] && report.complete,
                    Ok(leagues) => report.errors@.len() == 0 && report.complete
                        == standings_ready(colors_hashmap@, leagues) && if report.complete {
                        is_standings_lines(texts(report.lines@), leagues)
                    } else {
                        report.lines@.len() == 0
                    },
                },
                _ => match normalized_fixtures(texts(bodies@)) {
                    Err(e) => report.lines@.len() == 0 && texts(report.errors@) == seq![
                        fixtures_error_line(e),
                    ] && report.complete,
                    Ok(groups) => {
                        &&& report.errors@.len() == 0
                        &&& report.complete ==> is_fixture_lines(
                            texts(report.lines@),
                            groups,
                            cmd.command_type,
                            zone,
                        ) && all_showable(cmd.command_type, colors_hashmap@, groups, zone)
                        &&& !report.complete ==> report.lines@.len() == 0
                        &&& (zone is Fixed || cmd.command_type != CommandType::Schedule)
                            && all_showable(cmd.command_type, colors_hashmap@, groups, zone)
                            ==> report.complete
                    },
                },
            },
        },
{
    let bodies = match fetched {
        Ok(bodies) => bodies,
        Err(error) => {
            return error_report("Error from the API: ", error.as_str());
        },
    };
    if check_if_not_fixtures_trait_type(cmd) {
        match cmd.command_type {
            CommandType::Standings => match parse_standings(&bodies) {
                Ok(leagues) => if can_print_standings(&leagues, colors_hashmap) {
                    Report {
                        lines: print_standings_by_league(&leagues, colors_hashmap),
                        errors: Vec::new(),
                        complete: true,
                    }
                } else {
                    Report { lines: Vec::new(), errors: Vec::new(), complete: false }
                },
                Err(e) => error_report("Error parsing standings: ", e.message()),
            },
            _ => Report { lines: Vec::new(), errors: Vec::new(), complete: true },
        }
    } else {
        match parse_fixtures(bodies) {
            Ok(groups) => match format_fixtures(&groups, cmd, colors_hashmap, zone) {
                Some(lines) => Report { lines, errors: Vec::new(), complete: true },
                None => Report { lines: Vec::new(), errors: Vec::new(), complete: false },
            },
            Err(e) => error_report("Error parsing fixtures: ", e.message()),
        }
    }
}

} // verus!
