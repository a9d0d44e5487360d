//! The rows that fixtures and table entries are shown as.

use std::collections::HashMap;
use vstd::prelude::*;
use vstd::utf8::{decode_utf8, encode_utf8, is_char_boundary};
use crate::clock::{civil_at, clock_text, unix_to_cst, Zone};
use crate::color::{color_of, embolden, get_text_color, shown_as};
use crate::command::{Command, CommandType};
use crate::model::{Fixture, Team, TeamStanding};
use crate::normalize::{unfold, unfold_leagues};
use crate::roster::Roster;
use crate::text::{
    decimal, pad_to, push_decimal, push_padded, push_signed, push_spaces, same_text,
    signed_decimal, spaces, texts,
};

verus! {

/// What a schedule row ends with: nothing for a match that is finished,
/// not yet fixed or not started, `| In Progress` for any other.
pub open spec fn in_progress_suffix(short_status: Seq<char>) -> Seq<char> {
    if short_status == "FT"@ || short_status == "TBD"@ || short_status == "NS"@ {
        ""@
    } else {
        "| In Progress"@
    }
}

/// The suffix of a schedule row for a status code.
pub fn check_if_fixture_in_progress(short_status: &String) -> (suffix: &'static str)
    ensures
        suffix@ == in_progress_suffix(short_status@),
{
    let short = short_status.as_str();
    if same_text(short, "FT") {
        ""
    } else if !same_text(short, "TBD") && !same_text(short, "NS") {
        "| In Progress"
    } else {
        ""
    }
}

/// The line that heads the favourite teams' fixtures.
pub const SCORES_HEADING: &'static str = "Away                      Home";

/// The width of the column that a team's name is shown in.
pub const NAME_COLUMN: usize = 27;

/// The spaces that follow a name in its column: what its bytes leave of
/// the column's width, none where they fill it.
pub open spec fn pad_width(name: Seq<char>) -> nat {
    let length = encode_utf8(name).len();
    if length <= NAME_COLUMN {
        (NAME_COLUMN - length) as nat
    } else {
        0
    }
}

/// A name as shown, then the spaces that fill its column. The width goes
/// by the name itself, so styling never counts.
pub open spec fn name_field(shown: Seq<char>, name: Seq<char>) -> Seq<char> {
    shown + spaces(pad_width(name))
}

fn push_name_field(out: &mut String, shown: &str, name: &str)
    ensures
        final(out)@ == old(out)@ + name_field(shown@, name@),
{
    out.append(shown);
    let length = name.as_bytes().len();
    let pad: usize = if length <= NAME_COLUMN {
        NAME_COLUMN - length
    } else {
        0
    };
    push_spaces(out, pad);
    assert(out@ =~= old(out)@ + name_field(shown@, name@));
}

/// `<away> at <home> at <clock> <suffix>`, the two names in their columns.
pub open spec fn schedule_row(
    away_shown: Seq<char>,
    away: Seq<char>,
    home_shown: Seq<char>,
    home: Seq<char>,
    clock_shown: Seq<char>,
    short_status: Seq<char>,
) -> Seq<char> {
    name_field(away_shown, away) + "at "@ + name_field(home_shown, home) + "at "@ + clock_shown
        + " "@ + in_progress_suffix(short_status)
}

/// Writes a schedule row from its parts as they are to be shown.
pub fn schedule_row_text(
    away_shown: &str,
    away: &str,
    home_shown: &str,
    home: &str,
    clock_shown: &str,
    short_status: &String,
) -> (row: String)
    ensures
        row@ == schedule_row(
            away_shown@,
            away@,
            home_shown@,
            home@,
            clock_shown@,
            short_status@,
        ),
{
    let mut row = String::new();
    push_name_field(&mut row, away_shown, away);
    row.append("at ");
    push_name_field(&mut row, home_shown, home);
    row.append("at ");
    row.append(clock_shown);
    row.append(" ");
    row.append(check_if_fixture_in_progress(short_status));
    assert(row@ =~= schedule_row(
        away_shown@,
        away@,
        home_shown@,
        home@,
        clock_shown@,
        short_status@,
    ));
    row
}

/// `<away> <home>: <away goals> - <home goals> in <minutes>'`.
pub open spec fn live_row(
    away_shown: Seq<char>,
    away: Seq<char>,
    home_shown: Seq<char>,
    home: Seq<char>,
    away_goals_shown: Seq<char>,
    home_goals_shown: Seq<char>,
    elapsed_shown: Seq<char>,
) -> Seq<char> {
    name_field(away_shown, away) + name_field(home_shown, home) + ": "@ + away_goals_shown
        + " - "@ + home_goals_shown + " in "@ + elapsed_shown + "'"@
}

/// Writes a live row from its parts as they are to be shown.
pub fn live_row_text(
    away_shown: &str,
    away: &str,
    home_shown: &str,
    home: &str,
    away_goals_shown: &str,
    home_goals_shown: &str,
    elapsed_shown: &str,
) -> (row: String)
    ensures
        row@ == live_row(
            away_shown@,
            away@,
            home_shown@,
            home@,
            away_goals_shown@,
            home_goals_shown@,
            elapsed_shown@,
        ),
{
    let mut row = String::new();
    push_name_field(&mut row, away_shown, away);
    push_name_field(&mut row, home_shown, home);
    row.append(": ");
    row.append(away_goals_shown);
    row.append(" - ");
    row.append(home_goals_shown);
    row.append(" in ");
    row.append(elapsed_shown);
    row.append("'");
    assert(row@ =~= live_row(
        away_shown@,
        away@,
        home_shown@,
        home@,
        away_goals_shown@,
        home_goals_shown@,
        elapsed_shown@,
    ));
    row
}

/// `<away> <home>: <away goals> - <home goals> on <MM-DD>`.
pub open spec fn score_row(
    away_shown: Seq<char>,
    away: Seq<char>,
    home_shown: Seq<char>,
    home: Seq<char>,
    away_goals_shown: Seq<char>,
    home_goals_shown: Seq<char>,
    month_day: Seq<char>,
) -> Seq<char> {
    name_field(away_shown, away) + name_field(home_shown, home) + ": "@ + away_goals_shown
        + " - "@ + home_goals_shown + " on "@ + month_day
}

/// Writes a score row from its parts as they are to be shown.
pub fn score_row_text(
    away_shown: &str,
    away: &str,
    home_shown: &str,
    home: &str,
    away_goals_shown: &str,
    home_goals_shown: &str,
    month_day: &str,
) -> (row: String)
    ensures
        row@ == score_row(
            away_shown@,
            away@,
            home_shown@,
            home@,
            away_goals_shown@,
            home_goals_shown@,
            month_day@,
        ),
{
    let mut row = String::new();
    push_name_field(&mut row, away_shown, away);
    push_name_field(&mut row, home_shown, home);
    row.append(": ");
    row.append(away_goals_shown);
    row.append(" - ");
    row.append(home_goals_shown);
    row.append(" on ");
    row.append(month_day);
    assert(row@ =~= score_row(
        away_shown@,
        away@,
        home_shown@,
        home@,
        away_goals_shown@,
        home_goals_shown@,
        month_day@,
    ));
    row
}

/// The month and day of a date written as `YYYY-MM-DD...`: what its bytes
/// five to ten spell. `None` where the date is shorter or a character
/// straddles either end.
pub open spec fn month_day_of(date: Seq<char>) -> Option<Seq<char>> {
    let bytes = encode_utf8(date);
    if is_char_boundary(bytes, 5) {
        let rest = bytes.subrange(5, bytes.len() as int);
        if is_char_boundary(rest, 5) {
            Some(decode_utf8(rest.subrange(0, 5)))
        } else {
            None
        }
    } else {
        None
    }
}

/// Cuts the month and day out of a date.
pub fn month_day_slice(date: &str) -> (r: Option<&str>)
    ensures
        match r {
            Some(slice) => month_day_of(date@) == Some(slice@),
            None => month_day_of(date@) is None,
        },
{
    broadcast use vstd::utf8::group_utf8_lib;

    if !date.is_char_boundary(5) {
        return None;
    }
    let (_, rest) = date.split_at(5);
    if !rest.is_char_boundary(5) {
        return None;
    }
    let (slice, _) = rest.split_at(5);
    assert(decode_utf8(encode_utf8(slice@)) == slice@);
    Some(slice)
}

/// Whether the colour table can colour both sides of the fixture.
pub open spec fn colors_ready(table: Map<u64, String>, fixture: Fixture) -> bool {
    color_of(table, fixture.teams.away.id) is Some && color_of(table, fixture.teams.home.id)
        is Some
}

/// Whether `row` is the schedule row of the fixture with the kick-off
/// written as `clock`, whatever styling the terminal takes.
pub open spec fn is_schedule_row(row: Seq<char>, fixture: Fixture, clock: Seq<char>) -> bool {
    exists|away_shown: Seq<char>, home_shown: Seq<char>, clock_shown: Seq<char>|
        shown_as(fixture.teams.away.name@, away_shown) && shown_as(
            fixture.teams.home.name@,
            home_shown,
        ) && shown_as(clock, clock_shown) && row == #[trigger] schedule_row(
            away_shown,
            fixture.teams.away.name@,
            home_shown,
            fixture.teams.home.name@,
            clock_shown,
            fixture.fixture.status.short@,
        )
}

/// The schedule row of a fixture, its kick-off in `zone`; `None` where
/// the calendar does not reach the kick-off.
pub fn format_schedule_row(
    colors_hashmap: &HashMap<u64, String>,
    fixture: &Fixture,
    zone: Zone,
) -> (r: Option<String>)
    requires
        colors_ready(colors_hashmap@, *fixture),
    ensures
        zone matches Zone::Fixed(seconds) ==> (match civil_at(
            fixture.fixture.timestamp as int,
            seconds as int,
        ) {
            Some(c) => r matches Some(row) && is_schedule_row(
                row@,
                *fixture,
                clock_text(c.hour as nat, c.minute as nat),
            ),
            None => r is None,
        }),
        r matches Some(row) ==> exists|hour: nat, minute: nat|
            hour < 24 && minute < 60 && is_schedule_row(
                row@,
                *fixture,
                #[trigger] clock_text(hour, minute),
            ),
{
    let clock = match unix_to_cst(fixture.fixture.timestamp, zone) {
        Some(clock) => clock,
        None => {
            return None;
        },
    };
    let away_shown = get_text_color(colors_hashmap, &fixture.teams.away);
    let home_shown = get_text_color(colors_hashmap, &fixture.teams.home);
    let clock_shown = embolden(clock.as_str());
    let row = schedule_row_text(
        away_shown.as_str(),
        fixture.teams.away.name.as_str(),
        home_shown.as_str(),
        fixture.teams.home.name.as_str(),
        clock_shown.as_str(),
        &fixture.fixture.status.short,
    );
    assert(is_schedule_row(row@, *fixture, clock@));
    Some(row)
}

/// Whether the fixture reports what a live row shows: both sides' goals
/// and the minutes played.
pub open spec fn has_live_numbers(fixture: Fixture) -> bool {
    fixture.goals.away is Some && fixture.goals.home is Some && fixture.fixture.status.elapsed
        is Some
}

/// Whether `row` is the live row of the fixture, whatever styling the
/// terminal takes.
pub open spec fn is_live_row(row: Seq<char>, fixture: Fixture) -> bool {
    exists|
        away_shown: Seq<char>,
        home_shown: Seq<char>,
        away_goals: Seq<char>,
        home_goals: Seq<char>,
        elapsed: Seq<char>,
    |
        shown_as(fixture.teams.away.name@, away_shown) && shown_as(
            fixture.teams.home.name@,
            home_shown,
        ) && shown_as(decimal(fixture.goals.away.unwrap() as nat), away_goals) && shown_as(
            decimal(fixture.goals.home.unwrap() as nat),
            home_goals,
        ) && shown_as(decimal(fixture.fixture.status.elapsed.unwrap() as nat), elapsed) && row
            == #[trigger] live_row(
            away_shown,
            fixture.teams.away.name@,
            home_shown,
            fixture.teams.home.name@,
            away_goals,
            home_goals,
            elapsed,
        )
}

fn bold_number(n: u64) -> (shown: String)
    ensures
        shown_as(decimal(n as nat), shown@),
{
    let mut digits = String::new();
    push_decimal(&mut digits, n);
    assert(digits@ =~= decimal(n as nat));
    embolden(digits.as_str())
}

/// The live row of a fixture that is being played.
pub fn format_live_row(colors_hashmap: &HashMap<u64, String>, fixture: &Fixture) -> (row: String)
    requires
        colors_ready(colors_hashmap@, *fixture),
        has_live_numbers(*fixture),
    ensures
        is_live_row(row@, *fixture),
{
    let away_shown = get_text_color(colors_hashmap, &fixture.teams.away);
    let home_shown = get_text_color(colors_hashmap, &fixture.teams.home);
    let away_goals = bold_number(fixture.goals.away.unwrap());
    let home_goals = bold_number(fixture.goals.home.unwrap());
    let elapsed = bold_number(fixture.fixture.status.elapsed.unwrap());
    live_row_text(
        away_shown.as_str(),
        fixture.teams.away.name.as_str(),
        home_shown.as_str(),
        fixture.teams.home.name.as_str(),
        away_goals.as_str(),
        home_goals.as_str(),
        elapsed.as_str(),
    )
}

/// Whether the fixture reports what a score row shows: both sides' goals,
/// and a date long enough to hold a month and a day.
pub open spec fn has_score_numbers(fixture: Fixture) -> bool {
    fixture.goals.away is Some && fixture.goals.home is Some && month_day_of(
        fixture.fixture.date@,
    ) is Some
}

/// Whether `row` is the score row of the fixture, whatever styling the
/// terminal takes.
pub open spec fn is_score_row(row: Seq<char>, fixture: Fixture) -> bool {
    exists|
        away_shown: Seq<char>,
        home_shown: Seq<char>,
        away_goals: Seq<char>,
        home_goals: Seq<char>,
    |
        shown_as(fixture.teams.away.name@, away_shown) && shown_as(
            fixture.teams.home.name@,
            home_shown,
        ) && shown_as(decimal(fixture.goals.away.unwrap() as nat), away_goals) && shown_as(
            decimal(fixture.goals.home.unwrap() as nat),
            home_goals,
        ) && row == #[trigger] score_row(
            away_shown,
            fixture.teams.away.name@,
            home_shown,
            fixture.teams.home.name@,
            away_goals,
            home_goals,
            month_day_of(fixture.fixture.date@).unwrap(),
        )
}

/// The score row of a fixture that has a result.
pub fn format_score_row(colors_hashmap: &HashMap<u64, String>, fixture: &Fixture) -> (row:
    String)
    requires
        colors_ready(colors_hashmap@, *fixture),
        has_score_numbers(*fixture),
    ensures
        is_score_row(row@, *fixture),
{
    let away_shown = get_text_color(colors_hashmap, &fixture.teams.away);
    let home_shown = get_text_color(colors_hashmap, &fixture.teams.home);
    let away_goals = bold_number(fixture.goals.away.unwrap());
    let home_goals = bold_number(fixture.goals.home.unwrap());
    let month_day = match month_day_slice(fixture.fixture.date.as_str()) {
        Some(slice) => slice,
        None => vstd::pervasive::unreached(),
    };
    let row = score_row_text(
        away_shown.as_str(),
        fixture.teams.away.name.as_str(),
        home_shown.as_str(),
        fixture.teams.home.name.as_str(),
        away_goals.as_str(),
        home_goals.as_str(),
        month_day,
    );
    assert(month_day@ == month_day_of(fixture.fixture.date@).unwrap());
    row
}

/// What must hold of a fixture for its row under a command to be written:
/// its two sides can be coloured, and it reports what the row shows.
pub open spec fn renderable(
    command_type: CommandType,
    table: Map<u64, String>,
    fixture: Fixture,
) -> bool {
    match command_type {
        CommandType::Live => colors_ready(table, fixture) && has_live_numbers(fixture),
        CommandType::Schedule => colors_ready(table, fixture),
        CommandType::Scores => colors_ready(table, fixture) && has_score_numbers(fixture),
        CommandType::Teams => true,
        CommandType::Standings => true,
    }
}

/// Tests `renderable`.
pub fn can_render(cmd: &Command, colors_hashmap: &HashMap<u64, String>, fixture: &Fixture) -> (r:
    bool)
    ensures
        r == renderable(cmd.command_type, colors_hashmap@, *fixture),
{
    let colored = crate::color::team_color(colors_hashmap, &fixture.teams.away).is_some()
        && crate::color::team_color(colors_hashmap, &fixture.teams.home).is_some();
    let goals = fixture.goals.away.is_some() && fixture.goals.home.is_some();
    match cmd.command_type {
        CommandType::Live => colored && goals && fixture.fixture.status.elapsed.is_some(),
        CommandType::Schedule => colored,
        CommandType::Scores => colored && goals && month_day_slice(
            fixture.fixture.date.as_str(),
        ).is_some(),
        CommandType::Teams => true,
        CommandType::Standings => true,
    }
}

/// The row that a fixture is shown as under a command. The roster editor
/// and the standings show no fixtures: for them there is no row.
pub fn print_based_on_command(
    fixture: &Fixture,
    cmd: &Command,
    colors_hashmap: &HashMap<u64, String>,
    zone: Zone,
) -> (r: Option<String>)
    requires
        renderable(cmd.command_type, colors_hashmap@, *fixture),
    ensures
        match cmd.command_type {
            CommandType::Live => r matches Some(row) && is_live_row(row@, *fixture),
            CommandType::Scores => r matches Some(row) && is_score_row(row@, *fixture),
            CommandType::Schedule => {
                &&& zone matches Zone::Fixed(seconds) ==> (r is Some <==> civil_at(
                    fixture.fixture.timestamp as int,
                    seconds as int,
                ) is Some)
                &&& zone matches Zone::Fixed(seconds) ==> (r matches Some(row) ==> is_schedule_row(
                    row@,
                    *fixture,
                    clock_text(
                        civil_at(
                            fixture.fixture.timestamp as int,
                            seconds as int,
                        ).unwrap().hour as nat,
                        civil_at(
                            fixture.fixture.timestamp as int,
                            seconds as int,
                        ).unwrap().minute as nat,
                    ),
                ))
                &&& r matches Some(row) ==> exists|hour: nat, minute: nat|
                    hour < 24 && minute < 60 && is_schedule_row(
                        row@,
                        *fixture,
                        #[trigger] clock_text(hour, minute),
                    )
            },
            CommandType::Teams => r is None,
            CommandType::Standings => r is None,
        },
{
    match cmd.command_type {
        CommandType::Live => Some(format_live_row(colors_hashmap, fixture)),
        CommandType::Schedule => format_schedule_row(colors_hashmap, fixture, zone),
        CommandType::Teams => None,
        CommandType::Scores => Some(format_score_row(colors_hashmap, fixture)),
        CommandType::Standings => None,
    }
}

/// What a table row shows for a team's recent form: the form, or `na`
/// where none is reported.
pub open spec fn form_text(form: Option<String>) -> Seq<char> {
    match form {
        Some(form) => form@,
        None => "na"@,
    }
}

/// `<rank> <name> <points> <form>`: the rank in five columns, the name as
/// shown in twenty-five and then in its own column, the points and the
/// form in ten each.
pub open spec fn standing_row(
    rank: int,
    name_shown: Seq<char>,
    name: Seq<char>,
    points: int,
    form: Seq<char>,
) -> Seq<char> {
    pad_to(signed_decimal(rank), 5) + " "@ + pad_to(name_shown, 25) + spaces(pad_width(name))
        + pad_to(signed_decimal(points), 10) + " "@ + pad_to(form, 10)
}

/// Writes a table row from its parts as they are to be shown.
pub fn standing_row_text(rank: i32, name_shown: &str, name: &str, points: i32, form: &str) -> (row:
    String)
    ensures
        row@ == standing_row(rank as int, name_shown@, name@, points as int, form@),
{
    let mut row = String::new();
    let mut rank_text = String::new();
    push_signed(&mut rank_text, rank);
    assert(rank_text@ =~= signed_decimal(rank as int));
    push_padded(&mut row, rank_text.as_str(), 5);
    row.append(" ");
    push_padded(&mut row, name_shown, 25);
    let length = name.as_bytes().len();
    let pad: usize = if length <= NAME_COLUMN {
        NAME_COLUMN - length
    } else {
        0
    };
    push_spaces(&mut row, pad);
    let mut points_text = String::new();
    push_signed(&mut points_text, points);
    assert(points_text@ =~= signed_decimal(points as int));
    push_padded(&mut row, points_text.as_str(), 10);
    row.append(" ");
    push_padded(&mut row, form, 10);
    assert(row@ =~= standing_row(rank as int, name_shown@, name@, points as int, form@));
    row
}

/// The lines of one team in a table: its row, and before the row of the
/// first of a group that has a label, the label with ` Table` and an
/// empty line.
pub open spec fn team_lines(team: TeamStanding, name_shown: Seq<char>) -> Seq<Seq<char>> {
    let row = standing_row(
        team.rank as int,
        name_shown,
        team.team.name@,
        team.points as int,
        form_text(team.form),
    );
    if team.rank == 1 && team.group is Some {
        seq![team.group.unwrap()@ + " Table"@, Seq::empty(), row]
    } else {
        seq![row]
    }
}

/// Whether `lines` are the lines of the team, whatever styling the
/// terminal takes.
pub open spec fn is_team_lines(lines: Seq<Seq<char>>, team: TeamStanding) -> bool {
    exists|name_shown: Seq<char>|
        shown_as(team.team.name@, name_shown) && lines == #[trigger] team_lines(team, name_shown)
}

/// The lines of one team in a table.
pub fn format_team_row(team: &TeamStanding, colors_hashmap: &HashMap<u64, String>) -> (lines: Vec<
    String,
>)
    requires
        color_of(colors_hashmap@, team.team.id) is Some,
    ensures
        is_team_lines(texts(lines@), *team),
{
    let mut lines: Vec<String> = Vec::new();
    if team.rank == 1 {
        match &team.group {
            Some(group) => {
                let mut title = group.clone();
                title.append(" Table");
                lines.push(title);
                lines.push(String::new());
            },
            None => {},
        }
    }
    let name_shown = get_text_color(colors_hashmap, &team.team);
    let row = match &team.form {
        Some(form) => standing_row_text(
            team.rank,
            name_shown.as_str(),
            team.team.name.as_str(),
            team.points,
            form.as_str(),
        ),
        None => standing_row_text(
            team.rank,
            name_shown.as_str(),
            team.team.name.as_str(),
            team.points,
            "na",
        ),
    };
    lines.push(row);
    assert(texts(lines@) =~= team_lines(*team, name_shown@));
    lines
}

/// The line that heads every table.
pub open spec fn table_header() -> Seq<char> {
    "      Team                            Points         Form"@
}

/// The line that ends every league.
pub open spec fn league_rule() -> Seq<char> {
    "================================================="@
}

/// The blocks of the first `count` of a list, one after another.
pub open spec fn joined<T>(blocks: Seq<Seq<T>>, count: int) -> Seq<T>
    decreases count,
{
    if count <= 0 {
        Seq::empty()
    } else {
        joined(blocks, count - 1) + blocks[count - 1]
    }
}

/// Whether `lines` are a table as shown: the header, the lines of each
/// team in the table's order, and two empty lines.
pub open spec fn is_table_lines(lines: Seq<Seq<char>>, table: Seq<TeamStanding>) -> bool {
    exists|blocks: Seq<Seq<Seq<char>>>| #[trigger]
        blocks.len() == table.len() && (forall|i: int|
            0 <= i < table.len() ==> is_team_lines(#[trigger] blocks[i], table[i])) && lines
            == seq![table_header()] + joined(blocks, blocks.len() as int) + seq![
            Seq::<char>::empty(),
            Seq::<char>::empty(),
        ]
}

/// Whether every team of the table can be coloured.
pub open spec fn table_ready(colors: Map<u64, String>, table: Seq<TeamStanding>) -> bool {
    forall|i: int| 0 <= i < table.len() ==> color_of(colors, (#[trigger] table[i]).team.id) is Some
}

fn push_lines(lines: &mut Vec<String>, more: Vec<String>)
    ensures
        texts(final(lines)@) == texts(old(lines)@) + texts(more@),
{
    let mut more = more;
    let ghost added = more@;
    lines.append(&mut more);
    assert(texts(lines@) =~= texts(old(lines)@) + texts(added));
}

/// One table as shown.
pub fn format_table(table: &Vec<TeamStanding>, colors_hashmap: &HashMap<u64, String>) -> (lines:
    Vec<String>)
    requires
        table_ready(colors_hashmap@, table@),
    ensures
        is_table_lines(texts(lines@), table@),
{
    let mut lines: Vec<String> = Vec::new();
    lines.push(String::from_str("      Team                            Points         Form"));
    let ghost mut blocks: Seq<Seq<Seq<char>>> = Seq::empty();
    let mut i: usize = 0;
    while i < table.len()
        invariant
            i <= table@.len(),
            table_ready(colors_hashmap@, table@),
            blocks.len() == i,
            forall|j: int| 0 <= j < i ==> is_team_lines(#[trigger] blocks[j], table@[j]),
            texts(lines@) == seq![table_header()] + joined(blocks, i as int),
        decreases table@.len() - i,
    {
        assert(color_of(colors_hashmap@, table@[i as int].team.id) is Some);
        let block = format_team_row(&table[i], colors_hashmap);
        proof {
            let ghost before = blocks;
            blocks = blocks.push(texts(block@));
            lemma_joined_prefix(before, blocks, i as int);
        }
        push_lines(&mut lines, block);
        i = i + 1;
        assert(texts(lines@) =~= seq![table_header()] + joined(blocks, i as int));
    }
    let ghost rows = texts(lines@);
    lines.push(String::new());
    lines.push(String::new());
    assert(texts(lines@) =~= rows + seq![Seq::<char>::empty(), Seq::<char>::empty()]);
    lines
}

/// Blocks that agree on their first `count` join alike.
pub proof fn lemma_joined_prefix<T>(a: Seq<Seq<T>>, b: Seq<Seq<T>>, count: int)
    requires
        0 <= count <= a.len(),
        count <= b.len(),
        forall|i: int| 0 <= i < count ==> a[i] == b[i],
    ensures
        joined(a, count) == joined(b, count),
    decreases count,
{
    if count > 0 {
        lemma_joined_prefix(a, b, count - 1);
    }
}

/// Whether `lines` are a league as shown: its tables one after another,
/// then the rule and an empty line.
pub open spec fn is_league_lines(lines: Seq<Seq<char>>, league: Seq<Seq<TeamStanding>>) -> bool {
    exists|blocks: Seq<Seq<Seq<char>>>| #[trigger]
        blocks.len() == league.len() && (forall|i: int|
            0 <= i < league.len() ==> is_table_lines(#[trigger] blocks[i], league[i])) && lines
            == joined(blocks, blocks.len() as int) + seq![league_rule(), Seq::<char>::empty()]
}

/// Whether every team of every table of the league can be coloured.
pub open spec fn league_ready(colors: Map<u64, String>, league: Seq<Seq<TeamStanding>>) -> bool {
    forall|i: int| 0 <= i < league.len() ==> table_ready(colors, #[trigger] league[i])
}

/// One league as shown.
pub fn format_league(
    league: &Vec<Vec<TeamStanding>>,
    colors_hashmap: &HashMap<u64, String>,
) -> (lines: Vec<String>)
    requires
        league_ready(colors_hashmap@, unfold(league@)),
    ensures
        is_league_lines(texts(lines@), unfold(league@)),
{
    let mut lines: Vec<String> = Vec::new();
    let ghost mut blocks: Seq<Seq<Seq<char>>> = Seq::empty();
    assert(texts(lines@) =~= joined(blocks, 0));
    let mut i: usize = 0;
    while i < league.len()
        invariant
            i <= league@.len(),
            league_ready(colors_hashmap@, unfold(league@)),
            blocks.len() == i,
            forall|j: int| 0 <= j < i ==> is_table_lines(#[trigger] blocks[j], unfold(league@)[j]),
            texts(lines@) == joined(blocks, i as int),
        decreases league@.len() - i,
    {
        assert(table_ready(colors_hashmap@, unfold(league@)[i as int]));
        let block = format_table(&league[i], colors_hashmap);
        proof {
            let ghost before = blocks;
            blocks = blocks.push(texts(block@));
            lemma_joined_prefix(before, blocks, i as int);
        }
        push_lines(&mut lines, block);
        i = i + 1;
    }
    let ghost tables = texts(lines@);
    lines.push(String::from_str("================================================="));
    lines.push(String::new());
    assert(texts(lines@) =~= tables + seq![league_rule(), Seq::<char>::empty()]);
    lines
}

/// Whether `lines` are the standings as shown: the leagues one after
/// another.
pub open spec fn is_standings_lines(
    lines: Seq<Seq<char>>,
    leagues: Seq<Seq<Seq<TeamStanding>>>,
) -> bool {
    exists|blocks: Seq<Seq<Seq<char>>>| #[trigger]
        blocks.len() == leagues.len() && (forall|i: int|
            0 <= i < leagues.len() ==> is_league_lines(#[trigger] blocks[i], leagues[i]))
            && lines == joined(blocks, blocks.len() as int)
}

/// Whether every team of the standings can be coloured.
pub open spec fn standings_ready(
    colors: Map<u64, String>,
    leagues: Seq<Seq<Seq<TeamStanding>>>,
) -> bool {
    forall|i: int| 0 <= i < leagues.len() ==> league_ready(colors, #[trigger] leagues[i])
}

/// The standings as shown, league by league and table by table.
pub fn print_standings_by_league(
    league_standings: &Vec<Vec<Vec<TeamStanding>>>,
    colors_hashmap: &HashMap<u64, String>,
) -> (lines: Vec<String>)
    requires
        standings_ready(colors_hashmap@, unfold_leagues(league_standings@)),
    ensures
        is_standings_lines(texts(lines@), unfold_leagues(league_standings@)),
{
    let mut lines: Vec<String> = Vec::new();
    let ghost mut blocks: Seq<Seq<Seq<char>>> = Seq::empty();
    assert(texts(lines@) =~= joined(blocks, 0));
    let mut i: usize = 0;
    while i < league_standings.len()
        invariant
            i <= league_standings@.len(),
            standings_ready(colors_hashmap@, unfold_leagues(league_standings@)),
            blocks.len() == i,
            forall|j: int|
                0 <= j < i ==> is_league_lines(
                    #[trigger] blocks[j],
                    unfold_leagues(league_standings@)[j],
                ),
            texts(lines@) == joined(blocks, i as int),
        decreases league_standings@.len() - i,
    {
        assert(league_ready(colors_hashmap@, unfold_leagues(league_standings@)[i as int]));
        let block = format_league(&league_standings[i], colors_hashmap);
        proof {
            let ghost before = blocks;
            blocks = blocks.push(texts(block@));
            lemma_joined_prefix(before, blocks, i as int);
        }
        push_lines(&mut lines, block);
        i = i + 1;
    }
    lines
}

/// Tests `standings_ready`.
pub fn can_print_standings(
    league_standings: &Vec<Vec<Vec<TeamStanding>>>,
    colors_hashmap: &HashMap<u64, String>,
) -> (r: bool)
    ensures
        r == standings_ready(colors_hashmap@, unfold_leagues(league_standings@)),
{
    let mut i: usize = 0;
    while i < league_standings.len()
        invariant
            i <= league_standings@.len(),
            forall|a: int|
                0 <= a < i ==> league_ready(
                    colors_hashmap@,
                    #[trigger] unfold_leagues(league_standings@)[a],
                ),
        decreases league_standings@.len() - i,
    {
        let league = &league_standings[i];
        let mut j: usize = 0;
        while j < league.len()
            invariant
                j <= league@.len(),
                i < league_standings@.len(),
                league == &league_standings@[i as int],
                forall|b: int|
                    0 <= b < j ==> table_ready(colors_hashmap@, #[trigger] unfold(league@)[b]),
            decreases league@.len() - j,
        {
            let table = &league[j];
            let mut k: usize = 0;
            while k < table.len()
                invariant
                    k <= table@.len(),
                    j < league@.len(),
                    i < league_standings@.len(),
                    league == &league_standings@[i as int],
                    table == &league@[j as int],
                    forall|c: int|
                        0 <= c < k ==> color_of(colors_hashmap@, (#[trigger] table@[c]).team.id)
                            is Some,
                decreases table@.len() - k,
            {
                if crate::color::team_color(colors_hashmap, &table[k].team).is_none() {
                    assert(!table_ready(colors_hashmap@, unfold(league@)[j as int]));
                    assert(!league_ready(
                        colors_hashmap@,
                        unfold_leagues(league_standings@)[i as int],
                    ));
                    return false;
                }
                k = k + 1;
            }
            j = j + 1;
        }
        i = i + 1;
    }
    true
}

/// Whether every team of the roster can be coloured.
pub open spec fn roster_ready(colors: Map<u64, String>, roster: Seq<(Seq<char>, u64)>) -> bool {
    forall|i: int| 0 <= i < roster.len() ==> color_of(colors, (#[trigger] roster[i]).1) is Some
}

/// The favourite teams, one line each and each in its colour, in the order
/// of the roster's rows.
pub fn print_all_teams(roster: &Roster, colors_hashmap: &HashMap<u64, String>) -> (lines: Vec<
    String,
>)
    requires
        roster_ready(colors_hashmap@, roster@),
    ensures
        lines@.len() == roster@.len(),
        forall|i: int| 0 <= i < roster@.len() ==> shown_as(roster@[i].0, (#[trigger] lines@[i])@),
{
    let mut lines: Vec<String> = Vec::new();
    let mut i: usize = 0;
    while i < roster.entries.len()
        invariant
            i <= roster.entries@.len(),
            roster_ready(colors_hashmap@, roster@),
            lines@.len() == i,
            forall|j: int| 0 <= j < i ==> shown_as(roster@[j].0, (#[trigger] lines@[j])@),
        decreases roster.entries@.len() - i,
    {
        assert(roster@[i as int] == roster.entries@[i as int]@);
        let team = Team {
            id: roster.entries[i].id,
            name: roster.entries[i].name.clone(),
            logo: String::new(),
            winner: Some(true),
        };
        lines.push(get_text_color(colors_hashmap, &team));
        i = i + 1;
    }
    lines
}

} // verus!
