use footy::clock::{Zone, CENTRAL_STANDARD};
use footy::model::{
    Fixture, FixtureData, GoalStats, GoalsData, LeagueData, Periods, Stats, Status, Team,
    TeamCSVRecord, TeamStanding, TeamsData,
};
use footy::render::{
    can_print_standings, can_render, check_if_fixture_in_progress, format_league, format_live_row,
    format_schedule_row, format_score_row, format_table, format_team_row, live_row_text,
    month_day_slice, print_all_teams, print_based_on_command, print_standings_by_league,
    schedule_row_text, score_row_text, standing_row_text,
};
use footy::roster::Roster;
use footy::{Command, CommandType};
use std::collections::HashMap;

/// The text without the control sequences that style it.
fn plain(text: &str) -> String {
    let mut out = String::new();
    let mut chars = text.chars();
    while let Some(c) = chars.next() {
        if c == '\u{1b}' {
            for d in chars.by_ref() {
                if d == 'm' {
                    break;
                }
            }
        } else {
            out.push(c);
        }
    }
    out
}

fn team(id: u64, name: &str) -> Team {
    Team { id, name: name.to_string(), logo: String::new(), winner: None }
}

fn fixture(home: &str, away: &str, short: &str, goals: (Option<u64>, Option<u64>)) -> Fixture {
    Fixture {
        fixture: FixtureData {
            id: 1,
            referee: "M. Oliver".to_string(),
            timezone: "UTC".to_string(),
            date: "2023-11-15T19:03:41+00:00".to_string(),
            timestamp: 1700096621,
            periods: Periods { first: None, second: None },
            venue: None,
            status: Status { long: "Match".to_string(), short: short.to_string(), elapsed: Some(37) },
        },
        league: LeagueData {
            id: 39,
            name: "Premier League".to_string(),
            country: "England".to_string(),
            logo: String::new(),
            flag: None,
            season: 2023,
            round: None,
        },
        teams: TeamsData { home: team(40, home), away: team(50, away) },
        goals: GoalsData { home: goals.0, away: goals.1 },
        score: None,
    }
}

fn colors() -> HashMap<u64, String> {
    let mut table = HashMap::new();
    table.insert(50, "(0, 35, 89)".to_string());
    table.insert(40, "white".to_string());
    table
}

fn cst() -> Zone {
    Zone::Fixed(CENTRAL_STANDARD)
}

#[test]
fn test_check_if_fixture_in_progress() {
    let tbd = "TBD".to_string();
    let ns = "NS".to_string();
    let other = "other".to_string();

    assert_eq!("", check_if_fixture_in_progress(&tbd));
    assert_eq!("", check_if_fixture_in_progress(&ns));
    assert_eq!("| In Progress", check_if_fixture_in_progress(&other));
}

#[test]
fn only_three_codes_are_not_in_progress() {
    assert_eq!("", check_if_fixture_in_progress(&"FT".to_string()));
    for code in ["1H", "HT", "2H", "ET", "P", "LIVE", "PST", "", "ft", "FT ", "NSX", "T", "tbd"] {
        assert_eq!("| In Progress", check_if_fixture_in_progress(&code.to_string()), "{code}");
    }
}

#[test]
fn names_fill_a_column_of_twenty_seven() {
    let row = schedule_row_text("Manchester City", "Manchester City", "Liverpool", "Liverpool", "19:03", &"NS".to_string());
    assert_eq!(row, format!("{:<27}at {:<27}at 19:03 ", "Manchester City", "Liverpool"));
    assert_eq!(
        row,
        "Manchester City            at Liverpool                  at 19:03 "
    );
    let running = schedule_row_text("A", "A", "B", "B", "07:30", &"2H".to_string());
    assert_eq!(running, format!("{:<27}at {:<27}at 07:30 | In Progress", "A", "B"));
}

#[test]
fn the_width_goes_by_the_name_not_by_what_is_shown() {
    let row = live_row_text("<b>Ajax</b>", "Ajax", "[PSV]", "PSV", "2", "1", "37");
    assert_eq!(
        row,
        format!("<b>Ajax</b>{}[PSV]{}: 2 - 1 in 37'", " ".repeat(23), " ".repeat(24))
    );
}

#[test]
fn the_width_goes_by_bytes() {
    // Ten characters in eleven bytes.
    let row = score_row_text("Malm\u{f6} FF X", "Malm\u{f6} FF X", "B", "B", "0", "0", "11-15");
    assert_eq!(row, format!("Malm\u{f6} FF X{}B{}: 0 - 0 on 11-15", " ".repeat(16), " ".repeat(26)));
}

#[test]
fn a_long_name_gets_no_padding() {
    let exact = "x".repeat(27);
    let long = "y".repeat(40);
    let row = live_row_text(&exact, &exact, &long, &long, "0", "0", "1");
    assert_eq!(row, format!("{exact}{long}: 0 - 0 in 1'"));
}

#[test]
fn the_month_and_day_are_bytes_five_to_ten() {
    assert_eq!(month_day_slice("2023-11-15T19:03:41+00:00"), Some("11-15"));
    assert_eq!(month_day_slice("2023-11-15"), Some("11-15"));
    assert_eq!(month_day_slice("0123456789"), Some("56789"));
    assert_eq!(month_day_slice("2023-11-1"), None);
    assert_eq!(month_day_slice(""), None);
    assert_eq!(month_day_slice("2023\u{e9}11-15"), None);
    assert_eq!(month_day_slice("2023-11-1\u{e9}"), None);
    assert_eq!(month_day_slice("\u{e9}23-\u{e9}1-15"), Some("\u{e9}1-1"));
}

#[test]
fn a_schedule_row_shows_the_kick_off() {
    let f = fixture("Liverpool", "Manchester City", "NS", (None, None));
    let row = format_schedule_row(&colors(), &f, cst()).unwrap();
    assert_eq!(plain(&row), format!("{:<27}at {:<27}at 19:03 ", "Manchester City", "Liverpool"));
    let row = format_schedule_row(&colors(), &f, Zone::Fixed(0)).unwrap();
    assert_eq!(plain(&row), format!("{:<27}at {:<27}at 01:03 ", "Manchester City", "Liverpool"));
    let local = format_schedule_row(&colors(), &f, Zone::Local).unwrap();
    assert!(plain(&local).starts_with(&format!("{:<27}at {:<27}at ", "Manchester City", "Liverpool")));
    let mut far = fixture("Liverpool", "Manchester City", "NS", (None, None));
    far.fixture.timestamp = i64::MAX;
    assert_eq!(format_schedule_row(&colors(), &far, cst()), None);
}

#[test]
fn a_live_row_shows_goals_and_minutes() {
    let f = fixture("Liverpool", "Manchester City", "2H", (Some(2), Some(10)));
    let row = format_live_row(&colors(), &f);
    assert_eq!(plain(&row), format!("{:<27}{:<27}: 10 - 2 in 37'", "Manchester City", "Liverpool"));
}

#[test]
fn forced_colours_style_names_and_numbers() {
    colored::control::set_override(true);
    let f = fixture("Liverpool", "Manchester City", "2H", (Some(2), Some(10)));
    let row = format_live_row(&colors(), &f);
    assert!(row.starts_with("\u{1b}["));
    assert!(row.contains("Manchester City\u{1b}[0m            \u{1b}["));
    assert!(row.contains("Liverpool\u{1b}[0m                  : "));
    assert!(row.ends_with(": \u{1b}[1m10\u{1b}[0m - \u{1b}[1m2\u{1b}[0m in \u{1b}[1m37\u{1b}[0m'"));
    assert_eq!(plain(&row), format!("{:<27}{:<27}: 10 - 2 in 37'", "Manchester City", "Liverpool"));
    let row = format_schedule_row(&colors(), &f, cst()).unwrap();
    assert!(row.ends_with("at \u{1b}[1m19:03\u{1b}[0m | In Progress"));
    colored::control::unset_override();
}

#[test]
fn a_score_row_shows_goals_and_the_date() {
    let f = fixture("Liverpool", "Manchester City", "FT", (Some(0), Some(3)));
    let row = format_score_row(&colors(), &f);
    assert_eq!(plain(&row), format!("{:<27}{:<27}: 3 - 0 on 11-15", "Manchester City", "Liverpool"));
}

#[test]
fn the_command_picks_the_row() {
    let f = fixture("Liverpool", "Manchester City", "FT", (Some(1), Some(1)));
    let table = colors();
    let row = |command_type| {
        let cmd = Command { command_type };
        assert!(can_render(&cmd, &table, &f));
        print_based_on_command(&f, &cmd, &table, cst()).map(|r| plain(&r))
    };
    assert_eq!(row(CommandType::Live), Some(plain(&format_live_row(&table, &f))));
    assert_eq!(row(CommandType::Scores), Some(plain(&format_score_row(&table, &f))));
    assert_eq!(
        row(CommandType::Schedule),
        format_schedule_row(&table, &f, cst()).map(|r| plain(&r))
    );
    assert_eq!(row(CommandType::Teams), None);
    assert_eq!(row(CommandType::Standings), None);
}

#[test]
fn a_row_needs_what_it_shows() {
    let table = colors();
    let live = Command { command_type: CommandType::Live };
    let scores = Command { command_type: CommandType::Scores };
    let schedule = Command { command_type: CommandType::Schedule };
    let teams = Command { command_type: CommandType::Teams };
    let no_goals = fixture("Liverpool", "Manchester City", "NS", (None, Some(1)));
    assert!(!can_render(&live, &table, &no_goals));
    assert!(!can_render(&scores, &table, &no_goals));
    assert!(can_render(&schedule, &table, &no_goals));
    let mut no_minutes = fixture("Liverpool", "Manchester City", "NS", (Some(0), Some(1)));
    no_minutes.fixture.status.elapsed = None;
    assert!(!can_render(&live, &table, &no_minutes));
    assert!(can_render(&scores, &table, &no_minutes));
    let mut short_date = fixture("Liverpool", "Manchester City", "NS", (Some(0), Some(1)));
    short_date.fixture.date = "2023".to_string();
    assert!(can_render(&live, &table, &short_date));
    assert!(!can_render(&scores, &table, &short_date));
    let mut broken = colors();
    broken.insert(40, "(1, 2)".to_string());
    let good = fixture("Liverpool", "Manchester City", "FT", (Some(0), Some(1)));
    assert!(!can_render(&live, &broken, &good));
    assert!(!can_render(&scores, &broken, &good));
    assert!(!can_render(&schedule, &broken, &good));
    assert!(can_render(&teams, &broken, &good));
}

fn stats() -> Stats {
    Stats { draw: 3, goals: GoalStats { against: 10, for_: 27 }, lose: 1, played: 12, win: 8 }
}

fn standing(rank: i32, name: &str, points: i32, form: Option<&str>, group: Option<&str>) -> TeamStanding {
    TeamStanding {
        all: stats(),
        away: stats(),
        description: None,
        form: form.map(String::from),
        goals_diff: 17,
        group: group.map(String::from),
        home: stats(),
        points,
        rank,
        status: None,
        team: team(40 + rank as u64, name),
        update: None,
    }
}

#[test]
fn a_table_row_is_laid_out_in_columns() {
    assert_eq!(
        standing_row_text(2, "Liverpool", "Liverpool", 27, "WWDLW"),
        format!("{:<5} {:<25}{}{:<10} {:<10}", 2, "Liverpool", " ".repeat(18), 27, "WWDLW")
    );
    assert_eq!(
        standing_row_text(2, "Liverpool", "Liverpool", 27, "WWDLW"),
        "2     Liverpool                                  27         WWDLW     "
    );
    assert_eq!(
        standing_row_text(-12, "[Liverpool]", "Liverpool", -3, "na"),
        format!("-12   {:<25}{}-3         na        ", "[Liverpool]", " ".repeat(18))
    );
    assert_eq!(
        standing_row_text(i32::MIN, "", "", i32::MAX, "a form longer than ten"),
        format!("-2147483648 {}2147483647 a form longer than ten", " ".repeat(52))
    );
}

#[test]
fn the_first_of_a_group_is_headed_by_the_group() {
    let table = HashMap::new();
    let lines = format_team_row(&standing(1, "Manchester City", 28, Some("WWDLW"), Some("Premier League")), &table);
    assert_eq!(lines.len(), 3);
    assert_eq!(lines[0], "Premier League Table");
    assert_eq!(lines[1], "");
    assert_eq!(plain(&lines[2]), standing_row_text(1, "Manchester City", "Manchester City", 28, "WWDLW"));
    let lines = format_team_row(&standing(1, "Manchester City", 28, None, None), &table);
    assert_eq!(lines.len(), 1);
    assert_eq!(plain(&lines[0]), standing_row_text(1, "Manchester City", "Manchester City", 28, "na"));
    let lines = format_team_row(&standing(2, "Liverpool", 27, Some("W"), Some("Premier League")), &table);
    assert_eq!(lines.len(), 1);
    assert_eq!(plain(&lines[0]), standing_row_text(2, "Liverpool", "Liverpool", 27, "W"));
}

#[test]
fn standings_are_shown_league_by_league() {
    let table = colors();
    let first = vec![
        standing(1, "Manchester City", 28, Some("WWDLW"), Some("Premier League")),
        standing(2, "Liverpool", 27, None, Some("Premier League")),
    ];
    let second = vec![standing(3, "Luton", 6, Some("LLLDL"), None)];
    let header = "      Team                            Points         Form";
    let rule = "=================================================";
    let shown: Vec<String> = format_table(&first, &table).iter().map(|l| plain(l)).collect();
    assert_eq!(
        shown,
        vec![
            header.to_string(),
            "Premier League Table".to_string(),
            String::new(),
            standing_row_text(1, "Manchester City", "Manchester City", 28, "WWDLW"),
            standing_row_text(2, "Liverpool", "Liverpool", 27, "na"),
            String::new(),
            String::new(),
        ]
    );
    assert_eq!(format_table(&vec![], &table), vec![header.to_string(), String::new(), String::new()]);
    let league = vec![first.clone(), second.clone()];
    let shown: Vec<String> = format_league(&league, &table).iter().map(|l| plain(l)).collect();
    let mut expected: Vec<String> = format_table(&first, &table).iter().map(|l| plain(l)).collect();
    expected.extend(format_table(&second, &table).iter().map(|l| plain(l)));
    expected.push(rule.to_string());
    expected.push(String::new());
    assert_eq!(shown, expected);
    assert_eq!(format_league(&vec![], &table), vec![rule.to_string(), String::new()]);
    let leagues = vec![league.clone(), vec![], vec![second.clone()]];
    assert!(can_print_standings(&leagues, &table));
    let shown: Vec<String> = print_standings_by_league(&leagues, &table).iter().map(|l| plain(l)).collect();
    let mut all = expected.clone();
    all.push(rule.to_string());
    all.push(String::new());
    all.extend(format_league(&vec![second], &table).iter().map(|l| plain(l)));
    assert_eq!(shown, all);
    assert!(print_standings_by_league(&vec![], &table).is_empty());
}

#[test]
fn standings_need_readable_colours() {
    let mut table = colors();
    let leagues = vec![vec![vec![standing(1, "A", 1, None, None)], vec![standing(2, "B", 1, None, None)]]];
    assert!(can_print_standings(&leagues, &table));
    table.insert(42, "(1, 2)".to_string());
    assert!(!can_print_standings(&leagues, &table));
    assert!(can_print_standings(&vec![], &table));
}

#[test]
fn the_roster_is_listed_row_by_row() {
    let roster = Roster {
        entries: vec![
            TeamCSVRecord { name: "Liverpool".to_string(), id: 40 },
            TeamCSVRecord { name: "Manchester City".to_string(), id: 50 },
            TeamCSVRecord { name: "Liverpool".to_string(), id: 41 },
        ],
    };
    let shown: Vec<String> = print_all_teams(&roster, &colors()).iter().map(|l| plain(l)).collect();
    assert_eq!(shown, vec!["Liverpool", "Manchester City", "Liverpool"]);
    assert!(print_all_teams(&Roster { entries: vec![] }, &colors()).is_empty());
}
