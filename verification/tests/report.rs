use footy::clock::{Zone, CENTRAL_STANDARD};
use footy::report::{format_fixtures, format_group, run};
use footy::normalize::parse_fixtures;
use footy::{Command, CommandType};
use std::collections::HashMap;

fn plain(text: &str) -> String {
    let mut out = String::new();
    let mut chars = text.chars();
    while let Some(c) = chars.next() {
        if c == '\u{1b}' {
            for d in chars.by_ref() {
                if d == 'm' {
                    break;
                }
            }
        } else {
            out.push(c);
        }
    }
    out
}

fn plain_lines(lines: &[String]) -> Vec<String> {
    lines.iter().map(|l| plain(l)).collect()
}

fn fixture_text(league: &str, home: &str, away: &str, short: &str, goals: &str) -> String {
    format!(
        r#"{{"fixture": {{"id": 1, "referee": "x", "timezone": "UTC",
              "date": "2023-11-15T19:03:41+00:00", "timestamp": 1700096621,
              "periods": {{}}, "status": {{"long": "", "short": "{short}", "elapsed": 37}}}},
            "league": {{"id": 39, "name": "{league}", "country": "", "logo": "", "season": 2023}},
            "teams": {{"home": {{"id": 40, "name": "{home}", "logo": ""}},
                       "away": {{"id": 50, "name": "{away}", "logo": ""}}}},
            "goals": {goals}}}"#
    )
}

fn body_of(records: &[String]) -> String {
    format!(r#"{{"response": [{}]}}"#, records.join(","))
}

fn colors() -> HashMap<u64, String> {
    let mut table = HashMap::new();
    table.insert(50, "(0, 35, 89)".to_string());
    table
}

fn cst() -> Zone {
    Zone::Fixed(CENTRAL_STANDARD)
}

fn command(command_type: CommandType) -> Command {
    Command { command_type }
}

#[test]
fn a_failed_batch_is_one_error_line() {
    for command_type in [CommandType::Schedule, CommandType::Teams, CommandType::Standings] {
        let report = run(&command(command_type), Err("connection refused".to_string()), &colors(), cst());
        assert!(report.lines.is_empty());
        assert_eq!(report.errors, vec!["Error from the API: connection refused"]);
        assert!(report.complete);
    }
}

#[test]
fn the_roster_editor_shows_nothing() {
    let report = run(&command(CommandType::Teams), Ok(vec!["anything".to_string()]), &colors(), cst());
    assert!(report.lines.is_empty());
    assert!(report.errors.is_empty());
    assert!(report.complete);
}

#[test]
fn unreadable_fixtures_are_one_error_line() {
    let report = run(&command(CommandType::Live), Ok(vec!["{}".to_string()]), &colors(), cst());
    assert!(report.lines.is_empty());
    assert_eq!(report.errors, vec!["Error parsing fixtures: Missing 'response' field"]);
    assert!(report.complete);
    let report = run(&command(CommandType::Scores), Ok(vec!["[]".to_string()]), &colors(), cst());
    assert_eq!(report.errors, vec!["Error parsing fixtures: Unexpected shape of the response"]);
}

#[test]
fn unreadable_standings_are_one_error_line() {
    let report = run(&command(CommandType::Standings), Ok(vec!["{}".to_string()]), &colors(), cst());
    assert!(report.lines.is_empty());
    assert_eq!(report.errors, vec!["Error parsing standings: Missing 'response' field"]);
    let report = run(
        &command(CommandType::Standings),
        Ok(vec![r#"{"response": []}"#.to_string()]),
        &colors(),
        cst(),
    );
    assert_eq!(report.errors, vec!["Error parsing standings: Unexpected shape of the response"]);
}

#[test]
fn no_fixtures_are_said_so() {
    for bodies in [vec![], vec![body_of(&[])]] {
        let report = run(&command(CommandType::Schedule), Ok(bodies), &colors(), cst());
        assert_eq!(report.lines, vec!["No fixtures :("]);
        assert!(report.errors.is_empty());
        assert!(report.complete);
    }
}

#[test]
fn a_schedule_is_headed_by_its_leagues() {
    let bodies = vec![
        body_of(&[
            fixture_text("Premier League", "Liverpool", "Manchester City", "NS", "{}"),
            fixture_text("Premier League", "Arsenal", "Chelsea", "1H", "{}"),
        ]),
        body_of(&[]),
        body_of(&[fixture_text("Serie A", "Milan", "Inter", "FT", "{}")]),
    ];
    let report = run(&command(CommandType::Schedule), Ok(bodies), &colors(), cst());
    assert!(report.complete);
    assert!(report.errors.is_empty());
    assert_eq!(
        plain_lines(&report.lines),
        vec![
            "".to_string(),
            "Premier League".to_string(),
            format!("{:<27}at {:<27}at 19:03 ", "Manchester City", "Liverpool"),
            format!("{:<27}at {:<27}at 19:03 | In Progress", "Chelsea", "Arsenal"),
            "".to_string(),
            "Serie A".to_string(),
            format!("{:<27}at {:<27}at 19:03 ", "Inter", "Milan"),
        ]
    );
}

#[test]
fn live_and_scores_have_no_headings() {
    let bodies = vec![
        body_of(&[fixture_text("Premier League", "Liverpool", "Manchester City", "2H", r#"{"home": 2, "away": 1}"#)]),
        body_of(&[fixture_text("Serie A", "Milan", "Inter", "FT", r#"{"home": 0, "away": 0}"#)]),
    ];
    let report = run(&command(CommandType::Live), Ok(bodies.clone()), &colors(), cst());
    assert_eq!(
        plain_lines(&report.lines),
        vec![
            format!("{:<27}{:<27}: 1 - 2 in 37'", "Manchester City", "Liverpool"),
            format!("{:<27}{:<27}: 0 - 0 in 37'", "Inter", "Milan"),
        ]
    );
    let report = run(&command(CommandType::Scores), Ok(bodies), &colors(), cst());
    assert_eq!(
        plain_lines(&report.lines),
        vec![
            format!("{:<27}{:<27}: 1 - 2 on 11-15", "Manchester City", "Liverpool"),
            format!("{:<27}{:<27}: 0 - 0 on 11-15", "Inter", "Milan"),
        ]
    );
}

#[test]
fn a_fixture_without_its_numbers_stops_the_report() {
    let bodies = vec![body_of(&[
        fixture_text("Premier League", "Liverpool", "Manchester City", "2H", r#"{"home": 2, "away": 1}"#),
        fixture_text("Premier League", "Arsenal", "Chelsea", "NS", "{}"),
    ])];
    let report = run(&command(CommandType::Live), Ok(bodies.clone()), &colors(), cst());
    assert!(!report.complete);
    assert!(report.lines.is_empty());
    assert!(report.errors.is_empty());
    let groups = parse_fixtures(bodies).unwrap();
    assert_eq!(format_fixtures(&groups, &command(CommandType::Scores), &colors(), cst()), None);
    assert_eq!(format_group(&groups[0], &command(CommandType::Live), &colors(), cst()), None);
    assert!(format_group(&groups[0], &command(CommandType::Schedule), &colors(), cst()).is_some());
}

#[test]
fn standings_are_read_and_shown() {
    let stats = r#"{"played": 12, "win": 8, "draw": 3, "lose": 1, "goals": {"for": 27, "against": 10}}"#;
    let body = format!(
        r#"{{"response": [{{"league": {{"standings": [[
            {{"rank": 1, "team": {{"id": 50, "name": "Manchester City", "logo": ""}}, "points": 28,
              "goalsDiff": 17, "group": "Premier League", "form": "WWDLW",
              "all": {stats}, "home": {stats}, "away": {stats}}}]]}}}}]}}"#
    );
    let report = run(&command(CommandType::Standings), Ok(vec![body.clone()]), &colors(), cst());
    assert!(report.complete);
    assert!(report.errors.is_empty());
    assert_eq!(
        plain_lines(&report.lines),
        vec![
            "      Team                            Points         Form".to_string(),
            "Premier League Table".to_string(),
            "".to_string(),
            format!("{:<5} {:<25}{}{:<10} {:<10}", 1, "Manchester City", " ".repeat(12), 28, "WWDLW"),
            "".to_string(),
            "".to_string(),
            "=================================================".to_string(),
            "".to_string(),
        ]
    );
    let mut broken = colors();
    broken.insert(50, "(1)".to_string());
    let report = run(&command(CommandType::Standings), Ok(vec![body]), &broken, cst());
    assert!(!report.complete);
    assert!(report.lines.is_empty());
    let report = run(&command(CommandType::Standings), Ok(vec![]), &colors(), cst());
    assert!(report.complete);
    assert!(report.lines.is_empty());
    assert!(report.errors.is_empty());
}
