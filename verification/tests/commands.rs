use footy::command::{check_if_not_fixtures_trait_type, load_settings};
use footy::{Command, CommandType};

fn args(words: &[&str]) -> std::vec::IntoIter<String> {
    words.iter().map(|w| w.to_string()).collect::<Vec<String>>().into_iter()
}

#[test]
fn test_check_if_teams_command() {
    let cmd: Command = Command {
        command_type: CommandType::Teams,
    };
    let check = check_if_not_fixtures_trait_type(&cmd);

    assert_eq!(true, check);
}

#[test]
fn test_check_if_standings_command() {
    let cmd: Command = Command {
        command_type: CommandType::Standings,
    };
    let check = check_if_not_fixtures_trait_type(&cmd);

    assert_eq!(true, check);
}

#[test]
fn fixture_commands_are_fixture_shaped() {
    for command_type in [CommandType::Scores, CommandType::Schedule, CommandType::Live] {
        assert_eq!(false, check_if_not_fixtures_trait_type(&Command { command_type }));
    }
}

#[test]
fn build_resolves_each_command_word() {
    let cases = [
        ("scores", CommandType::Scores),
        ("schedule", CommandType::Schedule),
        ("teams", CommandType::Teams),
        ("live", CommandType::Live),
        ("standings", CommandType::Standings),
    ];
    for (word, expected) in cases {
        let command = Command::build(args(&["footy", word])).unwrap();
        assert_eq!(command.command_type, expected);
    }
}

#[test]
fn build_ignores_further_arguments() {
    let command = Command::build(args(&["footy", "live", "now", "please"])).unwrap();
    assert_eq!(command.command_type, CommandType::Live);
}

#[test]
fn build_rejects_an_unknown_word() {
    assert_eq!(Command::build(args(&["footy", "score"])).unwrap_err(), "Invalid command type");
    assert_eq!(Command::build(args(&["footy", "Live"])).unwrap_err(), "Invalid command type");
    assert_eq!(Command::build(args(&["footy", ""])).unwrap_err(), "Invalid command type");
}

#[test]
fn build_takes_any_iterator_of_arguments() {
    let words = ["footy", "standings", "x"];
    let command = Command::build(words.iter().map(|w| w.to_string())).unwrap();
    assert_eq!(command.command_type, CommandType::Standings);
    let mut taken = 0;
    let counted = words.iter().map(|w| {
        taken += 1;
        w.to_string()
    });
    assert!(Command::build(counted).is_ok());
    assert_eq!(taken, 2);
}

#[test]
fn build_rejects_a_missing_word() {
    assert_eq!(Command::build(args(&["footy"])).unwrap_err(), "Didn't enter any command");
    assert_eq!(Command::build(args(&[])).unwrap_err(), "Didn't enter any command");
}

#[test]
fn settings_hold_the_league_lists() {
    let settings = load_settings();
    assert_eq!(settings.preferred_leagues, vec![39, 135, 78]);
    assert_eq!(settings.full_leagues, vec![39, 140, 88, 78, 135, 61, 94, 253]);
    assert!(settings.teams.is_empty());
    assert_eq!(settings.default, CommandType::Schedule);
    for league in &settings.preferred_leagues {
        assert!(settings.full_leagues.contains(league));
    }
}
