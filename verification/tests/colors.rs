use footy::color::{get_text_color, parse_rgb_string, rgb_components, team_color};
use footy::render::standing_row_text;
use footy::model::Team;
use std::collections::HashMap;

fn team(id: u64, name: &str) -> Team {
    Team { id, name: name.to_string(), logo: String::new(), winner: None }
}

#[test]
fn a_word_stands_for_white() {
    assert_eq!(parse_rgb_string(&"white".to_string()), vec![255, 255, 255]);
    assert_eq!(parse_rgb_string(&"".to_string()), vec![255, 255, 255]);
    assert_eq!(parse_rgb_string(&"0, 35, 89)".to_string()), vec![255, 255, 255]);
}

#[test]
fn a_triple_is_read_exactly() {
    assert_eq!(parse_rgb_string(&"(0, 35, 89)".to_string()), vec![0, 35, 89]);
    assert_eq!(parse_rgb_string(&"(255,255,255)".to_string()), vec![255, 255, 255]);
    assert_eq!(parse_rgb_string(&"((1,\t2 ,  +3))".to_string()), vec![1, 2, 3]);
    assert_eq!(parse_rgb_string(&"(7, 8, 9, 10)".to_string()), vec![7, 8, 9]);
    assert_eq!(parse_rgb_string(&"(007, 0, 000)".to_string()), vec![7, 0, 0]);
}

#[test]
fn a_malformed_triple_is_told_apart() {
    assert_eq!(rgb_components("(0, 35, 89)"), Some((0, 35, 89)));
    assert_eq!(rgb_components("none"), Some((255, 255, 255)));
    assert_eq!(rgb_components("(0, 35)"), None);
    assert_eq!(rgb_components("(0, 35, 256)"), None);
    assert_eq!(rgb_components("(0, -1, 2)"), None);
    assert_eq!(rgb_components("(0, , 2)"), None);
    assert_eq!(rgb_components("(a, b, c)"), None);
    assert_eq!(rgb_components("(1 2, 3, 4)"), None);
    assert_eq!(rgb_components("("), None);
    assert_eq!(rgb_components("(0, (35), 89)"), None);
}

#[test]
fn a_team_without_an_entry_is_white() {
    let mut table: HashMap<u64, String> = HashMap::new();
    table.insert(50, "(0, 35, 89)".to_string());
    table.insert(51, "white".to_string());
    table.insert(52, "(1, 2)".to_string());
    assert_eq!(team_color(&table, &team(50, "Manchester City")), Some((0, 35, 89)));
    assert_eq!(team_color(&table, &team(51, "Fulham")), Some((255, 255, 255)));
    assert_eq!(team_color(&table, &team(40, "Liverpool")), Some((255, 255, 255)));
    assert_eq!(team_color(&table, &team(52, "Broken")), None);
}

#[test]
fn a_painted_name_is_the_name_or_the_name_in_style() {
    let mut table: HashMap<u64, String> = HashMap::new();
    table.insert(50, "(0, 35, 89)".to_string());
    let shown = get_text_color(&table, &team(50, "Manchester City"));
    assert!(
        shown == "Manchester City"
            || (shown.starts_with("\u{1b}[") && shown.ends_with("Manchester City\u{1b}[0m"))
    );
}

#[test]
fn forced_colours_style_the_name() {
    colored::control::set_override(true);
    let mut table: HashMap<u64, String> = HashMap::new();
    table.insert(50, "(0, 35, 89)".to_string());
    let shown = get_text_color(&table, &team(50, "Manchester City"));
    assert_ne!(shown, "Manchester City");
    assert!(shown.starts_with("\u{1b}["));
    assert!(shown.ends_with("Manchester City\u{1b}[0m"));
    // The styled name counts toward its first column, never toward the second.
    assert_eq!(
        standing_row_text(1, &shown, "Manchester City", 3, "W").len(),
        5 + 1 + shown.len().max(25) + 12 + 10 + 1 + 10
    );
    colored::control::unset_override();
}
