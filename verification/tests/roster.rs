use footy::model::{RGBCSVRecord, TeamCSVRecord};
use footy::roster::{
    add_team_to_csv, parse_colors, parse_roster, parse_rows, read_field_number,
    read_from_teams_csv, read_ids_and_rgb_from_csv, remove_team_from_csv, FileError, Roster,
};
use std::collections::HashMap;

fn record(name: &str, id: u64) -> TeamCSVRecord {
    TeamCSVRecord { name: name.to_string(), id }
}

#[test]
fn csv_read() {
    let mut tester: HashMap<String, u64> = HashMap::new();
    tester.insert(String::from("Liverpool"), 40);
    tester.insert(String::from("AC Milan"), 907);

    let res = read_from_teams_csv(b"Liverpool,40\nAC Milan,907\n");

    assert_eq!(res.unwrap().get("Liverpool"), tester.get("Liverpool").copied());
}

#[test]
fn remove_team_test() {
    let mut content: Vec<u8> = b"Liverpool,40\nAC Milan,907\n".to_vec();

    // add team (to ensure in Vec), check length after collecting records into vec
    let team_to_add = TeamCSVRecord {
        name: String::from("Team"),
        id: 1,
    };

    content.extend(add_team_to_csv(&team_to_add).unwrap());

    let records1: Vec<TeamCSVRecord> = parse_roster(&content).unwrap();
    let original_length = records1.len();

    let content = remove_team_from_csv(&content, "Team").unwrap();

    // collect again, compare lengths
    // assert they are different by one
    let records2: Vec<TeamCSVRecord> = parse_roster(&content).unwrap();
    let new_length = records2.len();

    assert_eq!(original_length - 1, new_length);
}

#[test]
fn test_read_rgb_csv() {
    let content = b"50,\"(0, 35, 89)\"\n40,\"(200, 16, 46)\"\n49,white\n";

    let id_and_rgb = RGBCSVRecord {
        id: 50,
        rgb: String::from("(0, 35, 89)"),
    };

    let records1: Vec<RGBCSVRecord> = parse_colors(content).unwrap();

    assert_eq!(id_and_rgb, records1[0]);
}

#[test]
fn the_roster_keeps_the_rows_in_order() {
    let roster = read_from_teams_csv(b"Liverpool,40\nAC Milan,907\n\"Brighton, Hove\",51\n").unwrap();
    assert_eq!(roster.len(), 3);
    assert_eq!(
        roster.entries,
        vec![record("Liverpool", 40), record("AC Milan", 907), record("Brighton, Hove", 51)]
    );
    assert_eq!(roster.get("AC Milan"), Some(907));
    assert_eq!(roster.get("Brighton, Hove"), Some(51));
    assert_eq!(roster.get("liverpool"), None);
    assert_eq!(roster.get("Everton"), None);
}

#[test]
fn the_last_row_of_a_name_wins() {
    let roster = read_from_teams_csv(b"Liverpool,1\nArsenal,42\nLiverpool,40\n").unwrap();
    assert_eq!(roster.len(), 3);
    assert_eq!(roster.get("Liverpool"), Some(40));
    assert_eq!(roster.team_ids(), vec![42, 40]);
}

#[test]
fn an_empty_file_is_an_empty_roster() {
    let roster = read_from_teams_csv(b"").unwrap();
    assert_eq!(roster.len(), 0);
    assert_eq!(roster.get("Liverpool"), None);
    assert!(roster.team_ids().is_empty());
    assert!(read_ids_and_rgb_from_csv(b"").unwrap().is_empty());
}

#[test]
fn a_row_that_is_no_entry_fails_the_file() {
    assert_eq!(read_from_teams_csv(b"Liverpool\n"), Err(FileError::Record));
    assert_eq!(read_from_teams_csv(b"Liverpool,forty\n"), Err(FileError::Record));
    assert_eq!(read_from_teams_csv(b"Liverpool,-40\n"), Err(FileError::Record));
    assert_eq!(read_from_teams_csv(b"Liverpool, 40\n"), Err(FileError::Record));
    assert_eq!(read_from_teams_csv(b"Liverpool,\n"), Err(FileError::Record));
    assert_eq!(read_from_teams_csv(b"Liverpool,18446744073709551616\n"), Err(FileError::Record));
    assert_eq!(read_ids_and_rgb_from_csv(b"fifty,\"(0, 35, 89)\"\n"), Err(FileError::Record));
    assert_eq!(parse_colors(b"50\n"), Err(FileError::Record));
}

#[test]
fn a_content_that_is_no_table_fails_the_file() {
    // Rows of different lengths.
    assert_eq!(read_from_teams_csv(b"Liverpool,40\nArsenal,42,x\n"), Err(FileError::Csv));
    // Bytes that are no text.
    assert_eq!(read_from_teams_csv(b"Liverp\xffol,40\n"), Err(FileError::Csv));
    assert_eq!(parse_rows(b"a,b\nc\n"), Err(FileError::Csv));
    assert_eq!(read_ids_and_rgb_from_csv(b"50,x\n51\n"), Err(FileError::Csv));
}

#[test]
fn further_fields_are_not_read() {
    let roster = read_from_teams_csv(b"Liverpool,40,red\nArsenal,42,red\n").unwrap();
    assert_eq!(roster.entries, vec![record("Liverpool", 40), record("Arsenal", 42)]);
}

#[test]
fn rows_are_split_into_fields() {
    assert_eq!(
        parse_rows(b"a,\"b,c\",\"d\"\"e\"\n,,\n"),
        Ok(vec![
            vec!["a".to_string(), "b,c".to_string(), "d\"e".to_string()],
            vec![String::new(), String::new(), String::new()],
        ])
    );
}

#[test]
fn a_number_is_decimal_or_hexadecimal() {
    assert_eq!(read_field_number("40"), Some(40));
    assert_eq!(read_field_number("+40"), Some(40));
    assert_eq!(read_field_number("0040"), Some(40));
    assert_eq!(read_field_number("0"), Some(0));
    assert_eq!(read_field_number("18446744073709551615"), Some(u64::MAX));
    assert_eq!(read_field_number("18446744073709551616"), None);
    assert_eq!(read_field_number("0x28"), Some(40));
    assert_eq!(read_field_number("0xfF"), Some(255));
    assert_eq!(read_field_number("0x+ff"), Some(255));
    assert_eq!(read_field_number("0xffffffffffffffff"), Some(u64::MAX));
    assert_eq!(read_field_number("0x10000000000000000"), None);
    assert_eq!(read_field_number("0x"), None);
    assert_eq!(read_field_number("0X28"), None);
    assert_eq!(read_field_number("ff"), None);
    assert_eq!(read_field_number(""), None);
    assert_eq!(read_field_number("+"), None);
    assert_eq!(read_field_number("-"), None);
    assert_eq!(read_field_number("-0"), None);
    assert_eq!(read_field_number("++1"), None);
    assert_eq!(read_field_number("4 0"), None);
    assert_eq!(read_field_number("40 "), None);
    assert_eq!(read_field_number("\u{664}\u{660}"), None);
}

#[test]
fn the_colour_table_is_keyed_by_team() {
    let table = read_ids_and_rgb_from_csv(b"50,\"(0, 35, 89)\"\n49,white\n50,\"(1, 2, 3)\"\n").unwrap();
    assert_eq!(table.len(), 2);
    assert_eq!(table.get(&50), Some(&"(1, 2, 3)".to_string()));
    assert_eq!(table.get(&49), Some(&"white".to_string()));
    assert_eq!(table.get(&40), None);
}

#[test]
fn an_entry_is_written_as_one_row() {
    assert_eq!(add_team_to_csv(&record("Team", 1)), Ok(b"Team,1\n".to_vec()));
    assert_eq!(add_team_to_csv(&record("AC Milan", 907)), Ok(b"AC Milan,907\n".to_vec()));
    assert_eq!(
        add_team_to_csv(&record("Brighton, Hove", u64::MAX)),
        Ok(b"\"Brighton, Hove\",18446744073709551615\n".to_vec())
    );
    assert_eq!(add_team_to_csv(&record("", 0)), Ok(b",0\n".to_vec()));
}

#[test]
fn appending_then_removing_restores_the_roster() {
    let before = b"Liverpool,40\nAC Milan,907\n".to_vec();
    let entries = parse_roster(&before).unwrap();
    for typed in ["Team", "team", "TEAM", "tEaM"] {
        let mut content = before.clone();
        content.extend(add_team_to_csv(&record("Team", 1)).unwrap());
        assert_eq!(parse_roster(&content).unwrap().len(), entries.len() + 1);
        let after = remove_team_from_csv(&content, typed).unwrap();
        assert_eq!(parse_roster(&after).unwrap(), entries);
        assert_eq!(after, before);
    }
    let mut roster = Roster { entries: entries.clone() };
    roster.append(record("\u{c9}toile", 7));
    assert_eq!(roster.len(), 3);
    roster.remove("\u{e9}TOILE");
    assert_eq!(roster.entries, entries);
}

#[test]
fn removing_takes_every_row_of_the_name() {
    let content = remove_team_from_csv(b"Liverpool,1\nArsenal,42\nLIVERPOOL,40\n", "liverpool").unwrap();
    assert_eq!(content, b"Arsenal,42\n".to_vec());
}

#[test]
fn removing_an_absent_name_changes_nothing() {
    let content = remove_team_from_csv(b"Liverpool,40\nArsenal,42\n", "Everton").unwrap();
    assert_eq!(content, b"Liverpool,40\nArsenal,42\n".to_vec());
    assert_eq!(remove_team_from_csv(b"", "Everton"), Ok(vec![]));
}

#[test]
fn removing_writes_the_rows_anew() {
    let content = remove_team_from_csv(b"\"Liverpool\",0x28,y\nArsenal,+42,x\n", "Everton").unwrap();
    assert_eq!(content, b"Liverpool,40\nArsenal,42\n".to_vec());
}

#[test]
fn removing_from_an_unreadable_file_fails() {
    assert_eq!(remove_team_from_csv(b"Liverpool\n", "Liverpool"), Err(FileError::Record));
    assert_eq!(remove_team_from_csv(b"a,1\nb\n", "a"), Err(FileError::Csv));
}
