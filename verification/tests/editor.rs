use footy::editor::{
    add_team, begin_teams_edit, edit_choice, get_team_input, prompt_teams_edit, EditAction,
    EditChoice, EditEvent, EditState,
};

fn lines(texts: &[&str]) -> Vec<String> {
    texts.iter().map(|t| t.to_string()).collect()
}

const FOUND: &str = r#"{"response": [{"team": {"id": 40, "name": "Liverpool"},
    "venue": {"id": 550, "name": "Anfield", "city": "Liverpool"}}]}"#;

#[test]
fn the_choice_goes_by_the_first_character() {
    assert_eq!(edit_choice("a\n"), EditChoice::Add);
    assert_eq!(edit_choice("  add\r\n"), EditChoice::Add);
    assert_eq!(edit_choice("r"), EditChoice::Remove);
    assert_eq!(edit_choice("\tremove "), EditChoice::Remove);
    assert_eq!(edit_choice("A"), EditChoice::Invalid);
    assert_eq!(edit_choice("x"), EditChoice::Invalid);
    assert_eq!(edit_choice(""), EditChoice::Invalid);
    assert_eq!(edit_choice(" \n"), EditChoice::Invalid);
}

#[test]
fn a_typed_team_loses_the_space_around_it() {
    assert_eq!(get_team_input("  AC Milan \n"), "AC Milan");
    assert_eq!(get_team_input("Liverpool\r\n"), "Liverpool");
    assert_eq!(get_team_input("\u{a0}\u{3000}Ajax\u{2003}\u{85}"), "Ajax");
    assert_eq!(get_team_input(" \n"), "");
    assert_eq!(get_team_input(""), "");
    assert_eq!(get_team_input("\u{200b}x"), "\u{200b}x");
}

#[test]
fn a_session_begins_with_the_choice() {
    let (state, action) = begin_teams_edit();
    assert_eq!(state, EditState::Choosing);
    assert_eq!(
        action,
        EditAction::Prompt(lines(&["Type 'a' to add a team or 'r' to remove a team"]))
    );
}

#[test]
fn adding_asks_searches_and_appends() {
    let (state, action) = prompt_teams_edit(EditState::Choosing, EditEvent::Line("a\n".to_string()));
    assert_eq!(state, EditState::NamingAdd);
    assert_eq!(action, EditAction::Prompt(lines(&["Enter a team to add to your list of teams: "])));
    let (state, action) = prompt_teams_edit(state, EditEvent::Line(" liverpool \n".to_string()));
    assert_eq!(state, EditState::Searching("liverpool".to_string()));
    assert_eq!(
        action,
        EditAction::Search("https://api-football-v1.p.rapidapi.com/v3/teams?name=liverpool".to_string())
    );
    let (state, action) = prompt_teams_edit(state, EditEvent::Searched(Ok(FOUND.to_string())));
    assert_eq!(state, EditState::Closed);
    assert_eq!(action, EditAction::Append(b"Liverpool,40\n".to_vec(), lines(&["Added liverpool"])));
}

#[test]
fn a_failed_search_adds_nothing() {
    let searching = || EditState::Searching("nowhere".to_string());
    for answer in [
        Ok(r#"{"response": []}"#.to_string()),
        Ok("not json".to_string()),
        Ok("{}".to_string()),
        Err("connection refused".to_string()),
    ] {
        let (state, action) = prompt_teams_edit(searching(), EditEvent::Searched(answer.clone()));
        assert_eq!(state, EditState::Closed);
        assert_eq!(action, EditAction::Say(lines(&["Not a valid team."])));
        assert_eq!(add_team("nowhere", &answer), EditAction::Say(lines(&["Not a valid team."])));
    }
}

#[test]
fn removing_lists_asks_and_removes() {
    let (state, action) = prompt_teams_edit(EditState::Choosing, EditEvent::Line("r\n".to_string()));
    assert_eq!(state, EditState::NamingRemove);
    assert_eq!(
        action,
        EditAction::PromptWithRoster(
            lines(&["", "Your current teams: "]),
            lines(&["", "Enter a team to remove from your list of teams:"]),
        )
    );
    let (state, action) = prompt_teams_edit(state, EditEvent::Line("Everton\n".to_string()));
    assert_eq!(state, EditState::Closed);
    assert_eq!(
        action,
        EditAction::Remove("Everton".to_string(), lines(&["Removed Everton from your teams list"]))
    );
}

#[test]
fn any_other_choice_ends_the_session() {
    let (state, action) = prompt_teams_edit(EditState::Choosing, EditEvent::Line("q\n".to_string()));
    assert_eq!(state, EditState::Closed);
    assert_eq!(action, EditAction::Say(lines(&["Invalid input"])));
}

#[test]
fn an_event_out_of_place_is_ignored() {
    let cases = [
        (EditState::Choosing, EditEvent::Searched(Ok(FOUND.to_string()))),
        (EditState::NamingAdd, EditEvent::Searched(Err("x".to_string()))),
        (EditState::NamingRemove, EditEvent::Searched(Ok(FOUND.to_string()))),
        (EditState::Searching("x".to_string()), EditEvent::Line("a".to_string())),
        (EditState::Closed, EditEvent::Line("a".to_string())),
        (EditState::Closed, EditEvent::Searched(Ok(FOUND.to_string()))),
    ];
    for (state, event) in cases {
        let expected = match &state {
            EditState::Searching(team) => EditState::Searching(team.clone()),
            EditState::Choosing => EditState::Choosing,
            EditState::NamingAdd => EditState::NamingAdd,
            EditState::NamingRemove => EditState::NamingRemove,
            EditState::Closed => EditState::Closed,
        };
        assert_eq!(prompt_teams_edit(state, event), (expected, EditAction::Ignore));
    }
}
