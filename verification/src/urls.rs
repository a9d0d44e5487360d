//! The requests that each operation makes of the service: one address for
//! each league, for each favourite team, or for all live matches at once.

use vstd::prelude::*;
use crate::command::{CommandType, Command, Settings};
use crate::roster::{current_ids, Roster};
use crate::text::{decimal, push_decimal};

verus! {

/// The name of the header that carries the key.
pub const KEY_HEADER: &'static str = "X-RapidAPI-KEY";

/// The name of the header that names the host.
pub const HOST_HEADER: &'static str = "X-RapidAPI-Host";

/// The host that every request names.
pub const API_HOST: &'static str = "api-football-v1.p.rapidapi.com";

/// Where fixtures are asked for.
pub open spec fn fixtures_base() -> Seq<char> {
    "https://api-football-v1.p.rapidapi.com/v3/fixtures?"@
}

/// Where standings are asked for.
pub open spec fn standings_base() -> Seq<char> {
    "https://api-football-v1.p.rapidapi.com/v3/standings"@
}

/// Where teams are searched.
pub open spec fn teams_base() -> Seq<char> {
    "https://api-football-v1.p.rapidapi.com/v3/teams"@
}

/// The fixtures of one league on one day.
pub open spec fn league_day_url(league_id: u64, date: Seq<char>) -> Seq<char> {
    fixtures_base() + "league="@ + decimal(league_id as nat) + "&season=2023&date="@ + date
}

/// The address for the fixtures of one league on one day.
pub fn get_fixtures_url_by_league(league_id: u64, date: &str) -> (url: String)
    ensures
        url@ == league_day_url(league_id, date@),
{
    let mut url = String::from_str("https://api-football-v1.p.rapidapi.com/v3/fixtures?");
    url.append("league=");
    push_decimal(&mut url, league_id);
    url.append("&season=2023&date=");
    url.append(date);
    url
}

/// The identifiers in decimal, a hyphen between each two.
pub open spec fn hyphenated(ids: Seq<u64>) -> Seq<char>
    decreases ids.len(),
{
    if ids.len() == 0 {
        Seq::empty()
    } else if ids.len() == 1 {
        decimal(ids[0] as nat)
    } else {
        hyphenated(ids.drop_last()) + seq!['-'] + decimal(ids.last() as nat)
    }
}

/// The live matches of all the leagues of the full list, in one request.
pub open spec fn live_url(leagues: Seq<u64>) -> Seq<char> {
    fixtures_base() + "live="@ + hyphenated(leagues)
}

/// The address for the live matches of the full list of leagues.
pub fn get_live_fixtures_url(settings: &Settings) -> (url: String)
    ensures
        url@ == live_url(settings.full_leagues@),
{
    let mut url = String::from_str("https://api-football-v1.p.rapidapi.com/v3/fixtures?");
    url.append("live=");
    let ghost head = url@;
    let leagues = &settings.full_leagues;
    let mut i: usize = 0;
    while i < leagues.len()
        invariant
            i <= leagues@.len(),
            url@ == head + hyphenated(leagues@.subrange(0, i as int)),
        decreases leagues@.len() - i,
    {
        let ghost before = leagues@.subrange(0, i as int);
        let ghost after = leagues@.subrange(0, i + 1);
        assert(after.drop_last() =~= before);
        if i > 0 {
            url.push('-');
        }
        push_decimal(&mut url, leagues[i]);
        assert(url@ =~= head + hyphenated(after));
        i = i + 1;
    }
    assert(leagues@.subrange(0, leagues@.len() as int) =~= leagues@);
    url
}

/// The last two fixtures of one team.
pub open spec fn team_url(team_id: u64) -> Seq<char> {
    fixtures_base() + "season=2023&team="@ + decimal(team_id as nat) + "&last=2"@
}

/// The address for the last two fixtures of one team.
pub fn get_team_url(team_id: u64) -> (url: String)
    ensures
        url@ == team_url(team_id),
{
    let mut url = String::from_str("https://api-football-v1.p.rapidapi.com/v3/fixtures?");
    url.append("season=2023&team=");
    push_decimal(&mut url, team_id);
    url.append("&last=2");
    url
}

/// The table of one league.
pub open spec fn standings_url(league_id: u64) -> Seq<char> {
    standings_base() + "?league="@ + decimal(league_id as nat) + "&season=2023"@
}

/// The address for the table of one league.
pub fn get_standings_url(league_id: u64) -> (url: String)
    ensures
        url@ == standings_url(league_id),
{
    let mut url = String::from_str("https://api-football-v1.p.rapidapi.com/v3/standings");
    url.append("?league=");
    push_decimal(&mut url, league_id);
    url.append("&season=2023");
    url
}

/// The teams called `name`; the name goes into the address as it is.
pub open spec fn team_search_url(name: Seq<char>) -> Seq<char> {
    teams_base() + "?name="@ + name
}

/// The address for the search of a team by name.
pub fn get_team_search_url(name: &str) -> (url: String)
    ensures
        url@ == team_search_url(name@),
{
    let mut url = String::from_str("https://api-football-v1.p.rapidapi.com/v3/teams");
    url.append("?name=");
    url.append(name);
    url
}

/// The addresses of a batch as plain values.
pub open spec fn addresses(urls: Seq<String>) -> Seq<Seq<char>> {
    Seq::new(urls.len(), |i: int| urls[i]@)
}

/// The requests of the schedule: one for each preferred league, all for
/// the same day.
pub fn get_schedule(settings: &Settings, date: &str) -> (urls: Vec<String>)
    ensures
        addresses(urls@) == Seq::new(
            settings.preferred_leagues@.len(),
            |i: int| league_day_url(settings.preferred_leagues@[i], date@),
        ),
{
    let mut urls: Vec<String> = Vec::new();
    let mut i: usize = 0;
    while i < settings.preferred_leagues.len()
        invariant
            i <= settings.preferred_leagues@.len(),
            urls@.len() == i,
            forall|j: int|
                0 <= j < i ==> (#[trigger] urls@[j])@ == league_day_url(
                    settings.preferred_leagues@[j],
                    date@,
                ),
        decreases settings.preferred_leagues@.len() - i,
    {
        urls.push(get_fixtures_url_by_league(settings.preferred_leagues[i], date));
        i = i + 1;
    }
    assert(addresses(urls@) =~= Seq::new(
        settings.preferred_leagues@.len(),
        |i: int| league_day_url(settings.preferred_leagues@[i], date@),
    ));
    urls
}

/// The one request of the live view.
pub fn get_live_fixtures(settings: &Settings) -> (urls: Vec<String>)
    ensures
        addresses(urls@) == seq![live_url(settings.full_leagues@)],
{
    let urls = vec![get_live_fixtures_url(settings)];
    assert(addresses(urls@) =~= seq![live_url(settings.full_leagues@)]);
    urls
}

/// The requests for the favourite teams: one for each name of the roster.
pub fn get_teams_fixtures(roster: &Roster) -> (urls: Vec<String>)
    ensures
        addresses(urls@) == Seq::new(
            current_ids(roster@, roster@.len() as int).len(),
            |i: int| team_url(current_ids(roster@, roster@.len() as int)[i]),
        ),
{
    let ids = roster.team_ids();
    let mut urls: Vec<String> = Vec::new();
    let mut i: usize = 0;
    while i < ids.len()
        invariant
            i <= ids@.len(),
            urls@.len() == i,
            forall|j: int| 0 <= j < i ==> (#[trigger] urls@[j])@ == team_url(ids@[j]),
        decreases ids@.len() - i,
    {
        urls.push(get_team_url(ids[i]));
        i = i + 1;
    }
    assert(addresses(urls@) =~= Seq::new(ids@.len(), |i: int| team_url(ids@[i])));
    urls
}

/// The requests of the standings: one for each preferred league.
pub fn get_standings_for_base_leagues(settings: &Settings) -> (urls: Vec<String>)
    ensures
        addresses(urls@) == Seq::new(
            settings.preferred_leagues@.len(),
            |i: int| standings_url(settings.preferred_leagues@[i]),
        ),
{
    let mut urls: Vec<String> = Vec::new();
    let mut i: usize = 0;
    while i < settings.preferred_leagues.len()
        invariant
            i <= settings.preferred_leagues@.len(),
            urls@.len() == i,
            forall|j: int|
                0 <= j < i ==> (#[trigger] urls@[j])@ == standings_url(
                    settings.preferred_leagues@[j],
                ),
        decreases settings.preferred_leagues@.len() - i,
    {
        urls.push(get_standings_url(settings.preferred_leagues[i]));
        i = i + 1;
    }
    assert(addresses(urls@) =~= Seq::new(
        settings.preferred_leagues@.len(),
        |i: int| standings_url(settings.preferred_leagues@[i]),
    ));
    urls
}

/// The requests that a command makes. The roster editor makes none here:
/// what it asks depends on what the user types.
pub open spec fn planned(
    command_type: CommandType,
    settings: Settings,
    roster: Seq<(Seq<char>, u64)>,
    date: Seq<char>,
) -> Seq<Seq<char>> {
    match command_type {
        CommandType::Schedule => Seq::new(
            settings.preferred_leagues@.len(),
            |i: int| league_day_url(settings.preferred_leagues@[i], date),
        ),
        CommandType::Scores => Seq::new(
            current_ids(roster, roster.len() as int).len(),
            |i: int| team_url(current_ids(roster, roster.len() as int)[i]),
        ),
        CommandType::Teams => Seq::empty(),
        CommandType::Live => seq![live_url(settings.full_leagues@)],
        CommandType::Standings => Seq::new(
            settings.preferred_leagues@.len(),
            |i: int| standings_url(settings.preferred_leagues@[i]),
        ),
    }
}

/// The requests of a command, in the order in which they are to be made.
pub fn match_cmd_and_call(cmd: &Command, settings: &Settings, roster: &Roster, date: &str) -> (urls:
    Vec<String>)
    ensures
        addresses(urls@) == planned(cmd.command_type, *settings, roster@, date@),
{
    match cmd.command_type {
        CommandType::Schedule => get_schedule(settings, date),
        CommandType::Scores => get_teams_fixtures(roster),
        CommandType::Teams => {
            let urls: Vec<String> = Vec::new();
            assert(addresses(urls@) =~= Seq::<Seq<char>>::empty());
            urls
        },
        CommandType::Live => get_live_fixtures(settings),
        CommandType::Standings => get_standings_for_base_leagues(settings),
    }
}

} // verus!
