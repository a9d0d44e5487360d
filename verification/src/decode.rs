//! Reading the service's records out of JSON values. A record is read as
//! strictly as it is declared: a field of the wrong kind, or a required
//! field that is missing, makes the whole value unreadable.

use vstd::prelude::*;
use crate::json::{
    bool_in, integer_of, member, member_of, read_bool, read_i32, read_i64, read_text, read_u16,
    read_u64, text_in, Json, Member, MemberRef,
};
use crate::model::{
    Fixture, FixtureData, GoalStats, GoalsData, LeagueData, Periods, ScoreData, Stats, Status,
    Team, TeamCSVRecord, TeamInfo, TeamStanding, TeamsData, Venue,
};

verus! {

/// A required field read as a `u64`.
pub open spec fn req_u64(json: Json, key: Seq<char>, position: int, count: int) -> Option<u64> {
    match member(json, key, position, count) {
        Member::Present(value) => match integer_of(value, 0, u64::MAX as int) {
            Some(i) => Some(i as u64),
            None => None,
        },
        _ => None,
    }
}

/// A required field read as an `i64`.
pub open spec fn req_i64(json: Json, key: Seq<char>, position: int, count: int) -> Option<i64> {
    match member(json, key, position, count) {
        Member::Present(value) => match integer_of(value, i64::MIN as int, i64::MAX as int) {
            Some(i) => Some(i as i64),
            None => None,
        },
        _ => None,
    }
}

/// A required field read as an `i32`.
pub open spec fn req_i32(json: Json, key: Seq<char>, position: int, count: int) -> Option<i32> {
    match member(json, key, position, count) {
        Member::Present(value) => match integer_of(value, i32::MIN as int, i32::MAX as int) {
            Some(i) => Some(i as i32),
            None => None,
        },
        _ => None,
    }
}

/// A required field read as a `u16`.
pub open spec fn req_u16(json: Json, key: Seq<char>, position: int, count: int) -> Option<u16> {
    match member(json, key, position, count) {
        Member::Present(value) => match integer_of(value, 0, u16::MAX as int) {
            Some(i) => Some(i as u16),
            None => None,
        },
        _ => None,
    }
}

/// A required field read as a text.
pub open spec fn req_text(json: Json, key: Seq<char>, position: int, count: int) -> Option<
    String,
> {
    match member(json, key, position, count) {
        Member::Present(value) => text_in(value),
        _ => None,
    }
}

/// A field that may be missing or `null`, read as a `u64` where it is
/// neither. The outer `None` says that the value is unreadable.
pub open spec fn opt_u64(json: Json, key: Seq<char>, position: int, count: int) -> Option<
    Option<u64>,
> {
    match member(json, key, position, count) {
        Member::Present(Json::Null) => Some(None),
        Member::Present(value) => match integer_of(value, 0, u64::MAX as int) {
            Some(i) => Some(Some(i as u64)),
            None => None,
        },
        Member::Absent => Some(None),
        Member::NotRecord => None,
    }
}

/// A field that may be missing or `null`, read as a text where it is
/// neither.
pub open spec fn opt_text(json: Json, key: Seq<char>, position: int, count: int) -> Option<
    Option<String>,
> {
    match member(json, key, position, count) {
        Member::Present(Json::Null) => Some(None),
        Member::Present(value) => match text_in(value) {
            Some(s) => Some(Some(s)),
            None => None,
        },
        Member::Absent => Some(None),
        Member::NotRecord => None,
    }
}

/// A field that may be missing or `null`, read as a truth value where it
/// is neither.
pub open spec fn opt_bool(json: Json, key: Seq<char>, position: int, count: int) -> Option<
    Option<bool>,
> {
    match member(json, key, position, count) {
        Member::Present(Json::Null) => Some(None),
        Member::Present(value) => match bool_in(value) {
            Some(b) => Some(Some(b)),
            None => None,
        },
        Member::Absent => Some(None),
        Member::NotRecord => None,
    }
}

/// Reads a required field as a `u64`.
pub fn field_u64(json: &Json, key: &str, position: usize, count: usize) -> (r: Option<u64>)
    ensures
        r == req_u64(*json, key@, position as int, count as int),
{
    match member_of(json, key, position, count) {
        MemberRef::Present(value) => read_u64(value),
        _ => None,
    }
}

/// Reads a required field as an `i64`.
pub fn field_i64(json: &Json, key: &str, position: usize, count: usize) -> (r: Option<i64>)
    ensures
        r == req_i64(*json, key@, position as int, count as int),
{
    match member_of(json, key, position, count) {
        MemberRef::Present(value) => read_i64(value),
        _ => None,
    }
}

/// Reads a required field as an `i32`.
pub fn field_i32(json: &Json, key: &str, position: usize, count: usize) -> (r: Option<i32>)
    ensures
        r == req_i32(*json, key@, position as int, count as int),
{
    match member_of(json, key, position, count) {
        MemberRef::Present(value) => read_i32(value),
        _ => None,
    }
}

/// Reads a required field as a `u16`.
pub fn field_u16(json: &Json, key: &str, position: usize, count: usize) -> (r: Option<u16>)
    ensures
        r == req_u16(*json, key@, position as int, count as int),
{
    match member_of(json, key, position, count) {
        MemberRef::Present(value) => read_u16(value),
        _ => None,
    }
}

/// Reads a required field as a text.
pub fn field_text(json: &Json, key: &str, position: usize, count: usize) -> (r: Option<String>)
    ensures
        r == req_text(*json, key@, position as int, count as int),
{
    match member_of(json, key, position, count) {
        MemberRef::Present(value) => read_text(value),
        _ => None,
    }
}

/// Reads a field that may be missing or `null` as a `u64`.
pub fn field_opt_u64(json: &Json, key: &str, position: usize, count: usize) -> (r: Option<
    Option<u64>,
>)
    ensures
        r == opt_u64(*json, key@, position as int, count as int),
{
    match member_of(json, key, position, count) {
        MemberRef::Present(Json::Null) => Some(None),
        MemberRef::Present(value) => match read_u64(value) {
            Some(v) => Some(Some(v)),
            None => None,
        },
        MemberRef::Absent => Some(None),
        MemberRef::NotRecord => None,
    }
}

/// Reads a field that may be missing or `null` as a text.
pub fn field_opt_text(json: &Json, key: &str, position: usize, count: usize) -> (r: Option<
    Option<String>,
>)
    ensures
        r == opt_text(*json, key@, position as int, count as int),
{
    match member_of(json, key, position, count) {
        MemberRef::Present(Json::Null) => Some(None),
        MemberRef::Present(value) => match read_text(value) {
            Some(s) => Some(Some(s)),
            None => None,
        },
        MemberRef::Absent => Some(None),
        MemberRef::NotRecord => None,
    }
}

/// Reads a field that may be missing or `null` as a truth value.
pub fn field_opt_bool(json: &Json, key: &str, position: usize, count: usize) -> (r: Option<
    Option<bool>,
>)
    ensures
        r == opt_bool(*json, key@, position as int, count as int),
{
    match member_of(json, key, position, count) {
        MemberRef::Present(Json::Null) => Some(None),
        MemberRef::Present(value) => match read_bool(value) {
            Some(b) => Some(Some(b)),
            None => None,
        },
        MemberRef::Absent => Some(None),
        MemberRef::NotRecord => None,
    }
}

/// A team: `id`, `name`, `logo` and, where the match is decided, `winner`.
/// `None` where the value is no such record.
pub open spec fn team_in(json: Json) -> Option<Team> {
    if req_u64(json, "id"@, 0, 4) is Some
        && req_text(json, "name"@, 1, 4) is Some
        && req_text(json, "logo"@, 2, 4) is Some
        && opt_bool(json, "winner"@, 3, 4) is Some {
        Some(
            Team {
                id: req_u64(json, "id"@, 0, 4).unwrap(),
                name: req_text(json, "name"@, 1, 4).unwrap(),
                logo: req_text(json, "logo"@, 2, 4).unwrap(),
                winner: opt_bool(json, "winner"@, 3, 4).unwrap(),
            },
        )
    } else {
        None
    }
}

/// A required field read as a team.
pub open spec fn req_team(json: Json, key: Seq<char>, position: int, count: int) -> Option<
    Team,
> {
    match member(json, key, position, count) {
        Member::Present(value) => team_in(value),
        _ => None,
    }
}

/// Reads a value as a team.
pub fn read_team(json: &Json) -> (r: Option<Team>)
    ensures
        r == team_in(*json),
{
    let id = field_u64(json, "id", 0, 4)?;
    let name = field_text(json, "name", 1, 4)?;
    let logo = field_text(json, "logo", 2, 4)?;
    let winner = field_opt_bool(json, "winner", 3, 4)?;
    Some(Team { id, name, logo, winner })
}

/// Goals of the two sides: `home` and `away`, each a number or `null`.
/// `None` where the value is no such record.
pub open spec fn goals_in(json: Json) -> Option<GoalsData> {
    if opt_u64(json, "home"@, 0, 2) is Some
        && opt_u64(json, "away"@, 1, 2) is Some {
        Some(
            GoalsData {
                home: opt_u64(json, "home"@, 0, 2).unwrap(),
                away: opt_u64(json, "away"@, 1, 2).unwrap(),
            },
        )
    } else {
        None
    }
}

/// A required field read as a pair of goals.
pub open spec fn req_goals(json: Json, key: Seq<char>, position: int, count: int) -> Option<
    GoalsData,
> {
    match member(json, key, position, count) {
        Member::Present(value) => goals_in(value),
        _ => None,
    }
}

/// Reads a value as a pair of goals.
pub fn read_goals(json: &Json) -> (r: Option<GoalsData>)
    ensures
        r == goals_in(*json),
{
    let home = field_opt_u64(json, "home", 0, 2)?;
    let away = field_opt_u64(json, "away", 1, 2)?;
    Some(GoalsData { home, away })
}

/// The score at half time, full time, after extra time and on penalties.
/// `None` where the value is no such record.
pub open spec fn score_in(json: Json) -> Option<ScoreData> {
    if req_goals(json, "halftime"@, 0, 4) is Some
        && req_goals(json, "fulltime"@, 1, 4) is Some
        && req_goals(json, "extratime"@, 2, 4) is Some
        && req_goals(json, "penalty"@, 3, 4) is Some {
        Some(
            ScoreData {
                halftime: req_goals(json, "halftime"@, 0, 4).unwrap(),
                fulltime: req_goals(json, "fulltime"@, 1, 4).unwrap(),
                extratime: req_goals(json, "extratime"@, 2, 4).unwrap(),
                penalty: req_goals(json, "penalty"@, 3, 4).unwrap(),
            },
        )
    } else {
        None
    }
}

/// A required field read as a score.
pub open spec fn req_score(json: Json, key: Seq<char>, position: int, count: int) -> Option<
    ScoreData,
> {
    match member(json, key, position, count) {
        Member::Present(value) => score_in(value),
        _ => None,
    }
}

/// A field that may be missing or `null`, read as a score where it is
/// neither.
pub open spec fn opt_score(json: Json, key: Seq<char>, position: int, count: int) -> Option<
    Option<ScoreData>,
> {
    match member(json, key, position, count) {
        Member::Present(Json::Null) => Some(None),
        Member::Present(value) => match score_in(value) {
            Some(record) => Some(Some(record)),
            None => None,
        },
        Member::Absent => Some(None),
        Member::NotRecord => None,
    }
}

/// Reads a value as a score.
pub fn read_score(json: &Json) -> (r: Option<ScoreData>)
    ensures
        r == score_in(*json),
{
    let halftime = match member_of(json, "halftime", 0, 4) {
        MemberRef::Present(value) => read_goals(value)?,
        _ => {
            return None;
        },
    };
    let fulltime = match member_of(json, "fulltime", 1, 4) {
        MemberRef::Present(value) => read_goals(value)?,
        _ => {
            return None;
        },
    };
    let extratime = match member_of(json, "extratime", 2, 4) {
        MemberRef::Present(value) => read_goals(value)?,
        _ => {
            return None;
        },
    };
    let penalty = match member_of(json, "penalty", 3, 4) {
        MemberRef::Present(value) => read_goals(value)?,
        _ => {
            return None;
        },
    };
    Some(ScoreData { halftime, fulltime, extratime, penalty })
}

/// The starts of the two halves.
/// `None` where the value is no such record.
pub open spec fn periods_in(json: Json) -> Option<Periods> {
    if opt_u64(json, "first"@, 0, 2) is Some
        && opt_u64(json, "second"@, 1, 2) is Some {
        Some(
            Periods {
                first: opt_u64(json, "first"@, 0, 2).unwrap(),
                second: opt_u64(json, "second"@, 1, 2).unwrap(),
            },
        )
    } else {
        None
    }
}

/// A required field read as the periods.
pub open spec fn req_periods(json: Json, key: Seq<char>, position: int, count: int) -> Option<
    Periods,
> {
    match member(json, key, position, count) {
        Member::Present(value) => periods_in(value),
        _ => None,
    }
}

/// Reads a value as the periods.
pub fn read_periods(json: &Json) -> (r: Option<Periods>)
    ensures
        r == periods_in(*json),
{
    let first = field_opt_u64(json, "first", 0, 2)?;
    let second = field_opt_u64(json, "second", 1, 2)?;
    Some(Periods { first, second })
}

/// A ground: `id`, `name` and `city`.
/// `None` where the value is no such record.
pub open spec fn venue_in(json: Json) -> Option<Venue> {
    if opt_u64(json, "id"@, 0, 3) is Some
        && req_text(json, "name"@, 1, 3) is Some
        && req_text(json, "city"@, 2, 3) is Some {
        Some(
            Venue {
                id: opt_u64(json, "id"@, 0, 3).unwrap(),
                name: req_text(json, "name"@, 1, 3).unwrap(),
                city: req_text(json, "city"@, 2, 3).unwrap(),
            },
        )
    } else {
        None
    }
}

/// A required field read as a venue.
pub open spec fn req_venue(json: Json, key: Seq<char>, position: int, count: int) -> Option<
    Venue,
> {
    match member(json, key, position, count) {
        Member::Present(value) => venue_in(value),
        _ => None,
    }
}

/// A field that may be missing or `null`, read as a venue where it is
/// neither.
pub open spec fn opt_venue(json: Json, key: Seq<char>, position: int, count: int) -> Option<
    Option<Venue>,
> {
    match member(json, key, position, count) {
        Member::Present(Json::Null) => Some(None),
        Member::Present(value) => match venue_in(value) {
            Some(record) => Some(Some(record)),
            None => None,
        },
        Member::Absent => Some(None),
        Member::NotRecord => None,
    }
}

/// Reads a value as a venue.
pub fn read_venue(json: &Json) -> (r: Option<Venue>)
    ensures
        r == venue_in(*json),
{
    let id = field_opt_u64(json, "id", 0, 3)?;
    let name = field_text(json, "name", 1, 3)?;
    let city = field_text(json, "city", 2, 3)?;
    Some(Venue { id, name, city })
}

/// How far a match has come: `long`, `short` and `elapsed`.
/// `None` where the value is no such record.
pub open spec fn status_in(json: Json) -> Option<Status> {
    if req_text(json, "long"@, 0, 3) is Some
        && req_text(json, "short"@, 1, 3) is Some
        && opt_u64(json, "elapsed"@, 2, 3) is Some {
        Some(
            Status {
                long: req_text(json, "long"@, 0, 3).unwrap(),
                short: req_text(json, "short"@, 1, 3).unwrap(),
                elapsed: opt_u64(json, "elapsed"@, 2, 3).unwrap(),
            },
        )
    } else {
        None
    }
}

/// A required field read as a status.
pub open spec fn req_status(json: Json, key: Seq<char>, position: int, count: int) -> Option<
    Status,
> {
    match member(json, key, position, count) {
        Member::Present(value) => status_in(value),
        _ => None,
    }
}

/// Reads a value as a status.
pub fn read_status(json: &Json) -> (r: Option<Status>)
    ensures
        r == status_in(*json),
{
    let long = field_text(json, "long", 0, 3)?;
    let short = field_text(json, "short", 1, 3)?;
    let elapsed = field_opt_u64(json, "elapsed", 2, 3)?;
    Some(Status { long, short, elapsed })
}

/// The match itself: when, where, under whom and how far.
/// `None` where the value is no such record.
pub open spec fn fixture_data_in(json: Json) -> Option<FixtureData> {
    if req_u64(json, "id"@, 0, 8) is Some
        && req_text(json, "referee"@, 1, 8) is Some
        && req_text(json, "timezone"@, 2, 8) is Some
        && req_text(json, "date"@, 3, 8) is Some
        && req_i64(json, "timestamp"@, 4, 8) is Some
        && req_periods(json, "periods"@, 5, 8) is Some
        && opt_venue(json, "venue"@, 6, 8) is Some
        && req_status(json, "status"@, 7, 8) is Some {
        Some(
            FixtureData {
                id: req_u64(json, "id"@, 0, 8).unwrap(),
                referee: req_text(json, "referee"@, 1, 8).unwrap(),
                timezone: req_text(json, "timezone"@, 2, 8).unwrap(),
                date: req_text(json, "date"@, 3, 8).unwrap(),
                timestamp: req_i64(json, "timestamp"@, 4, 8).unwrap(),
                periods: req_periods(json, "periods"@, 5, 8).unwrap(),
                venue: opt_venue(json, "venue"@, 6, 8).unwrap(),
                status: req_status(json, "status"@, 7, 8).unwrap(),
            },
        )
    } else {
        None
    }
}

/// A required field read as a match.
pub open spec fn req_fixture_data(json: Json, key: Seq<char>, position: int, count: int) -> Option<
    FixtureData,
> {
    match member(json, key, position, count) {
        Member::Present(value) => fixture_data_in(value),
        _ => None,
    }
}

/// Reads a value as a match.
pub fn read_fixture_data(json: &Json) -> (r: Option<FixtureData>)
    ensures
        r == fixture_data_in(*json),
{
    let id = field_u64(json, "id", 0, 8)?;
    let referee = field_text(json, "referee", 1, 8)?;
    let timezone = field_text(json, "timezone", 2, 8)?;
    let date = field_text(json, "date", 3, 8)?;
    let timestamp = field_i64(json, "timestamp", 4, 8)?;
    let periods = match member_of(json, "periods", 5, 8) {
        MemberRef::Present(value) => read_periods(value)?,
        _ => {
            return None;
        },
    };
    let venue = match member_of(json, "venue", 6, 8) {
        MemberRef::Present(Json::Null) => None,
        MemberRef::Present(value) => Some(read_venue(value)?),
        MemberRef::Absent => None,
        MemberRef::NotRecord => {
            return None;
        },
    };
    let status = match member_of(json, "status", 7, 8) {
        MemberRef::Present(value) => read_status(value)?,
        _ => {
            return None;
        },
    };
    Some(FixtureData { id, referee, timezone, date, timestamp, periods, venue, status })
}

/// The competition that a match belongs to.
/// `None` where the value is no such record.
pub open spec fn league_data_in(json: Json) -> Option<LeagueData> {
    if req_u64(json, "id"@, 0, 7) is Some
        && req_text(json, "name"@, 1, 7) is Some
        && req_text(json, "country"@, 2, 7) is Some
        && req_text(json, "logo"@, 3, 7) is Some
        && opt_text(json, "flag"@, 4, 7) is Some
        && req_u16(json, "season"@, 5, 7) is Some
        && opt_text(json, "round"@, 6, 7) is Some {
        Some(
            LeagueData {
                id: req_u64(json, "id"@, 0, 7).unwrap(),
                name: req_text(json, "name"@, 1, 7).unwrap(),
                country: req_text(json, "country"@, 2, 7).unwrap(),
                logo: req_text(json, "logo"@, 3, 7).unwrap(),
                flag: opt_text(json, "flag"@, 4, 7).unwrap(),
                season: req_u16(json, "season"@, 5, 7).unwrap(),
                round: opt_text(json, "round"@, 6, 7).unwrap(),
            },
        )
    } else {
        None
    }
}

/// A required field read as a league.
pub open spec fn req_league_data(json: Json, key: Seq<char>, position: int, count: int) -> Option<
    LeagueData,
> {
    match member(json, key, position, count) {
        Member::Present(value) => league_data_in(value),
        _ => None,
    }
}

/// Reads a value as a league.
pub fn read_league_data(json: &Json) -> (r: Option<LeagueData>)
    ensures
        r == league_data_in(*json),
{
    let id = field_u64(json, "id", 0, 7)?;
    let name = field_text(json, "name", 1, 7)?;
    let country = field_text(json, "country", 2, 7)?;
    let logo = field_text(json, "logo", 3, 7)?;
    let flag = field_opt_text(json, "flag", 4, 7)?;
    let season = field_u16(json, "season", 5, 7)?;
    let round = field_opt_text(json, "round", 6, 7)?;
    Some(LeagueData { id, name, country, logo, flag, season, round })
}

/// The two sides: `home` and `away`.
/// `None` where the value is no such record.
pub open spec fn teams_in(json: Json) -> Option<TeamsData> {
    if req_team(json, "home"@, 0, 2) is Some
        && req_team(json, "away"@, 1, 2) is Some {
        Some(
            TeamsData {
                home: req_team(json, "home"@, 0, 2).unwrap(),
                away: req_team(json, "away"@, 1, 2).unwrap(),
            },
        )
    } else {
        None
    }
}

/// A required field read as the two sides.
pub open spec fn req_teams(json: Json, key: Seq<char>, position: int, count: int) -> Option<
    TeamsData,
> {
    match member(json, key, position, count) {
        Member::Present(value) => teams_in(value),
        _ => None,
    }
}

/// Reads a value as the two sides.
pub fn read_teams(json: &Json) -> (r: Option<TeamsData>)
    ensures
        r == teams_in(*json),
{
    let home = match member_of(json, "home", 0, 2) {
        MemberRef::Present(value) => read_team(value)?,
        _ => {
            return None;
        },
    };
    let away = match member_of(json, "away", 1, 2) {
        MemberRef::Present(value) => read_team(value)?,
        _ => {
            return None;
        },
    };
    Some(TeamsData { home, away })
}

/// A fixture: `fixture`, `league`, `teams`, `goals` and, where there is one, `score`.
/// `None` where the value is no such record.
pub open spec fn fixture_in(json: Json) -> Option<Fixture> {
    if req_fixture_data(json, "fixture"@, 0, 5) is Some
        && req_league_data(json, "league"@, 1, 5) is Some
        && req_teams(json, "teams"@, 2, 5) is Some
        && req_goals(json, "goals"@, 3, 5) is Some
        && opt_score(json, "score"@, 4, 5) is Some {
        Some(
            Fixture {
                fixture: req_fixture_data(json, "fixture"@, 0, 5).unwrap(),
                league: req_league_data(json, "league"@, 1, 5).unwrap(),
                teams: req_teams(json, "teams"@, 2, 5).unwrap(),
                goals: req_goals(json, "goals"@, 3, 5).unwrap(),
                score: opt_score(json, "score"@, 4, 5).unwrap(),
            },
        )
    } else {
        None
    }
}

/// A required field read as a fixture.
pub open spec fn req_fixture(json: Json, key: Seq<char>, position: int, count: int) -> Option<
    Fixture,
> {
    match member(json, key, position, count) {
        Member::Present(value) => fixture_in(value),
        _ => None,
    }
}

/// Reads a value as a fixture.
pub fn read_fixture(json: &Json) -> (r: Option<Fixture>)
    ensures
        r == fixture_in(*json),
{
    let fixture = match member_of(json, "fixture", 0, 5) {
        MemberRef::Present(value) => read_fixture_data(value)?,
        _ => {
            return None;
        },
    };
    let league = match member_of(json, "league", 1, 5) {
        MemberRef::Present(value) => read_league_data(value)?,
        _ => {
            return None;
        },
    };
    let teams = match member_of(json, "teams", 2, 5) {
        MemberRef::Present(value) => read_teams(value)?,
        _ => {
            return None;
        },
    };
    let goals = match member_of(json, "goals", 3, 5) {
        MemberRef::Present(value) => read_goals(value)?,
        _ => {
            return None;
        },
    };
    let score = match member_of(json, "score", 4, 5) {
        MemberRef::Present(Json::Null) => None,
        MemberRef::Present(value) => Some(read_score(value)?),
        MemberRef::Absent => None,
        MemberRef::NotRecord => {
            return None;
        },
    };
    Some(Fixture { fixture, league, teams, goals, score })
}

/// Goals `against` and `for`.
/// `None` where the value is no such record.
pub open spec fn goal_stats_in(json: Json) -> Option<GoalStats> {
    if req_i32(json, "against"@, 0, 2) is Some
        && req_i32(json, "for"@, 1, 2) is Some {
        Some(
            GoalStats {
                against: req_i32(json, "against"@, 0, 2).unwrap(),
                for_: req_i32(json, "for"@, 1, 2).unwrap(),
            },
        )
    } else {
        None
    }
}

/// A required field read as goal counts.
pub open spec fn req_goal_stats(json: Json, key: Seq<char>, position: int, count: int) -> Option<
    GoalStats,
> {
    match member(json, key, position, count) {
        Member::Present(value) => goal_stats_in(value),
        _ => None,
    }
}

/// Reads a value as goal counts.
pub fn read_goal_stats(json: &Json) -> (r: Option<GoalStats>)
    ensures
        r == goal_stats_in(*json),
{
    let against = field_i32(json, "against", 0, 2)?;
    let for_ = field_i32(json, "for", 1, 2)?;
    Some(GoalStats { against, for_ })
}

/// Matches played, won, drawn and lost, and the goals in them.
/// `None` where the value is no such record.
pub open spec fn stats_in(json: Json) -> Option<Stats> {
    if req_i32(json, "draw"@, 0, 5) is Some
        && req_goal_stats(json, "goals"@, 1, 5) is Some
        && req_i32(json, "lose"@, 2, 5) is Some
        && req_i32(json, "played"@, 3, 5) is Some
        && req_i32(json, "win"@, 4, 5) is Some {
        Some(
            Stats {
                draw: req_i32(json, "draw"@, 0, 5).unwrap(),
                goals: req_goal_stats(json, "goals"@, 1, 5).unwrap(),
                lose: req_i32(json, "lose"@, 2, 5).unwrap(),
                played: req_i32(json, "played"@, 3, 5).unwrap(),
                win: req_i32(json, "win"@, 4, 5).unwrap(),
            },
        )
    } else {
        None
    }
}

/// A required field read as a record of matches.
pub open spec fn req_stats(json: Json, key: Seq<char>, position: int, count: int) -> Option<
    Stats,
> {
    match member(json, key, position, count) {
        Member::Present(value) => stats_in(value),
        _ => None,
    }
}

/// Reads a value as a record of matches.
pub fn read_stats(json: &Json) -> (r: Option<Stats>)
    ensures
        r == stats_in(*json),
{
    let draw = field_i32(json, "draw", 0, 5)?;
    let goals = match member_of(json, "goals", 1, 5) {
        MemberRef::Present(value) => read_goal_stats(value)?,
        _ => {
            return None;
        },
    };
    let lose = field_i32(json, "lose", 2, 5)?;
    let played = field_i32(json, "played", 3, 5)?;
    let win = field_i32(json, "win", 4, 5)?;
    Some(Stats { draw, goals, lose, played, win })
}

/// One row of a league table.
/// `None` where the value is no such record.
pub open spec fn standing_in(json: Json) -> Option<TeamStanding> {
    if req_stats(json, "all"@, 0, 12) is Some
        && req_stats(json, "away"@, 1, 12) is Some
        && opt_text(json, "description"@, 2, 12) is Some
        && opt_text(json, "form"@, 3, 12) is Some
        && req_i32(json, "goalsDiff"@, 4, 12) is Some
        && opt_text(json, "group"@, 5, 12) is Some
        && req_stats(json, "home"@, 6, 12) is Some
        && req_i32(json, "points"@, 7, 12) is Some
        && req_i32(json, "rank"@, 8, 12) is Some
        && opt_text(json, "status"@, 9, 12) is Some
        && req_team(json, "team"@, 10, 12) is Some
        && opt_text(json, "update"@, 11, 12) is Some {
        Some(
            TeamStanding {
                all: req_stats(json, "all"@, 0, 12).unwrap(),
                away: req_stats(json, "away"@, 1, 12).unwrap(),
                description: opt_text(json, "description"@, 2, 12).unwrap(),
                form: opt_text(json, "form"@, 3, 12).unwrap(),
                goals_diff: req_i32(json, "goalsDiff"@, 4, 12).unwrap(),
                group: opt_text(json, "group"@, 5, 12).unwrap(),
                home: req_stats(json, "home"@, 6, 12).unwrap(),
                points: req_i32(json, "points"@, 7, 12).unwrap(),
                rank: req_i32(json, "rank"@, 8, 12).unwrap(),
                status: opt_text(json, "status"@, 9, 12).unwrap(),
                team: req_team(json, "team"@, 10, 12).unwrap(),
                update: opt_text(json, "update"@, 11, 12).unwrap(),
            },
        )
    } else {
        None
    }
}

/// A required field read as a table row.
pub open spec fn req_standing(json: Json, key: Seq<char>, position: int, count: int) -> Option<
    TeamStanding,
> {
    match member(json, key, position, count) {
        Member::Present(value) => standing_in(value),
        _ => None,
    }
}

/// Reads a value as a table row.
pub fn read_standing(json: &Json) -> (r: Option<TeamStanding>)
    ensures
        r == standing_in(*json),
{
    let all = match member_of(json, "all", 0, 12) {
        MemberRef::Present(value) => read_stats(value)?,
        _ => {
            return None;
        },
    };
    let away = match member_of(json, "away", 1, 12) {
        MemberRef::Present(value) => read_stats(value)?,
        _ => {
            return None;
        },
    };
    let description = field_opt_text(json, "description", 2, 12)?;
    let form = field_opt_text(json, "form", 3, 12)?;
    let goals_diff = field_i32(json, "goalsDiff", 4, 12)?;
    let group = field_opt_text(json, "group", 5, 12)?;
    let home = match member_of(json, "home", 6, 12) {
        MemberRef::Present(value) => read_stats(value)?,
        _ => {
            return None;
        },
    };
    let points = field_i32(json, "points", 7, 12)?;
    let rank = field_i32(json, "rank", 8, 12)?;
    let status = field_opt_text(json, "status", 9, 12)?;
    let team = match member_of(json, "team", 10, 12) {
        MemberRef::Present(value) => read_team(value)?,
        _ => {
            return None;
        },
    };
    let update = field_opt_text(json, "update", 11, 12)?;
    Some(
        TeamStanding {
            all,
            away,
            description,
            form,
            goals_diff,
            group,
            home,
            points,
            rank,
            status,
            team,
            update,
        },
    )
}

/// A team as the search reports it: `name` and `id`.
/// `None` where the value is no such record.
pub open spec fn team_record_in(json: Json) -> Option<TeamCSVRecord> {
    if req_text(json, "name"@, 0, 2) is Some
        && req_u64(json, "id"@, 1, 2) is Some {
        Some(
            TeamCSVRecord {
                name: req_text(json, "name"@, 0, 2).unwrap(),
                id: req_u64(json, "id"@, 1, 2).unwrap(),
            },
        )
    } else {
        None
    }
}

/// A required field read as a found team.
pub open spec fn req_team_record(json: Json, key: Seq<char>, position: int, count: int) -> Option<
    TeamCSVRecord,
> {
    match member(json, key, position, count) {
        Member::Present(value) => team_record_in(value),
        _ => None,
    }
}

/// Reads a value as a found team.
pub fn read_team_record(json: &Json) -> (r: Option<TeamCSVRecord>)
    ensures
        r == team_record_in(*json),
{
    let name = field_text(json, "name", 0, 2)?;
    let id = field_u64(json, "id", 1, 2)?;
    Some(TeamCSVRecord { name, id })
}

/// One answer of the team search: `team` and `venue`.
/// `None` where the value is no such record.
pub open spec fn team_info_in(json: Json) -> Option<TeamInfo> {
    if req_team_record(json, "team"@, 0, 2) is Some
        && req_venue(json, "venue"@, 1, 2) is Some {
        Some(
            TeamInfo {
                team: req_team_record(json, "team"@, 0, 2).unwrap(),
                venue: req_venue(json, "venue"@, 1, 2).unwrap(),
            },
        )
    } else {
        None
    }
}

/// A required field read as a search answer.
pub open spec fn req_team_info(json: Json, key: Seq<char>, position: int, count: int) -> Option<
    TeamInfo,
> {
    match member(json, key, position, count) {
        Member::Present(value) => team_info_in(value),
        _ => None,
    }
}

/// Reads a value as a search answer.
pub fn read_team_info(json: &Json) -> (r: Option<TeamInfo>)
    ensures
        r == team_info_in(*json),
{
    let team = match member_of(json, "team", 0, 2) {
        MemberRef::Present(value) => read_team_record(value)?,
        _ => {
            return None;
        },
    };
    let venue = match member_of(json, "venue", 1, 2) {
        MemberRef::Present(value) => read_venue(value)?,
        _ => {
            return None;
        },
    };
    Some(TeamInfo { team, venue })
}


} // verus!
