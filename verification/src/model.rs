//! The records that the sports-data service reports, and the rows of the
//! two side files.

use vstd::prelude::*;

verus! {

/// A club or national side as a fixture or a table row names it.
#[derive(Debug, Clone, PartialEq, Eq)]
pub struct Team {
    pub id: u64,
    pub name: String,
    pub logo: String,
    /// `Some(true)` where this side won, `Some(false)` where it lost,
    /// `None` for a draw or a match not decided yet.
    pub winner: Option<bool>,
}

/// The two sides of a fixture.
#[derive(Debug, Clone, PartialEq, Eq)]
pub struct TeamsData {
    pub home: Team,
    pub away: Team,
}

/// Goals of the two sides, where they are known.
#[derive(Debug, Clone, PartialEq, Eq)]
pub struct GoalsData {
    pub home: Option<u64>,
    pub away: Option<u64>,
}

/// The score at each stage of a match.
#[derive(Debug, Clone, PartialEq, Eq)]
pub struct ScoreData {
    pub halftime: GoalsData,
    pub fulltime: GoalsData,
    pub extratime: GoalsData,
    pub penalty: GoalsData,
}

/// When the two halves began, as Unix timestamps.
#[derive(Debug, Clone, PartialEq, Eq)]
pub struct Periods {
    pub first: Option<u64>,
    pub second: Option<u64>,
}

/// The ground of a match or of a team.
#[derive(Debug, Clone, PartialEq, Eq)]
pub struct Venue {
    pub id: Option<u64>,
    pub name: String,
    pub city: String,
}

/// How far a match has come: `short` is `"NS"`, `"TBD"`, `"FT"` or the code
/// of a match in progress.
#[derive(Debug, Clone, PartialEq, Eq)]
pub struct Status {
    pub long: String,
    pub short: String,
    pub elapsed: Option<u64>,
}

/// The match itself: when, where, under whom and how far.
#[derive(Debug, Clone, PartialEq, Eq)]
pub struct FixtureData {
    pub id: u64,
    pub referee: String,
    pub timezone: String,
    pub date: String,
    pub timestamp: i64,
    pub periods: Periods,
    pub venue: Option<Venue>,
    pub status: Status,
}

/// The competition that a match belongs to.
#[derive(Debug, Clone, PartialEq, Eq)]
pub struct LeagueData {
    pub id: u64,
    pub name: String,
    pub country: String,
    pub logo: String,
    pub flag: Option<String>,
    pub season: u16,
    pub round: Option<String>,
}

/// One scheduled, running or finished match.
#[derive(Debug, Clone, PartialEq, Eq)]
pub struct Fixture {
    pub fixture: FixtureData,
    pub league: LeagueData,
    pub teams: TeamsData,
    pub goals: GoalsData,
    pub score: Option<ScoreData>,
}

/// Goals conceded and scored.
#[derive(Debug, Clone, PartialEq, Eq)]
pub struct GoalStats {
    pub against: i32,
    pub for_: i32,
}

/// Matches played, won, drawn and lost, and the goals in them.
#[derive(Debug, Clone, PartialEq, Eq)]
pub struct Stats {
    pub draw: i32,
    pub goals: GoalStats,
    pub lose: i32,
    pub played: i32,
    pub win: i32,
}

/// One row of a league table.
#[derive(Debug, Clone, PartialEq, Eq)]
pub struct TeamStanding {
    pub all: Stats,
    pub away: Stats,
    pub description: Option<String>,
    pub form: Option<String>,
    pub goals_diff: i32,
    pub group: Option<String>,
    pub home: Stats,
    pub points: i32,
    pub rank: i32,
    pub status: Option<String>,
    pub team: Team,
    pub update: Option<String>,
}

/// A favourite team as the roster file keeps it: the name is the key.
#[derive(Debug, Clone, PartialEq, Eq)]
pub struct TeamCSVRecord {
    pub name: String,
    pub id: u64,
}

/// A team's colour as the colour file keeps it: `rgb` is a parenthesised
/// triple such as `(0, 35, 89)`, or a word that stands for white.
#[derive(Debug, Clone, PartialEq, Eq)]
pub struct RGBCSVRecord {
    pub id: u64,
    pub rgb: String,
}

/// One answer of the team search.
#[derive(Debug, Clone, PartialEq, Eq)]
pub struct TeamInfo {
    pub team: TeamCSVRecord,
    pub venue: Venue,
}

} // verus!
