//! From the bodies that the service answers with to the records in them.
//! Every answer is a JSON object that keeps its data under `response`.

use vstd::prelude::*;
use crate::decode::{
    fixture_in, read_fixture, read_standing, read_team_info, standing_in, team_info_in,
};
use crate::json::{
    find_member, json_document, lookup, member, member_of, parse_json, Json, Member, MemberRef,
};
use crate::model::{Fixture, TeamInfo, TeamStanding};
use crate::text::texts;

verus! {

/// Why a body could not be turned into records.
#[derive(Debug, PartialEq, Eq, Structural, Clone, Copy)]
pub enum ParseError {
    /// The body is a JSON object without a `response` member.
    MissingField,
    /// The body is no JSON object, or what it holds is not of the shape
    /// asked for.
    Deserialization,
    /// The search answered with no team at all.
    NotFound,
}

impl ParseError {
    /// The error in words.
    pub open spec fn text(self) -> Seq<char> {
        match self {
            ParseError::MissingField => "Missing 'response' field"@,
            ParseError::Deserialization => "Unexpected shape of the response"@,
            ParseError::NotFound => "Not a valid team. Try again!"@,
        }
    }

    /// The error in words.
    pub fn message(&self) -> (m: &'static str)
        ensures
            m@ == self.text(),
    {
        match self {
            ParseError::MissingField => "Missing 'response' field",
            ParseError::Deserialization => "Unexpected shape of the response",
            ParseError::NotFound => "Not a valid team. Try again!",
        }
    }
}

/// What a body keeps under `response`.
pub open spec fn response_of(body: Seq<char>) -> Result<Json, ParseError> {
    match json_document(body) {
        Some(Json::Object(entries)) => match lookup(entries@, "response"@) {
            Some(value) => Ok(value),
            None => Err(ParseError::MissingField),
        },
        _ => Err(ParseError::Deserialization),
    }
}

/// A body that is a JSON object without `response` is a missing-field
/// error for fixtures and for standings alike, alone or as the first
/// unreadable body of a batch: never an empty result.
pub proof fn lemma_missing_response(body: Seq<char>)
    requires
        json_document(body) matches Some(Json::Object(entries)) && lookup(
            entries@,
            "response"@,
        ) is None,
    ensures
        response_of(body) == Err::<Json, ParseError>(ParseError::MissingField),
        fixtures_of_body(body) == Err::<Seq<Fixture>, ParseError>(ParseError::MissingField),
        standings_of_body(body) == Err::<Seq<Seq<TeamStanding>>, ParseError>(
            ParseError::MissingField,
        ),
        normalized_fixtures(seq![body]) == Err::<Seq<Seq<Fixture>>, ParseError>(
            ParseError::MissingField,
        ),
        standings_batch(seq![body]) == Err::<Seq<Seq<Seq<TeamStanding>>>, ParseError>(
            ParseError::MissingField,
        ),
{
    assert(seq![body].drop_last() =~= Seq::<Seq<char>>::empty());
    assert(seq![body].last() == body);
    reveal_with_fuel(fixtures_batch, 2);
    reveal_with_fuel(standings_batch, 2);
}

/// No bodies normalise to exactly one empty group of fixtures.
pub proof fn lemma_no_bodies_one_empty_group()
    ensures
        normalized_fixtures(Seq::empty()) == Ok::<Seq<Seq<Fixture>>, ParseError>(
            seq![Seq::<Fixture>::empty()],
        ),
{
}

/// The views of the groups, group by group.
pub open spec fn unfold<T>(groups: Seq<Vec<T>>) -> Seq<Seq<T>> {
    Seq::new(groups.len(), |i: int| groups[i]@)
}

/// A list of fixtures: an array each of whose values is a fixture.
pub open spec fn fixtures_in(json: Json) -> Option<Seq<Fixture>> {
    match json {
        Json::Array(items) => if forall|i: int|
            0 <= i < items@.len() ==> (#[trigger] fixture_in(items@[i])) is Some {
            Some(Seq::new(items@.len(), |i: int| fixture_in(items@[i]).unwrap()))
        } else {
            None
        },
        _ => None,
    }
}

/// Reads a value as a list of fixtures.
#[verifier::loop_isolation(false)]
pub fn read_fixtures(json: &Json) -> (r: Option<Vec<Fixture>>)
    ensures
        match r {
            Some(list) => fixtures_in(*json) == Some(list@),
            None => fixtures_in(*json) is None,
        },
{
    match json {
        Json::Array(items) => {
            let mut list: Vec<Fixture> = Vec::new();
            let mut i: usize = 0;
            while i < items.len()
                invariant
                    i <= items@.len(),
                    list@.len() == i,
                    forall|j: int|
                        0 <= j < i ==> (#[trigger] fixture_in(items@[j])) == Some(list@[j]),
                decreases items@.len() - i,
            {
                match read_fixture(&items[i]) {
                    Some(fixture) => {
                        list.push(fixture);
                    },
                    None => {
                        return None;
                    },
                }
                i = i + 1;
            }
            assert(list@ =~= Seq::new(items@.len(), |i: int| fixture_in(items@[i]).unwrap()));
            Some(list)
        },
        _ => None,
    }
}

/// The fixtures that one body reports.
pub open spec fn fixtures_of_body(body: Seq<char>) -> Result<Seq<Fixture>, ParseError> {
    match response_of(body) {
        Ok(value) => match fixtures_in(value) {
            Some(list) => Ok(list),
            None => Err(ParseError::Deserialization),
        },
        Err(e) => Err(e),
    }
}

/// Reads the fixtures of one body.
pub fn parse_fixture_body(body: &str) -> (r: Result<Vec<Fixture>, ParseError>)
    ensures
        match r {
            Ok(list) => fixtures_of_body(body@) == Ok::<Seq<Fixture>, ParseError>(list@),
            Err(e) => fixtures_of_body(body@) == Err::<Seq<Fixture>, ParseError>(e),
        },
{
    match parse_json(body) {
        Some(Json::Object(entries)) => match find_member(&entries, "response") {
            Some(value) => match read_fixtures(value) {
                Some(list) => Ok(list),
                None => Err(ParseError::Deserialization),
            },
            None => Err(ParseError::MissingField),
        },
        _ => Err(ParseError::Deserialization),
    }
}

/// The fixtures of the bodies, body by body; the error of the first body
/// that cannot be read.
pub open spec fn fixtures_batch(bodies: Seq<Seq<char>>) -> Result<Seq<Seq<Fixture>>, ParseError>
    decreases bodies.len(),
{
    if bodies.len() == 0 {
        Ok(Seq::empty())
    } else {
        match fixtures_batch(bodies.drop_last()) {
            Ok(groups) => match fixtures_of_body(bodies.last()) {
                Ok(group) => Ok(groups.push(group)),
                Err(e) => Err(e),
            },
            Err(e) => Err(e),
        }
    }
}

/// What a batch of bodies normalises to: for no bodies one empty group,
/// else `fixtures_batch`.
pub open spec fn normalized_fixtures(bodies: Seq<Seq<char>>) -> Result<
    Seq<Seq<Fixture>>,
    ParseError,
> {
    if bodies.len() == 0 {
        Ok(seq![Seq::<Fixture>::empty()])
    } else {
        fixtures_batch(bodies)
    }
}

/// The fixtures of a batch of bodies, one group for each body and in the
/// bodies' order. A batch of no bodies gives one empty group, which says
/// that there is nothing to show. The first body that cannot be read
/// fails the batch with its error.
pub fn parse_fixtures(json_list: Vec<String>) -> (r: Result<Vec<Vec<Fixture>>, ParseError>)
    ensures
        match r {
            Ok(groups) => normalized_fixtures(texts(json_list@)) == Ok::<
                Seq<Seq<Fixture>>,
                ParseError,
            >(unfold(groups@)),
            Err(e) => normalized_fixtures(texts(json_list@)) == Err::<
                Seq<Seq<Fixture>>,
                ParseError,
            >(e),
        },
        json_list@.len() == 0 ==> (r matches Ok(groups) && unfold(groups@) == seq![
            Seq::<Fixture>::empty(),
        ]),
        json_list@.len() > 0 && (forall|i: int|
            0 <= i < json_list@.len() ==> (#[trigger] fixtures_of_body(json_list@[i]@)) is Ok)
            ==> (r matches Ok(groups) && unfold(groups@) == Seq::new(
            json_list@.len(),
            |i: int| fixtures_of_body(json_list@[i]@)->Ok_0,
        )),
        forall|i: int|
            0 <= i < json_list@.len() && (#[trigger] fixtures_of_body(json_list@[i]@)) is Err
                && (forall|j: int|
                0 <= j < i ==> (#[trigger] fixtures_of_body(json_list@[j]@)) is Ok) ==> r
                == Err::<Vec<Vec<Fixture>>, ParseError>(fixtures_of_body(json_list@[i]@)->Err_0),
{
    let mut res: Vec<Vec<Fixture>> = Vec::new();
    assert(unfold(res@) =~= Seq::<Seq<Fixture>>::empty());
    if json_list.len() == 0 {
        res.push(Vec::new());
        assert(unfold(res@) =~= seq![Seq::<Fixture>::empty()]);
        return Ok(res);
    }
    let mut i: usize = 0;
    while i < json_list.len()
        invariant
            i <= json_list@.len(),
            res@.len() == i,
            forall|j: int|
                0 <= j < i ==> (#[trigger] fixtures_of_body(json_list@[j]@)) == Ok::<
                    Seq<Fixture>,
                    ParseError,
                >(res@[j]@),
            fixtures_batch(texts(json_list@).subrange(0, i as int)) == Ok::<
                Seq<Seq<Fixture>>,
                ParseError,
            >(unfold(res@)),
        decreases json_list@.len() - i,
    {
        let ghost after = texts(json_list@).subrange(0, i + 1);
        let ghost groups = unfold(res@);
        assert(after.drop_last() =~= texts(json_list@).subrange(0, i as int));
        assert(after.last() == json_list@[i as int]@);
        match parse_fixture_body(json_list[i].as_str()) {
            Ok(list) => {
                res.push(list);
                assert(unfold(res@) =~= groups.push(list@));
            },
            Err(e) => {
                proof {
                    lemma_fixtures_batch_fails(texts(json_list@), i + 1);
                }
                return Err(e);
            },
        }
        i = i + 1;
    }
    assert(texts(json_list@).subrange(0, json_list@.len() as int) =~= texts(json_list@));
    assert(unfold(res@) =~= Seq::new(
        json_list@.len(),
        |i: int| fixtures_of_body(json_list@[i]@)->Ok_0,
    ));
    Ok(res)
}

/// One table: an array each of whose values is a table row.
pub open spec fn table_in(json: Json) -> Option<Seq<TeamStanding>> {
    match json {
        Json::Array(items) => if forall|i: int|
            0 <= i < items@.len() ==> (#[trigger] standing_in(items@[i])) is Some {
            Some(Seq::new(items@.len(), |i: int| standing_in(items@[i]).unwrap()))
        } else {
            None
        },
        _ => None,
    }
}

/// Reads a value as one table.
#[verifier::loop_isolation(false)]
pub fn read_table(json: &Json) -> (r: Option<Vec<TeamStanding>>)
    ensures
        match r {
            Some(list) => table_in(*json) == Some(list@),
            None => table_in(*json) is None,
        },
{
    match json {
        Json::Array(items) => {
            let mut list: Vec<TeamStanding> = Vec::new();
            let mut i: usize = 0;
            while i < items.len()
                invariant
                    i <= items@.len(),
                    list@.len() == i,
                    forall|j: int|
                        0 <= j < i ==> (#[trigger] standing_in(items@[j])) == Some(list@[j]),
                decreases items@.len() - i,
            {
                match read_standing(&items[i]) {
                    Some(item) => {
                        list.push(item);
                    },
                    None => {
                        return None;
                    },
                }
                i = i + 1;
            }
            assert(list@ =~= Seq::new(items@.len(), |i: int| standing_in(items@[i]).unwrap()));
            Some(list)
        },
        _ => None,
    }
}

/// The tables of a league: an array each of whose values is a table.
pub open spec fn tables_in(json: Json) -> Option<Seq<Seq<TeamStanding>>> {
    match json {
        Json::Array(items) => if forall|i: int|
            0 <= i < items@.len() ==> (#[trigger] table_in(items@[i])) is Some {
            Some(Seq::new(items@.len(), |i: int| table_in(items@[i]).unwrap()))
        } else {
            None
        },
        _ => None,
    }
}

/// Reads a value as the tables of a league.
#[verifier::loop_isolation(false)]
pub fn read_tables(json: &Json) -> (r: Option<Vec<Vec<TeamStanding>>>)
    ensures
        match r {
            Some(tables) => tables_in(*json) == Some(unfold(tables@)),
            None => tables_in(*json) is None,
        },
{
    match json {
        Json::Array(items) => {
            let mut tables: Vec<Vec<TeamStanding>> = Vec::new();
            let mut i: usize = 0;
            while i < items.len()
                invariant
                    i <= items@.len(),
                    tables@.len() == i,
                    forall|j: int|
                        0 <= j < i ==> (#[trigger] table_in(items@[j])) == Some(tables@[j]@),
                decreases items@.len() - i,
            {
                match read_table(&items[i]) {
                    Some(table) => {
                        tables.push(table);
                    },
                    None => {
                        return None;
                    },
                }
                i = i + 1;
            }
            assert(unfold(tables@) =~= Seq::new(
                items@.len(),
                |i: int| table_in(items@[i]).unwrap(),
            ));
            Some(tables)
        },
        _ => None,
    }
}

/// The tables in a standings record: what it keeps under `league`, and
/// that under `standings`.
pub open spec fn league_tables_in(json: Json) -> Option<Seq<Seq<TeamStanding>>> {
    match member(json, "league"@, 0, 1) {
        Member::Present(league) => match member(league, "standings"@, 0, 1) {
            Member::Present(tables) => tables_in(tables),
            _ => None,
        },
        _ => None,
    }
}

/// The first value of an array; `null` for an empty array and for any
/// value that is no array.
pub open spec fn first_of(json: Json) -> Json {
    match json {
        Json::Array(items) => if items@.len() > 0 {
            items@[0]
        } else {
            Json::Null
        },
        _ => Json::Null,
    }
}

/// The tables that one body reports: those of the first record under
/// `response`.
pub open spec fn standings_of_body(body: Seq<char>) -> Result<
    Seq<Seq<TeamStanding>>,
    ParseError,
> {
    match response_of(body) {
        Ok(value) => match league_tables_in(first_of(value)) {
            Some(tables) => Ok(tables),
            None => Err(ParseError::Deserialization),
        },
        Err(e) => Err(e),
    }
}

fn read_league_tables(json: &Json) -> (r: Option<Vec<Vec<TeamStanding>>>)
    ensures
        match r {
            Some(tables) => league_tables_in(*json) == Some(unfold(tables@)),
            None => league_tables_in(*json) is None,
        },
{
    match member_of(json, "league", 0, 1) {
        MemberRef::Present(league) => match member_of(league, "standings", 0, 1) {
            MemberRef::Present(tables) => read_tables(tables),
            _ => None,
        },
        _ => None,
    }
}

/// Reads the tables of one body.
pub fn parse_standings_body(body: &str) -> (r: Result<Vec<Vec<TeamStanding>>, ParseError>)
    ensures
        match r {
            Ok(tables) => standings_of_body(body@) == Ok::<Seq<Seq<TeamStanding>>, ParseError>(
                unfold(tables@),
            ),
            Err(e) => standings_of_body(body@) == Err::<Seq<Seq<TeamStanding>>, ParseError>(e),
        },
{
    match parse_json(body) {
        Some(Json::Object(entries)) => match find_member(&entries, "response") {
            Some(value) => {
                let first = match value {
                    Json::Array(items) => if items.len() > 0 {
                        Some(&items[0])
                    } else {
                        None
                    },
                    _ => None,
                };
                let tables = match first {
                    Some(record) => read_league_tables(record),
                    None => None,
                };
                match tables {
                    Some(tables) => Ok(tables),
                    None => Err(ParseError::Deserialization),
                }
            },
            None => Err(ParseError::MissingField),
        },
        _ => Err(ParseError::Deserialization),
    }
}

/// The tables of the bodies, body by body; the error of the first body
/// that cannot be read.
pub open spec fn standings_batch(bodies: Seq<Seq<char>>) -> Result<
    Seq<Seq<Seq<TeamStanding>>>,
    ParseError,
>
    decreases bodies.len(),
{
    if bodies.len() == 0 {
        Ok(Seq::empty())
    } else {
        match standings_batch(bodies.drop_last()) {
            Ok(leagues) => match standings_of_body(bodies.last()) {
                Ok(league) => Ok(leagues.push(league)),
                Err(e) => Err(e),
            },
            Err(e) => Err(e),
        }
    }
}

/// Where the first bodies cannot be read, the whole batch cannot, and for
/// the same reason.
pub proof fn lemma_standings_batch_fails(bodies: Seq<Seq<char>>, upto: int)
    requires
        0 <= upto <= bodies.len(),
        standings_batch(bodies.subrange(0, upto)) is Err,
    ensures
        standings_batch(bodies) == standings_batch(bodies.subrange(0, upto)),
    decreases bodies.len() - upto,
{
    if upto < bodies.len() {
        assert(bodies.subrange(0, upto + 1).drop_last() =~= bodies.subrange(0, upto));
        lemma_standings_batch_fails(bodies, upto + 1);
    } else {
        assert(bodies.subrange(0, upto) =~= bodies);
    }
}

/// Where the first bodies cannot be read, the whole batch cannot, and for
/// the same reason.
pub proof fn lemma_fixtures_batch_fails(bodies: Seq<Seq<char>>, upto: int)
    requires
        0 <= upto <= bodies.len(),
        fixtures_batch(bodies.subrange(0, upto)) is Err,
    ensures
        fixtures_batch(bodies) == fixtures_batch(bodies.subrange(0, upto)),
    decreases bodies.len() - upto,
{
    if upto < bodies.len() {
        assert(bodies.subrange(0, upto + 1).drop_last() =~= bodies.subrange(0, upto));
        lemma_fixtures_batch_fails(bodies, upto + 1);
    } else {
        assert(bodies.subrange(0, upto) =~= bodies);
    }
}

/// The views of the leagues' tables, league by league.
pub open spec fn unfold_leagues<T>(leagues: Seq<Vec<Vec<T>>>) -> Seq<Seq<Seq<T>>> {
    Seq::new(leagues.len(), |i: int| unfold(leagues[i]@))
}

/// The tables of a batch of bodies, league by league and in the bodies'
/// order; none for no bodies. The first body that cannot be read fails
/// the batch with its error.
pub fn parse_standings(raw_response: &Vec<String>) -> (r: Result<
    Vec<Vec<Vec<TeamStanding>>>,
    ParseError,
>)
    ensures
        match r {
            Ok(leagues) => standings_batch(texts(raw_response@)) == Ok::<
                Seq<Seq<Seq<TeamStanding>>>,
                ParseError,
            >(unfold_leagues(leagues@)),
            Err(e) => standings_batch(texts(raw_response@)) == Err::<
                Seq<Seq<Seq<TeamStanding>>>,
                ParseError,
            >(e),
        },
        (forall|i: int|
            0 <= i < raw_response@.len() ==> (#[trigger] standings_of_body(raw_response@[i]@))
                is Ok) ==> (r matches Ok(leagues) && unfold_leagues(leagues@) == Seq::new(
            raw_response@.len(),
            |i: int| standings_of_body(raw_response@[i]@)->Ok_0,
        )),
        forall|i: int|
            0 <= i < raw_response@.len() && (#[trigger] standings_of_body(raw_response@[i]@))
                is Err && (forall|j: int|
                0 <= j < i ==> (#[trigger] standings_of_body(raw_response@[j]@)) is Ok) ==> r
                == Err::<Vec<Vec<Vec<TeamStanding>>>, ParseError>(
                standings_of_body(raw_response@[i]@)->Err_0,
            ),
{
    let mut leagues_list: Vec<Vec<Vec<TeamStanding>>> = Vec::new();
    assert(unfold_leagues(leagues_list@) =~= Seq::<Seq<Seq<TeamStanding>>>::empty());
    let mut i: usize = 0;
    while i < raw_response.len()
        invariant
            i <= raw_response@.len(),
            leagues_list@.len() == i,
            forall|j: int|
                0 <= j < i ==> (#[trigger] standings_of_body(raw_response@[j]@)) == Ok::<
                    Seq<Seq<TeamStanding>>,
                    ParseError,
                >(unfold(leagues_list@[j]@)),
            standings_batch(texts(raw_response@).subrange(0, i as int)) == Ok::<
                Seq<Seq<Seq<TeamStanding>>>,
                ParseError,
            >(unfold_leagues(leagues_list@)),
        decreases raw_response@.len() - i,
    {
        let ghost after = texts(raw_response@).subrange(0, i + 1);
        let ghost leagues = unfold_leagues(leagues_list@);
        assert(after.drop_last() =~= texts(raw_response@).subrange(0, i as int));
        assert(after.last() == raw_response@[i as int]@);
        match parse_standings_body(raw_response[i].as_str()) {
            Ok(tables) => {
                leagues_list.push(tables);
                assert(unfold_leagues(leagues_list@) =~= leagues.push(unfold(tables@)));
            },
            Err(e) => {
                proof {
                    lemma_standings_batch_fails(texts(raw_response@), i + 1);
                }
                return Err(e);
            },
        }
        i = i + 1;
    }
    assert(texts(raw_response@).subrange(0, raw_response@.len() as int) =~= texts(
        raw_response@,
    ));
    assert(unfold_leagues(leagues_list@) =~= Seq::new(
        raw_response@.len(),
        |i: int| standings_of_body(raw_response@[i]@)->Ok_0,
    ));
    Ok(leagues_list)
}

/// The answers of a team search: an array each of whose values is an answer.
pub open spec fn team_infos_in(json: Json) -> Option<Seq<TeamInfo>> {
    match json {
        Json::Array(items) => if forall|i: int|
            0 <= i < items@.len() ==> (#[trigger] team_info_in(items@[i])) is Some {
            Some(Seq::new(items@.len(), |i: int| team_info_in(items@[i]).unwrap()))
        } else {
            None
        },
        _ => None,
    }
}

/// Reads a value as the answers of a team search.
#[verifier::loop_isolation(false)]
pub fn read_team_infos(json: &Json) -> (r: Option<Vec<TeamInfo>>)
    ensures
        match r {
            Some(list) => team_infos_in(*json) == Some(list@),
            None => team_infos_in(*json) is None,
        },
{
    match json {
        Json::Array(items) => {
            let mut list: Vec<TeamInfo> = Vec::new();
            let mut i: usize = 0;
            while i < items.len()
                invariant
                    i <= items@.len(),
                    list@.len() == i,
                    forall|j: int|
                        0 <= j < i ==> (#[trigger] team_info_in(items@[j])) == Some(list@[j]),
                decreases items@.len() - i,
            {
                match read_team_info(&items[i]) {
                    Some(item) => {
                        list.push(item);
                    },
                    None => {
                        return None;
                    },
                }
                i = i + 1;
            }
            assert(list@ =~= Seq::new(items@.len(), |i: int| team_info_in(items@[i]).unwrap()));
            Some(list)
        },
        _ => None,
    }
}

/// The team that a search body reports: the first answer under `response`.
pub open spec fn team_of_search(body: Seq<char>) -> Result<TeamInfo, ParseError> {
    match json_document(body) {
        Some(document) => match member(document, "response"@, 0, 1) {
            Member::Present(list) => match team_infos_in(list) {
                Some(infos) => if infos.len() > 0 {
                    Ok(infos[0])
                } else {
                    Err(ParseError::NotFound)
                },
                None => Err(ParseError::Deserialization),
            },
            _ => Err(ParseError::Deserialization),
        },
        None => Err(ParseError::Deserialization),
    }
}

/// Reads the body that the team search answered with.
pub fn try_get_team_id(body: &str) -> (r: Result<TeamInfo, ParseError>)
    ensures
        r == team_of_search(body@),
{
    let document = match parse_json(body) {
        Some(document) => document,
        None => {
            return Err(ParseError::Deserialization);
        },
    };
    match member_of(&document, "response", 0, 1) {
        MemberRef::Present(list) => match read_team_infos(list) {
            Some(mut infos) => if infos.len() > 0 {
                Ok(infos.swap_remove(0))
            } else {
                Err(ParseError::NotFound)
            },
            None => Err(ParseError::Deserialization),
        },
        _ => Err(ParseError::Deserialization),
    }
}

} // verus!
