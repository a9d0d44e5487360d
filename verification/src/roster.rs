//! The two side files: the roster of favourite teams, one `name,id` row
//! each, and the colour table, one `id,rgb` row each. Both are
//! comma-separated and have no header row.

use std::collections::HashMap;
use vstd::prelude::*;
use crate::model::{RGBCSVRecord, TeamCSVRecord};
use crate::text::{
    chars_of, decimal, digit_value, lemma_decimal_reads_back, parse_bounded, parse_number,
    push_decimal,
};

verus! {

/// `csv::Error`, carried from the trusted calls to where it is named.
#[verifier::external_type_specification]
#[verifier::external_body]
pub struct ExCsvError(csv::Error);

/// Why a side file could not be used.
#[derive(Debug, PartialEq, Eq, Structural, Clone, Copy)]
pub enum FileError {
    /// The content is not comma-separated text, or a row could not be
    /// written as such.
    Csv,
    /// A row does not hold the fields of its record.
    Record,
}

/// The separator of both files.
pub const DELIMITER: u8 = 44;

/// The rows that a comma-separated content holds, each a list of fields;
/// `None` where the content cannot be read as such.
pub uninterp spec fn csv_rows(content: Seq<u8>, delimiter: u8, headers: bool) -> Option<
    Seq<Seq<Seq<char>>>,
>;

/// One row as it is written, line end included; `None` where it cannot
/// be written.
pub uninterp spec fn csv_line(fields: Seq<Seq<char>>, delimiter: u8) -> Option<Seq<u8>>;

/// `csv`'s `ReaderBuilder` with `has_headers` and `delimiter` set, its
/// `from_reader` on the bytes and every record of `into_records`, each
/// field copied out as a `String`. The rows depend on the content and the
/// two settings alone; the first record that cannot be read fails the
/// whole.
#[verifier::external_body]
fn read_rows(content: &[u8], delimiter: u8, headers: bool) -> (r: Result<
    Vec<Vec<String>>,
    csv::Error,
>)
    ensures
        match r {
            Ok(rows) => csv_rows(content@, delimiter, headers) == Some(rows.deep_view()),
            Err(_) => csv_rows(content@, delimiter, headers) is None,
        },
{
    let reader = csv::ReaderBuilder::new().has_headers(headers).delimiter(delimiter).from_reader(
        content,
    );
    reader.into_records().map(
        |row| row.map(|fields| fields.iter().map(String::from).collect()),
    ).collect()
}

/// `csv`'s `WriterBuilder` with `delimiter` set, its `from_writer` on an
/// empty buffer, one `write_record` of the fields and `into_inner`. The
/// bytes depend on the fields and the delimiter alone.
#[verifier::external_body]
fn write_row(fields: &Vec<String>, delimiter: u8) -> (r: Result<Vec<u8>, csv::Error>)
    ensures
        match r {
            Ok(bytes) => csv_line(fields.deep_view(), delimiter) == Some(bytes@),
            Err(_) => csv_line(fields.deep_view(), delimiter) is None,
        },
{
    let mut writer = csv::WriterBuilder::new().delimiter(delimiter).from_writer(Vec::new());
    writer.write_record(fields.iter())?;
    writer.into_inner().map_err(|e| csv::Error::from(e.into_error()))
}

/// Reads a content as rows of fields.
pub fn parse_rows(content: &[u8]) -> (r: Result<Vec<Vec<String>>, FileError>)
    ensures
        match r {
            Ok(rows) => csv_rows(content@, DELIMITER, false) == Some(rows.deep_view()),
            Err(e) => e == FileError::Csv && csv_rows(content@, DELIMITER, false) is None,
        },
{
    match read_rows(content, DELIMITER, false) {
        Ok(rows) => Ok(rows),
        Err(_) => Err(FileError::Csv),
    }
}

/// A number as a field states it: in hexadecimal after `0x`, else in
/// decimal, with an optional `+` before the digits either way.
pub open spec fn field_number(field: Seq<char>) -> Option<u64> {
    let digits = if field.len() >= 2 && field[0] == '0' && field[1] == 'x' {
        parse_bounded(field.subrange(2, field.len() as int), 16, u64::MAX as nat)
    } else {
        parse_bounded(field, 10, u64::MAX as nat)
    };
    match digits {
        Some(v) => Some(v as u64),
        None => None,
    }
}

/// Reads a field as a number.
pub fn read_field_number(field: &str) -> (r: Option<u64>)
    ensures
        r == field_number(field@),
{
    let chars = chars_of(field);
    assert(chars@.subrange(0, chars@.len() as int) =~= chars@);
    if chars.len() >= 2 && chars[0] == '0' && chars[1] == 'x' {
        parse_number(&chars, 2, chars.len(), 16, u64::MAX)
    } else {
        parse_number(&chars, 0, chars.len(), 10, u64::MAX)
    }
}

/// The roster entry that a row states: the name in its first field, the
/// identifier in its second; further fields are not read.
pub open spec fn roster_entry(row: Seq<Seq<char>>) -> Option<(Seq<char>, u64)> {
    if row.len() >= 2 {
        match field_number(row[1]) {
            Some(id) => Some((row[0], id)),
            None => None,
        }
    } else {
        None
    }
}

/// The colour entry that a row states: the identifier in its first field,
/// the colour in its second; further fields are not read.
pub open spec fn color_entry(row: Seq<Seq<char>>) -> Option<(u64, Seq<char>)> {
    if row.len() >= 2 {
        match field_number(row[0]) {
            Some(id) => Some((id, row[1])),
            None => None,
        }
    } else {
        None
    }
}

impl TeamCSVRecord {
    /// The entry as plain values.
    pub open spec fn view(&self) -> (Seq<char>, u64) {
        (self.name@, self.id)
    }
}

impl RGBCSVRecord {
    /// The entry as plain values.
    pub open spec fn view(&self) -> (u64, Seq<char>) {
        (self.id, self.rgb@)
    }
}

/// The entries as plain values.
pub open spec fn entries_view(entries: Seq<TeamCSVRecord>) -> Seq<(Seq<char>, u64)> {
    Seq::new(entries.len(), |i: int| entries[i]@)
}

/// The colour entries as plain values.
pub open spec fn colors_view(entries: Seq<RGBCSVRecord>) -> Seq<(u64, Seq<char>)> {
    Seq::new(entries.len(), |i: int| entries[i]@)
}

/// The roster that rows state, row by row; `None` where a row states no
/// entry.
pub open spec fn roster_of_rows(rows: Seq<Seq<Seq<char>>>) -> Option<Seq<(Seq<char>, u64)>> {
    if forall|i: int| 0 <= i < rows.len() ==> (#[trigger] roster_entry(rows[i])) is Some {
        Some(Seq::new(rows.len(), |i: int| roster_entry(rows[i]).unwrap()))
    } else {
        None
    }
}

/// The colour entries that rows state, row by row; `None` where a row
/// states no entry.
pub open spec fn colors_of_rows(rows: Seq<Seq<Seq<char>>>) -> Option<Seq<(u64, Seq<char>)>> {
    if forall|i: int| 0 <= i < rows.len() ==> (#[trigger] color_entry(rows[i])) is Some {
        Some(Seq::new(rows.len(), |i: int| color_entry(rows[i]).unwrap()))
    } else {
        None
    }
}

/// The roster that a file content states.
pub open spec fn roster_of(content: Seq<u8>) -> Result<Seq<(Seq<char>, u64)>, FileError> {
    match csv_rows(content, DELIMITER, false) {
        Some(rows) => match roster_of_rows(rows) {
            Some(entries) => Ok(entries),
            None => Err(FileError::Record),
        },
        None => Err(FileError::Csv),
    }
}

/// The colour entries that a file content states.
pub open spec fn colors_of(content: Seq<u8>) -> Result<Seq<(u64, Seq<char>)>, FileError> {
    match csv_rows(content, DELIMITER, false) {
        Some(rows) => match colors_of_rows(rows) {
            Some(entries) => Ok(entries),
            None => Err(FileError::Record),
        },
        None => Err(FileError::Csv),
    }
}

/// Reads the roster file's content, row by row.
#[verifier::loop_isolation(false)]
pub fn parse_roster(content: &[u8]) -> (r: Result<Vec<TeamCSVRecord>, FileError>)
    ensures
        match r {
            Ok(entries) => roster_of(content@) == Ok::<Seq<(Seq<char>, u64)>, FileError>(
                entries_view(entries@),
            ),
            Err(e) => roster_of(content@) == Err::<Seq<(Seq<char>, u64)>, FileError>(e),
        },
{
    let rows = match parse_rows(content) {
        Ok(rows) => rows,
        Err(e) => {
            return Err(e);
        },
    };
    let mut entries: Vec<TeamCSVRecord> = Vec::new();
    let mut i: usize = 0;
    while i < rows.len()
        invariant
            i <= rows@.len(),
            entries@.len() == i,
            forall|j: int|
                0 <= j < i ==> (#[trigger] roster_entry(rows.deep_view()[j])) == Some(
                    entries@[j]@,
                ),
        decreases rows@.len() - i,
    {
        let row = &rows[i];
        assert(rows.deep_view()[i as int] == row.deep_view());
        if row.len() < 2 {
            assert(roster_entry(rows.deep_view()[i as int]) is None);
            return Err(FileError::Record);
        }
        assert(row.deep_view()[0] == row@[0]@);
        assert(row.deep_view()[1] == row@[1]@);
        assert(roster_entry(rows.deep_view()[i as int]) is Some <==> field_number(row@[1]@)
            is Some);
        match read_field_number(row[1].as_str()) {
            Some(id) => {
                entries.push(TeamCSVRecord { name: row[0].clone(), id });
            },
            None => {
                return Err(FileError::Record);
            },
        }
        i = i + 1;
    }
    assert(entries_view(entries@) =~= Seq::new(
        rows@.len(),
        |i: int| roster_entry(rows.deep_view()[i]).unwrap(),
    ));
    Ok(entries)
}

/// Reads the colour file's content, row by row.
#[verifier::loop_isolation(false)]
pub fn parse_colors(content: &[u8]) -> (r: Result<Vec<RGBCSVRecord>, FileError>)
    ensures
        match r {
            Ok(entries) => colors_of(content@) == Ok::<Seq<(u64, Seq<char>)>, FileError>(
                colors_view(entries@),
            ),
            Err(e) => colors_of(content@) == Err::<Seq<(u64, Seq<char>)>, FileError>(e),
        },
{
    let rows = match parse_rows(content) {
        Ok(rows) => rows,
        Err(e) => {
            return Err(e);
        },
    };
    let mut entries: Vec<RGBCSVRecord> = Vec::new();
    let mut i: usize = 0;
    while i < rows.len()
        invariant
            i <= rows@.len(),
            entries@.len() == i,
            forall|j: int|
                0 <= j < i ==> (#[trigger] color_entry(rows.deep_view()[j])) == Some(
                    entries@[j]@,
                ),
        decreases rows@.len() - i,
    {
        let row = &rows[i];
        assert(rows.deep_view()[i as int] == row.deep_view());
        if row.len() < 2 {
            assert(color_entry(rows.deep_view()[i as int]) is None);
            return Err(FileError::Record);
        }
        assert(row.deep_view()[0] == row@[0]@);
        assert(row.deep_view()[1] == row@[1]@);
        assert(color_entry(rows.deep_view()[i as int]) is Some <==> field_number(row@[0]@)
            is Some);
        match read_field_number(row[0].as_str()) {
            Some(id) => {
                entries.push(RGBCSVRecord { id, rgb: row[1].clone() });
            },
            None => {
                return Err(FileError::Record);
            },
        }
        i = i + 1;
    }
    assert(colors_view(entries@) =~= Seq::new(
        rows@.len(),
        |i: int| color_entry(rows.deep_view()[i]).unwrap(),
    ));
    Ok(entries)
}

/// The identifier that a roster keeps for a name: that of the last entry
/// with the name.
pub open spec fn roster_id(entries: Seq<(Seq<char>, u64)>, name: Seq<char>) -> Option<u64>
    decreases entries.len(),
{
    if entries.len() == 0 {
        None
    } else if entries.last().0 == name {
        Some(entries.last().1)
    } else {
        roster_id(entries.drop_last(), name)
    }
}

/// The favourite teams, in the order of the file's rows. A name may stand
/// in several rows; the last of them counts.
#[derive(Debug, Clone, PartialEq, Eq)]
pub struct Roster {
    pub entries: Vec<TeamCSVRecord>,
}

impl Roster {
    /// The entries as plain values.
    pub open spec fn view(&self) -> Seq<(Seq<char>, u64)> {
        entries_view(self.entries@)
    }

    /// The identifier kept for a name.
    pub fn get(&self, name: &str) -> (r: Option<u64>)
        ensures
            r == roster_id(self@, name@),
    {
        let mut i: usize = self.entries.len();
        assert(self@.subrange(0, i as int) =~= self@);
        while i > 0
            invariant
                i <= self.entries@.len(),
                roster_id(self@, name@) == roster_id(self@.subrange(0, i as int), name@),
            decreases i,
        {
            let ghost prefix = self@.subrange(0, i as int);
            assert(prefix.last() == self.entries@[i - 1]@);
            assert(prefix.drop_last() =~= self@.subrange(0, i - 1));
            if crate::text::same_text(self.entries[i - 1].name.as_str(), name) {
                return Some(self.entries[i - 1].id);
            }
            i = i - 1;
        }
        None
    }

    /// The number of rows.
    pub fn len(&self) -> (n: usize)
        ensures
            n == self@.len(),
    {
        self.entries.len()
    }
}

/// Reads the roster file's content.
pub fn read_from_teams_csv(content: &[u8]) -> (r: Result<Roster, FileError>)
    ensures
        match r {
            Ok(roster) => roster_of(content@) == Ok::<Seq<(Seq<char>, u64)>, FileError>(roster@),
            Err(e) => roster_of(content@) == Err::<Seq<(Seq<char>, u64)>, FileError>(e),
        },
{
    match parse_roster(content) {
        Ok(entries) => Ok(Roster { entries }),
        Err(e) => Err(e),
    }
}

/// The colour that a colour table keeps for a team: that of the last
/// entry for it.
pub open spec fn last_color(entries: Seq<(u64, Seq<char>)>, id: u64) -> Option<Seq<char>>
    decreases entries.len(),
{
    if entries.len() == 0 {
        None
    } else if entries.last().0 == id {
        Some(entries.last().1)
    } else {
        last_color(entries.drop_last(), id)
    }
}

/// Whether a map holds, for every team, the colour that the entries keep
/// for it.
pub open spec fn holds_colors(table: Map<u64, String>, entries: Seq<(u64, Seq<char>)>) -> bool {
    forall|id: u64|
        match #[trigger] last_color(entries, id) {
            Some(rgb) => table.contains_key(id) && table[id]@ == rgb,
            None => !table.contains_key(id),
        }
}

/// Reads the colour file's content into a table by team.
pub fn read_ids_and_rgb_from_csv(content: &[u8]) -> (r: Result<HashMap<u64, String>, FileError>)
    ensures
        match r {
            Ok(table) => colors_of(content@) is Ok && holds_colors(
                table@,
                colors_of(content@)->Ok_0,
            ),
            Err(e) => colors_of(content@) == Err::<Seq<(u64, Seq<char>)>, FileError>(e),
        },
{
    broadcast use vstd::std_specs::hash::group_hash_axioms;

    let entries = match parse_colors(content) {
        Ok(entries) => entries,
        Err(e) => {
            return Err(e);
        },
    };
    let ghost all = colors_view(entries@);
    let mut table: HashMap<u64, String> = HashMap::new();
    let mut i: usize = 0;
    while i < entries.len()
        invariant
            i <= entries@.len(),
            all == colors_view(entries@),
            holds_colors(table@, all.subrange(0, i as int)),
        decreases entries@.len() - i,
    {
        let ghost before = all.subrange(0, i as int);
        let ghost after = all.subrange(0, i + 1);
        let ghost old_table = table@;
        table.insert(entries[i].id, entries[i].rgb.clone());
        proof {
            assert(after.drop_last() =~= before);
            assert(after.last() == entries@[i as int]@);
            assert forall|id: u64|
                match #[trigger] last_color(after, id) {
                    Some(rgb) => table@.contains_key(id) && table@[id]@ == rgb,
                    None => !table@.contains_key(id),
                } by {
                if id != entries@[i as int].id {
                    assert(last_color(after, id) == last_color(before, id));
                }
            }
        }
        i = i + 1;
    }
    assert(all.subrange(0, entries@.len() as int) =~= all);
    Ok(table)
}

/// The identifiers to ask about, one for each name of the roster: those
/// of the entries that no later entry with the same name follows, in the
/// rows' order.
pub open spec fn current_ids(entries: Seq<(Seq<char>, u64)>, upto: int) -> Seq<u64>
    decreases upto,
{
    if upto <= 0 {
        Seq::empty()
    } else if is_current(entries, upto - 1) {
        current_ids(entries, upto - 1).push(entries[upto - 1].1)
    } else {
        current_ids(entries, upto - 1)
    }
}

/// Whether no later entry has the name of entry `i`.
pub open spec fn is_current(entries: Seq<(Seq<char>, u64)>, i: int) -> bool {
    forall|j: int| i < j < entries.len() ==> (#[trigger] entries[j]).0 != entries[i].0
}

impl Roster {
    /// The identifiers of the teams to ask about.
    pub fn team_ids(&self) -> (ids: Vec<u64>)
        ensures
            ids@ == current_ids(self@, self@.len() as int),
    {
        let n = self.entries.len();
        let mut ids: Vec<u64> = Vec::new();
        let mut i: usize = 0;
        while i < n
            invariant
                n == self.entries@.len(),
                i <= n,
                ids@ == current_ids(self@, i as int),
            decreases n - i,
        {
            let mut j: usize = i + 1;
            let mut current = true;
            while j < n
                invariant
                    n == self.entries@.len(),
                    i < j <= n,
                    current == (forall|k: int|
                        i < k < j ==> (#[trigger] self@[k]).0 != self@[i as int].0),
                decreases n - j,
            {
                if crate::text::same_text(
                    self.entries[j].name.as_str(),
                    self.entries[i].name.as_str(),
                ) {
                    assert(self@[j as int].0 == self@[i as int].0);
                    current = false;
                }
                j = j + 1;
            }
            if current {
                ids.push(self.entries[i].id);
            }
            i = i + 1;
        }
        ids
    }
}

/// The lower-case form of a text, by the Unicode rules that `str`'s
/// `to_lowercase` follows.
pub uninterp spec fn lowercase_of(text: Seq<char>) -> Seq<char>;

/// `str::to_lowercase`: the result depends on the text alone.
#[verifier::external_body]
fn lowercase(text: &str) -> (lower: String)
    ensures
        lower@ == lowercase_of(text@),
{
    text.to_lowercase()
}

/// Whether two names are the same but for the case of their letters.
pub open spec fn same_name(a: Seq<char>, b: Seq<char>) -> bool {
    lowercase_of(a) == lowercase_of(b)
}

/// The entries without those whose name is `name`, whatever the case of
/// the letters; the others keep their order.
pub open spec fn without_name(entries: Seq<(Seq<char>, u64)>, name: Seq<char>) -> Seq<
    (Seq<char>, u64),
>
    decreases entries.len(),
{
    if entries.len() == 0 {
        entries
    } else if same_name(entries.last().0, name) {
        without_name(entries.drop_last(), name)
    } else {
        without_name(entries.drop_last(), name).push(entries.last())
    }
}

impl Roster {
    /// Adds an entry after the others.
    pub fn append(&mut self, entry: TeamCSVRecord)
        ensures
            final(self)@ == old(self)@.push(entry@),
    {
        self.entries.push(entry);
        assert(self@ =~= old(self)@.push(entry@));
    }

    /// Removes every entry called `team`, whatever the case of the letters.
    /// A name that no entry has removes nothing.
    pub fn remove(&mut self, team: &str)
        ensures
            final(self)@ == without_name(old(self)@, team@),
    {
        let wanted = lowercase(team);
        let mut kept: Vec<TeamCSVRecord> = Vec::new();
        let mut i: usize = 0;
        while i < self.entries.len()
            invariant
                i <= self.entries@.len(),
                self.entries@ == old(self).entries@,
                wanted@ == lowercase_of(team@),
                entries_view(kept@) == without_name(old(self)@.subrange(0, i as int), team@),
            decreases self.entries@.len() - i,
        {
            let ghost before = old(self)@.subrange(0, i as int);
            let ghost after = old(self)@.subrange(0, i + 1);
            assert(after.drop_last() =~= before);
            assert(after.last() == self.entries@[i as int]@);
            let lower = lowercase(self.entries[i].name.as_str());
            if !crate::text::same_text(lower.as_str(), wanted.as_str()) {
                let ghost kept_before = entries_view(kept@);
                kept.push(
                    TeamCSVRecord { name: self.entries[i].name.clone(), id: self.entries[i].id },
                );
                assert(entries_view(kept@) =~= kept_before.push(after.last()));
            }
            i = i + 1;
        }
        assert(old(self)@.subrange(0, self.entries@.len() as int) =~= old(self)@);
        self.entries = kept;
    }
}

/// Removing a name leaves a roster as it is where no entry has the name.
pub proof fn lemma_remove_absent(entries: Seq<(Seq<char>, u64)>, name: Seq<char>)
    requires
        forall|i: int| 0 <= i < entries.len() ==> !same_name((#[trigger] entries[i]).0, name),
    ensures
        without_name(entries, name) == entries,
    decreases entries.len(),
{
    if entries.len() > 0 {
        lemma_remove_absent(entries.drop_last(), name);
        assert(!same_name(entries[entries.len() - 1].0, name));
        assert(entries.drop_last().push(entries.last()) =~= entries);
    }
}

/// Appending an entry and then removing it by its name, in whatever case
/// the name is given, restores the roster: the same entries in the same
/// order, and so the same size. This holds of a roster in which no entry
/// has that name before the append; one that has would lose it too.
pub proof fn lemma_append_then_remove(
    entries: Seq<(Seq<char>, u64)>,
    entry: (Seq<char>, u64),
    name: Seq<char>,
)
    requires
        same_name(entry.0, name),
        forall|i: int| 0 <= i < entries.len() ==> !same_name((#[trigger] entries[i]).0, name),
    ensures
        without_name(entries.push(entry), name) == entries,
        without_name(entries.push(entry), name).len() == entries.len(),
{
    assert(entries.push(entry).drop_last() =~= entries);
    lemma_remove_absent(entries, name);
}

/// The fields that an entry is written as: the name, then the identifier
/// in decimal.
pub open spec fn entry_fields(entry: (Seq<char>, u64)) -> Seq<Seq<char>> {
    seq![entry.0, decimal(entry.1 as nat)]
}

/// The row that an entry is written as; `None` where it cannot be written.
pub open spec fn entry_line(entry: (Seq<char>, u64)) -> Option<Seq<u8>> {
    csv_line(entry_fields(entry), DELIMITER)
}

/// The content that the entries are written as, row after row; `None`
/// where one of them cannot be written.
pub open spec fn roster_content(entries: Seq<(Seq<char>, u64)>) -> Option<Seq<u8>>
    decreases entries.len(),
{
    if entries.len() == 0 {
        Some(Seq::empty())
    } else {
        match (roster_content(entries.drop_last()), entry_line(entries.last())) {
            (Some(head), Some(line)) => Some(head + line),
            _ => None,
        }
    }
}

/// The row to add to the roster file for a team.
pub fn add_team_to_csv(team: &TeamCSVRecord) -> (r: Result<Vec<u8>, FileError>)
    ensures
        match r {
            Ok(line) => entry_line(team@) == Some(line@),
            Err(e) => e == FileError::Csv && entry_line(team@) is None,
        },
{
    let mut id = String::new();
    push_decimal(&mut id, team.id);
    assert(id@ =~= decimal(team.id as nat));
    let fields: Vec<String> = vec![team.name.clone(), id];
    assert(fields.deep_view() =~= entry_fields(team@));
    match write_row(&fields, DELIMITER) {
        Ok(line) => Ok(line),
        Err(_) => Err(FileError::Csv),
    }
}

/// The content of the roster file once every entry called `team` has left
/// it: all rows are read, those of other names are written anew.
pub open spec fn content_without(content: Seq<u8>, team: Seq<char>) -> Result<
    Seq<u8>,
    FileError,
> {
    match roster_of(content) {
        Ok(entries) => match roster_content(without_name(entries, team)) {
            Some(bytes) => Ok(bytes),
            None => Err(FileError::Csv),
        },
        Err(e) => Err(e),
    }
}

/// The new content of the roster file without the team.
#[verifier::loop_isolation(false)]
pub fn remove_team_from_csv(content: &[u8], team: &str) -> (r: Result<Vec<u8>, FileError>)
    ensures
        match r {
            Ok(bytes) => content_without(content@, team@) == Ok::<Seq<u8>, FileError>(bytes@),
            Err(e) => content_without(content@, team@) == Err::<Seq<u8>, FileError>(e),
        },
{
    let mut roster = match read_from_teams_csv(content) {
        Ok(roster) => roster,
        Err(e) => {
            return Err(e);
        },
    };
    roster.remove(team);
    let mut bytes: Vec<u8> = Vec::new();
    let mut i: usize = 0;
    while i < roster.entries.len()
        invariant
            i <= roster.entries@.len(),
            roster_content(roster@.subrange(0, i as int)) == Some(bytes@),
        decreases roster.entries@.len() - i,
    {
        let ghost after = roster@.subrange(0, i + 1);
        assert(after.drop_last() =~= roster@.subrange(0, i as int));
        assert(after.last() == roster.entries@[i as int]@);
        match add_team_to_csv(&roster.entries[i]) {
            Ok(mut line) => {
                bytes.append(&mut line);
            },
            Err(e) => {
                proof {
                    assert(roster_content(after) is None);
                    lemma_content_fails(roster@, i + 1);
                }
                return Err(e);
            },
        }
        i = i + 1;
    }
    assert(roster@.subrange(0, roster.entries@.len() as int) =~= roster@);
    Ok(bytes)
}

/// Where the first rows cannot be written, the whole cannot.
proof fn lemma_content_fails(entries: Seq<(Seq<char>, u64)>, upto: int)
    requires
        0 <= upto <= entries.len(),
        roster_content(entries.subrange(0, upto)) is None,
    ensures
        roster_content(entries) is None,
    decreases entries.len() - upto,
{
    if upto < entries.len() {
        assert(entries.subrange(0, upto + 1).drop_last() =~= entries.subrange(0, upto));
        lemma_content_fails(entries, upto + 1);
    } else {
        assert(entries.subrange(0, upto) =~= entries);
    }
}

/// An identifier as a row is written with it reads back as itself.
pub proof fn lemma_written_number_reads_back(id: u64)
    ensures
        field_number(decimal(id as nat)) == Some(id),
{
    let field = decimal(id as nat);
    lemma_decimal_reads_back(id as nat);
    if field.len() >= 2 {
        assert(digit_value(field[1], 10) is Some);
        assert(digit_value('x', 10) is None);
    }
}

/// An entry as it is written states itself: the fields of a written row,
/// read as a roster entry, give the entry back.
pub proof fn lemma_written_entry_reads_back(entry: (Seq<char>, u64))
    ensures
        roster_entry(entry_fields(entry)) == Some(entry),
{
    lemma_written_number_reads_back(entry.1);
}

/// The last row of a name decides what the roster keeps for the name.
pub proof fn lemma_last_row_wins(entries: Seq<(Seq<char>, u64)>, i: int)
    requires
        0 <= i < entries.len(),
        is_current(entries, i),
    ensures
        roster_id(entries, entries[i].0) == Some(entries[i].1),
    decreases entries.len(),
{
    if i < entries.len() - 1 {
        let rest = entries.drop_last();
        assert(entries[entries.len() - 1].0 != entries[i].0);
        assert forall|j: int| i < j < rest.len() implies (#[trigger] rest[j]).0 != rest[i].0 by {
            assert(rest[j] == entries[j]);
        }
        lemma_last_row_wins(rest, i);
    }
}

/// An entry added to a roster is what the roster then keeps for its name.
pub proof fn lemma_appended_is_kept(entries: Seq<(Seq<char>, u64)>, entry: (Seq<char>, u64))
    ensures
        roster_id(entries.push(entry), entry.0) == Some(entry.1),
{
}

} // verus!
