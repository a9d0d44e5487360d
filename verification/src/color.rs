//! Team colours: reading the triple that the colour table keeps for a team,
//! and painting a team's name with it.

use colored::Colorize;
use std::collections::HashMap;
use vstd::prelude::*;
use crate::model::Team;
use crate::text::{chars_of, parse_bounded, parse_number, trim, trim_range, CharClass};

verus! {

/// Where the first comma of `s` stands; its length where it has none.
pub open spec fn first_comma(s: Seq<char>) -> int
    decreases s.len(),
{
    if s.len() == 0 || s[0] == ',' {
        0
    } else {
        1 + first_comma(s.subrange(1, s.len() as int))
    }
}

/// The piece of `s` that follows its `k`-th comma and ends before the next;
/// `None` where `s` has fewer than `k` commas.
pub open spec fn piece(s: Seq<char>, k: nat) -> Option<Seq<char>>
    decreases k,
{
    let c = first_comma(s);
    if k == 0 {
        Some(s.subrange(0, c))
    } else if c >= s.len() {
        None
    } else {
        piece(s.subrange(c + 1, s.len() as int), (k - 1) as nat)
    }
}

/// The `k`-th colour component written in `s`: the piece, without the white
/// space around it, read as a number of at most 255.
pub open spec fn component(s: Seq<char>, k: nat) -> Option<u8> {
    match piece(s, k) {
        Some(p) => match parse_bounded(trim(p, CharClass::Whitespace), 10, 255) {
            Some(v) => Some(v as u8),
            None => None,
        },
        None => None,
    }
}

/// The colour that a table entry stands for. An entry without `(` stands
/// for white. Any other is read without the parentheses at its two ends,
/// as three components separated by commas; what follows a third comma is
/// not read. `None` where a component is missing or is no such number.
pub open spec fn rgb_of(s: Seq<char>) -> Option<(u8, u8, u8)> {
    if !s.contains('(') {
        Some((255u8, 255u8, 255u8))
    } else {
        let inner = trim(s, CharClass::Paren);
        match (component(inner, 0), component(inner, 1), component(inner, 2)) {
            (Some(r), Some(g), Some(b)) => Some((r, g, b)),
            _ => None,
        }
    }
}

/// Where the first comma of `chars[from..to]` stands, counted in `chars`.
fn find_comma(chars: &Vec<char>, from: usize, to: usize) -> (at: usize)
    requires
        from <= to <= chars@.len(),
    ensures
        from <= at <= to,
        at - from == first_comma(chars@.subrange(from as int, to as int)),
{
    let mut i: usize = from;
    while i < to && chars[i] != ','
        invariant
            from <= i <= to <= chars@.len(),
            first_comma(chars@.subrange(from as int, to as int)) == (i - from) + first_comma(
                chars@.subrange(i as int, to as int),
            ),
        decreases to - i,
    {
        assert(chars@.subrange(i as int, to as int).subrange(1, to - i) =~= chars@.subrange(
            i + 1,
            to as int,
        ));
        i = i + 1;
    }
    i
}

/// Reads the `k`-th component of `chars[from..to]`.
fn read_component(chars: &Vec<char>, from: usize, to: usize, k: usize) -> (r: Option<u8>)
    requires
        from <= to <= chars@.len(),
    ensures
        r == component(chars@.subrange(from as int, to as int), k as nat),
{
    let ghost whole = chars@.subrange(from as int, to as int);
    let mut start: usize = from;
    let mut left: usize = k;
    loop
        invariant
            from <= start <= to <= chars@.len(),
            whole == chars@.subrange(from as int, to as int),
            piece(whole, k as nat) == piece(chars@.subrange(start as int, to as int), left as nat),
        decreases left,
    {
        let at = find_comma(chars, start, to);
        let ghost rest = chars@.subrange(start as int, to as int);
        if left == 0 {
            assert(rest.subrange(0, at - start) =~= chars@.subrange(start as int, at as int));
            let (a, b) = trim_range(chars, start, at, CharClass::Whitespace);
            return match parse_number(chars, a, b, 10, 255) {
                Some(v) => Some(v as u8),
                None => None,
            };
        }
        if at >= to {
            return None;
        }
        assert(rest.subrange(at - start + 1, rest.len() as int) =~= chars@.subrange(
            at + 1,
            to as int,
        ));
        start = at + 1;
        left = left - 1;
    }
}

/// The colour that a table entry stands for, or `None` where it is malformed.
pub fn rgb_components(rgb_string: &str) -> (r: Option<(u8, u8, u8)>)
    ensures
        r == rgb_of(rgb_string@),
{
    let chars = chars_of(rgb_string);
    let mut i: usize = 0;
    while i < chars.len() && chars[i] != '('
        invariant
            i <= chars@.len(),
            forall|j: int| 0 <= j < i ==> chars@[j] != '(',
        decreases chars@.len() - i,
    {
        i = i + 1;
    }
    if i == chars.len() {
        assert(!chars@.contains('('));
        return Some((255, 255, 255));
    }
    assert(chars@.contains('(')) by {
        assert(chars@[i as int] == '(');
    }
    assert(chars@.subrange(0, chars@.len() as int) =~= chars@);
    let (a, b) = trim_range(&chars, 0, chars.len(), CharClass::Paren);
    let red = read_component(&chars, a, b, 0);
    let green = read_component(&chars, a, b, 1);
    let blue = read_component(&chars, a, b, 2);
    match (red, green, blue) {
        (Some(r), Some(g), Some(b)) => Some((r, g, b)),
        _ => None,
    }
}

/// The three components of a well-formed table entry. A malformed entry is
/// the caller's error: `rgb_components` tells the two apart.
pub fn parse_rgb_string(rgb_string: &String) -> (values: Vec<u8>)
    requires
        rgb_of(rgb_string@) is Some,
    ensures
        values@ == seq![
            rgb_of(rgb_string@).unwrap().0,
            rgb_of(rgb_string@).unwrap().1,
            rgb_of(rgb_string@).unwrap().2,
        ],
{
    match rgb_components(rgb_string.as_str()) {
        Some((r, g, b)) => {
            let values = vec![r, g, b];
            assert(values@ =~= seq![r, g, b]);
            values
        },
        None => vstd::pervasive::unreached(),
    }
}

/// An entry that is no parenthesised triple stands for white, whatever
/// else it holds.
pub proof fn lemma_word_is_white(entry: Seq<char>)
    requires
        !entry.contains('('),
    ensures
        rgb_of(entry) == Some((255u8, 255u8, 255u8)),
{
}

/// The colour to show a team in: white where the table has no entry for it,
/// else what its entry stands for (`None` where that entry is malformed).
pub open spec fn color_of(table: Map<u64, String>, id: u64) -> Option<(u8, u8, u8)> {
    if table.contains_key(id) {
        rgb_of(table[id]@)
    } else {
        Some((255u8, 255u8, 255u8))
    }
}

/// Looks a team's colour up.
pub fn team_color(table: &HashMap<u64, String>, team: &Team) -> (r: Option<(u8, u8, u8)>)
    ensures
        r == color_of(table@, team.id),
{
    broadcast use vstd::std_specs::hash::group_hash_axioms;

    match table.get(&team.id) {
        Some(entry) => rgb_components(entry.as_str()),
        None => Some((255, 255, 255)),
    }
}

/// The escape character, with which every terminal control sequence begins.
pub open spec fn escape() -> char {
    '\u{1b}'
}

/// The control sequence that ends all styling.
pub open spec fn style_reset() -> Seq<char> {
    seq![escape(), '[', '0', 'm']
}

/// Whether `shown` is `text` as a terminal shows it styled: either `text`
/// itself, where styling is off, or `text` between a control sequence and
/// the reset.
pub open spec fn styled_as(text: Seq<char>, shown: Seq<char>) -> bool {
    shown == text || exists|style: Seq<char>| shown == style + text + style_reset()
}

/// What is known of a text once it is styled: nothing where the text holds
/// an escape character itself, else that it is shown styled.
pub open spec fn shown_as(text: Seq<char>, shown: Seq<char>) -> bool {
    !text.contains(escape()) ==> styled_as(text, shown)
}

/// `colored`'s `truecolor` on a string slice, written out with `to_string`.
/// Whether anything is added depends on the terminal and the environment;
/// the claim is only that a text without escape characters comes back
/// either unchanged or between a style sequence and the reset sequence.
#[verifier::external_body]
fn paint(text: &str, red: u8, green: u8, blue: u8) -> (shown: String)
    ensures
        shown_as(text@, shown@),
{
    text.truecolor(red, green, blue).to_string()
}

/// `colored`'s `bold` on a string slice, written out with `to_string`; the
/// claim is that of `paint`.
#[verifier::external_body]
pub(crate) fn embolden(text: &str) -> (shown: String)
    ensures
        shown_as(text@, shown@),
{
    text.bold().to_string()
}

/// A team's name in the team's colour.
pub fn get_text_color(rgb_hash_map: &HashMap<u64, String>, team: &Team) -> (shown: String)
    requires
        color_of(rgb_hash_map@, team.id) is Some,
    ensures
        shown_as(team.name@, shown@),
{
    match team_color(rgb_hash_map, team) {
        Some((r, g, b)) => paint(team.name.as_str(), r, g, b),
        None => vstd::pervasive::unreached(),
    }
}

} // verus!
