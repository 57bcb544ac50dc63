//! The icon font's name table.
//!
//! The font ships with a style sheet in which every icon has a rule of the
//! form `.ri-NAME:before { content: "\CODE"; }`. The table maps each icon name
//! to the hexadecimal code point of its glyph, and `ri_icon` turns a name
//! into the one-character string that shows the glyph.

use vstd::prelude::*;
use vstd::hash_map::StringHashMap;
use crate::number::{parse_range, parse_unsigned};
use crate::text::chars_of;

verus! {

/// What the pattern engine finds: for each match of `pattern` in `haystack`,
/// from left to right and without overlap, the text of every capture group,
/// group 0 being the whole match and a group that took no part being `None`.
/// `None` as a whole where the engine refuses the pattern.
pub uninterp spec fn all_captures(pattern: Seq<char>, haystack: Seq<char>) -> Option<
    Seq<Seq<Option<Seq<char>>>>,
>;

/// The mathematical value of one match's capture groups.
pub open spec fn groups_view(groups: Vec<Option<String>>) -> Seq<Option<Seq<char>>> {
    groups@.map_values(
        |g: Option<String>|
            match g {
                Some(text) => Some(text@),
                None => None,
            },
    )
}

/// The mathematical value of a list of matches.
pub open spec fn captures_view(found: Seq<Vec<Option<String>>>) -> Seq<Seq<Option<Seq<char>>>> {
    found.map_values(|groups: Vec<Option<String>>| groups_view(groups))
}

/// Calls `regex::Regex::new` on `pattern` and `Regex::captures_iter` on
/// `haystack`, and copies the text of every group of every match it yields.
/// The contract only gives the result its name: `None` exactly where the
/// engine refuses the pattern, which is where `all_captures` is `None`, and
/// else the matches that `all_captures` names. Nothing is claimed about which
/// matches those are.
#[verifier::external_body]
fn regex_captures(pattern: &str, haystack: &str) -> (r: Option<Vec<Vec<Option<String>>>>)
    ensures
        match r {
            Some(found) => all_captures(pattern@, haystack@) == Some(captures_view(found@)),
            None => all_captures(pattern@, haystack@) is None,
        },
{
    let re = regex::Regex::new(pattern).ok()?;
    Some(
        re.captures_iter(haystack).map(
            |c| c.iter().map(|g| g.map(|m| m.as_str().to_owned())).collect(),
        ).collect(),
    )
}

/// True for the numbers that are Unicode scalar values: code points up to
/// `10FFFF` that are no surrogates.
pub open spec fn is_scalar_value(v: nat) -> bool {
    v <= 0x10FFFF && !(0xD800 <= v <= 0xDFFF)
}

/// Calls `char::from_u32`: the character with code point `v` where `v` is a
/// Unicode scalar value, and `None` where it is not.
#[verifier::external_body]
fn char_from_u32(v: u32) -> (r: Option<char>)
    ensures
        r == if is_scalar_value(v as nat) {
            Some(v as char)
        } else {
            None::<char>
        },
{
    char::from_u32(v)
}

/// Calls `String::from` on a character: the string that holds `c` and
/// nothing else.
#[verifier::external_body]
fn char_to_string(c: char) -> (s: String)
    ensures
        s@ == seq![c],
{
    String::from(c)
}

/// The rule that names an icon and gives its code point.
pub open spec fn icon_pattern() -> Seq<char> {
    r#"\.(ri-.*-.*):before \{ content: "\\(\w+)"; \}"#@
}

/// The name and code that one match of the icon rule holds: its first and
/// second group, where both took part.
pub open spec fn icon_entry(groups: Seq<Option<Seq<char>>>) -> Option<(Seq<char>, Seq<char>)> {
    if groups.len() > 2 && groups[1] is Some && groups[2] is Some {
        Some((groups[1]->0, groups[2]->0))
    } else {
        None
    }
}

/// The table that a list of matches gives: every entry in turn, a later
/// entry replacing an earlier one of the same name.
pub open spec fn icon_map_of(found: Seq<Seq<Option<Seq<char>>>>) -> Map<Seq<char>, Seq<char>>
    decreases found.len(),
{
    if found.len() == 0 {
        Map::empty()
    } else {
        let earlier = icon_map_of(found.drop_last());
        match icon_entry(found.last()) {
            Some((name, code)) => earlier.insert(name, code),
            None => earlier,
        }
    }
}

/// The character that a table entry stands for: the code read as a
/// hexadecimal number, where that is a Unicode scalar value.
pub open spec fn char_of_hex(hex: Option<Seq<char>>) -> Option<char> {
    match hex {
        None => None,
        Some(text) => match parse_unsigned(text, 16, u32::MAX as nat) {
            Some(v) => if is_scalar_value(v) {
                Some(v as char)
            } else {
                None
            },
            None => None,
        },
    }
}

/// The text that shows the icon `name`: its glyph, or a space where the
/// table has no such name or its code is no character.
pub open spec fn icon_text(icons: Map<Seq<char>, Seq<char>>, name: Seq<char>) -> Seq<char> {
    let hex = if icons.contains_key(name) {
        Some(icons[name])
    } else {
        None
    };
    match char_of_hex(hex) {
        Some(c) => seq![c],
        None => seq![' '],
    }
}

/// Why the icon table could not be built.
#[derive(Clone, Copy, Debug, PartialEq, Eq, Structural)]
pub enum IconError {
    /// The pattern engine refused the icon rule.
    Pattern,
}

/// Icon names and the hexadecimal code points of their glyphs.
pub struct IconMap {
    codes: StringHashMap<String>,
}

impl View for IconMap {
    type V = Map<Seq<char>, Seq<char>>;

    closed spec fn view(&self) -> Map<Seq<char>, Seq<char>> {
        self.codes@.map_values(|code: String| code@)
    }
}

impl IconMap {
    /// A table without entries.
    pub fn new() -> (icons: IconMap)
        ensures
            icons@ == Map::<Seq<char>, Seq<char>>::empty(),
    {
        let icons = IconMap { codes: StringHashMap::new() };
        assert(icons@ =~= Map::<Seq<char>, Seq<char>>::empty());
        icons
    }

    /// Enters `code` under `name`, in place of what was there.
    pub fn insert(&mut self, name: String, code: String)
        ensures
            final(self)@ == old(self)@.insert(name@, code@),
    {
        self.codes.insert(name, code);
        assert(self@ =~= old(self)@.insert(name@, code@));
    }

    /// The code entered under `name`, if there is one.
    pub fn get(&self, name: &str) -> (code: Option<&String>)
        ensures
            match code {
                Some(c) => self@.contains_key(name@) && self@[name@] == c@,
                None => !self@.contains_key(name@),
            },
    {
        self.codes.get(name)
    }

    /// Tests whether the table has an entry for `name`.
    pub fn contains(&self, name: &str) -> (found: bool)
        ensures
            found == self@.contains_key(name@),
    {
        self.codes.contains_key(name)
    }
}

/// The place where the icon table is kept: empty until `remix_init` fills it.
pub struct IconRegistry {
    icons: Option<IconMap>,
}

impl IconRegistry {
    /// The table, once it has been built.
    pub closed spec fn icons(&self) -> Option<Map<Seq<char>, Seq<char>>> {
        match self.icons {
            Some(map) => Some(map@),
            None => None,
        }
    }

    /// A registry without a table.
    pub fn new() -> (registry: IconRegistry)
        ensures
            registry.icons() is None,
    {
        IconRegistry { icons: None }
    }

    /// Tests whether the table has been built.
    pub fn is_initialised(&self) -> (ready: bool)
        ensures
            ready == self.icons() is Some,
    {
        self.icons.is_some()
    }
}

/// Builds the table from the matches of the icon rule.
pub fn build_icon_map(found: &Vec<Vec<Option<String>>>) -> (icons: IconMap)
    ensures
        icons@ == icon_map_of(captures_view(found@)),
{
    let ghost all = captures_view(found@);
    let mut icons = IconMap::new();
    let mut i: usize = 0;
    proof {
        assert(all.take(0) =~= Seq::empty());
    }
    while i < found.len()
        invariant
            i <= found.len(),
            all == captures_view(found@),
            icons@ == icon_map_of(all.take(i as int)),
        decreases found.len() - i,
    {
        let groups = &found[i];
        proof {
            assert(all.take(i + 1).drop_last() =~= all.take(i as int));
            assert(all.take(i + 1).last() == groups_view(*groups));
        }
        if groups.len() > 2 {
            match (&groups[1], &groups[2]) {
                (Some(name), Some(code)) => {
                    icons.insert(name.clone(), code.clone());
                },
                _ => {},
            }
        }
        i = i + 1;
    }
    proof {
        assert(all.take(found.len() as int) =~= all);
    }
    icons
}

/// Reads the icon table out of a style sheet: every match of the icon rule
/// gives one entry. Fails only where the pattern engine refuses the rule.
pub fn parse_icon_map(input: &str) -> (r: Result<IconMap, IconError>)
    ensures
        match r {
            Ok(icons) => {
                &&& all_captures(icon_pattern(), input@) is Some
                &&& icons@ == icon_map_of(all_captures(icon_pattern(), input@)->0)
            },
            Err(e) => all_captures(icon_pattern(), input@) is None,
        },
{
    match regex_captures(r#"\.(ri-.*-.*):before \{ content: "\\(\w+)"; \}"#, input) {
        Some(found) => Ok(build_icon_map(&found)),
        None => Err(IconError::Pattern),
    }
}

/// Builds the icon table from the font's style sheet and keeps it in the
/// registry. Where the table cannot be built the registry stays as it was.
pub fn remix_init(registry: &mut IconRegistry, style_sheet: &str) -> (r: Result<(), IconError>)
    ensures
        match all_captures(icon_pattern(), style_sheet@) {
            Some(found) => r is Ok && final(registry).icons() == Some(icon_map_of(found)),
            None => r is Err && final(registry).icons() == old(registry).icons(),
        },
{
    match parse_icon_map(style_sheet) {
        Ok(icons) => {
            registry.icons = Some(icons);
            Ok(())
        },
        Err(e) => Err(e),
    }
}

/// The icon table of a registry that has one.
pub fn get_icon_map(registry: &IconRegistry) -> (icons: &IconMap)
    requires
        registry.icons() is Some,
    ensures
        Some(icons@) == registry.icons(),
{
    match &registry.icons {
        Some(icons) => icons,
        None => vstd::pervasive::unreached(),
    }
}

/// The character whose code point `hex_str` gives in hexadecimal.
pub fn hex_to_unicode_char(hex_str: Option<&str>) -> (c: Option<char>)
    ensures
        c == char_of_hex(
            match hex_str {
                Some(text) => Some(text@),
                None => None,
            },
        ),
{
    match hex_str {
        None => None,
        Some(text) => {
            let chars = chars_of(text);
            proof {
                assert(chars@.subrange(0, chars.len() as int) =~= text@);
            }
            match parse_range(&chars, 0, chars.len(), 16, 0xFFFF_FFFF) {
                Some(v) => char_from_u32(v as u32),
                None => None,
            }
        },
    }
}

/// The text that shows the icon `icon`: a string of its one glyph, or of one
/// space where the icon is unknown.
pub fn ri_icon(registry: &IconRegistry, icon: &str) -> (text: String)
    requires
        registry.icons() is Some,
    ensures
        text@ == icon_text(registry.icons()->0, icon@),
{
    let icons = get_icon_map(registry);
    let hex: Option<&str> = match icons.get(icon) {
        Some(code) => Some(code.as_str()),
        None => None,
    };
    match hex_to_unicode_char(hex) {
        Some(c) => char_to_string(c),
        None => char_to_string(' '),
    }
}

} // verus!
