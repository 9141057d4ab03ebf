//! Profiles read from structured formats (JSON, TOML, YAML) whose top level
//! maps names to string values.
use vstd::prelude::*;

use super::{copy_entries, entries_view, lookup_entries, lookup_in, names_of, Profile};
use crate::text::chars_of;

verus! {

#[verifier::external_type_specification]
#[verifier::external_body]
pub struct ExJsonError(serde_json::Error);

#[verifier::external_type_specification]
#[verifier::external_body]
pub struct ExTomlError(toml::de::Error);

#[verifier::external_type_specification]
#[verifier::external_body]
pub struct ExYamlError(serde_yaml::Error);

/// The pairs of a JSON document that is an object of strings, in name order;
/// `None` for any other text.
pub uninterp spec fn json_string_table(text: Seq<char>) -> Option<Seq<(Seq<char>, Seq<char>)>>;

/// The pairs of a TOML document whose top-level values are all strings, in
/// name order; `None` for any other text.
pub uninterp spec fn toml_string_table(text: Seq<char>) -> Option<Seq<(Seq<char>, Seq<char>)>>;

/// The pairs of a YAML document that is a mapping of strings, in name order;
/// `None` for any other text.
pub uninterp spec fn yaml_string_table(text: Seq<char>) -> Option<Seq<(Seq<char>, Seq<char>)>>;

/// How many characters that can open a nested level (`[`, `{` and `.`) a
/// TOML text may hold.
pub const MAX_TOML_NESTING: usize = 128;

/// Whether a character can open a nested level of a TOML document.
pub open spec fn opens_level(c: char) -> bool {
    c == '[' || c == '{' || c == '.'
}

/// How many characters of `s` can open a nested level.
pub open spec fn nesting_marks(s: Seq<char>) -> nat
    decreases s.len(),
{
    if s.len() == 0 {
        0
    } else {
        nesting_marks(s.drop_last()) + if opens_level(s.last()) {
            1nat
        } else {
            0nat
        }
    }
}

/// Whether `s` holds at most `MAX_TOML_NESTING` characters that can open a
/// nested level.
pub fn within_toml_nesting(s: &str) -> (r: bool)
    ensures
        r == (nesting_marks(s@) <= MAX_TOML_NESTING),
{
    let chars = chars_of(s);
    let mut count: usize = 0;
    for i in 0..chars.len()
        invariant
            chars@ == s@,
            count == nesting_marks(chars@.subrange(0, i as int)),
            count <= i,
    {
        assert(chars@.subrange(0, i + 1).drop_last() =~= chars@.subrange(0, i as int));
        if chars[i] == '[' || chars[i] == '{' || chars[i] == '.' {
            count = count + 1;
        }
    }
    assert(chars@.subrange(0, chars@.len() as int) =~= chars@);
    count <= MAX_TOML_NESTING
}

/// Relies on `serde_json::from_str`, reading the text into an ordered map
/// of strings, whose pairs then come out in name order, each name once.
#[verifier::external_body]
fn read_json_table(text: &str) -> (r: Result<Vec<(String, String)>, serde_json::Error>)
    ensures
        match r {
            Ok(v) => json_string_table(text@) == Some(entries_view(v@)) && names_of(
                entries_view(v@),
            ).no_duplicates(),
            Err(_) => json_string_table(text@) is None,
        },
{
    match serde_json::from_str::<std::collections::BTreeMap<String, String>>(text) {
        Ok(m) => Ok(m.into_iter().collect()),
        Err(e) => Err(e),
    }
}

/// Relies on `toml::from_str`, reading the text into an ordered map of
/// strings, whose pairs then come out in name order, each name once. The
/// parser recurses once per level of arrays, inline tables and dotted keys
/// without a limit of its own, so the text is held to few of the characters
/// that open such a level.
#[verifier::external_body]
fn read_toml_table(text: &str) -> (r: Result<Vec<(String, String)>, toml::de::Error>)
    requires
        nesting_marks(text@) <= MAX_TOML_NESTING,
    ensures
        match r {
            Ok(v) => toml_string_table(text@) == Some(entries_view(v@)) && names_of(
                entries_view(v@),
            ).no_duplicates(),
            Err(_) => toml_string_table(text@) is None,
        },
{
    match toml::from_str::<std::collections::BTreeMap<String, String>>(text) {
        Ok(m) => Ok(m.into_iter().collect()),
        Err(e) => Err(e),
    }
}

/// Relies on `serde_yaml::from_str`, reading the text into an ordered map
/// of strings, whose pairs then come out in name order, each name once.
#[verifier::external_body]
fn read_yaml_table(text: &str) -> (r: Result<Vec<(String, String)>, serde_yaml::Error>)
    ensures
        match r {
            Ok(v) => yaml_string_table(text@) == Some(entries_view(v@)) && names_of(
                entries_view(v@),
            ).no_duplicates(),
            Err(_) => yaml_string_table(text@) is None,
        },
{
    match serde_yaml::from_str::<std::collections::BTreeMap<String, String>>(text) {
        Ok(m) => Ok(m.into_iter().collect()),
        Err(e) => Err(e),
    }
}

/// Why a structured profile could not be read, with the parser's own report.
#[derive(Debug)]
pub enum FormatError {
    Json(serde_json::Error),
    Toml(toml::de::Error),
    /// The TOML text holds more than `MAX_TOML_NESTING` characters that can
    /// open a nested level.
    TomlTooDeep,
    Yaml(serde_yaml::Error),
}

/// A profile read from a structured document of name/value strings.
pub struct SerdeProfile {
    inner: Vec<(String, String)>,
}

impl SerdeProfile {
    /// Reads a JSON object of strings.
    pub fn from_json(s: &str) -> (r: Result<SerdeProfile, FormatError>)
        ensures
            match r {
                Ok(p) => json_string_table(s@) == Some(p.entries()) && names_of(
                    p.entries(),
                ).no_duplicates(),
                Err(e) => json_string_table(s@) is None && e is Json,
            },
    {
        match read_json_table(s) {
            Ok(inner) => Ok(SerdeProfile { inner }),
            Err(e) => Err(FormatError::Json(e)),
        }
    }

    /// Reads a TOML document whose values are strings. A text with more
    /// than `MAX_TOML_NESTING` characters that can open a nested level is
    /// refused before it is parsed.
    pub fn from_toml(s: &str) -> (r: Result<SerdeProfile, FormatError>)
        ensures
            match r {
                Ok(p) => nesting_marks(s@) <= MAX_TOML_NESTING && toml_string_table(s@) == Some(
                    p.entries(),
                ) && names_of(p.entries()).no_duplicates(),
                Err(e) => if nesting_marks(s@) <= MAX_TOML_NESTING {
                    toml_string_table(s@) is None && e is Toml
                } else {
                    e is TomlTooDeep
                },
            },
    {
        if !within_toml_nesting(s) {
            return Err(FormatError::TomlTooDeep);
        }
        match read_toml_table(s) {
            Ok(inner) => Ok(SerdeProfile { inner }),
            Err(e) => Err(FormatError::Toml(e)),
        }
    }

    /// Reads a YAML mapping of strings.
    pub fn from_yaml(s: &str) -> (r: Result<SerdeProfile, FormatError>)
        ensures
            match r {
                Ok(p) => yaml_string_table(s@) == Some(p.entries()) && names_of(
                    p.entries(),
                ).no_duplicates(),
                Err(e) => yaml_string_table(s@) is None && e is Yaml,
            },
    {
        match read_yaml_table(s) {
            Ok(inner) => Ok(SerdeProfile { inner }),
            Err(e) => Err(FormatError::Yaml(e)),
        }
    }
}

impl Profile for SerdeProfile {
    open spec fn lookup(&self, name: Seq<char>) -> Option<Seq<char>> {
        lookup_in(self.entries(), name)
    }

    closed spec fn entries(&self) -> Seq<(Seq<char>, Seq<char>)> {
        entries_view(self.inner@)
    }

    fn var(&self, item: &str) -> (r: Option<&str>) {
        lookup_entries(&self.inner, item)
    }

    fn list(&self) -> (r: Vec<(String, String)>) {
        copy_entries(&self.inner)
    }
}

} // verus!
