//! Profiles: read-only tables of named values used for path templating and
//! as the environment of hook scripts.
use vstd::prelude::*;

pub mod env;
pub mod structured;

use env::{env_parse, EnvError, EnvProfile};
use structured::{
    json_string_table, nesting_marks, toml_string_table, yaml_string_table, FormatError, SerdeProfile,
    MAX_TOML_NESTING,
};

verus! {

/// The view of a list of name/value pairs.
pub open spec fn entries_view(v: Seq<(String, String)>) -> Seq<(Seq<char>, Seq<char>)> {
    v.map_values(|p: (String, String)| (p.0@, p.1@))
}

/// The names of a list of name/value pairs.
pub open spec fn names_of(e: Seq<(Seq<char>, Seq<char>)>) -> Seq<Seq<char>> {
    e.map_values(|p: (Seq<char>, Seq<char>)| p.0)
}

/// The value bound to `name`: that of the first pair with that name.
pub open spec fn lookup_in(e: Seq<(Seq<char>, Seq<char>)>, name: Seq<char>) -> Option<Seq<char>> {
    match names_of(e).index_of_first(name) {
        Some(i) => Some(e[i].1),
        None => None,
    }
}

/// `e` with `name` bound to `value`: an existing binding is replaced in
/// place, a new one goes to the end.
pub open spec fn assign(e: Seq<(Seq<char>, Seq<char>)>, name: Seq<char>, value: Seq<char>) -> Seq<
    (Seq<char>, Seq<char>),
> {
    match names_of(e).index_of_first(name) {
        Some(i) => e.update(i, (name, value)),
        None => e.push((name, value)),
    }
}

/// Binding a name keeps the names of a list of pairs distinct.
pub proof fn lemma_assign_keeps_names_distinct(
    e: Seq<(Seq<char>, Seq<char>)>,
    name: Seq<char>,
    value: Seq<char>,
)
    requires
        names_of(e).no_duplicates(),
    ensures
        names_of(assign(e, name, value)).no_duplicates(),
{
    names_of(e).index_of_first_ensures(name);
    match names_of(e).index_of_first(name) {
        Some(i) => {
            assert(names_of(assign(e, name, value)) =~= names_of(e));
        },
        None => {
            let n = names_of(assign(e, name, value));
            assert(n =~= names_of(e).push(name));
            assert forall|a: int, b: int| 0 <= a < n.len() && 0 <= b < n.len() && a != b implies n[a]
                != n[b] by {
                if a == n.len() - 1 {
                    assert(names_of(e)[b] == n[b]);
                } else if b == n.len() - 1 {
                    assert(names_of(e)[a] == n[a]);
                }
            }
        },
    }
}

/// A read-only table of named values.
pub trait Profile {
    /// The value of the variable `name`, if the profile defines it.
    spec fn lookup(&self, name: Seq<char>) -> Option<Seq<char>>;

    /// Every name/value pair of the profile, in its order.
    spec fn entries(&self) -> Seq<(Seq<char>, Seq<char>)>;

    fn var(&self, item: &str) -> (r: Option<&str>)
        ensures
            match r {
                Some(v) => self.lookup(item@) == Some(v@),
                None => self.lookup(item@) is None,
            },
    ;

    fn list(&self) -> (r: Vec<(String, String)>)
        ensures
            entries_view(r@) == self.entries(),
    ;
}

/// Position of the first pair named `name`.
fn find_name(v: &Vec<(String, String)>, name: &String) -> (r: Option<usize>)
    ensures
        match r {
            Some(i) => i < v@.len() && names_of(entries_view(v@)).index_of_first(name@) == Some(
                i as int,
            ),
            None => names_of(entries_view(v@)).index_of_first(name@) is None,
        },
{
    let ghost names = names_of(entries_view(v@));
    proof {
        names.index_of_first_ensures(name@);
    }
    let mut i: usize = 0;
    while i < v.len()
        invariant
            i <= v@.len(),
            names == names_of(entries_view(v@)),
            names.len() == v@.len(),
            forall|j: int| 0 <= j < i ==> names[j] != name@,
            match names.index_of_first(name@) {
                Some(k) => 0 <= k < names.len() && names[k] == name@ && forall|j: int|
                    0 <= j < k ==> names[j] != name@,
                None => !names.contains(name@),
            },
        decreases v@.len() - i,
    {
        assert(names[i as int] == v@[i as int].0@);
        if v[i].0 == *name {
            return Some(i);
        }
        i = i + 1;
    }
    None
}

/// Copies a list of pairs.
fn copy_entries(v: &Vec<(String, String)>) -> (r: Vec<(String, String)>)
    ensures
        entries_view(r@) == entries_view(v@),
{
    let mut r: Vec<(String, String)> = Vec::new();
    for i in 0..v.len()
        invariant
            r@.len() == i,
            entries_view(r@) == entries_view(v@).subrange(0, i as int),
    {
        let k = v[i].0.clone();
        let x = v[i].1.clone();
        r.push((k, x));
        assert(entries_view(r@)[i as int] == entries_view(v@)[i as int]);
        assert(entries_view(r@) =~= entries_view(v@).subrange(0, i + 1));
    }
    assert(entries_view(v@).subrange(0, v@.len() as int) =~= entries_view(v@));
    r
}

/// Looks `item` up in a list of pairs.
fn lookup_entries<'a>(v: &'a Vec<(String, String)>, item: &str) -> (r: Option<&'a str>)
    ensures
        match r {
            Some(x) => lookup_in(entries_view(v@), item@) == Some(x@),
            None => lookup_in(entries_view(v@), item@) is None,
        },
{
    let name = String::from_str(item);
    match find_name(v, &name) {
        Some(i) => Some(v[i].1.as_str()),
        None => None,
    }
}

/// Binds `name` to `value` in a list of pairs.
fn assign_entry(v: &mut Vec<(String, String)>, name: String, value: String)
    ensures
        entries_view(final(v)@) == assign(entries_view(old(v)@), name@, value@),
{
    match find_name(v, &name) {
        Some(i) => {
            v.set(i, (name, value));
            assert(entries_view(v@) =~= assign(entries_view(old(v)@), name@, value@));
        },
        None => {
            v.push((name, value));
            assert(entries_view(v@) =~= assign(entries_view(old(v)@), name@, value@));
        },
    }
}

/// The profile used when none is given: it defines no variable.
pub struct NoProfile;

impl NoProfile {
    pub fn new() -> (r: Self) {
        NoProfile
    }
}

impl Profile for NoProfile {
    open spec fn lookup(&self, name: Seq<char>) -> Option<Seq<char>> {
        None
    }

    open spec fn entries(&self) -> Seq<(Seq<char>, Seq<char>)> {
        Seq::empty()
    }

    fn var(&self, item: &str) -> (r: Option<&str>) {
        None
    }

    fn list(&self) -> (r: Vec<(String, String)>) {
        let r: Vec<(String, String)> = Vec::new();
        assert(entries_view(r@) =~= Seq::empty());
        r
    }
}

/// The formats a profile file can be written in.
#[derive(Debug, Clone, Copy, PartialEq, Eq, Structural)]
pub enum Format {
    Json,
    Toml,
    Yaml,
    Env,
}

/// Why no profile could be loaded.
#[derive(Debug)]
pub enum ProfileError {
    /// Neither a format nor a known file extension was given.
    UnknownFormat,
    /// The text is not a valid `NAME=value` profile.
    Env(EnvError),
    /// The text is not a valid structured profile.
    Format(FormatError),
}

/// The format that a file extension names.
pub open spec fn format_of_extension(ext: Seq<char>) -> Option<Format> {
    if ext == "json"@ {
        Some(Format::Json)
    } else if ext == "toml"@ {
        Some(Format::Toml)
    } else if ext == "yaml"@ || ext == "yml"@ {
        Some(Format::Yaml)
    } else if ext == "env"@ {
        Some(Format::Env)
    } else {
        None
    }
}

/// The format that a file extension names, if any.
pub fn format_for_extension(ext: &str) -> (r: Option<Format>)
    ensures
        r == format_of_extension(ext@),
{
    let e = String::from_str(ext);
    if e == String::from_str("json") {
        Some(Format::Json)
    } else if e == String::from_str("toml") {
        Some(Format::Toml)
    } else if e == String::from_str("yaml") || e == String::from_str("yml") {
        Some(Format::Yaml)
    } else if e == String::from_str("env") {
        Some(Format::Env)
    } else {
        None
    }
}

/// The format to read a profile file in: the one asked for, else the one
/// its extension names.
pub fn resolve_format(fmt: Option<Format>, ext: Option<&str>) -> (r: Result<Format, ProfileError>)
    ensures
        match r {
            Ok(f) => match fmt {
                Some(g) => f == g,
                None => ext is Some && format_of_extension(ext->0@) == Some(f),
            },
            Err(e) => e is UnknownFormat && fmt is None && (ext is None || format_of_extension(
                ext->0@,
            ) is None),
        },
{
    match fmt {
        Some(f) => Ok(f),
        None => match ext {
            Some(x) => match format_for_extension(x) {
                Some(f) => Ok(f),
                None => Err(ProfileError::UnknownFormat),
            },
            None => Err(ProfileError::UnknownFormat),
        },
    }
}

/// A profile read from a file, in whichever format it was written.
pub enum LoadedProfile {
    Serde(SerdeProfile),
    Env(EnvProfile),
}

impl Profile for LoadedProfile {
    open spec fn lookup(&self, name: Seq<char>) -> Option<Seq<char>> {
        match self {
            LoadedProfile::Serde(p) => p.lookup(name),
            LoadedProfile::Env(p) => p.lookup(name),
        }
    }

    open spec fn entries(&self) -> Seq<(Seq<char>, Seq<char>)> {
        match self {
            LoadedProfile::Serde(p) => p.entries(),
            LoadedProfile::Env(p) => p.entries(),
        }
    }

    fn var(&self, item: &str) -> (r: Option<&str>) {
        match self {
            LoadedProfile::Serde(p) => p.var(item),
            LoadedProfile::Env(p) => p.var(item),
        }
    }

    fn list(&self) -> (r: Vec<(String, String)>) {
        match self {
            LoadedProfile::Serde(p) => p.list(),
            LoadedProfile::Env(p) => p.list(),
        }
    }
}

/// What reading `raw` in format `fmt` gives, as a table of pairs or the kind
/// of the fault.
pub open spec fn loads_as(raw: Seq<char>, fmt: Format, r: Result<LoadedProfile, ProfileError>) -> bool {
    match fmt {
        Format::Json => match r {
            Ok(p) => json_string_table(raw) == Some(p.entries()),
            Err(e) => json_string_table(raw) is None && e is Format,
        },
        Format::Toml => match r {
            Ok(p) => nesting_marks(raw) <= MAX_TOML_NESTING && toml_string_table(raw) == Some(
                p.entries(),
            ),
            Err(e) => e is Format && if nesting_marks(raw) <= MAX_TOML_NESTING {
                toml_string_table(raw) is None && e->Format_0 is Toml
            } else {
                e->Format_0 is TomlTooDeep
            },
        },
        Format::Yaml => match r {
            Ok(p) => yaml_string_table(raw) == Some(p.entries()),
            Err(e) => yaml_string_table(raw) is None && e is Format,
        },
        Format::Env => match r {
            Ok(p) => env_parse(raw) == Ok::<Seq<(Seq<char>, Seq<char>)>, EnvError>(p.entries()),
            Err(ProfileError::Env(e)) => env_parse(raw) == Err::<Seq<(Seq<char>, Seq<char>)>, EnvError>(e),
            Err(_) => false,
        },
    }
}

/// Reads a profile from text in the given format; without a format no
/// profile can be read.
pub fn load_str(raw: &str, fmt: Option<Format>) -> (r: Result<LoadedProfile, ProfileError>)
    ensures
        match fmt {
            Some(f) => loads_as(raw@, f, r),
            None => r is Err && r->Err_0 is UnknownFormat,
        },
        r is Ok ==> names_of(r->Ok_0.entries()).no_duplicates(),
{
    let profile_format = match fmt {
        Some(f) => f,
        None => {
            return Err(ProfileError::UnknownFormat);
        },
    };
    match profile_format {
        Format::Json => match SerdeProfile::from_json(raw) {
            Ok(p) => Ok(LoadedProfile::Serde(p)),
            Err(e) => Err(ProfileError::Format(e)),
        },
        Format::Toml => match SerdeProfile::from_toml(raw) {
            Ok(p) => Ok(LoadedProfile::Serde(p)),
            Err(e) => Err(ProfileError::Format(e)),
        },
        Format::Yaml => match SerdeProfile::from_yaml(raw) {
            Ok(p) => Ok(LoadedProfile::Serde(p)),
            Err(e) => Err(ProfileError::Format(e)),
        },
        Format::Env => match EnvProfile::from_str(raw) {
            Ok(p) => Ok(LoadedProfile::Env(p)),
            Err(e) => Err(ProfileError::Env(e)),
        },
    }
}

/// Reads the text of a profile file: in the format asked for, else in the
/// one its extension `ext` names.
pub fn load_text(raw: &str, fmt: Option<Format>, ext: Option<&str>) -> (r: Result<
    LoadedProfile,
    ProfileError,
>)
    ensures
        match fmt {
            Some(f) => loads_as(raw@, f, r),
            None => match ext {
                Some(x) => match format_of_extension(x@) {
                    Some(f) => loads_as(raw@, f, r),
                    None => r is Err && r->Err_0 is UnknownFormat,
                },
                None => r is Err && r->Err_0 is UnknownFormat,
            },
        },
        r is Ok ==> names_of(r->Ok_0.entries()).no_duplicates(),
{
    match resolve_format(fmt, ext) {
        Ok(f) => load_str(raw, Some(f)),
        Err(e) => Err(e),
    }
}

} // verus!
