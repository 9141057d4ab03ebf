//! The line-based `NAME=value` profile format.
use vstd::prelude::*;

use super::{
    assign, assign_entry, copy_entries, entries_view, lemma_assign_keeps_names_distinct, lookup_entries,
    lookup_in, names_of, Profile,
};
use crate::text::{chars_of, find_char, piece_ranges, lines_of, ranges_view, slice_text, trim, trim_range};

verus! {

/// Why a profile in the line-based format was refused; lines count from 1.
#[derive(Debug, PartialEq, Eq, Structural)]
pub enum EnvError {
    /// The line has nothing before its `=`.
    MissingName { line: usize },
    /// The line has no `=`.
    MissingAssignment { line: usize },
}

/// `v` without one layer of matching single or double quotes around it.
pub open spec fn strip_quotes(v: Seq<char>) -> Seq<char> {
    if v.len() >= 2 && v[0] == v.last() && (v[0] == '"' || v[0] == '\'') {
        v.subrange(1, v.len() - 1)
    } else {
        v
    }
}

/// Whether a trimmed line holds no assignment: blank, or a comment.
pub open spec fn is_skipped_line(t: Seq<char>) -> bool {
    t.len() == 0 || t[0] == '#'
}

/// The table after reading line number `number` (from 1) of the text.
pub open spec fn env_step(
    acc: Result<Seq<(Seq<char>, Seq<char>)>, EnvError>,
    line: Seq<char>,
    number: int,
) -> Result<Seq<(Seq<char>, Seq<char>)>, EnvError> {
    match acc {
        Err(e) => Err(e),
        Ok(e) => {
            let t = trim(line);
            if is_skipped_line(t) {
                Ok(e)
            } else {
                match t.index_of_first('=') {
                    None => Err(EnvError::MissingAssignment { line: number as usize }),
                    Some(q) => if q == 0 {
                        Err(EnvError::MissingName { line: number as usize })
                    } else {
                        Ok(assign(e, t.subrange(0, q), strip_quotes(t.subrange(q + 1, t.len() as int))))
                    },
                }
            }
        },
    }
}

/// The table that a sequence of lines defines, or the first fault in it.
pub open spec fn env_parse_lines(lines: Seq<Seq<char>>) -> Result<Seq<(Seq<char>, Seq<char>)>, EnvError>
    decreases lines.len(),
{
    if lines.len() == 0 {
        Ok(Seq::empty())
    } else {
        env_step(env_parse_lines(lines.drop_last()), lines.last(), lines.len() as int)
    }
}

/// The table that a text in the line-based format defines.
pub open spec fn env_parse(s: Seq<char>) -> Result<Seq<(Seq<char>, Seq<char>)>, EnvError> {
    env_parse_lines(lines_of(s))
}

proof fn lemma_env_error_stays(lines: Seq<Seq<char>>, i: int, e: EnvError)
    requires
        0 <= i <= lines.len(),
        env_parse_lines(lines.take(i)) == Err::<Seq<(Seq<char>, Seq<char>)>, EnvError>(e),
    ensures
        env_parse_lines(lines) == Err::<Seq<(Seq<char>, Seq<char>)>, EnvError>(e),
    decreases lines.len() - i,
{
    if i < lines.len() {
        assert(lines.take(i + 1).drop_last() =~= lines.take(i));
        lemma_env_error_stays(lines, i + 1, e);
    } else {
        assert(lines.take(i) =~= lines);
    }
}

/// A profile read from `NAME=value` lines.
pub struct EnvProfile {
    inner: Vec<(String, String)>,
}

impl EnvProfile {
    /// Reads a profile from `NAME=value` lines. Blank lines and lines whose
    /// first non-space character is `#` are skipped; the name is what stands
    /// before the first `=`, the value what follows it, without one layer of
    /// surrounding quotes. A later assignment of a name replaces an earlier one.
    pub fn from_str(s: &str) -> (r: Result<EnvProfile, EnvError>)
        ensures
            match r {
                Ok(p) => env_parse(s@) == Ok::<Seq<(Seq<char>, Seq<char>)>, EnvError>(p.entries())
                    && names_of(p.entries()).no_duplicates(),
                Err(e) => env_parse(s@) == Err::<Seq<(Seq<char>, Seq<char>)>, EnvError>(e),
            },
    {
        let chars = chars_of(s);
        let lines = piece_ranges(&chars, '\n');
        let ghost all = lines_of(chars@);
        let mut inner: Vec<(String, String)> = Vec::new();
        assert(all.take(0) =~= Seq::<Seq<char>>::empty());
        assert(entries_view(inner@) =~= Seq::empty());
        assert(names_of(entries_view(inner@)) =~= Seq::<Seq<char>>::empty());
        for i in 0..lines.len()
            invariant
                chars@ == s@,
                all == lines_of(chars@),
                ranges_view(chars@, lines@) == all,
                forall|k: int|
                    0 <= k < lines@.len() ==> (#[trigger] lines@[k]).0 <= lines@[k].1 && lines@[k].1
                        <= chars@.len(),
                env_parse_lines(all.take(i as int)) == Ok::<Seq<(Seq<char>, Seq<char>)>, EnvError>(
                    entries_view(inner@),
                ),
                names_of(entries_view(inner@)).no_duplicates(),
        {
            let ghost before = entries_view(inner@);
            assert(all.take(i + 1).drop_last() =~= all.take(i as int));
            assert(all[i as int] == chars@.subrange(lines@[i as int].0 as int, lines@[i as int].1 as int));
            let (a0, b0) = lines[i];
            let (a, b) = trim_range(&chars, a0, b0);
            let ghost t = chars@.subrange(a as int, b as int);
            assert(t == trim(all[i as int]));
            if a == b || chars[a] == '#' {
                assert(env_parse_lines(all.take(i + 1)) == Ok::<Seq<(Seq<char>, Seq<char>)>, EnvError>(before));
            } else {
                match find_char(&chars, a, b, '=') {
                    None => {
                        let e = EnvError::MissingAssignment { line: i + 1 };
                        proof {
                            lemma_env_error_stays(all, i + 1, e);
                        }
                        return Err(e);
                    },
                    Some(q) => {
                        if q == a {
                            let e = EnvError::MissingName { line: i + 1 };
                            proof {
                                lemma_env_error_stays(all, i + 1, e);
                            }
                            return Err(e);
                        }
                        let name = slice_text(s, &chars, a, q);
                        let mut va = q + 1;
                        let mut vb = b;
                        let ghost v = chars@.subrange(va as int, vb as int);
                        if vb - va >= 2 && chars[va] == chars[vb - 1] && (chars[va] == '"'
                            || chars[va] == '\'') {
                            va = va + 1;
                            vb = vb - 1;
                        }
                        let value = slice_text(s, &chars, va, vb);
                        assert(name@ =~= t.subrange(0, q - a));
                        assert(v =~= t.subrange(q - a + 1, t.len() as int));
                        assert(value@ =~= strip_quotes(v));
                        proof {
                            lemma_assign_keeps_names_distinct(before, name@, value@);
                        }
                        assign_entry(&mut inner, name, value);
                    },
                }
            }
        }
        assert(all.take(lines@.len() as int) =~= all);
        Ok(EnvProfile { inner })
    }
}

impl Profile for EnvProfile {
    open spec fn lookup(&self, name: Seq<char>) -> Option<Seq<char>> {
        lookup_in(self.entries(), name)
    }

    closed spec fn entries(&self) -> Seq<(Seq<char>, Seq<char>)> {
        entries_view(self.inner@)
    }

    fn var(&self, item: &str) -> (r: Option<&str>) {
        lookup_entries(&self.inner, item)
    }

    fn list(&self) -> (r: Vec<(String, String)>) {
        copy_entries(&self.inner)
    }
}

} // verus!
