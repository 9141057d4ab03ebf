//! Ignore rules: regular expressions matched against the `/`-prefixed path
//! of each source entry, relative to the overlay's source root.
use vstd::prelude::*;

use crate::text::{chars_of, lines_of, piece_ranges, ranges_view, slice_text, trim, trim_range};

verus! {

#[verifier::external_type_specification]
#[verifier::external_body]
pub struct ExRegex(regex::Regex);

#[verifier::external_type_specification]
#[verifier::external_body]
pub struct ExRegexError(regex::Error);

/// Whether a case-sensitive regular expression with this text compiles.
pub uninterp spec fn regex_compiles(pattern: Seq<char>) -> bool;

/// Whether the compiled expression with this text matches somewhere in `text`.
pub uninterp spec fn regex_finds(pattern: Seq<char>, text: Seq<char>) -> bool;

/// A compiled regular expression together with the text it was compiled
/// from. Only `compile_regex` builds one, so `compiled` is always the
/// expression of `source`.
pub struct Pattern {
    source: String,
    compiled: regex::Regex,
}

impl Pattern {
    pub closed spec fn source_text(&self) -> Seq<char> {
        self.source@
    }
}

/// Relies on `regex::RegexBuilder::build` with case-insensitivity off:
/// whether a pattern is accepted depends on its text alone.
#[verifier::external_body]
fn compile_regex(pattern: &str) -> (r: Result<Pattern, regex::Error>)
    ensures
        match r {
            Ok(p) => regex_compiles(pattern@) && p.source_text() == pattern@,
            Err(_) => !regex_compiles(pattern@),
        },
{
    match regex::RegexBuilder::new(pattern).case_insensitive(false).build() {
        Ok(re) => Ok(Pattern { source: pattern.to_string(), compiled: re }),
        Err(e) => Err(e),
    }
}

/// Relies on `regex::Regex::is_match`: whether the expression, built from
/// the pattern's text, matches anywhere in `text`.
#[verifier::external_body]
fn regex_is_match(p: &Pattern, text: &str) -> (r: bool)
    ensures
        r == regex_finds(p.source_text(), text@),
{
    p.compiled.is_match(text)
}

/// A pattern that does not compile, with the compiler's report.
#[derive(Debug)]
pub struct IgnoreError {
    pub pattern: String,
    pub error: regex::Error,
}

/// Whether any of `patterns` matches `text`.
pub open spec fn excludes(patterns: Seq<Seq<char>>, text: Seq<char>) -> bool {
    exists|i: int| 0 <= i < patterns.len() && regex_finds(#[trigger] patterns[i], text)
}

/// The patterns that lines of an ignore file hold: each line trimmed, blank
/// lines and lines that start with `#` left out.
pub open spec fn pattern_lines(lines: Seq<Seq<char>>) -> Seq<Seq<char>>
    decreases lines.len(),
{
    if lines.len() == 0 {
        Seq::empty()
    } else {
        let rest = pattern_lines(lines.drop_last());
        let t = trim(lines.last());
        if t.len() == 0 || t[0] == '#' {
            rest
        } else {
            rest.push(t)
        }
    }
}

/// The patterns of an ignore file's text.
pub open spec fn file_patterns(s: Seq<char>) -> Seq<Seq<char>> {
    pattern_lines(lines_of(s))
}

/// An ordered set of compiled ignore patterns.
pub struct Ignore {
    patterns: Vec<Pattern>,
}

impl View for Ignore {
    type V = Seq<Seq<char>>;

    /// The texts of the patterns, in the order they were added.
    closed spec fn view(&self) -> Seq<Seq<char>> {
        self.patterns@.map_values(|p: Pattern| p.source_text())
    }
}

impl Ignore {
    /// A set with no pattern, which excludes nothing.
    pub fn empty() -> (r: Self)
        ensures
            r@ == Seq::<Seq<char>>::empty(),
    {
        let r = Ignore { patterns: Vec::new() };
        assert(r@ =~= Seq::<Seq<char>>::empty());
        r
    }

    /// Compiles `pattern` and adds it; a pattern that does not compile is
    /// reported and leaves the set as it was.
    pub fn add_pattern(&mut self, pattern: &str) -> (r: Result<(), IgnoreError>)
        ensures
            match r {
                Ok(()) => regex_compiles(pattern@) && final(self)@ == old(self)@.push(pattern@),
                Err(e) => !regex_compiles(pattern@) && final(self)@ == old(self)@ && e.pattern@
                    == pattern@,
            },
    {
        match compile_regex(pattern) {
            Ok(p) => {
                self.patterns.push(p);
                assert(self@ =~= old(self)@.push(pattern@));
                Ok(())
            },
            Err(error) => Err(IgnoreError { pattern: String::from_str(pattern), error }),
        }
    }

    /// Adds the patterns of an ignore file's text, one per line: lines are
    /// trimmed, and blank lines and lines that start with `#` are skipped.
    /// Returns how many were added; at the first pattern that does not
    /// compile it stops, the ones before it staying added.
    pub fn add_from_str(&mut self, s: &str) -> (r: Result<usize, IgnoreError>)
        ensures
            match r {
                Ok(n) => n == file_patterns(s@).len() && (forall|i: int|
                    0 <= i < file_patterns(s@).len() ==> regex_compiles(
                        #[trigger] file_patterns(s@)[i],
                    )) && final(self)@ == old(self)@ + file_patterns(s@),
                Err(e) => exists|k: int|
                    0 <= k < file_patterns(s@).len() && !regex_compiles(
                        #[trigger] file_patterns(s@)[k],
                    ) && (forall|j: int|
                        0 <= j < k ==> regex_compiles(#[trigger] file_patterns(s@)[j]))
                        && final(self)@ == old(self)@ + file_patterns(s@).take(k) && e.pattern@
                        == file_patterns(s@)[k],
            },
    {
        let chars = chars_of(s);
        let lines = piece_ranges(&chars, '\n');
        let ghost all = lines_of(chars@);
        let ghost c = file_patterns(s@);
        let mut added: usize = 0;
        let ghost mut cur: Seq<Seq<char>> = Seq::empty();
        assert(all.take(0) =~= Seq::<Seq<char>>::empty());
        assert(old(self)@ + cur =~= old(self)@);
        for i in 0..lines.len()
            invariant
                chars@ == s@,
                all == lines_of(chars@),
                c == pattern_lines(all),
                ranges_view(chars@, lines@) == all,
                forall|k: int|
                    0 <= k < lines@.len() ==> (#[trigger] lines@[k]).0 <= lines@[k].1
                        && lines@[k].1 <= chars@.len(),
                cur == pattern_lines(all.take(i as int)),
                added as int == cur.len(),
                added <= i,
                forall|j: int| 0 <= j < cur.len() ==> regex_compiles(#[trigger] cur[j]),
                self@ == old(self)@ + cur,
        {
            let ghost before = cur;
            assert(all.take(i + 1).drop_last() =~= all.take(i as int));
            assert(all[i as int] == chars@.subrange(lines@[i as int].0 as int, lines@[i as int].1 as int));
            let (a0, b0) = lines[i];
            let (a, b) = trim_range(&chars, a0, b0);
            assert(all.take(i + 1).last() == all[i as int]);
            assert(chars@.subrange(a as int, b as int) == trim(all[i as int]));
            if a < b && chars[a] != '#' {
                let line = slice_text(s, &chars, a, b);
                assert(pattern_lines(all.take(i + 1)) == before.push(line@));
                proof {
                    lemma_pattern_lines_prefix(all, i + 1);
                    assert(c.take(added + 1) == before.push(line@));
                    assert(c.take(added + 1)[added as int] == c[added as int]);
                }
                match self.add_pattern(line.as_str()) {
                    Ok(()) => {
                        added = added + 1;
                        proof {
                            cur = before.push(line@);
                        }
                        assert(self@ =~= old(self)@ + cur);
                    },
                    Err(e) => {
                        assert(c.take(added as int) =~= before);
                        assert(0 <= added < c.len());
                        assert(!regex_compiles(c[added as int]));
                        assert forall|j: int| 0 <= j < added implies regex_compiles(
                            #[trigger] c[j],
                        ) by {
                            assert(c.take(added as int)[j] == c[j]);
                            assert(regex_compiles(before[j]));
                        }
                        assert(self@ == old(self)@ + c.take(added as int));
                        assert(e.pattern@ == c[added as int]);
                        assert(!regex_compiles(file_patterns(s@)[added as int]));
                        return Err(e);
                    },
                }
            } else {
                assert(pattern_lines(all.take(i + 1)) == before);
            }
        }
        assert(all.take(lines@.len() as int) =~= all);
        assert(cur == c);
        Ok(added)
    }

    /// Whether any pattern of the set matches `path`.
    pub fn matches(&self, path: &str) -> (r: bool)
        ensures
            r == excludes(self@, path@),
    {
        let mut i: usize = 0;
        while i < self.patterns.len()
            invariant
                i <= self.patterns@.len(),
                forall|j: int| 0 <= j < i ==> !regex_finds(#[trigger] self@[j], path@),
            decreases self.patterns@.len() - i,
        {
            if regex_is_match(&self.patterns[i], path) {
                assert(regex_finds(self@[i as int], path@));
                return true;
            }
            i = i + 1;
        }
        false
    }
}

/// The patterns of a prefix of the lines start the patterns of all of them.
proof fn lemma_pattern_lines_prefix(lines: Seq<Seq<char>>, i: int)
    requires
        0 <= i <= lines.len(),
    ensures
        pattern_lines(lines.take(i)).len() <= pattern_lines(lines).len(),
        pattern_lines(lines).take(pattern_lines(lines.take(i)).len() as int) == pattern_lines(
            lines.take(i),
        ),
    decreases lines.len() - i,
{
    if i < lines.len() {
        lemma_pattern_lines_prefix(lines, i + 1);
        assert(lines.take(i + 1).drop_last() =~= lines.take(i));
        let a = pattern_lines(lines.take(i));
        let b = pattern_lines(lines.take(i + 1));
        let all = pattern_lines(lines);
        assert(all.take(b.len() as int).take(a.len() as int) =~= all.take(a.len() as int));
        assert(b.take(a.len() as int) =~= a);
    } else {
        assert(lines.take(i) =~= lines);
        assert(pattern_lines(lines).take(pattern_lines(lines).len() as int) =~= pattern_lines(lines));
    }
}

} // verus!
