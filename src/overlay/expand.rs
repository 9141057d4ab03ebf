//! Destination path templating: `{name}` placeholders in each component of a
//! relative path are replaced by the values of a profile.
use vstd::prelude::*;

use crate::profile::Profile;
use crate::text::{chars_of, find_char, piece_ranges, ranges_view, slice_text, split_on};

verus! {

/// How many placeholders one path component may have replaced in turn; a
/// value that itself holds a placeholder counts again, so this bounds the
/// expansion of profiles whose values refer to each other.
pub const MAX_SUBSTITUTIONS: usize = 1024;

/// What went wrong while expanding a placeholder.
#[derive(Debug, Clone, Copy, PartialEq, Eq, Structural)]
pub enum ExpandErrorKind {
    /// The profile does not define the variable.
    UnknownVariable,
    /// The profile binds the variable to the empty string.
    EmptyValue,
    /// More than `MAX_SUBSTITUTIONS` placeholders were replaced.
    TooManySubstitutions,
}

/// A failed expansion: its kind, and the name in the placeholder at fault.
#[derive(Debug)]
pub struct ExpandError {
    pub kind: ExpandErrorKind,
    pub name: String,
}

/// The placeholder that expansion replaces next: the positions of the first
/// `{` and of the first `}`, when both occur and the `{` comes first.
pub open spec fn brace_token(s: Seq<char>) -> Option<(int, int)> {
    match (s.index_of_first('{'), s.index_of_first('}')) {
        (Some(a), Some(b)) => if a < b {
            Some((a, b))
        } else {
            None
        },
        _ => None,
    }
}

/// The expansion of `s` with `budget` replacements left: either the final
/// text, or the kind of fault with the name it concerns.
pub open spec fn expand_model<P: Profile>(s: Seq<char>, profile: &P, budget: nat) -> Result<
    Seq<char>,
    (ExpandErrorKind, Seq<char>),
>
    decreases budget,
{
    match brace_token(s) {
        None => Ok(s),
        Some((a, b)) => {
            let name = s.subrange(a + 1, b);
            match profile.lookup(name) {
                None => Err((ExpandErrorKind::UnknownVariable, name)),
                Some(v) => if v.len() == 0 {
                    Err((ExpandErrorKind::EmptyValue, name))
                } else if budget == 0 {
                    Err((ExpandErrorKind::TooManySubstitutions, name))
                } else {
                    expand_model(
                        s.subrange(0, a) + v + s.subrange(b + 1, s.len() as int),
                        profile,
                        (budget - 1) as nat,
                    )
                },
            }
        },
    }
}

/// The expansion of one path component.
pub open spec fn expand_spec<P: Profile>(s: Seq<char>, profile: &P) -> Result<
    Seq<char>,
    (ExpandErrorKind, Seq<char>),
> {
    expand_model(s, profile, MAX_SUBSTITUTIONS as nat)
}

/// Expands the `{name}` placeholders of one path component. The first `{`
/// and the first `}` delimit a name when the `{` comes first; its value
/// replaces the placeholder, braces included, and the scan starts over.
/// The text is returned once no such pair remains.
pub fn expand_vars<P: Profile>(s: &str, profile: &P) -> (r: Result<String, ExpandError>)
    ensures
        match r {
            Ok(v) => expand_spec(s@, profile) == Ok::<Seq<char>, (ExpandErrorKind, Seq<char>)>(
                v@,
            ),
            Err(e) => expand_spec(s@, profile) == Err::<Seq<char>, (ExpandErrorKind, Seq<char>)>(
                (e.kind, e.name@),
            ),
        },
{
    let mut ret = String::from_str(s);
    let mut budget: usize = MAX_SUBSTITUTIONS;
    loop
        invariant
            expand_spec(s@, profile) == expand_model(ret@, profile, budget as nat),
        decreases budget,
    {
        let chars = chars_of(ret.as_str());
        let n = chars.len();
        assert(chars@.subrange(0, n as int) =~= chars@);
        let start = find_char(&chars, 0, n, '{');
        let end = find_char(&chars, 0, n, '}');
        let (a, b) = match (start, end) {
            (Some(a), Some(b)) => {
                if b <= a {
                    return Ok(ret);
                }
                (a, b)
            },
            _ => {
                return Ok(ret);
            },
        };
        let name = slice_text(ret.as_str(), &chars, a + 1, b);
        match profile.var(name.as_str()) {
            None => {
                return Err(ExpandError { kind: ExpandErrorKind::UnknownVariable, name });
            },
            Some(v) => {
                if v.is_empty() {
                    return Err(ExpandError { kind: ExpandErrorKind::EmptyValue, name });
                }
                if budget == 0 {
                    return Err(ExpandError { kind: ExpandErrorKind::TooManySubstitutions, name });
                }
                let mut next = slice_text(ret.as_str(), &chars, 0, a);
                next.append(v);
                let tail = slice_text(ret.as_str(), &chars, b + 1, n);
                next.append(tail.as_str());
                ret = next;
                budget = budget - 1;
            },
        }
    }
}

/// A component without one leading path separator.
pub open spec fn strip_separator(c: Seq<char>) -> Seq<char> {
    if c.len() > 0 && c[0] == '/' {
        c.drop_first()
    } else {
        c
    }
}

/// Components joined by single path separators.
pub open spec fn join_path(parts: Seq<Seq<char>>) -> Seq<char>
    decreases parts.len(),
{
    if parts.len() == 0 {
        Seq::empty()
    } else if parts.len() == 1 {
        parts[0]
    } else {
        join_path(parts.drop_last()) + seq!['/'] + parts.last()
    }
}

/// The expanded destination components for the pieces of a relative path
/// (the text between its separators): empty pieces are skipped, each other
/// piece is expanded and loses one leading separator. The first fault wins.
pub open spec fn expand_pieces<P: Profile>(pieces: Seq<Seq<char>>, profile: &P) -> Result<
    Seq<Seq<char>>,
    (ExpandErrorKind, Seq<char>),
>
    decreases pieces.len(),
{
    if pieces.len() == 0 {
        Ok(Seq::empty())
    } else {
        match expand_pieces(pieces.drop_last(), profile) {
            Err(e) => Err(e),
            Ok(done) => if pieces.last().len() == 0 {
                Ok(done)
            } else {
                match expand_spec(pieces.last(), profile) {
                    Err(e) => Err(e),
                    Ok(x) => Ok(done.push(strip_separator(x))),
                }
            },
        }
    }
}

/// The relative destination path for the relative source path `p`.
pub open spec fn expand_path_spec<P: Profile>(p: Seq<char>, profile: &P) -> Result<
    Seq<char>,
    (ExpandErrorKind, Seq<char>),
> {
    match expand_pieces(split_on(p, '/'), profile) {
        Ok(parts) => Ok(join_path(parts)),
        Err(e) => Err(e),
    }
}

proof fn lemma_expand_error_stays<P: Profile>(
    pieces: Seq<Seq<char>>,
    profile: &P,
    i: int,
    e: (ExpandErrorKind, Seq<char>),
)
    requires
        0 <= i <= pieces.len(),
        expand_pieces(pieces.take(i), profile) == Err::<Seq<Seq<char>>, (ExpandErrorKind, Seq<char>)>(e),
    ensures
        expand_pieces(pieces, profile) == Err::<Seq<Seq<char>>, (ExpandErrorKind, Seq<char>)>(e),
    decreases pieces.len() - i,
{
    if i < pieces.len() {
        assert(pieces.take(i + 1).drop_last() =~= pieces.take(i));
        lemma_expand_error_stays(pieces, profile, i + 1, e);
    } else {
        assert(pieces.take(i) =~= pieces);
    }
}

/// Expands every component of the relative path `p` (components are
/// separated by `/`) and joins the results with `/`.
pub fn expand_path<P: Profile>(p: &str, profile: &P) -> (r: Result<String, ExpandError>)
    ensures
        match r {
            Ok(v) => expand_path_spec(p@, profile) == Ok::<Seq<char>, (ExpandErrorKind, Seq<char>)>(
                v@,
            ),
            Err(e) => expand_path_spec(p@, profile) == Err::<
                Seq<char>,
                (ExpandErrorKind, Seq<char>),
            >((e.kind, e.name@)),
        },
{
    let chars = chars_of(p);
    let pieces = piece_ranges(&chars, '/');
    let ghost all = split_on(chars@, '/');
    let ghost mut done: Seq<Seq<char>> = Seq::empty();
    let mut path = String::new();
    let mut started = false;
    assert(all.take(0) =~= Seq::<Seq<char>>::empty());
    proof {
        reveal_strlit("/");
    }
    for i in 0..pieces.len()
        invariant
            chars@ == p@,
            all == split_on(chars@, '/'),
            ranges_view(chars@, pieces@) == all,
            forall|k: int|
                0 <= k < pieces@.len() ==> (#[trigger] pieces@[k]).0 <= pieces@[k].1 && pieces@[k].1
                    <= chars@.len(),
            expand_pieces(all.take(i as int), profile) == Ok::<
                Seq<Seq<char>>,
                (ExpandErrorKind, Seq<char>),
            >(done),
            path@ == join_path(done),
            started == (done.len() > 0),
            "/"@ == seq!['/'],
    {
        assert(all.take(i + 1).drop_last() =~= all.take(i as int));
        assert(all[i as int] == chars@.subrange(pieces@[i as int].0 as int, pieces@[i as int].1 as int));
        let (a, b) = pieces[i];
        if a < b {
            let piece = slice_text(p, &chars, a, b);
            match expand_vars(piece.as_str(), profile) {
                Err(e) => {
                    proof {
                        lemma_expand_error_stays(all, profile, i + 1, (e.kind, e.name@));
                    }
                    return Err(e);
                },
                Ok(x) => {
                    let xc = chars_of(x.as_str());
                    let m = xc.len();
                    let from: usize = if m > 0 && xc[0] == '/' {
                        1
                    } else {
                        0
                    };
                    let part = slice_text(x.as_str(), &xc, from, m);
                    assert(part@ =~= strip_separator(x@));
                    if started {
                        path.append("/");
                    }
                    started = true;
                    path.append(part.as_str());
                    proof {
                        let next = done.push(part@);
                        assert(next.drop_last() =~= done);
                        done = next;
                    }
                },
            }
        }
    }
    assert(all.take(pieces@.len() as int) =~= all);
    Ok(path)
}

} // verus!
