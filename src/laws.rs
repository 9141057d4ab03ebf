//! Properties of the install engine that hold for all inputs, stated over
//! the models that the functions' contracts use.
use vstd::prelude::*;

use crate::overlay::expand::{brace_token, expand_model, expand_spec, ExpandErrorKind};
use crate::overlay::ignore::{excludes, regex_finds};
use crate::overlay::{decision_for, entry_key, Decision, SkipReason};
use crate::profile::Profile;

verus! {

/// `c` occurs in `s` first at `i`.
proof fn lemma_first_at(s: Seq<char>, c: char, i: int)
    requires
        0 <= i < s.len(),
        s[i] == c,
        forall|j: int| 0 <= j < i ==> s[j] != c,
    ensures
        s.index_of_first(c) == Some(i),
{
    s.index_of_first_ensures(c);
    assert(s.contains(c));
    let k = s.index_of_first(c)->0;
    if k < i {
        assert(s[k] != c);
    } else if k > i {
        assert(s[i] != c);
    }
}

/// `c` does not occur in `s`.
proof fn lemma_first_none(s: Seq<char>, c: char)
    requires
        forall|j: int| 0 <= j < s.len() ==> s[j] != c,
    ensures
        s.index_of_first(c) is None,
{
    s.index_of_first_ensures(c);
    if s.contains(c) {
        let k = s.index_of_first(c)->0;
        assert(s[k] == c);
    }
}

/// Neither brace occurs in `s`.
pub open spec fn brace_free(s: Seq<char>) -> bool {
    forall|j: int| 0 <= j < s.len() ==> s[j] != '{' && s[j] != '}'
}

/// The text `a{name}b`.
pub open spec fn with_placeholder(a: Seq<char>, name: Seq<char>, b: Seq<char>) -> Seq<char> {
    a + seq!['{'] + name + seq!['}'] + b
}

/// In `a{name}b`, with `a` free of braces and no `}` in `name`, the
/// placeholder is the one that expansion replaces first.
proof fn lemma_placeholder_found(a: Seq<char>, name: Seq<char>, b: Seq<char>)
    requires
        brace_free(a),
        forall|j: int| 0 <= j < name.len() ==> name[j] != '}',
    ensures
        brace_token(with_placeholder(a, name, b)) == Some(
            (a.len() as int, (a.len() + name.len() + 1) as int),
        ),
        with_placeholder(a, name, b).subrange((a.len() + 1) as int, (a.len() + name.len() + 1) as int) == name,
        with_placeholder(a, name, b).subrange(0, a.len() as int) == a,
        with_placeholder(a, name, b).subrange(
            (a.len() + name.len() + 2) as int,
            with_placeholder(a, name, b).len() as int,
        ) == b,
{
    let s = with_placeholder(a, name, b);
    let o = a.len() as int;
    let c = (a.len() + name.len() + 1) as int;
    assert(s[o] == '{');
    assert(forall|j: int| 0 <= j < o ==> s[j] == a[j]);
    lemma_first_at(s, '{', o);
    assert(s[c] == '}');
    assert forall|j: int| 0 <= j < c implies s[j] != '}' by {
        if j < o {
            assert(s[j] == a[j]);
        } else if j > o {
            assert(s[j] == name[j - o - 1]);
        }
    }
    lemma_first_at(s, '}', c);
    assert(s.subrange(o + 1, c) =~= name);
    assert(s.subrange(0, o) =~= a);
    assert(s.subrange(c + 1, s.len() as int) =~= b);
}

/// Expansion leaves a text without a placeholder as it is.
pub proof fn lemma_expand_fixed_point<P: Profile>(s: Seq<char>, profile: &P)
    requires
        brace_token(s) is None,
    ensures
        expand_spec(s, profile) == Ok::<Seq<char>, (ExpandErrorKind, Seq<char>)>(s),
{
}

/// A text around which `a` and `b` (both free of braces) stand gains no
/// placeholder when `v` has none.
proof fn lemma_no_token_around(a: Seq<char>, v: Seq<char>, b: Seq<char>)
    requires
        brace_free(a),
        brace_free(b),
        brace_token(v) is None,
    ensures
        brace_token(a + v + b) is None,
{
    let t = a + v + b;
    let o = a.len() as int;
    v.index_of_first_ensures('{');
    v.index_of_first_ensures('}');
    assert(forall|j: int| 0 <= j < o ==> t[j] == a[j]);
    assert(forall|j: int| o <= j < o + v.len() ==> t[j] == v[j - o]);
    assert(forall|j: int| o + v.len() <= j < t.len() ==> t[j] == b[j - o - v.len()]);
    match v.index_of_first('}') {
        None => {
            assert forall|j: int| 0 <= j < t.len() implies t[j] != '}' by {
                if o <= j < o + v.len() {
                    assert(!v.contains('}'));
                    assert(v[j - o] != '}');
                }
            }
            lemma_first_none(t, '}');
        },
        Some(q) => {
            match v.index_of_first('{') {
                None => {
                    assert forall|j: int| 0 <= j < t.len() implies t[j] != '{' by {
                        if o <= j < o + v.len() {
                            assert(!v.contains('{'));
                            assert(v[j - o] != '{');
                        }
                    }
                    lemma_first_none(t, '{');
                },
                Some(p) => {
                    assert(q < p);
                    lemma_first_at(t, '{', o + p);
                    lemma_first_at(t, '}', o + q);
                },
            }
        },
    }
}

/// A placeholder whose variable has a non-empty value without a
/// placeholder of its own expands to that value, whatever free text stands
/// around it: `{x}` gives `V`, and `a{x}b` gives `aVb`.
pub proof fn lemma_expand_substitutes<P: Profile>(
    profile: &P,
    a: Seq<char>,
    name: Seq<char>,
    v: Seq<char>,
    b: Seq<char>,
)
    requires
        profile.lookup(name) == Some(v),
        v.len() > 0,
        brace_token(v) is None,
        brace_free(a),
        brace_free(name),
        brace_free(b),
    ensures
        expand_spec(with_placeholder(a, name, b), profile) == Ok::<
            Seq<char>,
            (ExpandErrorKind, Seq<char>),
        >(a + v + b),
{
    let s = with_placeholder(a, name, b);
    lemma_placeholder_found(a, name, b);
    let t = s.subrange(0, a.len() as int) + v + s.subrange((a.len() + name.len() + 2) as int, s.len() as int);
    assert(t == a + v + b);
    lemma_no_token_around(a, v, b);
    assert(expand_model(t, profile, (crate::overlay::expand::MAX_SUBSTITUTIONS - 1) as nat) == Ok::<
        Seq<char>,
        (ExpandErrorKind, Seq<char>),
    >(t));
}

/// A placeholder whose variable the profile lacks fails the expansion with
/// `UnknownVariable`, whatever text follows it and whatever free text
/// precedes it.
pub proof fn lemma_expand_unknown<P: Profile>(profile: &P, a: Seq<char>, name: Seq<char>, b: Seq<char>)
    requires
        profile.lookup(name) is None,
        brace_free(a),
        forall|j: int| 0 <= j < name.len() ==> name[j] != '}',
    ensures
        expand_spec(with_placeholder(a, name, b), profile) == Err::<
            Seq<char>,
            (ExpandErrorKind, Seq<char>),
        >((ExpandErrorKind::UnknownVariable, name)),
{
    lemma_placeholder_found(a, name, b);
}

/// A placeholder whose variable is bound to the empty string fails the
/// expansion with `EmptyValue`, whatever text follows it and whatever free
/// text precedes it.
pub proof fn lemma_expand_empty<P: Profile>(profile: &P, a: Seq<char>, name: Seq<char>, b: Seq<char>)
    requires
        profile.lookup(name) == Some(Seq::<char>::empty()),
        brace_free(a),
        forall|j: int| 0 <= j < name.len() ==> name[j] != '}',
    ensures
        expand_spec(with_placeholder(a, name, b), profile) == Err::<
            Seq<char>,
            (ExpandErrorKind, Seq<char>),
        >((ExpandErrorKind::EmptyValue, name)),
{
    lemma_placeholder_found(a, name, b);
}

/// Whether a set of ignore patterns excludes a path does not depend on the
/// order of the patterns, only on which patterns there are.
pub proof fn lemma_ignore_order_irrelevant(p: Seq<Seq<char>>, q: Seq<Seq<char>>, text: Seq<char>)
    requires
        p.to_set() == q.to_set(),
    ensures
        excludes(p, text) == excludes(q, text),
{
    if excludes(p, text) {
        let i = choose|i: int| 0 <= i < p.len() && regex_finds(#[trigger] p[i], text);
        assert(p.to_set().contains(p[i]));
        assert(q.to_set().contains(p[i]));
        let j = choose|j: int| 0 <= j < q.len() && q[j] == p[i];
        assert(regex_finds(q[j], text));
    }
    if excludes(q, text) {
        let i = choose|i: int| 0 <= i < q.len() && regex_finds(#[trigger] q[i], text);
        assert(q.to_set().contains(q[i]));
        assert(p.to_set().contains(q[i]));
        let j = choose|j: int| 0 <= j < p.len() && p[j] == q[i];
        assert(regex_finds(p[j], text));
    }
}

/// A single pattern excludes the entry at relative path `rel` exactly when
/// it matches `/` followed by `rel`.
pub proof fn lemma_single_pattern(pattern: Seq<char>, rel: Seq<char>)
    ensures
        excludes(seq![pattern], entry_key(rel)) == regex_finds(pattern, seq!['/'] + rel),
{
    if regex_finds(pattern, seq!['/'] + rel) {
        assert(seq![pattern][0] == pattern);
    }
}

/// With overwriting off, an existing destination is left alone whatever
/// the update setting and the modification times.
pub proof fn lemma_no_overwrite_keeps_destination(
    update: bool,
    dry_run: bool,
    hard_link: bool,
    src_is_dir: bool,
    src_mtime: Option<i128>,
    dst_mtime: Option<i128>,
    now: i128,
)
    ensures
        decision_for(true, update, dry_run, hard_link, src_is_dir, true, src_mtime, dst_mtime, now)
            == Decision::Skip(SkipReason::AlreadyExists),
{
}

/// When updating, a destination at least as new as its source is left
/// alone; so a second run over an unchanged source, whose first run left
/// every destination at least as new as its source, writes nothing.
pub proof fn lemma_update_rerun_writes_nothing(
    no_overwrite: bool,
    dry_run: bool,
    hard_link: bool,
    src_is_dir: bool,
    src_mtime: i128,
    dst_mtime: i128,
    now: i128,
)
    requires
        dst_mtime >= src_mtime,
    ensures
        decision_for(
            no_overwrite,
            true,
            dry_run,
            hard_link,
            src_is_dir,
            true,
            Some(src_mtime),
            Some(dst_mtime),
            now,
        ) is Skip,
{
}

} // verus!
