//! Character-level helpers shared by the parsers: line splitting, trimming
//! and substring extraction over the `Seq<char>` view of strings.
use vstd::prelude::*;

verus! {

/// The Unicode `White_Space` property, which `char::is_whitespace` tests.
pub open spec fn is_white_space(c: char) -> bool {
    let u = c as u32;
    ||| 0x09 <= u <= 0x0D
    ||| u == 0x20
    ||| u == 0x85
    ||| u == 0xA0
    ||| u == 0x1680
    ||| 0x2000 <= u <= 0x200A
    ||| u == 0x2028
    ||| u == 0x2029
    ||| u == 0x202F
    ||| u == 0x205F
    ||| u == 0x3000
}

/// `s` without its leading white space.
pub open spec fn trim_start(s: Seq<char>) -> Seq<char>
    decreases s.len(),
{
    if s.len() > 0 && is_white_space(s[0]) {
        trim_start(s.drop_first())
    } else {
        s
    }
}

/// `s` without its trailing white space.
pub open spec fn trim_end(s: Seq<char>) -> Seq<char>
    decreases s.len(),
{
    if s.len() > 0 && is_white_space(s.last()) {
        trim_end(s.drop_last())
    } else {
        s
    }
}

/// `s` without white space at either end, as `str::trim` returns it.
pub open spec fn trim(s: Seq<char>) -> Seq<char> {
    trim_end(trim_start(s))
}

/// The pieces of `s` between the separators `sep`; always at least one piece.
pub open spec fn split_on(s: Seq<char>, sep: char) -> Seq<Seq<char>>
    decreases s.len(),
{
    if s.len() == 0 {
        seq![Seq::<char>::empty()]
    } else {
        let rest = split_on(s.drop_last(), sep);
        if s.last() == sep {
            rest.push(Seq::<char>::empty())
        } else {
            rest.update(rest.len() - 1, rest.last().push(s.last()))
        }
    }
}

/// The lines of `s`: the pieces between newline characters.
pub open spec fn lines_of(s: Seq<char>) -> Seq<Seq<char>> {
    split_on(s, '\n')
}

/// The substrings of `s` that a list of ranges designates.
pub open spec fn ranges_view(s: Seq<char>, r: Seq<(usize, usize)>) -> Seq<Seq<char>> {
    r.map_values(|p: (usize, usize)| s.subrange(p.0 as int, p.1 as int))
}

/// Tests a character for white space.
pub fn is_space(c: char) -> (r: bool)
    ensures
        r == is_white_space(c),
{
    let u = c as u32;
    (0x09 <= u && u <= 0x0D) || u == 0x20 || u == 0x85 || u == 0xA0 || u == 0x1680 || (0x2000
        <= u && u <= 0x200A) || u == 0x2028 || u == 0x2029 || u == 0x202F || u == 0x205F || u
        == 0x3000
}

/// The characters of `s`, in order.
pub fn chars_of(s: &str) -> (r: Vec<char>)
    ensures
        r@ == s@,
{
    let mut r: Vec<char> = Vec::new();
    for c in it: s.chars()
        invariant
            it.seq() == s@,
            r@ == it.seq().subrange(0, it.index() as int),
    {
        r.push(c);
    }
    r
}

/// Narrows the range `[a, b)` of `chars` to its trimmed part.
pub fn trim_range(chars: &Vec<char>, a: usize, b: usize) -> (r: (usize, usize))
    requires
        a <= b <= chars@.len(),
    ensures
        a <= r.0 <= r.1 <= b,
        chars@.subrange(r.0 as int, r.1 as int) == trim(chars@.subrange(a as int, b as int)),
{
    let mut i = a;
    while i < b && is_space(chars[i])
        invariant
            a <= i <= b <= chars@.len(),
            trim_start(chars@.subrange(a as int, b as int)) == trim_start(
                chars@.subrange(i as int, b as int),
            ),
        decreases b - i,
    {
        assert(chars@.subrange(i as int, b as int).drop_first() =~= chars@.subrange(
            i + 1,
            b as int,
        ));
        i = i + 1;
    }
    let mut j = b;
    while j > i && is_space(chars[j - 1])
        invariant
            a <= i <= j <= b <= chars@.len(),
            trim_end(chars@.subrange(i as int, b as int)) == trim_end(
                chars@.subrange(i as int, j as int),
            ),
        decreases j - i,
    {
        assert(chars@.subrange(i as int, j as int).drop_last() =~= chars@.subrange(
            i as int,
            j - 1,
        ));
        j = j - 1;
    }
    (i, j)
}

/// The ranges of the pieces of `chars` between the separators `sep`, as
/// `split_on` cuts them.
pub fn piece_ranges(chars: &Vec<char>, sep: char) -> (r: Vec<(usize, usize)>)
    ensures
        ranges_view(chars@, r@) == split_on(chars@, sep),
        forall|k: int| 0 <= k < r@.len() ==> (#[trigger] r@[k]).0 <= r@[k].1 && r@[k].1 <= chars@.len(),
{
    let mut r: Vec<(usize, usize)> = Vec::new();
    let mut start: usize = 0;
    let n = chars.len();
    assert(ranges_view(chars@, r@) =~= Seq::<Seq<char>>::empty());
    assert(chars@.subrange(0, 0) =~= Seq::<char>::empty());
    assert(split_on(Seq::<char>::empty(), sep) == seq![Seq::<char>::empty()]);
    assert(ranges_view(chars@, r@).push(chars@.subrange(0, 0)) =~= split_on(
        chars@.subrange(0, 0),
        sep,
    ));
    for i in 0..n
        invariant
            n == chars@.len(),
            start <= i,
            ranges_view(chars@, r@).push(chars@.subrange(start as int, i as int)) == split_on(
                chars@.subrange(0, i as int),
                sep,
            ),
            forall|k: int| 0 <= k < r@.len() ==> (#[trigger] r@[k]).0 <= r@[k].1 && r@[k].1 <= i,
    {
        let ghost prev = chars@.subrange(0, i as int);
        assert(chars@.subrange(0, i + 1).drop_last() =~= prev);
        if chars[i] == sep {
            r.push((start, i));
            assert(ranges_view(chars@, r@) =~= ranges_view(chars@, r@.drop_last()).push(
                chars@.subrange(start as int, i as int),
            ));
            start = i + 1;
            assert(chars@.subrange(start as int, start as int) =~= Seq::<char>::empty());
        } else {
            assert(chars@.subrange(start as int, i + 1) =~= chars@.subrange(
                start as int,
                i as int,
            ).push(chars@[i as int]));
        }
        assert(ranges_view(chars@, r@).push(chars@.subrange(start as int, i + 1)) =~= split_on(
            chars@.subrange(0, i + 1),
            sep,
        ));
    }
    assert(chars@.subrange(0, n as int) =~= chars@);
    r.push((start, n));
    assert(ranges_view(chars@, r@) =~= ranges_view(chars@, r@.drop_last()).push(
        chars@.subrange(start as int, n as int),
    ));
    r
}

/// Position of the first `c` in `chars[a..b)`, counted from `a`.
pub fn find_char(chars: &Vec<char>, a: usize, b: usize, c: char) -> (r: Option<usize>)
    requires
        a <= b <= chars@.len(),
    ensures
        match r {
            Some(q) => a <= q < b && chars@.subrange(a as int, b as int).index_of_first(c) == Some(
                q - a,
            ),
            None => chars@.subrange(a as int, b as int).index_of_first(c) is None,
        },
{
    let ghost t = chars@.subrange(a as int, b as int);
    proof {
        t.index_of_first_ensures(c);
    }
    let mut q = a;
    while q < b
        invariant
            a <= q <= b <= chars@.len(),
            t == chars@.subrange(a as int, b as int),
            forall|j: int| a <= j < q ==> chars@[j] != c,
            match t.index_of_first(c) {
                Some(k) => 0 <= k < t.len() && t[k] == c && forall|j: int|
                    0 <= j < k ==> t[j] != c,
                None => !t.contains(c),
            },
        decreases b - q,
    {
        if chars[q] == c {
            assert(t[q - a] == c);
            return Some(q);
        }
        q = q + 1;
    }
    proof {
        if t.contains(c) {
            let k = t.index_of_first(c)->0;
            assert(chars@[a + k] == c);
        }
    }
    None
}

/// The text of `chars[a..b)` as a string, where `chars` are those of `s`.
pub fn slice_text(s: &str, chars: &Vec<char>, a: usize, b: usize) -> (r: String)
    requires
        chars@ == s@,
        a <= b <= chars@.len(),
    ensures
        r@ == s@.subrange(a as int, b as int),
{
    String::from_str(s.substring_char(a, b))
}

} // verus!
