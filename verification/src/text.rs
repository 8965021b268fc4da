//! Character-level text helpers shared by the key-action codec and the
//! configuration codec: ASCII lowercasing, whitespace trimming, and
//! splitting on a separator character.

use vstd::prelude::*;

verus! {

/// ASCII lowercase of one character; other characters are unchanged.
pub open spec fn spec_lower_char(c: char) -> char {
    if 'A' <= c && c <= 'Z' {
        (((c as u8) + 32) as u8) as char
    } else {
        c
    }
}

/// ASCII lowercase of a character sequence.
pub open spec fn spec_lower(s: Seq<char>) -> Seq<char> {
    s.map_values(|c: char| spec_lower_char(c))
}

/// The whitespace characters recognized when trimming.
pub open spec fn is_space_char(c: char) -> bool {
    c == ' ' || c == '\t' || c == '\n' || c == '\r'
}

/// `s` without its leading whitespace.
pub open spec fn spec_trim_front(s: Seq<char>) -> Seq<char>
    decreases s.len(),
{
    if s.len() > 0 && is_space_char(s[0]) {
        spec_trim_front(s.drop_first())
    } else {
        s
    }
}

/// `s` without its trailing whitespace.
pub open spec fn spec_trim_back(s: Seq<char>) -> Seq<char>
    decreases s.len(),
{
    if s.len() > 0 && is_space_char(s.last()) {
        spec_trim_back(s.drop_last())
    } else {
        s
    }
}

/// `s` without leading and trailing whitespace.
pub open spec fn spec_trim(s: Seq<char>) -> Seq<char> {
    spec_trim_back(spec_trim_front(s))
}

/// The segments of `s` between occurrences of `sep`, in order. A string
/// without the separator is one segment; every separator adds a segment,
/// so the result always has one segment more than `s` has separators.
pub open spec fn spec_split(s: Seq<char>, sep: char) -> Seq<Seq<char>>
    decreases s.len(),
{
    if s.len() == 0 {
        seq![Seq::<char>::empty()]
    } else if s[0] == sep {
        seq![Seq::<char>::empty()] + spec_split(s.drop_first(), sep)
    } else {
        let rest = spec_split(s.drop_first(), sep);
        seq![seq![s[0]] + rest[0]] + rest.drop_first()
    }
}

/// A split always yields at least one segment.
pub proof fn lemma_split_len(s: Seq<char>, sep: char)
    ensures
        spec_split(s, sep).len() >= 1,
    decreases s.len(),
{
    if s.len() > 0 {
        lemma_split_len(s.drop_first(), sep);
    }
}

/// The first segment of a split is empty exactly when the string starts
/// with the separator.
pub proof fn lemma_split_first(t: Seq<char>, sep: char)
    requires
        t.len() > 0,
    ensures
        (spec_split(t, sep)[0].len() == 0) == (t[0] == sep),
{
    lemma_split_len(t.drop_first(), sep);
}

/// A string ending in the separator splits into at least two segments, the
/// last of them empty.
pub proof fn lemma_split_last(t: Seq<char>, sep: char)
    requires
        t.len() > 0,
        t.last() == sep,
    ensures
        spec_split(t, sep).len() >= 2,
        spec_split(t, sep).last().len() == 0,
    decreases t.len(),
{
    lemma_split_len(t.drop_first(), sep);
    if t.len() == 1 {
        assert(t[0] == sep);
        assert(t.drop_first().len() == 0);
    } else {
        let rest = t.drop_first();
        assert(rest.last() == t.last());
        lemma_split_last(rest, sep);
        let r = spec_split(rest, sep);
        if t[0] == sep {
            assert(spec_split(t, sep).last() == r.last());
        } else {
            assert(spec_split(t, sep).last() == r.drop_first().last());
            assert(r.drop_first().last() == r.last());
        }
    }
}

/// Two adjacent separators leave an empty segment somewhere after the
/// first one.
pub proof fn lemma_split_double(t: Seq<char>, sep: char, i: int)
    requires
        0 <= i < t.len() - 1,
        t[i] == sep,
        t[i + 1] == sep,
    ensures
        exists|k: int|
            1 <= k < spec_split(t, sep).len() && (#[trigger] spec_split(t, sep)[k]).len() == 0,
    decreases t.len(),
{
    let rest = t.drop_first();
    let r = spec_split(rest, sep);
    lemma_split_len(rest, sep);
    if t[0] == sep {
        if i == 0 {
            assert(rest[0] == sep);
            lemma_split_first(rest, sep);
            assert(spec_split(t, sep)[1] == r[0]);
            assert((spec_split(t, sep)[1]).len() == 0);
        } else {
            lemma_split_double(rest, sep, i - 1);
            let kr = choose|k: int| 1 <= k < r.len() && (#[trigger] r[k]).len() == 0;
            assert(spec_split(t, sep)[kr + 1] == r[kr]);
            assert((spec_split(t, sep)[kr + 1]).len() == 0);
        }
    } else {
        assert(i >= 1);
        lemma_split_double(rest, sep, i - 1);
        let kr = choose|k: int| 1 <= k < r.len() && (#[trigger] r[k]).len() == 0;
        assert(spec_split(t, sep)[kr] == r.drop_first()[kr - 1]);
        assert((spec_split(t, sep)[kr]).len() == 0);
    }
}

/// The index of the first occurrence of `c` in `s`, or -1 if there is
/// none.
pub open spec fn spec_find_char(s: Seq<char>, c: char) -> int
    decreases s.len(),
{
    if s.len() == 0 {
        -1
    } else if s[0] == c {
        0
    } else {
        let r = spec_find_char(s.drop_first(), c);
        if r < 0 {
            -1
        } else {
            r + 1
        }
    }
}

proof fn lemma_find_char_at(s: Seq<char>, c: char, j: int)
    requires
        0 <= j < s.len(),
        s[j] == c,
        forall|k: int| 0 <= k < j ==> s[k] != c,
    ensures
        spec_find_char(s, c) == j,
    decreases j,
{
    if j > 0 {
        lemma_find_char_at(s.drop_first(), c, j - 1);
    }
}

proof fn lemma_find_char_none(s: Seq<char>, c: char)
    requires
        forall|k: int| 0 <= k < s.len() ==> s[k] != c,
    ensures
        spec_find_char(s, c) == -1,
    decreases s.len(),
{
    if s.len() > 0 {
        lemma_find_char_none(s.drop_first(), c);
    }
}

/// Finds the first occurrence of `c` within `[from, to)` of `chars`.
pub fn find_char_in(chars: &Vec<char>, from: usize, to: usize, c: char) -> (r: Option<usize>)
    requires
        from <= to <= chars@.len(),
    ensures
        match r {
            Some(i) => from <= i < to && spec_find_char(
                chars@.subrange(from as int, to as int),
                c,
            ) == i - from,
            None => spec_find_char(chars@.subrange(from as int, to as int), c) == -1,
        },
{
    let ghost s = chars@.subrange(from as int, to as int);
    let mut i = from;
    while i < to
        invariant
            from <= i <= to <= chars@.len(),
            s == chars@.subrange(from as int, to as int),
            forall|k: int| 0 <= k < i - from ==> s[k] != c,
        decreases to - i,
    {
        if chars[i] == c {
            proof {
                assert(s[i - from] == c);
                lemma_find_char_at(s, c, i - from);
            }
            return Some(i);
        }
        i = i + 1;
    }
    proof {
        lemma_find_char_none(s, c);
    }
    None
}

/// Whether the segment `[from, to)` of `chars` equals `lit`, character for
/// character.
pub fn token_eq(chars: &Vec<char>, from: usize, to: usize, lit: &str) -> (r: bool)
    requires
        from <= to <= chars@.len(),
    ensures
        r == (chars@.subrange(from as int, to as int) == lit@),
{
    let ghost tok = chars@.subrange(from as int, to as int);
    let n = lit.unicode_len();
    if n != to - from {
        return false;
    }
    let mut i: usize = 0;
    while i < n
        invariant
            from <= to <= chars@.len(),
            n == to - from,
            n == lit@.len(),
            i <= n,
            tok == chars@.subrange(from as int, to as int),
            forall|j: int| 0 <= j < i ==> tok[j] == lit@[j],
        decreases n - i,
    {
        if chars[from + i] != lit.get_char(i) {
            proof {
                assert(tok[i as int] != lit@[i as int]);
            }
            return false;
        }
        i = i + 1;
    }
    proof {
        assert(tok =~= lit@);
    }
    true
}

proof fn lemma_trim_front_skip(s: Seq<char>, k: int)
    requires
        0 <= k <= s.len(),
        forall|j: int| 0 <= j < k ==> is_space_char(s[j]),
        k < s.len() ==> !is_space_char(s[k]),
    ensures
        spec_trim_front(s) =~= s.skip(k),
    decreases k,
{
    if k == 0 {
        assert(spec_trim_front(s) =~= s.skip(0));
    } else {
        assert(is_space_char(s[0]));
        let t = s.drop_first();
        assert(t =~= s.skip(1));
        lemma_trim_front_skip(t, k - 1);
        assert(t.skip(k - 1) =~= s.skip(k));
    }
}

proof fn lemma_trim_back_take(s: Seq<char>, k: int)
    requires
        0 <= k <= s.len(),
        forall|j: int| k <= j < s.len() ==> is_space_char(s[j]),
        k > 0 ==> !is_space_char(s[k - 1]),
    ensures
        spec_trim_back(s) =~= s.take(k),
    decreases s.len(),
{
    if k == s.len() {
        assert(spec_trim_back(s) =~= s.take(k));
    } else {
        assert(is_space_char(s.last()));
        let t = s.drop_last();
        assert(t =~= s.take(s.len() - 1));
        lemma_trim_back_take(t, k);
        assert(t.take(k) =~= s.take(k));
    }
}

/// ASCII uppercase of one character; other characters are unchanged.
pub open spec fn spec_upper_char(c: char) -> char {
    if 'a' <= c && c <= 'z' {
        (((c as u8) - 32) as u8) as char
    } else {
        c
    }
}

/// ASCII uppercase of a character sequence.
pub open spec fn spec_upper(s: Seq<char>) -> Seq<char> {
    s.map_values(|c: char| spec_upper_char(c))
}

/// Relies on String::push: appends the given character to the end of the
/// string.
#[verifier::external_body]
pub fn push_char(s: &mut String, c: char)
    ensures
        final(s)@ == old(s)@.push(c),
{
    s.push(c)
}

/// Uppercases one character, folding ASCII lowercase letters.
pub fn upper_char(c: char) -> (r: char)
    ensures
        r == spec_upper_char(c),
{
    if 'a' <= c && c <= 'z' {
        ((c as u8) - 32) as char
    } else {
        c
    }
}

/// Lowercases one character, folding ASCII uppercase letters.
pub fn lower_char(c: char) -> (r: char)
    ensures
        r == spec_lower_char(c),
{
    if 'A' <= c && c <= 'Z' {
        ((c as u8) + 32) as char
    } else {
        c
    }
}

/// Whether `c` counts as whitespace for trimming.
pub fn is_space(c: char) -> (r: bool)
    ensures
        r == is_space_char(c),
{
    c == ' ' || c == '\t' || c == '\n' || c == '\r'
}

/// Collects the characters of `s` into a vector.
pub fn chars_of(s: &str) -> (r: Vec<char>)
    ensures
        r@ == s@,
{
    let n = s.unicode_len();
    let mut r: Vec<char> = Vec::new();
    let mut i: usize = 0;
    while i < n
        invariant
            n == s@.len(),
            i <= n,
            r@ =~= s@.take(i as int),
        decreases n - i,
    {
        r.push(s.get_char(i));
        i = i + 1;
        proof {
            assert(r@ =~= s@.take(i as int));
        }
    }
    proof {
        assert(r@ =~= s@);
    }
    r
}

/// Narrows `[from, to)` to the whitespace-trimmed subrange of `chars`.
pub fn trim_range(chars: &Vec<char>, from: usize, to: usize) -> (r: (usize, usize))
    requires
        from <= to <= chars@.len(),
    ensures
        from <= r.0 <= r.1 <= to,
        chars@.subrange(r.0 as int, r.1 as int) =~= spec_trim(
            chars@.subrange(from as int, to as int),
        ),
{
    let ghost s = chars@.subrange(from as int, to as int);
    let mut lo = from;
    while lo < to && is_space(chars[lo])
        invariant
            from <= lo <= to <= chars@.len(),
            forall|j: int| from <= j < lo ==> is_space_char(chars@[j]),
        decreases to - lo,
    {
        lo = lo + 1;
    }
    let mut hi = to;
    while hi > lo && is_space(chars[hi - 1])
        invariant
            from <= lo <= hi <= to <= chars@.len(),
            forall|j: int| from <= j < lo ==> is_space_char(chars@[j]),
            forall|j: int| hi <= j < to ==> is_space_char(chars@[j]),
        decreases hi - lo,
    {
        hi = hi - 1;
    }
    proof {
        lemma_trim_front_skip(s, lo - from);
        let t = s.skip(lo - from);
        assert(t =~= chars@.subrange(lo as int, to as int));
        lemma_trim_back_take(t, hi - lo);
        assert(t.take(hi - lo) =~= chars@.subrange(lo as int, hi as int));
    }
    (lo, hi)
}

/// Splits `[from, to)` of `chars` at every occurrence of `sep`, returning
/// the segment boundaries in order.
pub fn split_ranges(chars: &Vec<char>, from: usize, to: usize, sep: char) -> (r: Vec<
    (usize, usize),
>)
    requires
        from <= to <= chars@.len(),
    ensures
        r@.len() == spec_split(chars@.subrange(from as int, to as int), sep).len(),
        r@.len() >= 1,
        r@[0].0 == from,
        forall|k: int|
            0 <= k < r@.len() ==> from <= #[trigger] r@[k].0 <= r@[k].1 <= to,
        forall|k: int|
            0 <= k < r@.len() ==> chars@.subrange(#[trigger] r@[k].0 as int, r@[k].1 as int)
                =~= spec_split(chars@.subrange(from as int, to as int), sep)[k],
    decreases to - from,
{
    let ghost s = chars@.subrange(from as int, to as int);
    proof {
        lemma_split_len(s, sep);
    }
    if from == to {
        let r: Vec<(usize, usize)> = vec![(from, to)];
        proof {
            assert(s =~= Seq::<char>::empty());
            assert(chars@.subrange(from as int, to as int) =~= spec_split(s, sep)[0]);
        }
        r
    } else if chars[from] == sep {
        let mut rest = split_ranges(chars, from + 1, to, sep);
        proof {
            assert(s.drop_first() =~= chars@.subrange(from + 1, to as int));
            assert(spec_split(s, sep) =~= seq![Seq::<char>::empty()] + spec_split(
                s.drop_first(),
                sep,
            ));
        }
        rest.insert(0, (from, from));
        proof {
            assert(chars@.subrange(from as int, from as int) =~= Seq::<char>::empty());
            assert forall|k: int| 0 <= k < rest@.len() implies chars@.subrange(
                #[trigger] rest@[k].0 as int,
                rest@[k].1 as int,
            ) =~= spec_split(s, sep)[k] by {
                if k > 0 {
                    assert(rest@[k] == rest@.subrange(1, rest@.len() as int)[k - 1]);
                }
            }
        }
        rest
    } else {
        let mut rest = split_ranges(chars, from + 1, to, sep);
        let ghost srest = spec_split(s.drop_first(), sep);
        proof {
            assert(s.drop_first() =~= chars@.subrange(from + 1, to as int));
            assert(spec_split(s, sep) =~= seq![seq![s[0]] + srest[0]] + srest.drop_first());
        }
        let b = rest[0].1;
        let ghost old_rest = rest@;
        rest[0] = (from, b);
        proof {
            assert(rest@ =~= old_rest.update(0, (from, b)));
            assert(chars@.subrange(from as int, b as int) =~= seq![s[0]] + chars@.subrange(
                from + 1,
                b as int,
            ));
            assert(chars@.subrange(from + 1, b as int) =~= srest[0]);
            assert forall|k: int| 0 <= k < rest@.len() implies chars@.subrange(
                #[trigger] rest@[k].0 as int,
                rest@[k].1 as int,
            ) =~= spec_split(s, sep)[k] by {
                if k > 0 {
                    assert(rest@[k] == old_rest[k]);
                    assert(spec_split(s, sep)[k] == srest.drop_first()[k - 1]);
                }
            }
        }
        rest
    }
}

/// Whether the lowercased segment `[from, to)` of `chars` equals `lit`.
pub fn token_matches(chars: &Vec<char>, from: usize, to: usize, lit: &str) -> (r: bool)
    requires
        from <= to <= chars@.len(),
    ensures
        r == (spec_lower(chars@.subrange(from as int, to as int)) == lit@),
{
    let ghost tok = spec_lower(chars@.subrange(from as int, to as int));
    let n = lit.unicode_len();
    if n != to - from {
        proof {
            assert(tok.len() == to - from);
        }
        return false;
    }
    let mut i: usize = 0;
    while i < n
        invariant
            from <= to <= chars@.len(),
            n == to - from,
            n == lit@.len(),
            i <= n,
            tok == spec_lower(chars@.subrange(from as int, to as int)),
            forall|j: int| 0 <= j < i ==> tok[j] == lit@[j],
        decreases n - i,
    {
        let c = lower_char(chars[from + i]);
        proof {
            assert(tok[i as int] == spec_lower_char(chars@.subrange(from as int, to as int)[
                i as int
            ]));
        }
        if c != lit.get_char(i) {
            proof {
                assert(tok[i as int] != lit@[i as int]);
            }
            return false;
        }
        i = i + 1;
    }
    proof {
        assert(tok =~= lit@);
    }
    true
}

} // verus!
