//! The key-action codec: parsing a human action string such as
//! `"cmd+shift+z"` into a modifier bitmask and a USB HID usage code, and
//! formatting an assignment back for display.

use vstd::prelude::*;

use crate::keycodes::{
    key_code_of, modifier_mask_of, spec_key_code, spec_key_name, spec_modifier_mask,
    MOD_LEFT_ALT, MOD_LEFT_CTRL, MOD_LEFT_GUI, MOD_LEFT_SHIFT,
};
use crate::text::{
    chars_of, lemma_split_double, lemma_split_first, lemma_split_last, lemma_split_len,
    push_char, spec_lower, spec_split, spec_trim, spec_upper, spec_upper_char, split_ranges,
    trim_range, upper_char,
};

verus! {

/// One pedal's logical key assignment: a modifier bitmask and one usage code.
#[derive(Clone, Copy, PartialEq, Eq, Structural, Debug)]
pub struct KeyAction {
    pub modifiers: u8,
    pub key: u8,
}

/// Why an action string was rejected. The token-carrying variants name the
/// offending token as it was written (trimmed, original case).
#[derive(Debug, PartialEq, Eq)]
pub enum ParseError {
    /// The string was empty or whitespace-only.
    EmptyInput,
    /// The string starts or ends with `+`, contains `++`, or has a
    /// whitespace-only segment between separators.
    MalformedSeparator,
    /// A token before the last is not a known modifier alias.
    UnknownModifier(String),
    /// The last token is not a known key name.
    UnknownKey(String),
}

/// Specification-level mirror of [`ParseError`], carrying token views.
pub enum SpecParseError {
    EmptyInput,
    MalformedSeparator,
    UnknownModifier(Seq<char>),
    UnknownKey(Seq<char>),
}

/// The view of an exec parse result, for stating contracts.
pub open spec fn action_result_view(r: Result<KeyAction, ParseError>) -> Result<
    KeyAction,
    SpecParseError,
> {
    match r {
        Ok(a) => Ok(a),
        Err(ParseError::EmptyInput) => Err(SpecParseError::EmptyInput),
        Err(ParseError::MalformedSeparator) => Err(SpecParseError::MalformedSeparator),
        Err(ParseError::UnknownModifier(t)) => Err(SpecParseError::UnknownModifier(t@)),
        Err(ParseError::UnknownKey(t)) => Err(SpecParseError::UnknownKey(t@)),
    }
}

/// The trimmed tokens of an action string: the trimmed string is split on
/// `+` and each segment is trimmed again.
pub open spec fn spec_tokens(s: Seq<char>) -> Seq<Seq<char>> {
    spec_split(spec_trim(s), '+').map_values(|p: Seq<char>| spec_trim(p))
}

/// Whether the trimmed string has two adjacent separators.
pub open spec fn spec_has_double_plus(t: Seq<char>) -> bool {
    exists|i: int| 0 <= i < t.len() - 1 && #[trigger] t[i] == '+' && t[i + 1] == '+'
}

/// The first rejection among the modifier tokens (all but the last), in
/// token order: an empty token is a separator fault, an unrecognized one
/// an unknown modifier.
pub open spec fn spec_first_mod_err(toks: Seq<Seq<char>>, i: int) -> Option<SpecParseError>
    decreases toks.len() - i,
{
    if i < 0 || i >= toks.len() - 1 {
        None
    } else if toks[i].len() == 0 {
        Some(SpecParseError::MalformedSeparator)
    } else if spec_modifier_mask(spec_lower(toks[i])) is None {
        Some(SpecParseError::UnknownModifier(toks[i]))
    } else {
        spec_first_mod_err(toks, i + 1)
    }
}

/// Whether some modifier token (all but the last) names the bit `bit`.
pub open spec fn spec_has_mod_bit(toks: Seq<Seq<char>>, n: int, bit: u8) -> bool {
    exists|j: int| 0 <= j < n && spec_modifier_mask(spec_lower(toks[j])) == Some(bit)
}

/// The modifier bitmask an action string's modifier tokens denote: the
/// union of the bits its tokens name. Order and repetition of tokens do
/// not matter, by construction.
pub open spec fn spec_mods_value(toks: Seq<Seq<char>>, n: int) -> u8 {
    ((if spec_has_mod_bit(toks, n, MOD_LEFT_GUI) {
        MOD_LEFT_GUI
    } else {
        0
    }) + (if spec_has_mod_bit(toks, n, MOD_LEFT_ALT) {
        MOD_LEFT_ALT
    } else {
        0
    }) + (if spec_has_mod_bit(toks, n, MOD_LEFT_SHIFT) {
        MOD_LEFT_SHIFT
    } else {
        0
    }) + (if spec_has_mod_bit(toks, n, MOD_LEFT_CTRL) {
        MOD_LEFT_CTRL
    } else {
        0
    })) as u8
}

/// What parsing an action string yields: the assignment, or the first
/// rejection in the order the string is examined. The whole string is
/// trimmed; an empty result is rejected, then a leading or trailing
/// separator or a doubled separator, then the tokens in order.
pub open spec fn spec_action(s: Seq<char>) -> Result<KeyAction, SpecParseError> {
    let t = spec_trim(s);
    if t.len() == 0 {
        Err(SpecParseError::EmptyInput)
    } else if t[0] == '+' || t[t.len() - 1] == '+' {
        Err(SpecParseError::MalformedSeparator)
    } else if spec_has_double_plus(t) {
        Err(SpecParseError::MalformedSeparator)
    } else {
        let toks = spec_tokens(s);
        let n = toks.len() as int;
        match spec_first_mod_err(toks, 0) {
            Some(e) => Err(e),
            None => {
                let last = toks[n - 1];
                if last.len() == 0 {
                    Err(SpecParseError::MalformedSeparator)
                } else {
                    match spec_key_code(spec_lower(last)) {
                        Some(key) => Ok(
                            KeyAction { modifiers: spec_mods_value(toks, n - 1), key },
                        ),
                        None => Err(SpecParseError::UnknownKey(last)),
                    }
                }
            },
        }
    }
}

proof fn lemma_mod_err_from(toks: Seq<Seq<char>>, i: int)
    requires
        0 <= i <= toks.len(),
        forall|j: int|
            0 <= j < i && j < toks.len() - 1 ==> (#[trigger] toks[j]).len() > 0
                && spec_modifier_mask(spec_lower(toks[j])) is Some,
    ensures
        spec_first_mod_err(toks, 0) == spec_first_mod_err(toks, i),
    decreases i,
{
    if i > 0 {
        lemma_mod_err_from(toks, i - 1);
        if i - 1 < toks.len() - 1 {
            assert(spec_first_mod_err(toks, i - 1) == spec_first_mod_err(toks, i));
        } else {
            assert(spec_first_mod_err(toks, i - 1) == None::<SpecParseError>);
            assert(spec_first_mod_err(toks, i) == None::<SpecParseError>);
        }
    }
}

proof fn lemma_mod_err_none_all(toks: Seq<Seq<char>>, i: int)
    requires
        0 <= i,
        spec_first_mod_err(toks, i) is None,
    ensures
        forall|j: int|
            i <= j < toks.len() - 1 ==> (#[trigger] toks[j]).len() > 0 && spec_modifier_mask(
                spec_lower(toks[j]),
            ) is Some,
    decreases toks.len() - i,
{
    if i < toks.len() - 1 {
        lemma_mod_err_none_all(toks, i + 1);
    }
}

/// Modifier tokens act as a set. If an action string parses, and a second
/// string has the same final (key) token and the same set of tokens before
/// it — whatever their order and however often each is repeated — the two
/// strings parse to the same assignment. Order-independence and
/// idempotence under duplicated modifiers are the two instances.
pub proof fn lemma_action_modifier_set(s1: Seq<char>, s2: Seq<char>)
    requires
        spec_action(s1) is Ok,
        spec_tokens(s1).last() == spec_tokens(s2).last(),
        forall|tok: Seq<char>|
            spec_tokens(s1).drop_last().contains(tok) <==> spec_tokens(s2).drop_last().contains(
                tok,
            ),
    ensures
        spec_action(s2) == spec_action(s1),
{
    let t1 = spec_trim(s1);
    let t2 = spec_trim(s2);
    let toks1 = spec_tokens(s1);
    let toks2 = spec_tokens(s2);
    let n1 = toks1.len() as int;
    let n2 = toks2.len() as int;
    lemma_split_len(t1, '+');
    lemma_split_len(t2, '+');
    assert(n1 == spec_split(t1, '+').len());
    assert(n2 == spec_split(t2, '+').len());

    assert(spec_first_mod_err(toks1, 0) is None);
    lemma_mod_err_none_all(toks1, 0);
    assert(toks1[n1 - 1].len() > 0);

    // every token of the second string is a token of the first, so each is
    // non-empty, and each before the last is a known modifier
    assert forall|j: int| 0 <= j < n2 implies (#[trigger] toks2[j]).len() > 0 by {
        if j == n2 - 1 {
            assert(toks2[j] == toks1[n1 - 1]);
        } else {
            assert(toks2.drop_last()[j] == toks2[j]);
            assert(toks2.drop_last().contains(toks2[j]));
            assert(toks1.drop_last().contains(toks2[j]));
            let i = choose|i: int|
                0 <= i < toks1.drop_last().len() && toks1.drop_last()[i] == toks2[j];
            assert(toks1[i] == toks2[j]);
        }
    }
    assert forall|j: int|
        0 <= j < n2 - 1 implies spec_modifier_mask(spec_lower(#[trigger] toks2[j])) is Some by {
        assert(toks2.drop_last()[j] == toks2[j]);
        assert(toks2.drop_last().contains(toks2[j]));
        assert(toks1.drop_last().contains(toks2[j]));
        let i = choose|i: int|
            0 <= i < toks1.drop_last().len() && toks1.drop_last()[i] == toks2[j];
        assert(toks1[i] == toks2[j]);
        assert(spec_modifier_mask(spec_lower(toks1[i])) is Some);
    }

    // the shape checks of the second string pass: any failure would leave
    // an empty token, and the second string has none
    assert(t2.len() > 0) by {
        if t2.len() == 0 {
            assert(toks2[0] == spec_trim(spec_split(t2, '+')[0]));
            assert(toks2[0].len() == 0);
        }
    }
    assert(t2[0] != '+') by {
        if t2[0] == '+' {
            lemma_split_first(t2, '+');
            assert(toks2[0] == spec_trim(spec_split(t2, '+')[0]));
            assert(toks2[0].len() == 0);
        }
    }
    assert(t2[t2.len() - 1] != '+') by {
        if t2[t2.len() - 1] == '+' {
            lemma_split_last(t2, '+');
            assert(toks2[n2 - 1] == spec_trim(spec_split(t2, '+')[n2 - 1]));
            assert(toks2[n2 - 1].len() == 0);
        }
    }
    assert(!spec_has_double_plus(t2)) by {
        if spec_has_double_plus(t2) {
            let i = choose|i: int|
                0 <= i < t2.len() - 1 && #[trigger] t2[i] == '+' && t2[i + 1] == '+';
            lemma_split_double(t2, '+', i);
            let k = choose|k: int|
                1 <= k < spec_split(t2, '+').len() && (#[trigger] spec_split(t2, '+')[
                    k
                ]).len() == 0;
            assert(toks2[k] == spec_trim(spec_split(t2, '+')[k]));
            assert(toks2[k].len() == 0);
        }
    }
    lemma_mod_err_from(toks2, n2);
    assert(spec_first_mod_err(toks2, 0) is None);

    // same key token, and the same set of modifier bits
    assert(toks2[n2 - 1] == toks1[n1 - 1]);
    assert forall|b: u8|
        #[trigger] spec_has_mod_bit(toks1, n1 - 1, b) == spec_has_mod_bit(toks2, n2 - 1, b) by {
        if spec_has_mod_bit(toks1, n1 - 1, b) {
            let j = choose|j: int|
                0 <= j < n1 - 1 && spec_modifier_mask(spec_lower(toks1[j])) == Some(b);
            assert(toks1.drop_last()[j] == toks1[j]);
            assert(toks1.drop_last().contains(toks1[j]));
            assert(toks2.drop_last().contains(toks1[j]));
            let i = choose|i: int|
                0 <= i < toks2.drop_last().len() && toks2.drop_last()[i] == toks1[j];
            assert(toks2[i] == toks1[j]);
            assert(spec_modifier_mask(spec_lower(toks2[i])) == Some(b));
            assert(spec_has_mod_bit(toks2, n2 - 1, b));
        }
        if spec_has_mod_bit(toks2, n2 - 1, b) {
            let j = choose|j: int|
                0 <= j < n2 - 1 && spec_modifier_mask(spec_lower(toks2[j])) == Some(b);
            assert(toks2.drop_last()[j] == toks2[j]);
            assert(toks2.drop_last().contains(toks2[j]));
            assert(toks1.drop_last().contains(toks2[j]));
            let i = choose|i: int|
                0 <= i < toks1.drop_last().len() && toks1.drop_last()[i] == toks2[j];
            assert(toks1[i] == toks2[j]);
            assert(spec_modifier_mask(spec_lower(toks1[i])) == Some(b));
            assert(spec_has_mod_bit(toks1, n1 - 1, b));
        }
    }
    assert(spec_mods_value(toks1, n1 - 1) == spec_mods_value(toks2, n2 - 1));
}

impl KeyAction {
    /// Parses an action string such as `"cmd+shift+z"`: every token before
    /// the last must be a modifier alias, the last must be a key name, all
    /// case-insensitive. Returns exactly what [`spec_action`] assigns to
    /// the string.
    pub fn from_string(s: &str) -> (r: Result<KeyAction, ParseError>)
        ensures
            action_result_view(r) == spec_action(s@),
    {
        let chars = chars_of(s);
        let n = chars.len();
        let (lo, hi) = trim_range(&chars, 0, n);
        let ghost t = spec_trim(s@);
        proof {
            assert(chars@.subrange(0, n as int) =~= s@);
            assert(chars@.subrange(lo as int, hi as int) == t);
        }
        if lo == hi {
            proof {
                assert(t.len() == 0);
            }
            return Err(ParseError::EmptyInput);
        }
        proof {
            assert(t.len() == hi - lo);
            assert(t[0] == chars@[lo as int]);
            assert(t[t.len() - 1] == chars@[hi - 1]);
        }
        if chars[lo] == '+' || chars[hi - 1] == '+' {
            return Err(ParseError::MalformedSeparator);
        }
        // reject a doubled separator anywhere in the trimmed string
        let mut j = lo;
        while j < hi - 1
            invariant
                lo <= j <= hi <= chars@.len(),
                lo < hi,
                hi - lo == t.len(),
                chars@ == s@,
                t == spec_trim(s@),
                t == chars@.subrange(lo as int, hi as int),
                t[0] != '+' && t[t.len() - 1] != '+',
                forall|k: int|
                    0 <= k < j - lo ==> !(#[trigger] t[k] == '+' && t[k + 1] == '+'),
            decreases hi - j,
        {
            if chars[j] == '+' && chars[j + 1] == '+' {
                proof {
                    let ghost w = j - lo;
                    assert(t[w] == chars@[j as int]);
                    assert(t[w + 1] == chars@[j + 1]);
                    assert(0 <= w < t.len() - 1 && t[w] == '+' && t[w + 1] == '+');
                    assert(spec_has_double_plus(t));
                }
                return Err(ParseError::MalformedSeparator);
            }
            j = j + 1;
        }
        proof {
            assert(!spec_has_double_plus(t));
        }

        let parts = split_ranges(&chars, lo, hi, '+');
        let ghost toks = spec_tokens(s@);
        proof {
            assert(toks.len() == parts@.len());
        }
        let np = parts.len();
        let mut gui = false;
        let mut ctrl = false;
        let mut shift = false;
        let mut alt = false;
        let mut i: usize = 0;
        while i < np - 1
            invariant
                np == parts@.len(),
                np == toks.len(),
                np == spec_split(t, '+').len(),
                np >= 1,
                lo < hi <= chars@.len(),
                chars@ == s@,
                t == spec_trim(s@),
                t == chars@.subrange(lo as int, hi as int),
                t.len() > 0,
                t[0] != '+' && t[t.len() - 1] != '+',
                !spec_has_double_plus(t),
                toks == spec_tokens(s@),
                i < np,
                forall|k: int|
                    0 <= k < np ==> lo <= #[trigger] parts@[k].0 <= parts@[k].1 <= hi,
                forall|k: int|
                    0 <= k < np ==> chars@.subrange(
                        #[trigger] parts@[k].0 as int,
                        parts@[k].1 as int,
                    ) == spec_split(t, '+')[k],
                forall|j: int|
                    0 <= j < i ==> (#[trigger] toks[j]).len() > 0 && spec_modifier_mask(
                        spec_lower(toks[j]),
                    ) is Some,
                gui == spec_has_mod_bit(toks, i as int, MOD_LEFT_GUI),
                ctrl == spec_has_mod_bit(toks, i as int, MOD_LEFT_CTRL),
                shift == spec_has_mod_bit(toks, i as int, MOD_LEFT_SHIFT),
                alt == spec_has_mod_bit(toks, i as int, MOD_LEFT_ALT),
            decreases np - i,
        {
            let (ps, pe) = (parts[i].0, parts[i].1);
            let (ts, te) = trim_range(&chars, ps, pe);
            proof {
                assert(chars@.subrange(ts as int, te as int) == spec_trim(
                    chars@.subrange(ps as int, pe as int),
                ));
                assert(toks[i as int] == spec_trim(spec_split(t, '+')[i as int]));
                assert(chars@.subrange(ts as int, te as int) == toks[i as int]);
            }
            if ts == te {
                proof {
                    assert(toks[i as int].len() == 0);
                    lemma_mod_err_from(toks, i as int);
                    assert(spec_first_mod_err(toks, i as int) == Some(
                        SpecParseError::MalformedSeparator,
                    ));
                }
                return Err(ParseError::MalformedSeparator);
            }
            match modifier_mask_of(&chars, ts, te) {
                None => {
                    let tok = s.substring_char(ts, te).to_owned();
                    proof {
                        assert(tok@ == toks[i as int]);
                        lemma_mod_err_from(toks, i as int);
                        assert(spec_first_mod_err(toks, i as int) == Some(
                            SpecParseError::UnknownModifier(toks[i as int]),
                        ));
                    }
                    return Err(ParseError::UnknownModifier(tok));
                },
                Some(mask) => {
                    proof {
                        assert(spec_modifier_mask(spec_lower(toks[i as int])) == Some(mask));
                    }
                    if mask == MOD_LEFT_GUI {
                        gui = true;
                    } else if mask == MOD_LEFT_CTRL {
                        ctrl = true;
                    } else if mask == MOD_LEFT_SHIFT {
                        shift = true;
                    } else {
                        proof {
                            assert(mask == MOD_LEFT_ALT);
                        }
                        alt = true;
                    }
                    proof {
                        assert forall|b: u8|
                            spec_has_mod_bit(toks, i + 1, b) == (spec_has_mod_bit(
                                toks,
                                i as int,
                                b,
                            ) || spec_modifier_mask(spec_lower(toks[i as int])) == Some(
                                b,
                            )) by {
                            if spec_has_mod_bit(toks, i as int, b) || spec_modifier_mask(
                                spec_lower(toks[i as int]),
                            ) == Some(b) {
                                assert(spec_has_mod_bit(toks, i + 1, b));
                            }
                            if spec_has_mod_bit(toks, i + 1, b) {
                                let j = choose|j: int|
                                    0 <= j < i + 1 && spec_modifier_mask(
                                        spec_lower(toks[j]),
                                    ) == Some(b);
                                if j < i {
                                    assert(spec_has_mod_bit(toks, i as int, b));
                                }
                            }
                        }
                    }
                },
            }
            i = i + 1;
        }
        proof {
            assert(i == np - 1);
            lemma_mod_err_from(toks, i as int);
            assert(spec_first_mod_err(toks, 0) == None::<SpecParseError>);
        }

        let (ps, pe) = (parts[np - 1].0, parts[np - 1].1);
        let (ts, te) = trim_range(&chars, ps, pe);
        proof {
            assert(toks[np - 1] == spec_trim(spec_split(t, '+')[np - 1]));
            assert(chars@.subrange(ts as int, te as int) == toks[np - 1]);
        }
        if ts == te {
            return Err(ParseError::MalformedSeparator);
        }
        match key_code_of(&chars, ts, te) {
            None => {
                let tok = s.substring_char(ts, te).to_owned();
                proof {
                    assert(tok@ == toks[np - 1]);
                }
                Err(ParseError::UnknownKey(tok))
            },
            Some(key) => {
                let modifiers = (if gui {
                    MOD_LEFT_GUI
                } else {
                    0
                }) + (if alt {
                    MOD_LEFT_ALT
                } else {
                    0
                }) + (if shift {
                    MOD_LEFT_SHIFT
                } else {
                    0
                }) + (if ctrl {
                    MOD_LEFT_CTRL
                } else {
                    0
                });
                proof {
                    assert(modifiers == spec_mods_value(toks, np - 1));
                }
                Ok(KeyAction { modifiers, key })
            },
        }
    }
}


/// The display form of an assignment: one symbol per modifier bit, in
/// report-bit order of the four left-hand modifiers, then the uppercased
/// key name.
pub open spec fn spec_format_action(a: KeyAction) -> Seq<char> {
    (if a.modifiers & MOD_LEFT_GUI != 0 {
        seq!['\u{2318}']
    } else {
        Seq::<char>::empty()
    }) + (if a.modifiers & MOD_LEFT_CTRL != 0 {
        seq!['\u{2303}']
    } else {
        Seq::<char>::empty()
    }) + (if a.modifiers & MOD_LEFT_SHIFT != 0 {
        seq!['\u{21E7}']
    } else {
        Seq::<char>::empty()
    }) + (if a.modifiers & MOD_LEFT_ALT != 0 {
        seq!['\u{2325}']
    } else {
        Seq::<char>::empty()
    }) + spec_upper(spec_key_name(a.key))
}

/// Formats an assignment for display: modifier symbols, then the key name
/// in upper case. Display-only; it is not the inverse of parsing.
pub fn format_action(a: &KeyAction) -> (r: String)
    ensures
        r@ == spec_format_action(*a),
{
    let ghost sym = (if a.modifiers & MOD_LEFT_GUI != 0 {
        seq!['\u{2318}']
    } else {
        Seq::<char>::empty()
    }) + (if a.modifiers & MOD_LEFT_CTRL != 0 {
        seq!['\u{2303}']
    } else {
        Seq::<char>::empty()
    }) + (if a.modifiers & MOD_LEFT_SHIFT != 0 {
        seq!['\u{21E7}']
    } else {
        Seq::<char>::empty()
    }) + (if a.modifiers & MOD_LEFT_ALT != 0 {
        seq!['\u{2325}']
    } else {
        Seq::<char>::empty()
    });
    let mut out = String::new();
    if a.modifiers & MOD_LEFT_GUI != 0 {
        push_char(&mut out, '\u{2318}');
    }
    if a.modifiers & MOD_LEFT_CTRL != 0 {
        push_char(&mut out, '\u{2303}');
    }
    if a.modifiers & MOD_LEFT_SHIFT != 0 {
        push_char(&mut out, '\u{21E7}');
    }
    if a.modifiers & MOD_LEFT_ALT != 0 {
        push_char(&mut out, '\u{2325}');
    }
    proof {
        assert(out@ =~= sym);
    }
    let name = crate::keycodes::key_name(a.key);
    let n = name.unicode_len();
    let mut i: usize = 0;
    while i < n
        invariant
            n == name@.len(),
            name@ == spec_key_name(a.key),
            i <= n,
            sym == spec_format_action(*a).take(sym.len() as int),
            out@ =~= sym + spec_upper(name@).take(i as int),
        decreases n - i,
    {
        let c = upper_char(name.get_char(i));
        proof {
            assert(spec_upper(name@)[i as int] == spec_upper_char(name@[i as int]));
        }
        push_char(&mut out, c);
        i = i + 1;
        proof {
            assert(out@ =~= sym + spec_upper(name@).take(i as int));
        }
    }
    proof {
        assert(spec_upper(name@).take(n as int) =~= spec_upper(name@));
        assert(out@ =~= spec_format_action(*a));
    }
    out
}

} // verus!
