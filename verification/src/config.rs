//! The on-disk last-known-configuration record: plain `key=value` lines
//! naming the three pedals' action strings, used only for display
//! continuity — never for device state. This module is the text codec;
//! reading and writing the file happens outside.

use vstd::prelude::*;

use crate::text::{
    chars_of, find_char_in, spec_find_char, spec_split, spec_trim, split_ranges, token_eq,
    trim_range,
};

verus! {

/// The three pedals' last intended action strings, as written to disk.
#[derive(Debug)]
pub struct PedalConfig {
    pub left: String,
    pub middle: String,
    pub right: String,
}

/// Why a configuration cannot be serialized: the value of this pedal
/// (0 left, 1 middle, 2 right) holds a line break, which would corrupt the
/// line-oriented format.
#[derive(Clone, Copy, PartialEq, Eq, Structural, Debug)]
pub enum ConfigError {
    NewlineInValue { pedal: u8 },
}

/// A line's `key=value` split at the first `=`, if it has one.
pub open spec fn spec_split_once_eq(line: Seq<char>) -> Option<(Seq<char>, Seq<char>)> {
    let i = spec_find_char(line, '=');
    if i < 0 {
        None
    } else {
        Some((line.take(i), line.skip(i + 1)))
    }
}

/// The (left, middle, right) values after reading the first `n` lines:
/// blank lines and lines without `=` or with an unknown key are skipped,
/// keys and values are trimmed, and a later line overwrites an earlier
/// one.
pub open spec fn spec_config_fields(lines: Seq<Seq<char>>, n: int) -> (
    Seq<char>,
    Seq<char>,
    Seq<char>,
)
    decreases n,
{
    if n <= 0 {
        (Seq::<char>::empty(), Seq::<char>::empty(), Seq::<char>::empty())
    } else {
        let prev = spec_config_fields(lines, n - 1);
        let line = spec_trim(lines[n - 1]);
        if line.len() == 0 {
            prev
        } else {
            match spec_split_once_eq(line) {
                None => prev,
                Some((k, v)) => {
                    let key = spec_trim(k);
                    let val = spec_trim(v);
                    if key == "left"@ {
                        (val, prev.1, prev.2)
                    } else if key == "middle"@ {
                        (prev.0, val, prev.2)
                    } else if key == "right"@ {
                        (prev.0, prev.1, val)
                    } else {
                        prev
                    }
                },
            }
        }
    }
}

/// What parsing a configuration file yields: the three values, provided
/// every one of them was set to something non-empty; otherwise nothing.
pub open spec fn spec_parse_config(content: Seq<char>) -> Option<(Seq<char>, Seq<char>, Seq<char>)> {
    let lines = spec_split(content, '\n');
    let f = spec_config_fields(lines, lines.len() as int);
    if f.0.len() > 0 && f.1.len() > 0 && f.2.len() > 0 {
        Some(f)
    } else {
        None
    }
}

/// Whether a value holds a line break.
pub open spec fn spec_has_line_break(s: Seq<char>) -> bool {
    exists|i: int| 0 <= i < s.len() && (#[trigger] s[i] == '\n' || s[i] == '\r')
}

/// What serializing a configuration yields: one `key=value` line per
/// pedal, or the first pedal (left, middle, right order) whose value
/// holds a line break.
pub open spec fn spec_serialize_config(l: Seq<char>, m: Seq<char>, r: Seq<char>) -> Result<
    Seq<char>,
    ConfigError,
> {
    if spec_has_line_break(l) {
        Err(ConfigError::NewlineInValue { pedal: 0 })
    } else if spec_has_line_break(m) {
        Err(ConfigError::NewlineInValue { pedal: 1 })
    } else if spec_has_line_break(r) {
        Err(ConfigError::NewlineInValue { pedal: 2 })
    } else {
        Ok("left="@ + l + "\n"@ + "middle="@ + m + "\n"@ + "right="@ + r + "\n"@)
    }
}

/// Scans a string for a line break.
fn has_line_break(s: &str) -> (r: bool)
    ensures
        r == spec_has_line_break(s@),
{
    let n = s.unicode_len();
    let mut i: usize = 0;
    while i < n
        invariant
            n == s@.len(),
            i <= n,
            forall|j: int| 0 <= j < i ==> !(#[trigger] s@[j] == '\n' || s@[j] == '\r'),
        decreases n - i,
    {
        let c = s.get_char(i);
        if c == '\n' || c == '\r' {
            return true;
        }
        i = i + 1;
    }
    false
}

impl PedalConfig {
    /// Parses the record's text: `key=value` lines for `left`, `middle`
    /// and `right`, keys and values trimmed, blank and unknown lines
    /// skipped, later lines overwriting earlier ones. Yields the record
    /// only if all three pedals ended up with a non-empty value.
    pub fn parse(content: &str) -> (r: Option<PedalConfig>)
        ensures
            match r {
                Some(c) => spec_parse_config(content@) == Some((c.left@, c.middle@, c.right@)),
                None => spec_parse_config(content@) is None,
            },
    {
        let chars = chars_of(content);
        let n = chars.len();
        let ranges = split_ranges(&chars, 0, n, '\n');
        let ghost lines = spec_split(content@, '\n');
        proof {
            assert(chars@.subrange(0, n as int) =~= content@);
        }
        let mut left = String::new();
        let mut middle = String::new();
        let mut right = String::new();
        let nl = ranges.len();
        let mut i: usize = 0;
        while i < nl
            invariant
                i <= nl,
                chars@ == content@,
                n == chars@.len(),
                nl == ranges@.len(),
                nl == lines.len(),
                lines == spec_split(content@, '\n'),
                forall|k: int| 0 <= k < nl ==> 0 <= #[trigger] ranges@[k].0 <= ranges@[k].1 <= n,
                forall|k: int|
                    0 <= k < nl ==> chars@.subrange(
                        #[trigger] ranges@[k].0 as int,
                        ranges@[k].1 as int,
                    ) == lines[k],
                (left@, middle@, right@) == spec_config_fields(lines, i as int),
            decreases nl - i,
        {
            let (ls, le) = (ranges[i].0, ranges[i].1);
            let (ts, te) = trim_range(&chars, ls, le);
            let ghost line = spec_trim(lines[i as int]);
            proof {
                assert(chars@.subrange(ts as int, te as int) == line);
            }
            if ts < te {
                match find_char_in(&chars, ts, te, '=') {
                    None => {
                        proof {
                            assert(spec_split_once_eq(line) is None);
                        }
                    },
                    Some(p) => {
                        let ghost k = line.take(p - ts);
                        let ghost v = line.skip(p - ts + 1);
                        proof {
                            assert(spec_split_once_eq(line) == Some((k, v)));
                            assert(k =~= chars@.subrange(ts as int, p as int));
                            assert(v =~= chars@.subrange(p + 1, te as int));
                        }
                        let (ks, ke) = trim_range(&chars, ts, p);
                        let (vs, ve) = trim_range(&chars, p + 1, te);
                        proof {
                            assert(chars@.subrange(ks as int, ke as int) == spec_trim(k));
                            assert(chars@.subrange(vs as int, ve as int) == spec_trim(v));
                        }
                        if token_eq(&chars, ks, ke, "left") {
                            left = content.substring_char(vs, ve).to_owned();
                        } else if token_eq(&chars, ks, ke, "middle") {
                            middle = content.substring_char(vs, ve).to_owned();
                        } else if token_eq(&chars, ks, ke, "right") {
                            right = content.substring_char(vs, ve).to_owned();
                        }
                    },
                }
            }
            i = i + 1;
        }
        let ok = left.as_str().unicode_len() > 0 && middle.as_str().unicode_len() > 0
            && right.as_str().unicode_len() > 0;
        if ok {
            Some(PedalConfig { left, middle, right })
        } else {
            None
        }
    }

    /// Serializes the record as `key=value` lines, refusing any value that
    /// holds a line break (it would corrupt the format), naming the first
    /// offending pedal.
    pub fn serialize(&self) -> (r: Result<String, ConfigError>)
        ensures
            match r {
                Ok(s) => spec_serialize_config(self.left@, self.middle@, self.right@) == Ok::<
                    Seq<char>,
                    ConfigError,
                >(s@),
                Err(e) => spec_serialize_config(self.left@, self.middle@, self.right@) == Err::<
                    Seq<char>,
                    ConfigError,
                >(e),
            },
    {
        if has_line_break(self.left.as_str()) {
            return Err(ConfigError::NewlineInValue { pedal: 0 });
        }
        if has_line_break(self.middle.as_str()) {
            return Err(ConfigError::NewlineInValue { pedal: 1 });
        }
        if has_line_break(self.right.as_str()) {
            return Err(ConfigError::NewlineInValue { pedal: 2 });
        }
        let out = "left=".to_owned().concat(self.left.as_str()).concat("\n").concat(
            "middle=",
        ).concat(self.middle.as_str()).concat("\n").concat("right=").concat(
            self.right.as_str(),
        ).concat("\n");
        Ok(out)
    }
}

} // verus!
