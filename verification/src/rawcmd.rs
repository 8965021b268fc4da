//! The expert raw-command path: parsing the command byte and the data
//! bytes from their hex text, and laying out the 36-byte report buffer
//! (one report-id byte, the command byte, then the data, zero-padded) that
//! is written to the device. The write itself happens outside.

use vstd::prelude::*;

use crate::protocol::spec_zeros;
use vstd::string::StringSliceAdditionalSpecFns;

verus! {

/// The longest data run a raw command can carry: the 36-byte buffer minus
/// the report-id byte and the command byte.
pub const MAX_RAW_DATA_LEN: usize = 34;

/// Why hex text was refused.
#[derive(Clone, Copy, PartialEq, Eq, Structural, Debug)]
pub enum HexError {
    /// Hex text must pair its digits; this text has an odd number.
    OddLength,
    /// The first byte that is no hexadecimal digit, and where it stands.
    InvalidCharacter { c: char, index: usize },
}

/// Why a raw command was refused.
#[derive(Clone, Copy, PartialEq, Eq, Structural, Debug)]
pub enum RawCmdError {
    /// The command byte's text is not one hex byte.
    InvalidCommandByte,
    /// The data text is not valid hex.
    InvalidDataBytes(HexError),
    /// The decoded data exceeds [`MAX_RAW_DATA_LEN`] bytes.
    DataTooLong { len: usize },
}

/// Whether a byte is an ASCII hexadecimal digit.
pub open spec fn spec_is_hex_digit(b: u8) -> bool {
    (0x30 <= b && b <= 0x39) || (0x41 <= b && b <= 0x46) || (0x61 <= b && b <= 0x66)
}

/// The value of an ASCII hexadecimal digit byte.
pub open spec fn spec_hex_digit_val(b: u8) -> u8 {
    if 0x30 <= b && b <= 0x39 {
        (b - 0x30) as u8
    } else if 0x41 <= b && b <= 0x46 {
        (b - 0x41 + 10) as u8
    } else {
        (b - 0x61 + 10) as u8
    }
}

/// The bytes an even-length run of hex digits denotes: each digit pair,
/// high digit first, becomes one byte.
pub open spec fn spec_hex_decode(bytes: Seq<u8>) -> Seq<u8> {
    Seq::new(
        (bytes.len() / 2) as nat,
        |i: int| (spec_hex_digit_val(bytes[2 * i]) * 16 + spec_hex_digit_val(
            bytes[2 * i + 1],
        )) as u8,
    )
}

/// Relies on hex::decode: decodes pairs of hexadecimal digits, upper or
/// lower case, into bytes. An odd-length input is refused as such;
/// otherwise the first non-digit byte is reported, as a character, with
/// its byte position; otherwise every digit pair, high digit first,
/// becomes one byte. (hex::decode never reports its fixed-size-container
/// error variant.)
#[verifier::external_body]
fn hex_decode(s: &str) -> (r: Result<Vec<u8>, HexError>)
    ensures
        match r {
            Ok(v) => s.spec_bytes().len() % 2 == 0 && (forall|i: int|
                0 <= i < s.spec_bytes().len() ==> spec_is_hex_digit(
                    #[trigger] s.spec_bytes()[i],
                )) && v@ == spec_hex_decode(s.spec_bytes()),
            Err(HexError::OddLength) => s.spec_bytes().len() % 2 == 1,
            Err(HexError::InvalidCharacter { c, index }) => s.spec_bytes().len() % 2 == 0 && index
                < s.spec_bytes().len() && !spec_is_hex_digit(s.spec_bytes()[index as int]) && (
            forall|i: int|
                0 <= i < index ==> spec_is_hex_digit(#[trigger] s.spec_bytes()[i])) && c == (
            s.spec_bytes()[index as int] as char),
        },
{
    match hex::decode(s) {
        Ok(v) => Ok(v),
        Err(hex::FromHexError::OddLength) => Err(HexError::OddLength),
        Err(hex::FromHexError::InvalidHexCharacter { c, index }) => Err(
            HexError::InvalidCharacter { c, index },
        ),
        Err(hex::FromHexError::InvalidStringLength) => Err(HexError::OddLength),
    }
}

/// The value of one hex-digit character, if it is one.
pub open spec fn spec_hex_char_val(c: char) -> Option<u8> {
    if '0' <= c && c <= '9' {
        Some(((c as u8) - 48) as u8)
    } else if 'a' <= c && c <= 'f' {
        Some(((c as u8) - 97 + 10) as u8)
    } else if 'A' <= c && c <= 'F' {
        Some(((c as u8) - 65 + 10) as u8)
    } else {
        None
    }
}

/// The hex digits of `s` from position `i` folded onto `acc`, or nothing
/// on a non-digit or once the value leaves a byte's range.
pub open spec fn spec_hex_byte_rec(s: Seq<char>, i: int, acc: int) -> Option<u8>
    decreases s.len() - i,
{
    if i < 0 || i >= s.len() {
        Some(acc as u8)
    } else {
        match spec_hex_char_val(s[i]) {
            None => None,
            Some(d) => if acc * 16 + d > 255 {
                None
            } else {
                spec_hex_byte_rec(s, i + 1, acc * 16 + d)
            },
        }
    }
}

/// The byte a run of hex digits denotes, if the run is non-empty and its
/// value fits one byte.
pub open spec fn spec_parse_hex_byte(s: Seq<char>) -> Option<u8> {
    if s.len() == 0 {
        None
    } else {
        spec_hex_byte_rec(s, 0, 0)
    }
}

/// Parses a command byte from hex text, exactly as
/// [`spec_parse_hex_byte`] reads it.
pub fn parse_hex_byte(s: &str) -> (r: Option<u8>)
    ensures
        r == spec_parse_hex_byte(s@),
{
    let n = s.unicode_len();
    if n == 0 {
        return None;
    }
    let mut acc: u16 = 0;
    let mut i: usize = 0;
    while i < n
        invariant
            n == s@.len(),
            n > 0,
            i <= n,
            acc <= 255,
            spec_parse_hex_byte(s@) == spec_hex_byte_rec(s@, i as int, acc as int),
        decreases n - i,
    {
        let c = s.get_char(i);
        let d: u8 = if '0' <= c && c <= '9' {
            (c as u8) - 48
        } else if 'a' <= c && c <= 'f' {
            (c as u8) - 97 + 10
        } else if 'A' <= c && c <= 'F' {
            (c as u8) - 65 + 10
        } else {
            return None;
        };
        proof {
            assert(spec_hex_char_val(s@[i as int]) == Some(d));
        }
        if acc * 16 + (d as u16) > 255 {
            return None;
        }
        acc = acc * 16 + (d as u16);
        i = i + 1;
    }
    Some(acc as u8)
}

/// Decodes the raw command's data text: empty text means no data bytes,
/// anything else must be valid hex.
pub fn parse_raw_data(s: &str) -> (r: Result<Vec<u8>, RawCmdError>)
    ensures
        s@.len() == 0 ==> (r matches Ok(v) && v@ == Seq::<u8>::empty()),
        s@.len() != 0 ==> match r {
            Ok(v) => s.spec_bytes().len() % 2 == 0 && (forall|i: int|
                0 <= i < s.spec_bytes().len() ==> spec_is_hex_digit(
                    #[trigger] s.spec_bytes()[i],
                )) && v@ == spec_hex_decode(s.spec_bytes()),
            Err(RawCmdError::InvalidDataBytes(HexError::OddLength)) => s.spec_bytes().len() % 2
                == 1,
            Err(RawCmdError::InvalidDataBytes(HexError::InvalidCharacter { c, index })) => s.spec_bytes().len()
                % 2 == 0 && index < s.spec_bytes().len() && !spec_is_hex_digit(
                s.spec_bytes()[index as int],
            ) && (forall|i: int|
                0 <= i < index ==> spec_is_hex_digit(#[trigger] s.spec_bytes()[i])) && c == (
            s.spec_bytes()[index as int] as char),
            _ => false,
        },
{
    if s.is_empty() {
        return Ok(Vec::new());
    }
    match hex_decode(s) {
        Ok(v) => Ok(v),
        Err(e) => Err(RawCmdError::InvalidDataBytes(e)),
    }
}

/// Lays out the 36-byte raw-command buffer: a zero report-id byte, the
/// command byte, the data, and zero padding; data longer than
/// [`MAX_RAW_DATA_LEN`] is refused with its length.
pub fn build_raw_command(cmd: u8, data: &Vec<u8>) -> (r: Result<Vec<u8>, RawCmdError>)
    ensures
        match r {
            Ok(buf) => data@.len() <= MAX_RAW_DATA_LEN && buf@ == seq![0u8, cmd] + data@
                + spec_zeros(MAX_RAW_DATA_LEN - data@.len()),
            Err(RawCmdError::DataTooLong { len }) => data@.len() > MAX_RAW_DATA_LEN && len
                == data@.len(),
            _ => false,
        },
{
    let n = data.len();
    if n > MAX_RAW_DATA_LEN {
        return Err(RawCmdError::DataTooLong { len: n });
    }
    let mut buf: Vec<u8> = Vec::new();
    buf.push(0);
    buf.push(cmd);
    let mut i: usize = 0;
    while i < n
        invariant
            i <= n,
            n == data@.len(),
            buf@ =~= seq![0u8, cmd] + data@.take(i as int),
        decreases n - i,
    {
        buf.push(data[i]);
        i = i + 1;
        proof {
            assert(buf@ =~= seq![0u8, cmd] + data@.take(i as int));
        }
    }
    proof {
        assert(data@.take(n as int) =~= data@);
    }
    while buf.len() < 36
        invariant
            buf@.len() >= 2 + data@.len(),
            data@.len() <= MAX_RAW_DATA_LEN,
            buf@.subrange(0, 2 + data@.len() as int) =~= seq![0u8, cmd] + data@,
            forall|j: int| 2 + data@.len() <= j < buf@.len() ==> buf@[j] == 0u8,
            buf@.len() <= 36,
        decreases 36 - buf@.len(),
    {
        buf.push(0);
    }
    proof {
        assert(buf@ =~= seq![0u8, cmd] + data@ + spec_zeros(MAX_RAW_DATA_LEN - data@.len()));
    }
    Ok(buf)
}

/// What the data text denotes: no bytes for empty text, the decoded bytes
/// for valid hex, nothing otherwise (see [`parse_raw_data`] for which
/// rejection is reported).
pub open spec fn spec_raw_data(s: &str) -> Option<Seq<u8>> {
    if s@.len() == 0 {
        Some(Seq::<u8>::empty())
    } else if s.spec_bytes().len() % 2 == 0 && (forall|i: int|
        0 <= i < s.spec_bytes().len() ==> spec_is_hex_digit(#[trigger] s.spec_bytes()[i])) {
        Some(spec_hex_decode(s.spec_bytes()))
    } else {
        None
    }
}

/// The raw-command pipeline's compute half: the command byte from its hex
/// text, the data bytes from theirs, and the 36-byte buffer to write. The
/// command byte is judged first, then the data text, then its length.
pub fn prepare_raw_command(cmd: &str, data: &str) -> (r: Result<Vec<u8>, RawCmdError>)
    ensures
        match spec_parse_hex_byte(cmd@) {
            None => r == Err::<Vec<u8>, RawCmdError>(RawCmdError::InvalidCommandByte),
            Some(c) => match spec_raw_data(data) {
                None => r matches Err(RawCmdError::InvalidDataBytes(_)),
                Some(bytes) => if bytes.len() <= MAX_RAW_DATA_LEN {
                    r matches Ok(buf) && buf@ == seq![0u8, c] + bytes + spec_zeros(
                        MAX_RAW_DATA_LEN - bytes.len(),
                    )
                } else {
                    r == Err::<Vec<u8>, RawCmdError>(
                        RawCmdError::DataTooLong { len: bytes.len() as usize },
                    )
                },
            },
        },
{
    let cmd_byte = match parse_hex_byte(cmd) {
        None => {
            return Err(RawCmdError::InvalidCommandByte);
        },
        Some(b) => b,
    };
    let bytes = match parse_raw_data(data) {
        Err(e) => {
            return Err(e);
        },
        Ok(v) => v,
    };
    build_raw_command(cmd_byte, &bytes)
}

} // verus!
