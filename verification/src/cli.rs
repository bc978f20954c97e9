//! The command line: its arguments, the check of the key slot, and the
//! confirmation asked before a slot is locked.
use vstd::prelude::*;
use vstd::string::StrSliceExecFns;
use vstd::string::StringSliceAdditionalSpecFns;
use vstd::utf8::{encode_utf8, is_char_boundary};
use std::path::PathBuf;
use crate::protocol::{TM_SLOT1, TM_SLOT2};

verus! {

#[verifier::external_type_specification]
#[verifier::external_body]
pub struct ExPathBuf(PathBuf);

/// The tool's arguments.
pub struct Args {
    /// i2c device path.
    pub device: String,
    /// Trust M key slot to use, written `0x` and four hexadecimal digits.
    pub key_slot: String,
    pub command: Cmds,
}

/// The tool's commands.
pub enum Cmds {
    /// Read a key from the chip.
    Read(ReadCmd),
    /// Write a key to the chip.
    Write(WriteCmd),
    /// Write-protect a key slot; this can be done only once per slot.
    Lock(LockCmd),
    /// Check a signature against the key stored in the slot.
    Verify(VerifyCmd),
}

pub struct ReadCmd {
    /// Write the key's raw bytes to standard output.
    pub raw: bool,
}

pub struct WriteCmd {
    /// Path of the key, in PEM format.
    pub key: PathBuf,
}

pub struct LockCmd {
    /// Do not ask for confirmation.
    pub force: bool,
}

pub struct VerifyCmd {
    /// Path of the raw 64-byte signature.
    pub signature: PathBuf,
    /// Path of the signed payload.
    pub payload: PathBuf,
}

/// Why a key slot argument was refused.
#[derive(Clone, Copy, Debug, PartialEq, Eq, Structural)]
pub enum KeySlotError {
    /// What follows the first two characters is not a hexadecimal number
    /// that fits in 16 bits.
    Unparsable,
    /// The slot is neither of the two slots the tool can use.
    Unsupported,
}

/// The value of a hexadecimal digit character.
pub open spec fn hex_digit_value(b: u8) -> Option<nat> {
    if 48 <= b <= 57 {
        Some((b - 48) as nat)
    } else if 97 <= b <= 102 {
        Some((b - 87) as nat)
    } else if 65 <= b <= 70 {
        Some((b - 55) as nat)
    } else {
        None
    }
}

/// Every byte is a hexadecimal digit.
pub open spec fn all_hex_digits(digits: Seq<u8>) -> bool {
    forall|i: int| 0 <= i < digits.len() ==> (#[trigger] hex_digit_value(digits[i])) is Some
}

/// The number written by hexadecimal digits.
pub open spec fn hex_value(digits: Seq<u8>) -> nat
    decreases digits.len(),
{
    if digits.len() == 0 {
        0
    } else {
        hex_value(digits.drop_last()) * 16 + match hex_digit_value(digits.last()) {
            Some(v) => v,
            None => 0,
        }
    }
}

/// `u16::from_str_radix(text, 16)` as std documents it: an optional `+`,
/// then one or more hexadecimal digits whose value fits in 16 bits.
pub open spec fn parse_hex_u16(text: Seq<u8>) -> Option<u16> {
    let digits = if text.len() > 0 && text[0] == 43 {
        text.drop_first()
    } else {
        text
    };
    if digits.len() == 0 || !all_hex_digits(digits) || hex_value(digits) > u16::MAX {
        None
    } else {
        Some(hex_value(digits) as u16)
    }
}

/// What the key slot argument gives: its text after the first two bytes,
/// read as a hexadecimal number, which must name one of the two slots.
pub open spec fn key_slot_outcome(text: Seq<u8>) -> Result<u16, KeySlotError> {
    match parse_hex_u16(text.skip(2)) {
        None => Err(KeySlotError::Unparsable),
        Some(v) => if v == TM_SLOT1 || v == TM_SLOT2 {
            Ok(v)
        } else {
            Err(KeySlotError::Unsupported)
        },
    }
}

fn hex_digit(b: u8) -> (v: Option<u8>)
    ensures
        match hex_digit_value(b) {
            Some(d) => v == Some(d as u8),
            None => v is None,
        },
{
    if 48 <= b && b <= 57 {
        Some(b - 48)
    } else if 97 <= b && b <= 102 {
        Some(b - 87)
    } else if 65 <= b && b <= 70 {
        Some(b - 55)
    } else {
        None
    }
}

proof fn lemma_hex_value_monotone(digits: Seq<u8>, k: int)
    requires
        0 <= k <= digits.len(),
    ensures
        hex_value(digits.subrange(0, k)) <= hex_value(digits),
    decreases digits.len() - k,
{
    if k < digits.len() {
        lemma_hex_value_monotone(digits, k + 1);
        let p = digits.subrange(0, k + 1);
        assert(p.drop_last() =~= digits.subrange(0, k));
    } else {
        assert(digits.subrange(0, k) =~= digits);
    }
}

/// Reads a hexadecimal number as `u16::from_str_radix(text, 16)` does.
pub fn parse_hex(text: &[u8]) -> (res: Option<u16>)
    ensures
        res == parse_hex_u16(text@),
{
    let start: usize = if text.len() > 0 && text[0] == 43 {
        1
    } else {
        0
    };
    let ghost digits = text@.skip(start as int);
    proof {
        if start == 1 {
            assert(digits =~= text@.drop_first());
        } else {
            assert(digits =~= text@);
        }
    }
    if start >= text.len() {
        return None;
    }
    let mut value: u32 = 0;
    let mut i: usize = start;
    while i < text.len()
        invariant
            start <= i <= text.len(),
            digits == text@.skip(start as int),
            digits == (if text@.len() > 0 && text@[0] == 43 {
                text@.drop_first()
            } else {
                text@
            }),
            all_hex_digits(digits.subrange(0, i - start)),
            value == hex_value(digits.subrange(0, i - start)),
            value <= u16::MAX,
        decreases text.len() - i,
    {
        let ghost prefix = digits.subrange(0, i - start);
        let ghost next_prefix = digits.subrange(0, i + 1 - start);
        assert(next_prefix.drop_last() =~= prefix);
        assert(next_prefix.last() == text@[i as int]);
        match hex_digit(text[i]) {
            None => {
                assert(!all_hex_digits(digits)) by {
                    assert(hex_digit_value(digits[i - start]) is None);
                }
                return None;
            },
            Some(d) => {
                let v: u32 = value * 16 + d as u32;
                assert(all_hex_digits(next_prefix)) by {
                    assert forall|j: int| 0 <= j < next_prefix.len() implies (
                    #[trigger] hex_digit_value(next_prefix[j])) is Some by {
                        if j < prefix.len() {
                            assert(next_prefix[j] == prefix[j]);
                        }
                    }
                }
                if v > 0xffff {
                    proof {
                        lemma_hex_value_monotone(digits, i + 1 - start);
                    }
                    return None;
                }
                value = v;
            },
        }
        i = i + 1;
    }
    assert(digits.subrange(0, i - start) =~= digits);
    Some(value as u16)
}

/// Checks the key slot argument. The first two bytes (normally `0x`) are
/// skipped unread.
pub fn parse_key_slot(text: &str) -> (res: Result<u16, KeySlotError>)
    requires
        is_char_boundary(text.spec_bytes(), 2),
    ensures
        res == key_slot_outcome(text.spec_bytes()),
{
    let bytes = text.as_bytes();
    proof {
        broadcast use vstd::utf8::group_utf8_lib;

        assert(bytes@.len() >= 2);
    }
    let digits = vstd::slice::slice_subrange(bytes, 2, bytes.len());
    assert(digits@ =~= bytes@.skip(2));
    match parse_hex(digits) {
        None => Err(KeySlotError::Unparsable),
        Some(v) => if v == TM_SLOT1 || v == TM_SLOT2 {
            Ok(v)
        } else {
            Err(KeySlotError::Unsupported)
        },
    }
}

impl Args {
    /// The key slot named by the arguments.
    pub fn slot(&self) -> (res: Result<u16, KeySlotError>)
        requires
            is_char_boundary(encode_utf8(self.key_slot@), 2),
        ensures
            res == key_slot_outcome(encode_utf8(self.key_slot@)),
    {
        parse_key_slot(self.key_slot.as_str())
    }
}

// ---------------------------------------------------------------------
// Confirmation before locking
// ---------------------------------------------------------------------

/// The characters `char::is_whitespace` accepts (Unicode White_Space).
pub open spec fn is_white_space(c: char) -> bool {
    ||| c == '\t'
    ||| c == '\n'
    ||| c == '\u{0B}'
    ||| c == '\u{0C}'
    ||| c == '\r'
    ||| c == ' '
    ||| c == '\u{85}'
    ||| c == '\u{A0}'
    ||| c == '\u{1680}'
    ||| ('\u{2000}' <= c && c <= '\u{200A}')
    ||| c == '\u{2028}'
    ||| c == '\u{2029}'
    ||| c == '\u{202F}'
    ||| c == '\u{205F}'
    ||| c == '\u{3000}'
}

/// `s` without its leading white space.
pub open spec fn trim_start(s: Seq<char>) -> Seq<char>
    decreases s.len(),
{
    if s.len() > 0 && is_white_space(s[0]) {
        trim_start(s.drop_first())
    } else {
        s
    }
}

/// `s` without its trailing white space.
pub open spec fn trim_end(s: Seq<char>) -> Seq<char>
    decreases s.len(),
{
    if s.len() > 0 && is_white_space(s.last()) {
        trim_end(s.drop_last())
    } else {
        s
    }
}

/// `str::trim`: `s` without its leading and trailing white space.
pub open spec fn trim(s: Seq<char>) -> Seq<char> {
    trim_end(trim_start(s))
}

fn white_space(c: char) -> (b: bool)
    ensures
        b == is_white_space(c),
{
    c == '\t' || c == '\n' || c == '\u{0B}' || c == '\u{0C}' || c == '\r' || c == ' ' || c
        == '\u{85}' || c == '\u{A0}' || c == '\u{1680}' || ('\u{2000}' <= c && c <= '\u{200A}')
        || c == '\u{2028}' || c == '\u{2029}' || c == '\u{202F}' || c == '\u{205F}' || c
        == '\u{3000}'
}

/// Whether the answer to the confirmation question, once trimmed, is `yes`.
pub fn confirms_lock(answer: &str) -> (yes: bool)
    ensures
        yes == (trim(answer@) == seq!['y', 'e', 's']),
{
    let n: usize = answer.unicode_len();
    let ghost s = answer@;
    let mut start: usize = 0;
    assert(s.skip(0) =~= s);
    while start < n && white_space(answer.get_char(start))
        invariant
            n == s.len(),
            s == answer@,
            start <= n,
            trim_start(s) == trim_start(s.skip(start as int)),
        decreases n - start,
    {
        assert(s.skip(start as int).drop_first() =~= s.skip(start + 1));
        start = start + 1;
    }
    let ghost t = s.skip(start as int);
    assert(trim_start(s) == t);
    let mut end: usize = n;
    while end > start && white_space(answer.get_char(end - 1))
        invariant
            n == s.len(),
            s == answer@,
            start <= end <= n,
            t == s.skip(start as int),
            trim_end(t) == trim_end(s.subrange(start as int, end as int)),
        decreases end - start,
    {
        assert(s.subrange(start as int, end as int).drop_last() =~= s.subrange(
            start as int,
            end - 1,
        ));
        end = end - 1;
    }
    assert(t =~= s.subrange(start as int, n as int));
    let ghost r = s.subrange(start as int, end as int);
    assert(trim(s) == r);
    if end - start != 3 {
        return false;
    }
    let y = answer.get_char(start) == 'y' && answer.get_char(start + 1) == 'e' && answer.get_char(
        start + 2,
    ) == 's';
    if y {
        assert(r =~= seq!['y', 'e', 's']);
    } else {
        assert(r[0] != 'y' || r[1] != 'e' || r[2] != 's');
    }
    y
}

} // verus!
