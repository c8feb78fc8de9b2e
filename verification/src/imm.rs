//! Resolving one operand token to a 32-bit value: a decimal or hexadecimal
//! literal, or a label whose address the first pass recorded.
//!
//! Values travel as 32-bit two's-complement bit patterns.  A decimal
//! literal must lie within `i32`'s range, a hexadecimal literal within
//! `u32`'s; a syntactically numeric token outside those ranges is an
//! `ImmediateParseError`.  Any other token is a label name: unknown names
//! are an `UndefinedLabelError`.

use vstd::prelude::*;

use crate::errors::AssemblerError;
use crate::labels::LabelTable;

verus! {

/// A decimal digit.
pub open spec fn is_dec_digit(c: char) -> bool {
    48 <= c as u32 <= 57
}

/// A hexadecimal digit, either case.
pub open spec fn is_hex_digit(c: char) -> bool {
    is_dec_digit(c) || (97 <= c as u32 <= 102) || (65 <= c as u32 <= 70)
}

/// The value of a decimal digit.
pub open spec fn dec_digit_val(c: char) -> int {
    c as u32 - 48
}

/// The value of a hexadecimal digit, either case.
pub open spec fn hex_digit_val(c: char) -> int {
    if is_dec_digit(c) {
        c as u32 - 48
    } else if 97 <= c as u32 <= 102 {
        c as u32 - 87
    } else {
        c as u32 - 55
    }
}

/// Every character of `s` from index `from` on is a decimal digit.
pub open spec fn all_dec_digits_from(s: Seq<char>, from: int) -> bool {
    forall|j: int| from <= j < s.len() ==> is_dec_digit(#[trigger] s[j])
}

/// Every character of `s` from index `from` on is a hexadecimal digit.
pub open spec fn all_hex_digits_from(s: Seq<char>, from: int) -> bool {
    forall|j: int| from <= j < s.len() ==> is_hex_digit(#[trigger] s[j])
}

/// The value of the decimal digits `s[from..upto]`, most significant first.
pub open spec fn dec_val_range(s: Seq<char>, from: int, upto: int) -> int
    decreases upto - from,
{
    if from >= upto {
        0
    } else {
        dec_val_range(s, from, upto - 1) * 10 + dec_digit_val(s[upto - 1])
    }
}

/// The value of the hexadecimal digits `s[from..upto]`, most significant first.
pub open spec fn hex_val_range(s: Seq<char>, from: int, upto: int) -> int
    decreases upto - from,
{
    if from >= upto {
        0
    } else {
        hex_val_range(s, from, upto - 1) * 16 + hex_digit_val(s[upto - 1])
    }
}

/// A run of decimal digits has a non-negative value.
pub proof fn lemma_dec_val_nonneg(s: Seq<char>, from: int, upto: int)
    requires
        forall|j: int| from <= j < upto ==> is_dec_digit(#[trigger] s[j]),
        0 <= from,
        upto <= s.len(),
    ensures
        dec_val_range(s, from, upto) >= 0,
    decreases upto - from,
{
    if from < upto {
        lemma_dec_val_nonneg(s, from, upto - 1);
    }
}

/// Reading more decimal digits never shrinks the value.
pub proof fn lemma_dec_val_monotone(s: Seq<char>, from: int, i: int, upto: int)
    requires
        forall|j: int| from <= j < upto ==> is_dec_digit(#[trigger] s[j]),
        0 <= from <= i <= upto <= s.len(),
    ensures
        dec_val_range(s, from, i) <= dec_val_range(s, from, upto),
    decreases upto - i,
{
    if i < upto {
        lemma_dec_val_monotone(s, from, i, upto - 1);
        lemma_dec_val_nonneg(s, from, upto - 1);
    }
}

/// A run of hexadecimal digits has a non-negative value.
pub proof fn lemma_hex_val_nonneg(s: Seq<char>, from: int, upto: int)
    requires
        forall|j: int| from <= j < upto ==> is_hex_digit(#[trigger] s[j]),
        0 <= from,
        upto <= s.len(),
    ensures
        hex_val_range(s, from, upto) >= 0,
    decreases upto - from,
{
    if from < upto {
        lemma_hex_val_nonneg(s, from, upto - 1);
    }
}

/// Reading more hexadecimal digits never shrinks the value.
pub proof fn lemma_hex_val_monotone(s: Seq<char>, from: int, i: int, upto: int)
    requires
        forall|j: int| from <= j < upto ==> is_hex_digit(#[trigger] s[j]),
        0 <= from <= i <= upto <= s.len(),
    ensures
        hex_val_range(s, from, i) <= hex_val_range(s, from, upto),
    decreases upto - i,
{
    if i < upto {
        lemma_hex_val_monotone(s, from, i, upto - 1);
        lemma_hex_val_nonneg(s, from, upto - 1);
    }
}

/// One or more decimal digits.
pub open spec fn is_dec_literal(t: Seq<char>) -> bool {
    t.len() >= 1 && all_dec_digits_from(t, 0)
}

/// A minus sign followed by one or more decimal digits.
pub open spec fn is_neg_literal(t: Seq<char>) -> bool {
    t.len() >= 2 && t[0] == '-' && all_dec_digits_from(t, 1)
}

/// `0x` followed by one or more hexadecimal digits.
pub open spec fn is_hex_literal(t: Seq<char>) -> bool {
    t.len() >= 3 && t[0] == '0' && t[1] == 'x' && all_hex_digits_from(t, 2)
}

/// A syntactically numeric token.
pub open spec fn is_literal(t: Seq<char>) -> bool {
    is_dec_literal(t) || is_neg_literal(t) || is_hex_literal(t)
}

/// The mathematical value of a numeric token.
pub open spec fn literal_val(t: Seq<char>) -> int {
    if is_dec_literal(t) {
        dec_val_range(t, 0, t.len() as int)
    } else if is_neg_literal(t) {
        -dec_val_range(t, 1, t.len() as int)
    } else {
        hex_val_range(t, 2, t.len() as int)
    }
}

/// Whether a numeric token's value is representable in 32 bits: within
/// `i32`'s range written in decimal, within `u32`'s written in hexadecimal.
pub open spec fn literal_fits(t: Seq<char>) -> bool {
    if is_dec_literal(t) {
        dec_val_range(t, 0, t.len() as int) <= 0x7FFF_FFFF
    } else if is_neg_literal(t) {
        dec_val_range(t, 1, t.len() as int) <= 0x8000_0000
    } else {
        hex_val_range(t, 2, t.len() as int) <= 0xFFFF_FFFF
    }
}

/// The 32-bit two's-complement pattern of a numeric token that fits.
pub open spec fn literal_bits(t: Seq<char>) -> u32 {
    if is_dec_literal(t) {
        dec_val_range(t, 0, t.len() as int) as u32
    } else if is_neg_literal(t) {
        if dec_val_range(t, 1, t.len() as int) == 0 {
            0u32
        } else {
            (0x1_0000_0000 - dec_val_range(t, 1, t.len() as int)) as u32
        }
    } else {
        hex_val_range(t, 2, t.len() as int) as u32
    }
}

/// One resolved operand: its 32-bit pattern, and whether it came from the
/// label table (a branch or jump then reads it relative to the pc).
#[derive(Clone, Copy, Debug, PartialEq, Eq, Structural)]
pub struct Operand {
    pub bits: u32,
    pub from_label: bool,
}

/// What resolving one operand token against a label table yields.
pub open spec fn spec_resolve_operand(t: Seq<char>, labels: Map<Seq<char>, u32>) -> Result<
    Operand,
    AssemblerError,
> {
    if is_literal(t) {
        if literal_fits(t) {
            Ok(Operand { bits: literal_bits(t), from_label: false })
        } else {
            Err(AssemblerError::ImmediateParseError)
        }
    } else if labels.contains_key(t) {
        Ok(Operand { bits: labels[t], from_label: true })
    } else {
        Err(AssemblerError::UndefinedLabelError)
    }
}

/// Check that every character from `from` on is a decimal digit.
fn all_dec_from(t: &str, from: usize) -> (r: bool)
    requires
        from <= t@.len(),
    ensures
        r == all_dec_digits_from(t@, from as int),
{
    let n = t.unicode_len();
    let mut i: usize = from;
    while i < n
        invariant
            from <= i <= n,
            n == t@.len(),
            forall|j: int| from <= j < i ==> is_dec_digit(#[trigger] t@[j]),
        decreases n - i,
    {
        let c = t.get_char(i);
        if (c as u32) < 48 || (c as u32) > 57 {
            return false;
        }
        i = i + 1;
    }
    true
}

/// Check that every character from `from` on is a hexadecimal digit.
fn all_hex_from(t: &str, from: usize) -> (r: bool)
    requires
        from <= t@.len(),
    ensures
        r == all_hex_digits_from(t@, from as int),
{
    let n = t.unicode_len();
    let mut i: usize = from;
    while i < n
        invariant
            from <= i <= n,
            n == t@.len(),
            forall|j: int| from <= j < i ==> is_hex_digit(#[trigger] t@[j]),
        decreases n - i,
    {
        let c = t.get_char(i);
        let v = c as u32;
        if !(48 <= v && v <= 57) && !(97 <= v && v <= 102) && !(65 <= v && v <= 70) {
            return false;
        }
        i = i + 1;
    }
    true
}

/// The value of the decimal digits from `from` on, or `None` when it
/// exceeds 32 bits.
fn dec_value_capped(t: &str, from: usize) -> (r: Option<u64>)
    requires
        from <= t@.len(),
        all_dec_digits_from(t@, from as int),
    ensures
        match r {
            Some(v) => v == dec_val_range(t@, from as int, t@.len() as int) && v <= 0xFFFF_FFFF,
            None => dec_val_range(t@, from as int, t@.len() as int) > 0xFFFF_FFFF,
        },
{
    let n = t.unicode_len();
    let mut acc: u64 = 0;
    let mut i: usize = from;
    while i < n
        invariant
            from <= i <= n,
            n == t@.len(),
            all_dec_digits_from(t@, from as int),
            acc == dec_val_range(t@, from as int, i as int),
            acc <= 0xFFFF_FFFF,
        decreases n - i,
    {
        let c = t.get_char(i);
        assert(is_dec_digit(t@[i as int]));
        let d = (c as u32) - 48;
        acc = acc * 10 + (d as u64);
        i = i + 1;
        if acc > 0xFFFF_FFFF {
            proof {
                lemma_dec_val_monotone(t@, from as int, i as int, n as int);
            }
            return None;
        }
    }
    Some(acc)
}

/// The value of the hexadecimal digits from `from` on, or `None` when it
/// exceeds 32 bits.
fn hex_value_capped(t: &str, from: usize) -> (r: Option<u64>)
    requires
        from <= t@.len(),
        all_hex_digits_from(t@, from as int),
    ensures
        match r {
            Some(v) => v == hex_val_range(t@, from as int, t@.len() as int) && v <= 0xFFFF_FFFF,
            None => hex_val_range(t@, from as int, t@.len() as int) > 0xFFFF_FFFF,
        },
{
    let n = t.unicode_len();
    let mut acc: u64 = 0;
    let mut i: usize = from;
    while i < n
        invariant
            from <= i <= n,
            n == t@.len(),
            all_hex_digits_from(t@, from as int),
            acc == hex_val_range(t@, from as int, i as int),
            acc <= 0xFFFF_FFFF,
        decreases n - i,
    {
        let c = t.get_char(i);
        assert(is_hex_digit(t@[i as int]));
        let v = c as u32;
        let d = if 48 <= v && v <= 57 {
            v - 48
        } else if 97 <= v && v <= 102 {
            v - 87
        } else {
            v - 55
        };
        acc = acc * 16 + (d as u64);
        i = i + 1;
        if acc > 0xFFFF_FFFF {
            proof {
                lemma_hex_val_monotone(t@, from as int, i as int, n as int);
            }
            return None;
        }
    }
    Some(acc)
}

/// Resolve one operand token: a numeric literal to its 32-bit pattern, any
/// other token to the address the label table records for it.
pub fn resolve_operand(t: &str, labels: &LabelTable) -> (r: Result<Operand, AssemblerError>)
    ensures
        r == spec_resolve_operand(t@, labels@),
{
    let n = t.unicode_len();
    if n >= 3 && t.get_char(0) == '0' && t.get_char(1) == 'x' && all_hex_from(t, 2) {
        proof {
            assert(!is_dec_digit(t@[1]));
            assert(!is_dec_literal(t@));
            assert(!is_neg_literal(t@));
        }
        match hex_value_capped(t, 2) {
            Some(v) => Ok(Operand { bits: v as u32, from_label: false }),
            None => Err(AssemblerError::ImmediateParseError),
        }
    } else if n >= 2 && t.get_char(0) == '-' && all_dec_from(t, 1) {
        proof {
            assert(!is_dec_digit(t@[0]));
            assert(!is_dec_literal(t@));
        }
        match dec_value_capped(t, 1) {
            Some(v) => {
                if v <= 0x8000_0000 {
                    let bits = if v == 0 {
                        0u32
                    } else {
                        (0x1_0000_0000u64 - v) as u32
                    };
                    Ok(Operand { bits, from_label: false })
                } else {
                    Err(AssemblerError::ImmediateParseError)
                }
            },
            None => {
                proof {
                    lemma_dec_val_nonneg(t@, 1, t@.len() as int);
                }
                Err(AssemblerError::ImmediateParseError)
            },
        }
    } else if n >= 1 && all_dec_from(t, 0) {
        match dec_value_capped(t, 0) {
            Some(v) => {
                if v <= 0x7FFF_FFFF {
                    Ok(Operand { bits: v as u32, from_label: false })
                } else {
                    Err(AssemblerError::ImmediateParseError)
                }
            },
            None => Err(AssemblerError::ImmediateParseError),
        }
    } else {
        proof {
            assert(!is_literal(t@));
        }
        match labels.get(t) {
            Some(addr) => Ok(Operand { bits: addr, from_label: true }),
            None => Err(AssemblerError::UndefinedLabelError),
        }
    }
}

} // verus!
