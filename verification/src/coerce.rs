//! Scalar coercion: turning attribute bytes and accumulated tag text into
//! typed field values, with an exact specification for each coercion.

use vstd::prelude::*;

verus! {

// ---------------------------------------------------------------------------
// Whitespace trimming of decoded text fragments
// ---------------------------------------------------------------------------

/// A character with the Unicode `White_Space` property.
pub open spec fn is_unicode_space(c: char) -> bool {
    ||| (9 <= c as u32 && c as u32 <= 13)
    ||| c as u32 == 32
    ||| c as u32 == 0x85
    ||| c as u32 == 0xA0
    ||| c as u32 == 0x1680
    ||| (0x2000 <= c as u32 && c as u32 <= 0x200A)
    ||| c as u32 == 0x2028
    ||| c as u32 == 0x2029
    ||| c as u32 == 0x202F
    ||| c as u32 == 0x205F
    ||| c as u32 == 0x3000
}

fn is_space_char(c: char) -> (r: bool)
    ensures
        r == is_unicode_space(c),
{
    let u = c as u32;
    (9 <= u && u <= 13) || u == 32 || u == 0x85 || u == 0xA0 || u == 0x1680 || (0x2000 <= u && u
        <= 0x200A) || u == 0x2028 || u == 0x2029 || u == 0x202F || u == 0x205F || u == 0x3000
}

/// The fragment with leading and trailing whitespace removed.
pub open spec fn spec_trim_chars(s: Seq<char>) -> Seq<char>
    decreases s.len(),
{
    if s.len() > 0 && is_unicode_space(s[0]) {
        spec_trim_chars(s.drop_first())
    } else if s.len() > 0 && is_unicode_space(s.last()) {
        spec_trim_chars(s.drop_last())
    } else {
        s
    }
}

/// Removes leading and trailing whitespace from a decoded fragment.
pub fn trim_str<'a>(s: &'a str) -> (r: &'a str)
    ensures
        r@ == spec_trim_chars(s@),
    decreases s@.len(),
{
    let n = s.unicode_len();
    if n > 0 && is_space_char(s.get_char(0)) {
        let w = s.substring_char(1, n);
        proof {
            assert(w@ =~= s@.drop_first());
        }
        trim_str(w)
    } else if n > 0 && is_space_char(s.get_char(n - 1)) {
        let w = s.substring_char(0, n - 1);
        proof {
            assert(w@ =~= s@.drop_last());
        }
        trim_str(w)
    } else {
        s
    }
}

// ---------------------------------------------------------------------------
// Unsigned integer coercion
// ---------------------------------------------------------------------------

/// Why a numeric coercion failed; mirrors the distinctions integer parsing
/// makes between an empty literal, a stray character, and overflow.
#[derive(Debug, Clone, Copy, PartialEq, Eq, Structural)]
pub enum NumError {
    Empty,
    InvalidDigit,
    TooLarge,
}

/// Two characters with one scalar value are one character.
proof fn lemma_char_eq_by_u32(a: char, b: char)
    requires
        a as u32 == b as u32,
    ensures
        a == b,
{
    vstd::utf8::char_u32_cast(a, a as u32);
    vstd::utf8::char_u32_cast(b, a as u32);
}

/// Character equality, decided on the scalar values.
fn char_eq(a: char, b: char) -> (r: bool)
    ensures
        r == (a == b),
{
    let r = a as u32 == b as u32;
    proof {
        if r {
            lemma_char_eq_by_u32(a, b);
        }
    }
    r
}

pub open spec fn is_digit(c: char) -> bool {
    48 <= c as u32 && c as u32 <= 57
}

pub open spec fn digit_val(c: char) -> int {
    c as u32 - 48
}

/// Scans digits left to right from position `i`, accumulating the value,
/// and reports the first failure: a non-digit character, or a value no
/// longer fitting in 64 bits.
pub open spec fn spec_parse_digits_from(s: Seq<char>, i: int, acc: int) -> Result<int, NumError>
    decreases s.len() - i,
{
    if i < 0 || i >= s.len() {
        Ok(acc)
    } else if !is_digit(s[i]) {
        Err(NumError::InvalidDigit)
    } else if acc * 10 + digit_val(s[i]) > u64::MAX {
        Err(NumError::TooLarge)
    } else {
        spec_parse_digits_from(s, i + 1, acc * 10 + digit_val(s[i]))
    }
}

/// Unsigned decimal literal: an optional leading `+`, then one or more
/// digits whose value fits in 64 bits.
pub open spec fn spec_parse_u64(s: Seq<char>) -> Result<u64, NumError> {
    if s.len() == 0 {
        Err(NumError::Empty)
    } else {
        let start: int = if s[0] == '+' {
            1
        } else {
            0
        };
        if s.len() == start {
            Err(NumError::InvalidDigit)
        } else {
            match spec_parse_digits_from(s, start, 0) {
                Ok(v) => Ok(v as u64),
                Err(e) => Err(e),
            }
        }
    }
}

/// Coerces text to an unsigned 64-bit integer, reporting the first failure.
#[verifier::loop_isolation(false)]
pub fn parse_u64_str(s: &str) -> (r: Result<u64, NumError>)
    ensures
        r == spec_parse_u64(s@),
{
    let n = s.unicode_len();
    if n == 0 {
        return Err(NumError::Empty);
    }
    let first = s.get_char(0);
    let start: usize = if char_eq(first, '+') {
        1
    } else {
        0
    };
    if n == start {
        return Err(NumError::InvalidDigit);
    }
    let mut acc: u64 = 0;
    let mut i: usize = start;
    loop
        invariant
            start <= i <= n,
            n == s@.len(),
            spec_parse_digits_from(s@, start as int, 0) == spec_parse_digits_from(
                s@,
                i as int,
                acc as int,
            ),
        decreases n - i,
    {
        if i >= n {
            break ;
        }
        let c = s.get_char(i);
        if !(48 <= c as u32 && c as u32 <= 57) {
            return Err(NumError::InvalidDigit);
        }
        let dv: u64 = (c as u32 - 48) as u64;
        let next = match acc.checked_mul(10) {
            Some(m) => m.checked_add(dv),
            None => None,
        };
        match next {
            Some(v) => {
                acc = v;
            },
            None => {
                return Err(NumError::TooLarge);
            },
        }
        i = i + 1;
    }
    Ok(acc)
}

/// The text of each numeric failure, as error reports carry it.
pub open spec fn spec_num_err_msg(e: NumError) -> Seq<char> {
    match e {
        NumError::Empty => "cannot parse integer from empty string"@,
        NumError::InvalidDigit => "invalid digit found in string"@,
        NumError::TooLarge => "number too large to fit in target type"@,
    }
}

/// Renders a numeric failure as its report text.
pub fn num_err_string(e: NumError) -> (r: String)
    ensures
        r@ == spec_num_err_msg(e),
{
    match e {
        NumError::Empty => String::from_str("cannot parse integer from empty string"),
        NumError::InvalidDigit => String::from_str("invalid digit found in string"),
        NumError::TooLarge => String::from_str("number too large to fit in target type"),
    }
}

// ---------------------------------------------------------------------------
// Boolean coercion
// ---------------------------------------------------------------------------

/// What a boolean tag text accepts: exactly `true` or `false`.
pub open spec fn spec_parse_bool(s: Seq<char>) -> Option<bool> {
    if s == "true"@ {
        Some(true)
    } else if s == "false"@ {
        Some(false)
    } else {
        None
    }
}

/// Compares a runtime string with a given literal.
pub fn str_eq(a: &str, b: &str) -> (r: bool)
    ensures
        r == (a@ == b@),
{
    let sa = String::from_str(a);
    let sb = String::from_str(b);
    sa == sb
}

/// Coerces text to a boolean: `true`/`false` only, anything else is
/// rejected.
pub fn parse_bool_text(s: &str) -> (r: Option<bool>)
    ensures
        r == spec_parse_bool(s@),
{
    if str_eq(s, "true") {
        Some(true)
    } else if str_eq(s, "false") {
        Some(false)
    } else {
        None
    }
}

/// The report text of a failed boolean coercion.
pub open spec fn spec_bool_err_msg() -> Seq<char> {
    "provided string was not `true` or `false`"@
}

/// Renders the boolean failure as its report text.
pub fn bool_err_string() -> (r: String)
    ensures
        r@ == spec_bool_err_msg(),
{
    String::from_str("provided string was not `true` or `false`")
}

// ---------------------------------------------------------------------------
// Tri-state availability attribute
// ---------------------------------------------------------------------------

pub open spec fn spec_true_bytes() -> Seq<u8> {
    seq![116u8, 114u8, 117u8, 101u8]
}

pub open spec fn spec_false_bytes() -> Seq<u8> {
    seq![102u8, 97u8, 108u8, 115u8, 101u8]
}

/// The tri-state `available` attribute: `true`/`1` set it, `false`/`0` and
/// empty text clear it, anything else is rejected (`None`). Absence of the
/// attribute is handled by the caller and leaves the field unset.
pub open spec fn spec_parse_available(v: Seq<u8>) -> Option<Option<bool>> {
    if v == spec_true_bytes() || v == seq![49u8] {
        Some(Some(true))
    } else if v == spec_false_bytes() || v == seq![48u8] || v == Seq::<u8>::empty() {
        Some(Some(false))
    } else {
        None
    }
}

/// Coerces the raw `available` attribute value; `None` means the literal is
/// invalid.
pub fn parse_available(v: &[u8]) -> (r: Option<Option<bool>>)
    ensures
        r == spec_parse_available(v@),
{
    let n = v.len();
    if n == 4 && v[0] == 116 && v[1] == 114 && v[2] == 117 && v[3] == 101 {
        proof {
            assert(v@ =~= spec_true_bytes());
        }
        Some(Some(true))
    } else if n == 1 && v[0] == 49 {
        proof {
            assert(v@ =~= seq![49u8]);
        }
        Some(Some(true))
    } else if n == 5 && v[0] == 102 && v[1] == 97 && v[2] == 108 && v[3] == 115 && v[4] == 101 {
        proof {
            assert(v@ =~= spec_false_bytes());
        }
        Some(Some(false))
    } else if n == 1 && v[0] == 48 {
        proof {
            assert(v@ =~= seq![48u8]);
        }
        Some(Some(false))
    } else if n == 0 {
        proof {
            assert(v@ =~= Seq::<u8>::empty());
        }
        Some(Some(false))
    } else {
        proof {
            assert(v@ != spec_true_bytes() && v@ != spec_false_bytes());
            assert(v@ != seq![49u8] && v@ != seq![48u8]);
            assert(v@ != Seq::<u8>::empty());
        }
        None
    }
}

// ---------------------------------------------------------------------------
// Decimal literals (kept as validated text)
// ---------------------------------------------------------------------------

/// Only digits from position `i` to the end.
pub open spec fn spec_all_digits_from(s: Seq<char>, i: int) -> bool
    decreases s.len() - i,
{
    if i < 0 || i >= s.len() {
        true
    } else {
        is_digit(s[i]) && spec_all_digits_from(s, i + 1)
    }
}

/// An exponent part from position `i`: an optional sign, then one or more
/// digits.
pub open spec fn spec_exp_ok_from(s: Seq<char>, i: int) -> bool {
    if i < s.len() && (s[i] == '+' || s[i] == '-') {
        i + 1 < s.len() && spec_all_digits_from(s, i + 1)
    } else {
        i < s.len() && spec_all_digits_from(s, i)
    }
}

/// Scans the mantissa from position `i`: digits with at most one decimal
/// point and at least one digit overall, optionally ending in an exponent.
pub open spec fn spec_mantissa_from(s: Seq<char>, i: int, seen_dot: bool, seen_digit: bool) -> bool
    recommends
        0 <= i <= s.len(),
    decreases s.len() - i,
{
    if i < 0 || i >= s.len() {
        seen_digit
    } else if is_digit(s[i]) {
        spec_mantissa_from(s, i + 1, seen_dot, true)
    } else if s[i] == '.' && !seen_dot {
        spec_mantissa_from(s, i + 1, true, seen_digit)
    } else if (s[i] == 'e' || s[i] == 'E') && seen_digit {
        spec_exp_ok_from(s, i + 1)
    } else {
        false
    }
}

/// A decimal literal: an optional sign, then digits with at most one
/// decimal point and at least one digit, optionally followed by an
/// exponent part.
pub open spec fn spec_is_decimal(s: Seq<char>) -> bool {
    if s.len() > 0 && (s[0] == '+' || s[0] == '-') {
        spec_mantissa_from(s, 1, false, false)
    } else {
        spec_mantissa_from(s, 0, false, false)
    }
}

#[verifier::loop_isolation(false)]
fn exp_ok(s: &str, from: usize) -> (r: bool)
    requires
        from <= s@.len(),
    ensures
        r == spec_exp_ok_from(s@, from as int),
{
    let n = s.unicode_len();
    let start: usize = if from < n {
        let c = s.get_char(from);
        if char_eq(c, '+') || char_eq(c, '-') {
            from + 1
        } else {
            from
        }
    } else {
        from
    };
    if start >= n {
        return false;
    }
    let mut i: usize = start;
    loop
        invariant
            start <= i <= n,
            n == s@.len(),
            spec_all_digits_from(s@, start as int) == spec_all_digits_from(s@, i as int),
        decreases n - i,
    {
        if i >= n {
            break ;
        }
        let c = s.get_char(i);
        if !(48 <= c as u32 && c as u32 <= 57) {
            return false;
        }
        i = i + 1;
    }
    true
}

/// Checks that text is a decimal literal of the dialect.
#[verifier::loop_isolation(false)]
pub fn is_decimal_str(s: &str) -> (r: bool)
    ensures
        r == spec_is_decimal(s@),
{
    let n = s.unicode_len();
    let start: usize = if n > 0 {
        let c = s.get_char(0);
        if char_eq(c, '+') || char_eq(c, '-') {
            1
        } else {
            0
        }
    } else {
        0
    };
    let mut seen_dot = false;
    let mut seen_digit = false;
    let mut i: usize = start;
    loop
        invariant
            start <= i <= n,
            n == s@.len(),
            spec_mantissa_from(s@, start as int, false, false) == spec_mantissa_from(
                s@,
                i as int,
                seen_dot,
                seen_digit,
            ),
        decreases n - i,
    {
        if i >= n {
            break ;
        }
        let c = s.get_char(i);
        if 48 <= c as u32 && c as u32 <= 57 {
            seen_digit = true;
        } else if char_eq(c, '.') && !seen_dot {
            seen_dot = true;
        } else if (char_eq(c, 'e') || char_eq(c, 'E')) && seen_digit {
            return exp_ok(s, i + 1);
        } else {
            return false;
        }
        i = i + 1;
    }
    seen_digit
}

/// The report text of a failed decimal coercion.
pub open spec fn spec_decimal_err_msg() -> Seq<char> {
    "invalid float literal"@
}

/// Renders the decimal failure as its report text.
pub fn decimal_err_string() -> (r: String)
    ensures
        r@ == spec_decimal_err_msg(),
{
    String::from_str("invalid float literal")
}

} // verus!
