//! Scalar converters: from the characters of one field to its value.
//!
//! Numbers are positional numerals. A decimal field is a numeral of radix 10,
//! an order id is a numeral of radix 36 whose letters count from ten, in either
//! case.

use vstd::prelude::*;
use vstd::string::*;
use crate::error::ErrorKind;

verus! {

/// Radix of the decimal fields.
pub const DECIMAL: u64 = 10;

/// Radix of the order-id token.
pub const BASE36: u64 = 36;

/// Width in characters of a participant id that is present.
pub const PART_ID_WIDTH: usize = 4;

/// The digit that `c` stands for: `0`-`9` are 0 to 9, and a letter of either
/// case is 10 (`a`) to 35 (`z`). Any other character is no digit.
pub open spec fn digit_of(c: char) -> Option<nat> {
    if '0' <= c && c <= '9' {
        Some((c as nat - '0' as nat) as nat)
    } else if 'a' <= c && c <= 'z' {
        Some((c as nat - 'a' as nat + 10) as nat)
    } else if 'A' <= c && c <= 'Z' {
        Some((c as nat - 'A' as nat + 10) as nat)
    } else {
        None
    }
}

/// `c` is a digit of the given radix.
pub open spec fn is_digit(c: char, radix: nat) -> bool {
    digit_of(c) matches Some(d) && d < radix
}

/// `s` is a numeral of the given radix: at least one character, digits only.
pub open spec fn is_numeral(s: Seq<char>, radix: nat) -> bool {
    &&& s.len() > 0
    &&& forall|i: int| 0 <= i < s.len() ==> is_digit(#[trigger] s[i], radix)
}

/// The number that the numeral `s` denotes, most significant digit first.
/// A character that is no digit counts as zero.
pub open spec fn numeral_value(s: Seq<char>, radix: nat) -> nat
    decreases s.len(),
{
    if s.len() == 0 {
        0
    } else {
        let low: nat = match digit_of(s.last()) {
            Some(d) => d,
            None => 0,
        };
        numeral_value(s.drop_last(), radix) * radix + low
    }
}

/// What converting `s` to a number no larger than `max` gives: the value of the
/// numeral, or `FormatError` where `s` is no numeral of that radix or its value
/// does not fit.
pub open spec fn parsed_numeral(s: Seq<char>, radix: nat, max: nat) -> Result<nat, ErrorKind> {
    if is_numeral(s, radix) && numeral_value(s, radix) <= max {
        Ok(numeral_value(s, radix))
    } else {
        Err(ErrorKind::FormatError)
    }
}

/// One more than the largest value that `len` digits of the radix can denote.
pub open spec fn numeral_limit(radix: nat, len: nat) -> nat
    decreases len,
{
    if len == 0 {
        1
    } else {
        radix * numeral_limit(radix, (len - 1) as nat)
    }
}

/// Appending one character shifts the value by one digit.
proof fn lemma_numeral_value_step(s: Seq<char>, radix: nat, i: int)
    requires
        0 <= i < s.len(),
    ensures
        numeral_value(s.take(i + 1), radix) == numeral_value(s.take(i), radix) * radix + (
        match digit_of(s[i]) {
            Some(d) => d,
            None => 0,
        }),
{
    assert(s.take(i + 1).drop_last() =~= s.take(i));
}

/// A prefix never denotes more than the whole.
proof fn lemma_numeral_prefix_le(s: Seq<char>, radix: nat, k: int)
    requires
        radix >= 1,
        0 <= k <= s.len(),
    ensures
        numeral_value(s.take(k), radix) <= numeral_value(s, radix),
    decreases s.len() - k,
{
    if k == s.len() {
        assert(s.take(k) =~= s);
    } else {
        lemma_numeral_value_step(s, radix, k);
        lemma_numeral_prefix_le(s, radix, k + 1);
        let v = numeral_value(s.take(k), radix);
        assert(v <= v * radix) by (nonlinear_arith)
            requires
                radix >= 1,
                v >= 0,
        ;
    }
}

/// A numeral of `s.len()` digits stays below the limit of that many digits.
pub proof fn lemma_numeral_below_limit(s: Seq<char>, radix: nat)
    requires
        forall|i: int| 0 <= i < s.len() ==> is_digit(#[trigger] s[i], radix),
    ensures
        numeral_value(s, radix) < numeral_limit(radix, s.len()),
    decreases s.len(),
{
    if s.len() > 0 {
        let head = s.drop_last();
        lemma_numeral_below_limit(head, radix);
        let v = numeral_value(head, radix);
        let lim = numeral_limit(radix, head.len());
        let d = digit_of(s.last())->0;
        assert(v * radix + d < radix * lim) by (nonlinear_arith)
            requires
                v < lim,
                d < radix,
                v >= 0,
        ;
    }
}

/// The digit of `c` in the given radix, if it is one.
pub fn digit_in_radix(c: char, radix: u64) -> (res: Option<u64>)
    ensures
        match res {
            Some(d) => is_digit(c, radix as nat) && digit_of(c) == Some(d as nat),
            None => !is_digit(c, radix as nat),
        },
{
    let code: u32 = c as u32;
    let d: u64 = if '0' <= c && c <= '9' {
        (code - ('0' as u32)) as u64
    } else if 'a' <= c && c <= 'z' {
        (code - ('a' as u32) + 10) as u64
    } else if 'A' <= c && c <= 'Z' {
        (code - ('A' as u32) + 10) as u64
    } else {
        return None;
    };
    if d < radix {
        Some(d)
    } else {
        None
    }
}

/// Converts the numeral `s` of the given radix to a number no larger than `max`.
pub fn parse_numeral(s: &str, radix: u64, max: u64) -> (res: Result<u64, ErrorKind>)
    ensures
        match res {
            Ok(v) => parsed_numeral(s@, radix as nat, max as nat) == Ok::<nat, ErrorKind>(v as nat),
            Err(k) => parsed_numeral(s@, radix as nat, max as nat) == Err::<nat, ErrorKind>(k),
        },
{
    broadcast use group_string_axioms;

    if s.is_empty() {
        return Err(ErrorKind::FormatError);
    }
    let mut acc: u64 = 0;
    for c in it: s.chars()
        invariant
            it.seq() == s@,
            forall|j: int| 0 <= j < it.index() ==> is_digit(#[trigger] s@[j], radix as nat),
            acc == numeral_value(s@.take(it.index() as int), radix as nat),
            acc <= max,
    {
        let d: u64 = match digit_in_radix(c, radix) {
            Some(d) => d,
            None => {
                return Err(ErrorKind::FormatError);
            },
        };
        proof {
            lemma_numeral_value_step(s@, radix as nat, it.index() as int);
            lemma_numeral_prefix_le(s@, radix as nat, it.index() + 1);
        }
        let shifted: u64 = match acc.checked_mul(radix) {
            Some(p) => p,
            None => {
                return Err(ErrorKind::FormatError);
            },
        };
        let next: u64 = match shifted.checked_add(d) {
            Some(v) => v,
            None => {
                return Err(ErrorKind::FormatError);
            },
        };
        if next > max {
            return Err(ErrorKind::FormatError);
        }
        acc = next;
    }
    assert(s@.take(s@.len() as int) =~= s@);
    Ok(acc)
}

/// Converts a decimal field to a 32-bit number.
pub fn parse_u32(s: &str) -> (res: Result<u32, ErrorKind>)
    ensures
        match res {
            Ok(v) => parsed_numeral(s@, DECIMAL as nat, u32::MAX as nat) == Ok::<nat, ErrorKind>(
                v as nat,
            ),
            Err(k) => parsed_numeral(s@, DECIMAL as nat, u32::MAX as nat) == Err::<nat, ErrorKind>(
                k,
            ),
        },
{
    match parse_numeral(s, DECIMAL, u32::MAX as u64) {
        Ok(v) => Ok(v as u32),
        Err(k) => Err(k),
    }
}

/// Converts a decimal field to a 64-bit number.
pub fn parse_u64(s: &str) -> (res: Result<u64, ErrorKind>)
    ensures
        match res {
            Ok(v) => parsed_numeral(s@, DECIMAL as nat, u64::MAX as nat) == Ok::<nat, ErrorKind>(
                v as nat,
            ),
            Err(k) => parsed_numeral(s@, DECIMAL as nat, u64::MAX as nat) == Err::<nat, ErrorKind>(
                k,
            ),
        },
{
    parse_numeral(s, DECIMAL, u64::MAX)
}

/// Converts an order-id token to the 64-bit number it denotes. The radix is
/// 36, whatever the name suggests.
pub fn from_hex(input: &str) -> (res: Result<u64, ErrorKind>)
    ensures
        match res {
            Ok(v) => parsed_numeral(input@, BASE36 as nat, u64::MAX as nat) == Ok::<nat, ErrorKind>(
                v as nat,
            ),
            Err(k) => parsed_numeral(input@, BASE36 as nat, u64::MAX as nat) == Err::<
                nat,
                ErrorKind,
            >(k),
        },
{
    parse_numeral(input, BASE36, u64::MAX)
}

/// What converting `s` to a single character gives: its only character, or
/// `FormatError` where `s` is not exactly one character long.
pub open spec fn parsed_char(s: Seq<char>) -> Result<char, ErrorKind> {
    if s.len() == 1 {
        Ok(s[0])
    } else {
        Err(ErrorKind::FormatError)
    }
}

/// Converts a one-character field to its character.
pub fn parse_char(s: &str) -> (res: Result<char, ErrorKind>)
    ensures
        res == parsed_char(s@),
{
    if s.unicode_len() == 1 {
        Ok(s.get_char(0))
    } else {
        Err(ErrorKind::FormatError)
    }
}

/// What converting the characters left after the fixed fields to an optional
/// field of `width` characters gives: no characters where none are left, the
/// `width` characters where exactly that many are left, and `FormatError` for
/// any other count.
pub open spec fn parsed_optional(s: Seq<char>, width: nat) -> Result<Seq<char>, ErrorKind> {
    if s.len() == 0 || s.len() == width {
        Ok(s)
    } else {
        Err(ErrorKind::FormatError)
    }
}

/// Converts what is left of an add-order line to its participant id: empty
/// where the id is absent, else its four characters.
pub fn parse_opt_part_id(input: &str) -> (res: Result<String, ErrorKind>)
    ensures
        match res {
            Ok(id) => parsed_optional(input@, PART_ID_WIDTH as nat) == Ok::<
                Seq<char>,
                ErrorKind,
            >(id@),
            Err(k) => parsed_optional(input@, PART_ID_WIDTH as nat) == Err::<Seq<char>, ErrorKind>(
                k,
            ),
        },
{
    let n: usize = input.unicode_len();
    if n == 0 || n == PART_ID_WIDTH {
        Ok(input.to_owned())
    } else {
        Err(ErrorKind::FormatError)
    }
}

/// `c` is a digit or a letter of either case.
pub open spec fn is_alphanumeric(c: char) -> bool {
    ('0' <= c && c <= '9') || ('a' <= c && c <= 'z') || ('A' <= c && c <= 'Z')
}

/// The base-36 alphabet is the digits and the letters of either case.
pub proof fn law_base36_alphabet(c: char)
    ensures
        is_digit(c, BASE36 as nat) <==> is_alphanumeric(c),
{
}

/// A token that holds a character outside the base-36 alphabet is rejected
/// with `FormatError`, wherever the character stands.
pub proof fn law_base36_rejects_foreign_character(s: Seq<char>, i: int)
    requires
        0 <= i < s.len(),
        !is_alphanumeric(s[i]),
    ensures
        parsed_numeral(s, BASE36 as nat, u64::MAX as nat) == Err::<nat, ErrorKind>(
            ErrorKind::FormatError,
        ),
{
}

/// Base-36 decoding is total over its alphabet: a non-empty token of base-36
/// digits decodes exactly when its value fits in 64 bits, and a token of at
/// most twelve digits always does.
pub proof fn law_base36_total(s: Seq<char>)
    requires
        is_numeral(s, BASE36 as nat),
    ensures
        parsed_numeral(s, BASE36 as nat, u64::MAX as nat) is Ok <==> numeral_value(
            s,
            BASE36 as nat,
        ) <= u64::MAX,
        parsed_numeral(s, BASE36 as nat, u64::MAX as nat) is Ok ==> parsed_numeral(
            s,
            BASE36 as nat,
            u64::MAX as nat,
        ) == Ok::<nat, ErrorKind>(numeral_value(s, BASE36 as nat)),
        s.len() <= 12 ==> parsed_numeral(s, BASE36 as nat, u64::MAX as nat) is Ok,
{
    if s.len() <= 12 {
        lemma_numeral_below_limit(s, 36);
        lemma_numeral_limit_grows(36, s.len(), 12);
        lemma_limits();
    }
}

/// Base-36 decoding depends on the characters of the token alone: two tokens
/// of the same characters decode alike, whichever lines they were cut from.
pub proof fn law_base36_deterministic(a: Seq<char>, b: Seq<char>)
    requires
        a.len() == b.len(),
        forall|i: int| 0 <= i < a.len() ==> a[i] == b[i],
    ensures
        parsed_numeral(a, BASE36 as nat, u64::MAX as nat) == parsed_numeral(
            b,
            BASE36 as nat,
            u64::MAX as nat,
        ),
{
    assert(a =~= b);
}

/// More digits never lower the limit.
proof fn lemma_numeral_limit_grows(radix: nat, a: nat, b: nat)
    requires
        radix >= 1,
        a <= b,
    ensures
        1 <= numeral_limit(radix, a) <= numeral_limit(radix, b),
    decreases b,
{
    if a == 0 {
        if b > 0 {
            lemma_numeral_limit_grows(radix, 0, (b - 1) as nat);
            let lim = numeral_limit(radix, (b - 1) as nat);
            assert(lim <= radix * lim) by (nonlinear_arith)
                requires
                    radix >= 1,
                    lim >= 1,
            ;
        }
    } else {
        lemma_numeral_limit_grows(radix, (a - 1) as nat, (b - 1) as nat);
        let la = numeral_limit(radix, (a - 1) as nat);
        let lb = numeral_limit(radix, (b - 1) as nat);
        assert(radix * la <= radix * lb && 1 <= radix * la) by (nonlinear_arith)
            requires
                radix >= 1,
                1 <= la <= lb,
        ;
    }
}

/// The limits of the field widths that the message layouts use: six, eight and
/// ten decimal digits, and twelve base-36 digits.
pub proof fn lemma_limits()
    ensures
        numeral_limit(10, 6) == 1_000_000,
        numeral_limit(10, 8) == 100_000_000,
        numeral_limit(10, 10) == 10_000_000_000,
        numeral_limit(36, 12) == 4_738_381_338_321_616_896,
{
    reveal_with_fuel(numeral_limit, 13);
}

} // verus!
