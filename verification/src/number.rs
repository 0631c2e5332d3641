//! Integers read from text: an optional sign, then decimal digits and nothing else.
use vstd::prelude::*;
use vstd::string::*;

use crate::text::{chars_of, decimal, digit_char, signed_decimal};

verus! {

/// Why a text is not an integer of the wanted range.
#[derive(Clone, Copy, PartialEq, Eq, Structural, Debug)]
pub enum IntError {
    /// The text is empty.
    Empty,
    /// A character that is neither a leading sign nor a digit, or a sign alone.
    InvalidDigit,
    /// The number lies above the range.
    PosOverflow,
    /// The number lies below the range.
    NegOverflow,
}

/// What a failed reading says of itself.
pub open spec fn int_error_message(error: IntError) -> Seq<char> {
    match error {
        IntError::Empty => "cannot parse integer from empty string"@,
        IntError::InvalidDigit => "invalid digit found in string"@,
        IntError::PosOverflow => "number too large to fit in target type"@,
        IntError::NegOverflow => "number too small to fit in target type"@,
    }
}

impl IntError {
    /// What a failed reading says of itself.
    pub fn message(&self) -> (text: String)
        ensures
            text@ == int_error_message(*self),
    {
        match self {
            IntError::Empty => "cannot parse integer from empty string".to_owned(),
            IntError::InvalidDigit => "invalid digit found in string".to_owned(),
            IntError::PosOverflow => "number too large to fit in target type".to_owned(),
            IntError::NegOverflow => "number too small to fit in target type".to_owned(),
        }
    }
}

/// The value of a digit.
pub open spec fn digit_value(c: char) -> Option<nat> {
    if '0' <= c && c <= '9' {
        Some((c as nat - 48) as nat)
    } else {
        None
    }
}

/// The number that `digits` write, up to `limit`. The first character that is
/// no digit, or that takes the number over the limit, decides the error.
pub open spec fn read_digits(digits: Seq<char>, limit: nat, over: IntError) -> Result<nat, IntError>
    decreases digits.len(),
{
    if digits.len() == 0 {
        Ok(0)
    } else {
        match read_digits(digits.drop_last(), limit, over) {
            Err(e) => Err(e),
            Ok(v) => match digit_value(digits.last()) {
                None => Err(IntError::InvalidDigit),
                Some(d) => if v * 10 + d > limit {
                    Err(over)
                } else {
                    Ok((v * 10 + d) as nat)
                },
            },
        }
    }
}

/// Whether a text begins with a sign character `sign`.
pub open spec fn signed_by(text: Seq<char>, sign: char) -> bool {
    text.len() >= 1 && text[0] == sign
}

/// The natural number up to `limit` that a text writes, with an optional `+`.
pub open spec fn read_unsigned(text: Seq<char>, limit: nat) -> Result<nat, IntError> {
    if text.len() == 0 {
        Err(IntError::Empty)
    } else if signed_by(text, '+') {
        if text.len() == 1 {
            Err(IntError::InvalidDigit)
        } else {
            read_digits(text.skip(1), limit, IntError::PosOverflow)
        }
    } else {
        read_digits(text, limit, IntError::PosOverflow)
    }
}

/// The 64-bit signed integer that a text writes, with an optional `+` or `-`.
pub open spec fn read_signed(text: Seq<char>) -> Result<int, IntError> {
    if signed_by(text, '-') {
        if text.len() == 1 {
            Err(IntError::InvalidDigit)
        } else {
            match read_digits(text.skip(1), 0x8000_0000_0000_0000, IntError::NegOverflow) {
                Ok(n) => Ok(-(n as int)),
                Err(e) => Err(e),
            }
        }
    } else {
        match read_unsigned(text, 0x7fff_ffff_ffff_ffff) {
            Ok(n) => Ok(n as int),
            Err(e) => Err(e),
        }
    }
}

fn parse_digits(chars: &Vec<char>, from: usize, limit: u64, over: IntError) -> (r: Result<u64, IntError>)
    requires
        from <= chars.len(),
    ensures
        match r {
            Ok(n) => read_digits(chars@.skip(from as int), limit as nat, over) == Ok::<nat, IntError>(
                n as nat,
            ),
            Err(e) => read_digits(chars@.skip(from as int), limit as nat, over) == Err::<nat, IntError>(e),
        },
{
    let ghost digits = chars@.skip(from as int);
    let mut value: u64 = 0;
    let mut i: usize = from;
    while i < chars.len()
        invariant
            from <= i <= chars.len(),
            digits == chars@.skip(from as int),
            value <= limit,
            read_digits(digits.take(i - from), limit as nat, over) == Ok::<nat, IntError>(value as nat),
        decreases chars.len() - i,
    {
        let c: char = chars[i];
        let ghost after = digits.take(i + 1 - from);
        assert(after.drop_last() =~= digits.take(i - from));
        assert(after.last() == c);
        if !('0' <= c && c <= '9') {
            proof {
                lemma_error_stays(digits, after.len(), limit as nat, over);
            }
            return Err(IntError::InvalidDigit);
        }
        let d: u64 = (c as u32 - 48) as u64;
        let next: u128 = (value as u128) * 10 + (d as u128);
        if next > limit as u128 {
            proof {
                lemma_error_stays(digits, after.len(), limit as nat, over);
            }
            return Err(over);
        }
        value = next as u64;
        i = i + 1;
    }
    assert(digits.take(i - from) =~= digits);
    Ok(value)
}

/// An error in the first `n` characters is the error of the whole.
proof fn lemma_error_stays(digits: Seq<char>, n: nat, limit: nat, over: IntError)
    requires
        n <= digits.len(),
        read_digits(digits.take(n as int), limit, over) is Err,
    ensures
        read_digits(digits, limit, over) == read_digits(digits.take(n as int), limit, over),
    decreases digits.len() - n,
{
    if n == digits.len() {
        assert(digits.take(n as int) =~= digits);
    } else {
        assert(digits.take(n as int + 1).drop_last() =~= digits.take(n as int));
        lemma_error_stays(digits, (n + 1) as nat, limit, over);
    }
}

fn parse_unsigned(text: &str, limit: u64) -> (r: Result<u64, IntError>)
    ensures
        match r {
            Ok(n) => read_unsigned(text@, limit as nat) == Ok::<nat, IntError>(n as nat) && n <= limit,
            Err(e) => read_unsigned(text@, limit as nat) == Err::<nat, IntError>(e),
        },
{
    let chars = chars_of(text);
    if chars.len() == 0 {
        return Err(IntError::Empty);
    }
    let from: usize = if chars[0] == '+' {
        if chars.len() == 1 {
            return Err(IntError::InvalidDigit);
        }
        1
    } else {
        0
    };
    assert(chars@.skip(0) =~= chars@);
    let r = parse_digits(&chars, from, limit, IntError::PosOverflow);
    proof {
        lemma_within_limit(chars@.skip(from as int), limit as nat, IntError::PosOverflow);
    }
    r
}

proof fn lemma_within_limit(digits: Seq<char>, limit: nat, over: IntError)
    ensures
        read_digits(digits, limit, over) matches Ok(n) ==> n <= limit,
{
}

/// Reads a `u32`.
pub fn parse_u32(text: &str) -> (r: Result<u32, IntError>)
    ensures
        match r {
            Ok(n) => read_unsigned(text@, u32::MAX as nat) == Ok::<nat, IntError>(n as nat),
            Err(e) => read_unsigned(text@, u32::MAX as nat) == Err::<nat, IntError>(e),
        },
{
    match parse_unsigned(text, u32::MAX as u64) {
        Ok(n) => Ok(n as u32),
        Err(e) => Err(e),
    }
}

/// Reads a `u64`.
pub fn parse_u64(text: &str) -> (r: Result<u64, IntError>)
    ensures
        match r {
            Ok(n) => read_unsigned(text@, u64::MAX as nat) == Ok::<nat, IntError>(n as nat),
            Err(e) => read_unsigned(text@, u64::MAX as nat) == Err::<nat, IntError>(e),
        },
{
    parse_unsigned(text, u64::MAX)
}

/// Reads an `i64`.
pub fn parse_i64(text: &str) -> (r: Result<i64, IntError>)
    ensures
        match r {
            Ok(n) => read_signed(text@) == Ok::<int, IntError>(n as int),
            Err(e) => read_signed(text@) == Err::<int, IntError>(e),
        },
{
    let chars = chars_of(text);
    if chars.len() >= 1 && chars[0] == '-' {
        if chars.len() == 1 {
            return Err(IntError::InvalidDigit);
        }
        proof {
            lemma_within_limit(chars@.skip(1), 0x8000_0000_0000_0000, IntError::NegOverflow);
        }
        match parse_digits(&chars, 1, 0x8000_0000_0000_0000, IntError::NegOverflow) {
            Ok(n) => Ok((-(n as i128)) as i64),
            Err(e) => Err(e),
        }
    } else {
        match parse_unsigned(text, 0x7fff_ffff_ffff_ffff) {
            Ok(n) => Ok(n as i64),
            Err(e) => Err(e),
        }
    }
}

/// A number that was read is within the limit.
pub proof fn unsigned_numbers_are_in_range(text: Seq<char>, limit: nat)
    ensures
        read_unsigned(text, limit) matches Ok(n) ==> n <= limit,
{
}

/// A signed number that was read fits into 64 bits, and is negative only after a minus sign.
pub proof fn signed_numbers_are_in_range(text: Seq<char>)
    ensures
        read_signed(text) matches Ok(n) ==> i64::MIN <= n <= i64::MAX && (n < 0 ==> text.len() > 1
            && text[0] == '-'),
{
}

proof fn digits_read_back(n: nat, limit: nat, over: IntError)
    ensures
        read_digits(decimal(n), limit, over) == if n <= limit {
            Ok::<nat, IntError>(n)
        } else {
            Err::<nat, IntError>(over)
        },
        decimal(n).len() >= 1,
        forall|i: int| 0 <= i < decimal(n).len() ==> '0' <= #[trigger] decimal(n)[i] <= '9',
    decreases n,
{
    if n < 10 {
        assert(decimal(n).drop_last() =~= Seq::<char>::empty());
        assert(read_digits(decimal(n).drop_last(), limit, over) == Ok::<nat, IntError>(0));
    } else {
        digits_read_back(n / 10, limit, over);
        assert(decimal(n).drop_last() =~= decimal(n / 10));
        assert(decimal(n).last() == digit_char(n % 10));
    }
}

/// The decimal numeral of a number is read as that number, with or without a
/// plus sign before it, unless the number is over the limit.
pub proof fn numerals_read_back(n: nat, limit: nat)
    ensures
        n <= limit ==> read_unsigned(decimal(n), limit) == Ok::<nat, IntError>(n),
        n <= limit ==> read_unsigned(seq!['+'] + decimal(n), limit) == Ok::<nat, IntError>(n),
        n > limit ==> read_unsigned(decimal(n), limit) == Err::<nat, IntError>(
            IntError::PosOverflow,
        ),
{
    digits_read_back(n, limit, IntError::PosOverflow);
    assert('0' <= decimal(n)[0] <= '9');
    assert((seq!['+'] + decimal(n)).skip(1) =~= decimal(n));
}

/// The decimal numeral of a signed number is read as that number, unless it
/// does not fit into 64 bits.
pub proof fn signed_numerals_read_back(i: int)
    ensures
        i64::MIN <= i <= i64::MAX ==> read_signed(signed_decimal(i)) == Ok::<int, IntError>(i),
        i < i64::MIN ==> read_signed(signed_decimal(i)) == Err::<int, IntError>(
            IntError::NegOverflow,
        ),
        i > i64::MAX ==> read_signed(signed_decimal(i)) == Err::<int, IntError>(
            IntError::PosOverflow,
        ),
        i < 0 ==> signed_decimal(i) == seq!['-'] + signed_decimal(-i),
{
    reveal_strlit("-");
    assert("-"@ =~= seq!['-']);
    if i < 0 {
        let n = (-i) as nat;
        digits_read_back(n, 0x8000_0000_0000_0000, IntError::NegOverflow);
        assert(signed_decimal(i).skip(1) =~= decimal(n));
    } else {
        digits_read_back(i as nat, 0x7fff_ffff_ffff_ffff, IntError::PosOverflow);
        assert('0' <= decimal(i as nat)[0] <= '9');
        numerals_read_back(i as nat, 0x7fff_ffff_ffff_ffff);
    }
}

/// Whether a text is one digit after the other.
pub open spec fn is_digits(text: Seq<char>) -> bool {
    text.len() >= 1 && forall|i: int| 0 <= i < text.len() ==> '0' <= #[trigger] text[i] <= '9'
}

proof fn digits_are_read(digits: Seq<char>, limit: nat, over: IntError)
    requires
        digits.len() >= 1,
    ensures
        read_digits(digits, limit, over) is Ok ==> is_digits(digits),
        is_digits(digits) ==> (read_digits(digits, limit, over) matches Err(e) ==> e == over),
    decreases digits.len(),
{
    let before = digits.drop_last();
    if before.len() >= 1 {
        digits_are_read(before, limit, over);
        if is_digits(digits) {
            assert(forall|i: int| 0 <= i < before.len() ==> before[i] == digits[i]);
        }
        if is_digits(before) && '0' <= digits.last() <= '9' {
            assert forall|i: int| 0 <= i < digits.len() implies '0' <= #[trigger] digits[i]
                <= '9' by {
                if i < before.len() {
                    assert(digits[i] == before[i]);
                }
            }
        }
    } else {
        assert(read_digits(before, limit, over) == Ok::<nat, IntError>(0));
    }
}

/// A number is read from a text of digits only, with an optional plus sign;
/// such a text is refused for its size alone.
pub proof fn only_digits_are_numbers(text: Seq<char>, limit: nat)
    ensures
        ({
            let digits = if text.len() >= 2 && text[0] == '+' {
                text.skip(1)
            } else {
                text
            };
            &&& read_unsigned(text, limit) is Ok ==> is_digits(digits)
            &&& is_digits(digits) ==> (read_unsigned(text, limit) matches Err(e) ==> e
                == IntError::PosOverflow)
        }),
        text.len() == 0 ==> read_unsigned(text, limit) == Err::<nat, IntError>(IntError::Empty),
{
    if text.len() >= 2 && text[0] == '+' {
        digits_are_read(text.skip(1), limit, IntError::PosOverflow);
    } else if text.len() >= 1 {
        digits_are_read(text, limit, IntError::PosOverflow);
        if is_digits(text) {
            assert('0' <= text[0] <= '9');
        }
    }
}

proof fn zeros_are_skipped(digits: Seq<char>, limit: nat, over: IntError)
    ensures
        read_digits(seq!['0'] + digits, limit, over) == read_digits(digits, limit, over),
    decreases digits.len(),
{
    let padded = seq!['0'] + digits;
    if digits.len() == 0 {
        assert(padded.drop_last() =~= Seq::<char>::empty());
        assert(read_digits(padded.drop_last(), limit, over) == Ok::<nat, IntError>(0));
    } else {
        zeros_are_skipped(digits.drop_last(), limit, over);
        assert(padded.drop_last() =~= seq!['0'] + digits.drop_last());
        assert(padded.last() == digits.last());
    }
}

/// A zero before a number changes nothing.
pub proof fn leading_zeros_do_not_count(digits: Seq<char>, limit: nat)
    requires
        is_digits(digits),
    ensures
        read_unsigned(seq!['0'] + digits, limit) == read_unsigned(digits, limit),
{
    zeros_are_skipped(digits, limit, IntError::PosOverflow);
    assert('0' <= digits[0] <= '9');
}

} // verus!
