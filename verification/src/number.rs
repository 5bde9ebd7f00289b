//! Unsigned numbers: decimal notation and powers of two.

use vstd::prelude::*;
use vstd::string::{StrSliceExecFns, StringExecFns};

verus! {

/// Whether `c` is one of `0` to `9`.
pub open spec fn is_digit(c: char) -> bool {
    '0' <= c <= '9'
}

/// The number that a row of decimal digits denotes.
pub open spec fn digits_value(digits: Seq<char>) -> nat
    decreases digits.len(),
{
    if digits.len() == 0 {
        0
    } else {
        digits_value(digits.drop_last()) * 10 + (digits.last() as int - '0' as int) as nat
    }
}

/// Whether every character is a digit.
pub open spec fn all_digits(text: Seq<char>) -> bool {
    forall|i: int| 0 <= i < text.len() ==> is_digit(#[trigger] text[i])
}

/// `text` without its `+` sign, if it starts with one.
pub open spec fn unsigned_part(text: Seq<char>) -> Seq<char> {
    if text.len() > 0 && text[0] == '+' {
        text.skip(1)
    } else {
        text
    }
}

/// The number that `text` denotes: at least one decimal digit and nothing
/// else, after an optional `+` sign.
pub open spec fn decimal_value(text: Seq<char>) -> Option<nat> {
    let digits = unsigned_part(text);
    if digits.len() > 0 && all_digits(digits) {
        Some(digits_value(digits))
    } else {
        None
    }
}

/// The number that `text` denotes, if it fits in a `usize`.
pub open spec fn usize_value(text: Seq<char>) -> Option<usize> {
    match decimal_value(text) {
        Some(n) => if n <= usize::MAX {
            Some(n as usize)
        } else {
            None
        },
        None => None,
    }
}

/// The decimal digits of `n`, without leading zeros.
pub open spec fn decimal(n: nat) -> Seq<char>
    decreases n,
{
    if n < 10 {
        seq![digit_char(n)]
    } else {
        decimal(n / 10).push(digit_char(n % 10))
    }
}

/// The decimal digit for `d`.
pub open spec fn digit_char(d: nat) -> char {
    ('0' as int + d) as char
}

/// A longer row of digits denotes no smaller number.
proof fn lemma_value_grows(digits: Seq<char>, n: int)
    requires
        0 <= n <= digits.len(),
    ensures
        digits_value(digits.take(n)) <= digits_value(digits),
    decreases digits.len() - n,
{
    if n == digits.len() {
        assert(digits.take(n) =~= digits);
    } else {
        lemma_value_grows(digits, n + 1);
        assert(digits.take(n + 1).drop_last() =~= digits.take(n));
    }
}

/// Why a text denotes no `usize`.
#[derive(Clone, Copy, Debug, PartialEq, Eq, Structural)]
pub enum NumberError {
    /// There is no character.
    Empty,
    /// A character is not a digit, or there is no digit.
    InvalidDigit,
    /// The digits denote a number that does not fit.
    TooLarge,
}

impl NumberError {
    /// The error in words.
    pub open spec fn message(self) -> Seq<char> {
        match self {
            NumberError::Empty => "cannot parse integer from empty string"@,
            NumberError::InvalidDigit => "invalid digit found in string"@,
            NumberError::TooLarge => "number too large to fit in target type"@,
        }
    }

    /// The error in words.
    pub fn text(&self) -> (text: &'static str)
        ensures
            text@ == self.message(),
    {
        match self {
            NumberError::Empty => "cannot parse integer from empty string",
            NumberError::InvalidDigit => "invalid digit found in string",
            NumberError::TooLarge => "number too large to fit in target type",
        }
    }
}

/// The number of digits with which `text` starts.
pub open spec fn digit_count(text: Seq<char>) -> nat
    decreases text.len(),
{
    if text.len() == 0 || !is_digit(text[0]) {
        0
    } else {
        1 + digit_count(text.skip(1))
    }
}

/// What is wrong with `text`, if it denotes no `usize`. Digits that denote too
/// large a number come before a character that is no digit.
pub open spec fn number_error(text: Seq<char>) -> NumberError {
    let digits = unsigned_part(text);
    if text.len() == 0 {
        NumberError::Empty
    } else if digits_value(digits.take(digit_count(digits) as int)) > usize::MAX {
        NumberError::TooLarge
    } else {
        NumberError::InvalidDigit
    }
}

/// The digits with which a text starts end where the first other character is.
proof fn lemma_digit_count(text: Seq<char>, n: int)
    requires
        0 <= n <= text.len(),
        forall|i: int| 0 <= i < n ==> is_digit(#[trigger] text[i]),
    ensures
        n <= digit_count(text) <= text.len(),
        n < text.len() && !is_digit(text[n]) ==> digit_count(text) == n,
    decreases text.len(),
{
    if text.len() > 0 && is_digit(text[0]) {
        let rest = text.skip(1);
        let m = if n > 0 {
            n - 1
        } else {
            0
        };
        assert forall|i: int| 0 <= i < m implies is_digit(#[trigger] rest[i]) by {
            assert(is_digit(text[i + 1]));
        }
        lemma_digit_count(rest, m);
    }
}

/// Reads a `usize` in decimal notation: an optional `+` sign followed by at
/// least one digit and nothing else.
pub fn read_usize(text: &str) -> (res: Result<usize, NumberError>)
    ensures
        match res {
            Ok(n) => usize_value(text@) == Some(n),
            Err(error) => usize_value(text@) is None && error == number_error(text@),
        },
{
    let len: usize = text.unicode_len();
    if len == 0 {
        return Err(NumberError::Empty);
    }
    let start: usize = if text.get_char(0) == '+' {
        1
    } else {
        0
    };
    let ghost digits = unsigned_part(text@);
    assert(digits =~= text@.skip(start as int));
    let mut value: usize = 0;
    let mut i: usize = start;
    while i < len
        invariant
            start <= 1 <= len == text@.len(),
            start <= i <= len,
            digits == text@.skip(start as int),
            digits == unsigned_part(text@),
            forall|j: int| 0 <= j < i - start ==> is_digit(#[trigger] digits[j]),
            value == digits_value(digits.take(i - start)),
        decreases len - i,
    {
        let c = text.get_char(i);
        assert(c == digits[i - start]);
        if !(c >= '0' && c <= '9') {
            proof {
                lemma_digit_count(digits, i - start);
            }
            return Err(NumberError::InvalidDigit);
        }
        let digit: usize = (c as u32 - '0' as u32) as usize;
        let ghost n = i - start + 1;
        proof {
            assert(digits.take(n).drop_last() =~= digits.take(i - start));
            lemma_value_grows(digits, n);
            lemma_digit_count(digits, n);
            let counted = digits.take(digit_count(digits) as int);
            lemma_value_grows(counted, n);
            assert(counted.take(n) =~= digits.take(n));
        }
        match value.checked_mul(10) {
            None => {
                return Err(NumberError::TooLarge);
            },
            Some(tens) => match tens.checked_add(digit) {
                None => {
                    return Err(NumberError::TooLarge);
                },
                Some(sum) => {
                    value = sum;
                },
            },
        }
        i += 1;
    }
    assert(digits.take(len - start) =~= digits);
    if start == len {
        proof {
            lemma_digit_count(digits, 0);
            assert(digits.take(0) =~= Seq::<char>::empty());
        }
        return Err(NumberError::InvalidDigit);
    }
    Ok(value)
}

/// The `usize` that `text` denotes, if it denotes one.
pub fn parse_usize(text: &str) -> (n: Option<usize>)
    ensures
        n == usize_value(text@),
{
    match read_usize(text) {
        Ok(n) => Some(n),
        Err(_) => None,
    }
}

/// Writes `n` in decimal notation.
pub fn format_usize(n: usize) -> (text: String)
    ensures
        text@ == decimal(n as nat),
    decreases n,
{
    if n < 10 {
        digit_text(n).to_owned()
    } else {
        let mut text = format_usize(n / 10);
        text.append(digit_text(n % 10));
        text
    }
}

/// The one-digit text for `d`.
fn digit_text(d: usize) -> (text: &'static str)
    requires
        d < 10,
    ensures
        text@ == seq![digit_char(d as nat)],
{
    proof {
        reveal_strlit("0");
        reveal_strlit("1");
        reveal_strlit("2");
        reveal_strlit("3");
        reveal_strlit("4");
        reveal_strlit("5");
        reveal_strlit("6");
        reveal_strlit("7");
        reveal_strlit("8");
        reveal_strlit("9");
    }
    match d {
        0 => "0",
        1 => "1",
        2 => "2",
        3 => "3",
        4 => "4",
        5 => "5",
        6 => "6",
        7 => "7",
        8 => "8",
        _ => "9",
    }
}

/// Whether `n` is a power of two.
pub fn is_power_of_two(n: usize) -> (yes: bool)
    ensures
        yes == vstd::arithmetic::power2::is_pow2(n as int),
{
    proof {
        reveal(vstd::arithmetic::power2::is_pow2);
    }
    if n == 0 {
        return false;
    }
    let mut m: usize = n;
    while m % 2 == 0
        invariant
            m >= 1,
            vstd::arithmetic::power2::is_pow2(n as int) == vstd::arithmetic::power2::is_pow2(
                m as int,
            ),
        decreases m,
    {
        proof {
            reveal(vstd::arithmetic::power2::is_pow2);
        }
        m = m / 2;
    }
    m == 1
}

/// A number written in decimal notation reads back as itself.
pub proof fn law_decimal_reads_back(n: nat)
    ensures
        decimal_value(decimal(n)) == Some(n),
{
    lemma_decimal(n);
    assert(decimal(n)[0] != '+') by {
        assert(is_digit(decimal(n)[0]));
    }
}

proof fn lemma_decimal(n: nat)
    ensures
        decimal(n).len() >= 1,
        all_digits(decimal(n)),
        digits_value(decimal(n)) == n,
    decreases n,
{
    if n < 10 {
        assert(decimal(n).drop_last() =~= Seq::empty());
        assert(digits_value(decimal(n).drop_last()) == 0);
    } else {
        lemma_decimal(n / 10);
        assert(decimal(n).drop_last() =~= decimal(n / 10));
    }
}

/// Notation. A number below ten is written as its digit, and a larger one as its
/// tenth part followed by its last digit.
pub proof fn law_decimal_notation(n: nat, d: nat)
    requires
        d < 10,
    ensures
        decimal(d).len() == 1,
        decimal(d)[0] as int == '0' as int + d,
        n >= 1 ==> decimal(10 * n + d).len() == decimal(n).len() + 1,
        n >= 1 ==> decimal(10 * n + d).take(decimal(n).len() as int) == decimal(n),
        n >= 1 ==> decimal(10 * n + d).last() as int == '0' as int + d,
{
    if n >= 1 {
        let m = 10 * n + d;
        assert(m / 10 == n && m % 10 == d);
        assert(decimal(m).take(decimal(n).len() as int) =~= decimal(n));
    }
}

/// Place value. A digit at the end multiplies what stands before it by ten and
/// adds its own value.
pub proof fn law_digits_have_place_value(digits: Seq<char>, c: char)
    requires
        '0' <= c <= '9',
    ensures
        digits_value(Seq::<char>::empty()) == 0,
        digits_value(digits.push(c)) == 10 * digits_value(digits) + (c as int - '0' as int),
{
    assert(digits.push(c).drop_last() =~= digits);
}

/// Reading. A text denotes a number exactly when it is one digit or more and
/// nothing else, after a `+` sign or not, and the digits denote a number that
/// fits; the number is then the one that the digits denote.
pub proof fn law_text_denotes_its_digits(text: Seq<char>, digits: Seq<char>, n: usize)
    requires
        digits == if text.len() > 0 && text[0] == '+' {
            text.skip(1)
        } else {
            text
        },
    ensures
        usize_value(text) == Some(n) <==> {
            &&& digits.len() > 0
            &&& forall|i: int| 0 <= i < digits.len() ==> '0' <= #[trigger] digits[i] <= '9'
            &&& digits_value(digits) == n
        },
{
    assert(digits == unsigned_part(text));
}

/// Spellings. Every number that fits is read back from its decimal notation, with
/// a `+` sign or a zero before it too.
pub proof fn law_every_number_can_be_read(n: nat)
    requires
        n <= usize::MAX,
    ensures
        usize_value(decimal(n)) == Some(n as usize),
        usize_value(seq!['+'] + decimal(n)) == Some(n as usize),
        usize_value(seq!['0'] + decimal(n)) == Some(n as usize),
{
    law_decimal_reads_back(n);
    lemma_decimal(n);
    let digits = decimal(n);
    assert((seq!['+'] + digits).skip(1) =~= digits);
    let padded = seq!['0'] + digits;
    assert forall|i: int| 0 <= i < padded.len() implies is_digit(#[trigger] padded[i]) by {
        if i > 0 {
            assert(is_digit(digits[i - 1]));
        }
    }
    lemma_leading_zero(digits);
}

/// A zero in front changes nothing.
proof fn lemma_leading_zero(digits: Seq<char>)
    ensures
        digits_value(seq!['0'] + digits) == digits_value(digits),
    decreases digits.len(),
{
    let padded = seq!['0'] + digits;
    if digits.len() == 0 {
        assert(padded.drop_last() =~= Seq::<char>::empty());
        assert(digits_value(padded.drop_last()) == 0);
    } else {
        lemma_leading_zero(digits.drop_last());
        assert(padded.drop_last() =~= seq!['0'] + digits.drop_last());
        assert(padded.last() == digits.last());
    }
}

/// Errors. Without a character the text is empty; otherwise the number is too large exactly when some
/// digits with which the text starts, after a `+` sign or not, denote a number
/// that does not fit, and a digit is missing or invalid in any other case.
pub proof fn law_number_errors(text: Seq<char>, digits: Seq<char>, n: int)
    requires
        digits == if text.len() > 0 && text[0] == '+' {
            text.skip(1)
        } else {
            text
        },
    ensures
        number_error(text) == NumberError::Empty <==> text.len() == 0,
        text.len() > 0 && 0 <= n <= digits.len() && digits_value(digits.take(n)) > usize::MAX && (
        forall|i: int| 0 <= i < n ==> '0' <= #[trigger] digits[i] <= '9') ==> number_error(text)
            == NumberError::TooLarge,
        number_error(text) == NumberError::TooLarge ==> exists|m: int|
            {
                &&& 0 <= m <= digits.len()
                &&& digits_value(#[trigger] digits.take(m)) > usize::MAX
                &&& forall|i: int| 0 <= i < m ==> '0' <= #[trigger] digits[i] <= '9'
            },
        NumberError::Empty.message() == "cannot parse integer from empty string"@,
        NumberError::InvalidDigit.message() == "invalid digit found in string"@,
        NumberError::TooLarge.message() == "number too large to fit in target type"@,
{
    assert(digits == unsigned_part(text));
    lemma_leading_digits(digits);
    let count = digit_count(digits) as int;
    if 0 <= n <= digits.len() && (forall|i: int| 0 <= i < n ==> '0' <= #[trigger] digits[i]
        <= '9') {
        lemma_digit_count(digits, n);
        let counted = digits.take(count);
        lemma_value_grows(counted, n);
        assert(counted.take(n) =~= digits.take(n));
    }
    if number_error(text) == NumberError::TooLarge {
        assert(digits_value(digits.take(count)) > usize::MAX);
    }
}

/// The digits with which a text starts are digits.
proof fn lemma_leading_digits(text: Seq<char>)
    ensures
        digit_count(text) <= text.len(),
        forall|i: int| 0 <= i < digit_count(text) ==> is_digit(#[trigger] text[i]),
    decreases text.len(),
{
    if text.len() > 0 && is_digit(text[0]) {
        let rest = text.skip(1);
        lemma_leading_digits(rest);
        assert forall|i: int| 0 <= i < digit_count(text) implies is_digit(#[trigger] text[i]) by {
            if i > 0 {
                assert(is_digit(rest[i - 1]));
            }
        }
    }
}

} // verus!
