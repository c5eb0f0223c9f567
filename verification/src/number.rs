//! Reading integers from their decimal texts.
use vstd::prelude::*;

use crate::text::{push_decimal, to_chars};

verus! {

use crate::text::{decimal, digit_char, digits};

/// The number that a decimal digit stands for, or -1 for any other character.
pub open spec fn digit_of(c: char) -> int {
    if c == '0' {
        0
    } else if c == '1' {
        1
    } else if c == '2' {
        2
    } else if c == '3' {
        3
    } else if c == '4' {
        4
    } else if c == '5' {
        5
    } else if c == '6' {
        6
    } else if c == '7' {
        7
    } else if c == '8' {
        8
    } else if c == '9' {
        9
    } else {
        -1
    }
}

/// The character is a decimal digit.
pub open spec fn is_digit(c: char) -> bool {
    digit_of(c) >= 0
}

/// The text is made of decimal digits, at least one.
pub open spec fn all_digits(s: Seq<char>) -> bool {
    s.len() > 0 && forall|i: int| 0 <= i < s.len() ==> is_digit(#[trigger] s[i])
}

/// The number that decimal digits stand for.
pub open spec fn digits_value(s: Seq<char>) -> int
    decreases s.len(),
{
    if s.len() == 0 {
        0
    } else {
        digits_value(s.drop_last()) * 10 + digit_of(s.last())
    }
}

/// The integer that a text stands for, if it stands for one: decimal digits, behind a sign or
/// not.
pub open spec fn parsed(s: Seq<char>) -> Option<int> {
    if s.len() > 0 && s[0] == '-' && all_digits(s.skip(1)) {
        Some(-digits_value(s.skip(1)))
    } else if s.len() > 0 && s[0] == '+' && all_digits(s.skip(1)) {
        Some(digits_value(s.skip(1)))
    } else if all_digits(s) {
        Some(digits_value(s))
    } else {
        None
    }
}

proof fn lemma_value_grows(s: Seq<char>, k: int)
    requires
        all_digits(s),
        0 <= k <= s.len(),
    ensures
        0 <= digits_value(s.take(k)) <= digits_value(s),
    decreases s.len(),
{
    if k == s.len() {
        assert(s.take(k) =~= s);
        if k > 1 {
            assert(all_digits(s.drop_last()));
            lemma_value_grows(s.drop_last(), k - 1);
            assert(s.drop_last().take(k - 1) =~= s.drop_last());
        } else {
            assert(digits_value(s.drop_last()) == 0);
        }
        assert(is_digit(s[k - 1]));
    } else {
        if s.len() > 1 {
            assert(all_digits(s.drop_last()));
            lemma_value_grows(s.drop_last(), k);
            assert(s.drop_last().take(k) =~= s.take(k));
        } else {
            assert(digits_value(s.take(k)) == 0);
            assert(digits_value(s.drop_last()) == 0);
        }
        assert(is_digit(s[s.len() - 1]));
    }
}

/// Why a text is not read as a number.
#[derive(Clone, Copy, Debug, PartialEq, Eq, Structural)]
pub enum NumberError {
    /// There is no text.
    Empty,
    /// A character is no digit, or there is a sign and nothing else.
    InvalidDigit,
    /// The number is too large.
    PosOverflow,
    /// The number is too small.
    NegOverflow,
}

impl NumberError {
    /// What is told about the text.
    pub open spec fn text(self) -> Seq<char> {
        match self {
            NumberError::Empty => "cannot parse integer from empty string"@,
            NumberError::InvalidDigit => "invalid digit found in string"@,
            NumberError::PosOverflow => "number too large to fit in target type"@,
            NumberError::NegOverflow => "number too small to fit in target type"@,
        }
    }

    /// What is told about the text.
    pub fn message(&self) -> (r: &'static str)
        ensures
            r@ == self.text(),
    {
        match self {
            NumberError::Empty => "cannot parse integer from empty string",
            NumberError::InvalidDigit => "invalid digit found in string",
            NumberError::PosOverflow => "number too large to fit in target type",
            NumberError::NegOverflow => "number too small to fit in target type",
        }
    }
}

/// The first thing, from the left, that keeps what stands behind the sign from being read: a
/// character that is no digit, or a digit with which the number leaves the range of `i64`.
pub open spec fn fault(body: Seq<char>, negative: bool) -> Option<NumberError>
    decreases body.len(),
{
    if body.len() == 0 {
        None
    } else {
        match fault(body.drop_last(), negative) {
            Some(error) => Some(error),
            None => if !is_digit(body.last()) {
                Some(NumberError::InvalidDigit)
            } else if negative && -digits_value(body) < i64::MIN {
                Some(NumberError::NegOverflow)
            } else if !negative && digits_value(body) > i64::MAX {
                Some(NumberError::PosOverflow)
            } else {
                None
            },
        }
    }
}

/// The text starts with a minus sign.
pub open spec fn is_negative(s: Seq<char>) -> bool {
    s.len() > 0 && s[0] == '-'
}

/// What stands behind the sign, where there is one.
pub open spec fn behind_sign(s: Seq<char>) -> Seq<char> {
    if s.len() > 0 && (s[0] == '-' || s[0] == '+') {
        s.skip(1)
    } else {
        s
    }
}

/// What a text is read as: the number that it stands for, or why it is not read.
pub open spec fn number_read(s: Seq<char>) -> Result<i64, NumberError> {
    if s.len() == 0 {
        Err(NumberError::Empty)
    } else if behind_sign(s).len() == 0 {
        Err(NumberError::InvalidDigit)
    } else {
        match fault(behind_sign(s), is_negative(s)) {
            Some(error) => Err(error),
            None => Ok(
                (if is_negative(s) {
                    -digits_value(behind_sign(s))
                } else {
                    digits_value(behind_sign(s))
                }) as i64,
            ),
        }
    }
}

proof fn lemma_first_fault_counts(body: Seq<char>, negative: bool, k: int)
    requires
        0 <= k <= body.len(),
        fault(body.take(k), negative) is Some,
    ensures
        fault(body, negative) == fault(body.take(k), negative),
    decreases body.len(),
{
    if k == body.len() {
        assert(body.take(k) =~= body);
    } else {
        assert(body.drop_last().take(k) =~= body.take(k));
        lemma_first_fault_counts(body.drop_last(), negative, k);
    }
}

proof fn lemma_faultless(body: Seq<char>, negative: bool)
    ensures
        fault(body, negative) is None <==> {
            &&& forall|i: int| 0 <= i < body.len() ==> is_digit(#[trigger] body[i])
            &&& digits_value(body) <= i64::MAX || (negative && -digits_value(body) >= i64::MIN)
        },
    decreases body.len(),
{
    if body.len() > 0 {
        let head = body.drop_last();
        lemma_faultless(head, negative);
        assert(body.last() == body[body.len() - 1]);
        assert(forall|i: int| 0 <= i < head.len() ==> body[i] == #[trigger] head[i]);
        if fault(head, negative) is None && is_digit(body.last()) {
            assert forall|i: int| 0 <= i < body.len() implies is_digit(#[trigger] body[i]) by {
                if i < head.len() {
                    assert(is_digit(head[i]));
                }
            }
        }
        if forall|i: int| 0 <= i < body.len() ==> is_digit(#[trigger] body[i]) {
            lemma_value_grows(body, body.len() - 1);
            assert(body.take(body.len() - 1) =~= head);
            assert forall|i: int| 0 <= i < head.len() implies is_digit(#[trigger] head[i]) by {
                assert(is_digit(body[i]));
            }
        }
    }
}

/// A text is read exactly where it stands for an integer in the range of `i64`, and as that
/// integer.
pub proof fn law_numbers_are_read_for_what_they_are(s: Seq<char>)
    ensures
        match parsed(s) {
            Some(n) if i64::MIN <= n <= i64::MAX => number_read(s) == Ok::<i64, NumberError>(
                n as i64,
            ),
            _ => number_read(s) is Err,
        },
{
    let body = behind_sign(s);
    if s.len() > 0 {
        lemma_faultless(body, is_negative(s));
        assert(!is_digit('-') && !is_digit('+'));
        if s[0] == '-' || s[0] == '+' {
            assert(!all_digits(s));
        }
        if all_digits(body) {
            lemma_value_grows(body, 0);
        }
    }
}

fn digit_value(c: char) -> (r: Option<u64>)
    ensures
        match r {
            Some(digit) => digit == digit_of(c) && digit < 10,
            None => !is_digit(c),
        },
{
    if c == '0' {
        Some(0)
    } else if c == '1' {
        Some(1)
    } else if c == '2' {
        Some(2)
    } else if c == '3' {
        Some(3)
    } else if c == '4' {
        Some(4)
    } else if c == '5' {
        Some(5)
    } else if c == '6' {
        Some(6)
    } else if c == '7' {
        Some(7)
    } else if c == '8' {
        Some(8)
    } else if c == '9' {
        Some(9)
    } else {
        None
    }
}

/// The number that the digits behind the sign stand for; they start at `from`.
fn read_digits(chars: &Vec<char>, from: usize, negative: bool) -> (r: Result<u64, NumberError>)
    requires
        from <= chars@.len(),
    ensures
        match fault(chars@.skip(from as int), negative) {
            Some(error) => r == Err::<u64, NumberError>(error),
            None => r == Ok::<u64, NumberError>(digits_value(chars@.skip(from as int)) as u64) && 0
                <= digits_value(chars@.skip(from as int)) <= (if negative {
                0x8000_0000_0000_0000int
            } else {
                0x7fff_ffff_ffff_ffffint
            }),
        },
{
    let ghost body = chars@.skip(from as int);
    let limit: u64 = if negative {
        0x8000_0000_0000_0000
    } else {
        0x7fff_ffff_ffff_ffff
    };
    let mut value: u64 = 0;
    let mut i: usize = from;
    while i < chars.len()
        invariant
            from <= i <= chars@.len(),
            body == chars@.skip(from as int),
            limit == (if negative {
                0x8000_0000_0000_0000int
            } else {
                0x7fff_ffff_ffff_ffffint
            }),
            value <= limit,
            value == digits_value(body.take(i - from)),
            fault(body.take(i - from), negative) is None,
        decreases chars.len() - i,
    {
        let c = chars[i];
        let ghost now = body.take(i - from + 1);
        proof {
            assert(now.drop_last() =~= body.take(i - from));
            assert(now.last() == c);
        }
        match digit_value(c) {
            None => {
                proof {
                    lemma_first_fault_counts(body, negative, i - from + 1);
                }
                return Err(NumberError::InvalidDigit);
            },
            Some(digit) => {
                if value > 922337203685477580 || value * 10 + digit > limit {
                    proof {
                        lemma_first_fault_counts(body, negative, i - from + 1);
                    }
                    return Err(
                        if negative {
                            NumberError::NegOverflow
                        } else {
                            NumberError::PosOverflow
                        },
                    );
                }
                value = value * 10 + digit;
            },
        }
        i += 1;
    }
    assert(body.take(i - from) =~= body);
    Ok(value)
}

/// Reads a number from its text.
pub fn parse_i64(s: &str) -> (r: Result<i64, NumberError>)
    ensures
        r == number_read(s@),
{
    let chars = to_chars(s);
    if chars.len() == 0 {
        return Err(NumberError::Empty);
    }
    let negative = chars[0] == '-';
    let from: usize = if negative || chars[0] == '+' {
        1
    } else {
        0
    };
    assert(s@.skip(0) =~= s@);
    assert(behind_sign(s@) == s@.skip(from as int));
    if from == chars.len() {
        return Err(NumberError::InvalidDigit);
    }
    match read_digits(&chars, from, negative) {
        Err(error) => Err(error),
        Ok(value) => if !negative {
            Ok(value as i64)
        } else if value == 0x8000_0000_0000_0000 {
            Ok(i64::MIN)
        } else {
            Ok(-(value as i64))
        },
    }
}

proof fn lemma_digits_read_back(n: nat)
    ensures
        all_digits(digits(n)),
        digits_value(digits(n)) == n,
    decreases n,
{
    if n < 10 {
        let s = digits(n);
        assert(s.drop_last() =~= Seq::empty());
        assert(digits_value(s.drop_last()) == 0);
        assert(s.last() == digit_char(n as int));
    } else {
        lemma_digits_read_back(n / 10);
        let head = digits(n / 10);
        let s = digits(n);
        assert(s.drop_last() =~= head);
        assert(s.last() == digit_char((n % 10) as int));
        assert(digit_of(digit_char((n % 10) as int)) == n % 10);
        assert forall|i: int| 0 <= i < s.len() implies is_digit(#[trigger] s[i]) by {
            if i < head.len() {
                assert(s[i] == head[i]);
            }
        }
    }
}

/// Every integer is read back from its decimal text.
pub proof fn law_decimal_reads_back(n: int)
    ensures
        parsed(decimal(n)) == Some(n),
        i64::MIN <= n <= i64::MAX ==> number_read(decimal(n)) == Ok::<i64, NumberError>(n as i64),
{
    law_numbers_are_read_for_what_they_are(decimal(n));
    if n < 0 {
        lemma_digits_read_back((-n) as nat);
        assert(decimal(n).skip(1) =~= digits((-n) as nat));
    } else {
        lemma_digits_read_back(n as nat);
        assert(is_digit(decimal(n)[0]));
    }
}

/// A number that is written down is read back as it was.
pub proof fn law_written_numbers_are_read_back(n: i64, text: &str, r: Result<i64, NumberError>)
    requires
        call_ensures(parse_i64, (text,), r),
    ensures
        forall|out: &mut String, w: ()| #[trigger]
            call_ensures(push_decimal, (out, n), w) && out@.len() == 0 && final(out)@ == text@
                ==> r == Ok::<i64, NumberError>(n),
{
    law_decimal_reads_back(n as int);
    assert forall|out: &mut String, w: ()| #[trigger]
        call_ensures(push_decimal, (out, n), w) && out@.len() == 0 && final(out)@ == text@ implies r
        == Ok::<i64, NumberError>(n) by {
        assert(final(out)@ =~= decimal(n as int));
    }
}

} // verus!
