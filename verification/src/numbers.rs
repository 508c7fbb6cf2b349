//! Integers and their decimal text.
use vstd::prelude::*;
use vstd::string::*;

use crate::text;

verus! {

/// The character of a digit.
pub open spec fn digit_char(d: int) -> char {
    (48 + d) as char
}

/// The decimal digits of `n`, without leading zeros.
pub open spec fn decimal(n: nat) -> Seq<char>
    decreases n,
{
    if n < 10 {
        seq![digit_char(n as int)]
    } else {
        decimal(n / 10).push(digit_char((n % 10) as int))
    }
}

/// The decimal text of `n`, with a minus sign where it is negative.
pub open spec fn signed_decimal(n: int) -> Seq<char> {
    if n < 0 {
        seq!['-'] + decimal((-n) as nat)
    } else {
        decimal(n as nat)
    }
}

/// Writes a natural number in decimal.
pub fn natural_text(n: u64) -> (r: String)
    ensures
        r@ == decimal(n as nat),
    decreases n,
{
    let mut out = if n < 10 {
        String::new()
    } else {
        natural_text(n / 10)
    };
    let d: u8 = (n % 10) as u8;
    out.push((48 + d) as char);
    assert(n < 10 ==> out@ =~= decimal(n as nat));
    out
}

/// Writes an integer in decimal.
pub fn integer_text(n: i64) -> (r: String)
    ensures
        r@ == signed_decimal(n as int),
{
    if n < 0 {
        let magnitude: u64 = if n == i64::MIN {
            0x8000_0000_0000_0000
        } else {
            (-n) as u64
        };
        let mut out = String::new();
        out.push('-');
        out.append(natural_text(magnitude).as_str());
        assert(out@ =~= seq!['-'] + decimal((-n) as nat));
        out
    } else {
        natural_text(n as u64)
    }
}

/// Writes a truth value.
pub fn bool_text(b: bool) -> (r: &'static str)
    ensures
        r@ == spec_bool_text(b),
{
    if b {
        "true"
    } else {
        "false"
    }
}

/// `true` or `false`.
pub open spec fn spec_bool_text(b: bool) -> Seq<char> {
    if b {
        "true"@
    } else {
        "false"@
    }
}

/// Why a text is no integer of the wanted range.
#[derive(Debug, Clone, Copy, PartialEq, Eq, Structural)]
pub enum IntegerError {
    Empty,
    InvalidDigit,
    TooLarge,
    TooSmall,
}

impl IntegerError {
    /// The message for a reader.
    pub open spec fn text(self) -> Seq<char> {
        match self {
            IntegerError::Empty => "cannot parse integer from empty string"@,
            IntegerError::InvalidDigit => "invalid digit found in string"@,
            IntegerError::TooLarge => "number too large to fit in target type"@,
            IntegerError::TooSmall => "number too small to fit in target type"@,
        }
    }

    /// The message for a reader.
    pub fn message(&self) -> (r: &'static str)
        ensures
            r@ == self.text(),
    {
        match self {
            IntegerError::Empty => "cannot parse integer from empty string",
            IntegerError::InvalidDigit => "invalid digit found in string",
            IntegerError::TooLarge => "number too large to fit in target type",
            IntegerError::TooSmall => "number too small to fit in target type",
        }
    }
}

/// A decimal digit.
pub open spec fn is_digit(c: char) -> bool {
    '0' <= c <= '9'
}

/// Reads the digits of `s` from the left, `acc` being the value read so far; the first character
/// that is no digit, or that takes the value over `limit`, ends the reading.
pub open spec fn digits_value(s: Seq<char>, acc: int, limit: int, over: IntegerError) -> Result<
    int,
    IntegerError,
>
    decreases s.len(),
{
    if s.len() == 0 {
        Ok(acc)
    } else if !is_digit(s[0]) {
        Err(IntegerError::InvalidDigit)
    } else {
        let next = acc * 10 + (s[0] as int - 48);
        if next > limit {
            Err(over)
        } else {
            digits_value(s.subrange(1, s.len() as int), next, limit, over)
        }
    }
}

/// The natural number that `s` writes, up to `limit`; one plus sign may lead.
pub open spec fn natural_of(s: Seq<char>, limit: int) -> Result<int, IntegerError> {
    if s.len() == 0 {
        Err(IntegerError::Empty)
    } else if s == seq!['+'] {
        Err(IntegerError::InvalidDigit)
    } else if s[0] == '+' {
        digits_value(s.subrange(1, s.len() as int), 0, limit, IntegerError::TooLarge)
    } else {
        digits_value(s, 0, limit, IntegerError::TooLarge)
    }
}

/// The integer of 64 bits that `s` writes; one plus or minus sign may lead.
pub open spec fn integer_of(s: Seq<char>) -> Result<int, IntegerError> {
    if s.len() > 1 && s[0] == '-' {
        match digits_value(
            s.subrange(1, s.len() as int),
            0,
            0x8000_0000_0000_0000,
            IntegerError::TooSmall,
        ) {
            Ok(n) => Ok(-n),
            Err(e) => Err(e),
        }
    } else {
        natural_of(s, i64::MAX as int)
    }
}

fn read_digits(cs: &Vec<char>, from: usize, limit: u64, over: IntegerError) -> (r: Result<
    u64,
    IntegerError,
>)
    requires
        from <= cs@.len(),
    ensures
        match r {
            Ok(n) => digits_value(cs@.subrange(from as int, cs@.len() as int), 0, limit as int, over)
                == Ok::<int, IntegerError>(n as int) && n <= limit,
            Err(e) => digits_value(cs@.subrange(from as int, cs@.len() as int), 0, limit as int, over)
                == Err::<int, IntegerError>(e),
        },
{
    let mut acc: u64 = 0;
    let mut i: usize = from;
    let ghost all = digits_value(
        cs@.subrange(from as int, cs@.len() as int),
        0,
        limit as int,
        over,
    );
    while i < cs.len()
        invariant
            from <= i <= cs@.len(),
            acc <= limit,
            all == digits_value(
                cs@.subrange(i as int, cs@.len() as int),
                acc as int,
                limit as int,
                over,
            ),
            all == digits_value(cs@.subrange(from as int, cs@.len() as int), 0, limit as int, over),
        decreases cs@.len() - i,
    {
        let ghost rest = cs@.subrange(i as int, cs@.len() as int);
        assert(rest.subrange(1, rest.len() as int) =~= cs@.subrange(i + 1, cs@.len() as int));
        let c: char = cs[i];
        if !('0' <= c && c <= '9') {
            return Err(IntegerError::InvalidDigit);
        }
        let next: u128 = acc as u128 * 10 + (c as u128 - 48);
        if next > limit as u128 {
            return Err(over);
        }
        acc = next as u64;
        i = i + 1;
    }
    Ok(acc)
}

/// Reads a natural number up to `limit`.
pub fn parse_natural(s: &str, limit: u64) -> (r: Result<u64, IntegerError>)
    ensures
        match r {
            Ok(n) => natural_of(s@, limit as int) == Ok::<int, IntegerError>(n as int) && n
                <= limit,
            Err(e) => natural_of(s@, limit as int) == Err::<int, IntegerError>(e),
        },
{
    let cs = text::chars_of(s);
    if cs.len() == 0 {
        return Err(IntegerError::Empty);
    }
    assert(s@.subrange(0, s@.len() as int) =~= s@);
    if cs[0] == '+' {
        if cs.len() == 1 {
            assert(s@ =~= seq!['+']);
            return Err(IntegerError::InvalidDigit);
        }
        assert(s@ != seq!['+']);
        read_digits(&cs, 1, limit, IntegerError::TooLarge)
    } else {
        assert(s@ != seq!['+']);
        read_digits(&cs, 0, limit, IntegerError::TooLarge)
    }
}

/// Reads an integer of 64 bits.
pub fn parse_integer(s: &str) -> (r: Result<i64, IntegerError>)
    ensures
        match r {
            Ok(n) => integer_of(s@) == Ok::<int, IntegerError>(n as int),
            Err(e) => integer_of(s@) == Err::<int, IntegerError>(e),
        },
{
    let cs = text::chars_of(s);
    if cs.len() > 1 && cs[0] == '-' {
        match read_digits(&cs, 1, 0x8000_0000_0000_0000, IntegerError::TooSmall) {
            Ok(n) => if n == 0x8000_0000_0000_0000 {
                Ok(i64::MIN)
            } else {
                Ok(-(n as i64))
            },
            Err(e) => Err(e),
        }
    } else {
        match parse_natural(s, i64::MAX as u64) {
            Ok(n) => Ok(n as i64),
            Err(e) => Err(e),
        }
    }
}

/// A number's text is that of its tenth part with one digit behind it.
pub proof fn law_a_digit_makes_ten_times_as_much(n: nat, d: nat)
    requires
        n > 0,
        d < 10,
    ensures
        decimal(10 * n + d) == decimal(n) + decimal(d),
        decimal(d) == seq![(d + '0' as int) as char],
{
    assert((10 * n + d) / 10 == n);
    assert((10 * n + d) % 10 == d);
    assert(decimal(n) + decimal(d) =~= decimal(n).push(digit_char(d as int)));
}

/// A number is read back from its text, where it is not over the limit, and is refused as too large
/// where it is; a leading plus sign makes no difference.
pub proof fn law_number_is_read_back(n: nat, limit: int)
    ensures
        natural_of(decimal(n), limit) == (if n <= limit {
            Ok::<int, IntegerError>(n as int)
        } else {
            Err::<int, IntegerError>(IntegerError::TooLarge)
        }),
        natural_of(seq!['+'] + decimal(n), limit) == natural_of(decimal(n), limit),
{
    lemma_decimal_digits(n);
    let s = decimal(n);
    lemma_digits_value(n, limit, IntegerError::TooLarge);
    assert(is_digit(s[0]));
    assert(s[0] != '+');
    assert(seq!['+'][0] == '+');
    let signed = seq!['+'] + s;
    assert(signed.subrange(1, signed.len() as int) =~= s);
    assert(signed.len() > 1);
    assert(seq!['+'].len() == 1);
}

/// An integer is read back from its text, a negative one too.
pub proof fn law_integer_is_read_back(n: i64)
    ensures
        integer_of(signed_decimal(n as int)) == Ok::<int, IntegerError>(n as int),
{
    let m: nat = (if n < 0 {
        -n
    } else {
        n as int
    }) as nat;
    lemma_decimal_digits(m);
    let s = signed_decimal(n as int);
    if n < 0 {
        lemma_digits_value(m, 0x8000_0000_0000_0000, IntegerError::TooSmall);
        assert(s.subrange(1, s.len() as int) =~= decimal(m));
    } else {
        law_number_is_read_back(m, i64::MAX as int);
        assert(is_digit(s[0]));
    }
}

/// A text with a character that is no digit behind digits within the limit is no number.
pub proof fn law_only_digits_make_a_number(n: nat, c: char, tail: Seq<char>, limit: int)
    requires
        n <= limit,
        !('0' <= c <= '9'),
    ensures
        natural_of(decimal(n) + seq![c] + tail, limit) == Err::<int, IntegerError>(
            IntegerError::InvalidDigit,
        ),
        natural_of(seq![], limit) == Err::<int, IntegerError>(IntegerError::Empty),
{
    lemma_decimal_digits(n);
    let s = decimal(n) + seq![c] + tail;
    assert(s[0] == decimal(n)[0]);
    assert(is_digit(s[0]));
    assert(s =~= decimal(n) + (seq![c] + tail));
    lemma_digits_then(n, seq![c] + tail, limit, IntegerError::TooLarge);
    assert((seq![c] + tail)[0] == c);
    assert(s != seq!['+']) by {
        assert(seq!['+'][0] == '+');
    }
}

proof fn lemma_decimal_digits(n: nat)
    ensures
        decimal(n).len() > 0,
        forall|i: int| 0 <= i < decimal(n).len() ==> is_digit(#[trigger] decimal(n)[i]),
    decreases n,
{
    if n >= 10 {
        lemma_decimal_digits(n / 10);
        let front = decimal(n / 10);
        assert forall|i: int| 0 <= i < decimal(n).len() implies is_digit(
            #[trigger] decimal(n)[i],
        ) by {
            if i < front.len() {
                assert(decimal(n)[i] == front[i]);
            }
        }
    }
}

/// The digits of a number within the limit are read, and the reading goes on behind them.
proof fn lemma_digits_then(n: nat, tail: Seq<char>, limit: int, over: IntegerError)
    requires
        n <= limit,
    ensures
        digits_value(decimal(n) + tail, 0, limit, over) == digits_value(tail, n as int, limit, over),
    decreases n,
{
    let d = digit_char((n % 10) as int);
    if n < 10 {
        let s = decimal(n) + tail;
        assert(s[0] == digit_char(n as int));
        assert(s.subrange(1, s.len() as int) =~= tail);
    } else {
        let front = n / 10;
        lemma_digits_then(front, seq![d] + tail, limit, over);
        assert(decimal(n) + tail =~= decimal(front) + (seq![d] + tail));
        let s = seq![d] + tail;
        assert(s[0] == d);
        assert(s.subrange(1, s.len() as int) =~= tail);
        assert(front * 10 + n % 10 == n);
    }
}

proof fn lemma_digits_value(n: nat, limit: int, over: IntegerError)
    ensures
        digits_value(decimal(n), 0, limit, over) == (if n <= limit {
            Ok::<int, IntegerError>(n as int)
        } else {
            Err::<int, IntegerError>(over)
        }),
    decreases n,
{
    if n <= limit {
        lemma_digits_then(n, seq![], limit, over);
        assert(decimal(n) + Seq::<char>::empty() =~= decimal(n));
    } else if n < 10 {
        assert(decimal(n)[0] == digit_char(n as int));
    } else {
        let front = n / 10;
        let d = digit_char((n % 10) as int);
        if front <= limit {
            lemma_digits_then(front, seq![d], limit, over);
            assert(decimal(n) =~= decimal(front) + seq![d]);
            assert(seq![d][0] == d);
            assert(front * 10 + n % 10 == n);
        } else {
            lemma_over_stays_over(decimal(front), seq![d], 0, limit, over);
            lemma_digits_value(front, limit, over);
            lemma_decimal_digits(front);
            assert(decimal(n) =~= decimal(front) + seq![d]);
        }
    }
}

/// A reading that ended over the limit ends there whatever follows.
proof fn lemma_over_stays_over(
    s: Seq<char>,
    tail: Seq<char>,
    acc: int,
    limit: int,
    over: IntegerError,
)
    ensures
        digits_value(s, acc, limit, over) is Err ==> digits_value(s + tail, acc, limit, over)
            == digits_value(s, acc, limit, over),
    decreases s.len(),
{
    if s.len() > 0 {
        let rest = s.subrange(1, s.len() as int);
        let next = acc * 10 + (s[0] as int - 48);
        assert((s + tail)[0] == s[0]);
        assert((s + tail).subrange(1, (s + tail).len() as int) =~= rest + tail);
        lemma_over_stays_over(rest, tail, next, limit, over);
    }
}

/// Nothing is no number, and neither is a sign by itself; the two are told apart.
pub proof fn law_no_digits_make_no_number(limit: int)
    ensures
        natural_of(seq![], limit) == Err::<int, IntegerError>(IntegerError::Empty),
        integer_of(seq![]) == Err::<int, IntegerError>(IntegerError::Empty),
        natural_of(seq!['+'], limit) == Err::<int, IntegerError>(IntegerError::InvalidDigit),
        integer_of(seq!['+']) == Err::<int, IntegerError>(IntegerError::InvalidDigit),
        integer_of(seq!['-']) == Err::<int, IntegerError>(IntegerError::InvalidDigit),
{
    let minus = seq!['-'];
    assert(minus != seq!['+']) by {
        assert(minus[0] != seq!['+'][0]);
    }
}

/// What is wrong with a number is told.
pub proof fn law_wrong_numbers_are_told()
    ensures
        IntegerError::Empty.text() == "cannot parse integer from empty string"@,
        IntegerError::InvalidDigit.text() == "invalid digit found in string"@,
        IntegerError::TooLarge.text() == "number too large to fit in target type"@,
        IntegerError::TooSmall.text() == "number too small to fit in target type"@,
{
}

} // verus!
