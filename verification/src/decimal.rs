//! Decimal text of status codes: writing a `u16`, reading one back, and
//! splitting a `code:value` error line.
use vstd::prelude::*;
use crate::tokens::is_ascii_digit;

verus! {

/// Why a text is not a `u16` in decimal.
#[derive(Clone, Copy, Debug, PartialEq, Eq)]
pub enum IntErrorKind {
    /// The text is empty.
    Empty,
    /// The text holds a character that is no decimal digit.
    InvalidDigit,
    /// The value is above `u16::MAX`.
    PosOverflow,
}

pub open spec fn digit_char(d: int) -> char {
    if d == 0 {
        '0'
    } else if d == 1 {
        '1'
    } else if d == 2 {
        '2'
    } else if d == 3 {
        '3'
    } else if d == 4 {
        '4'
    } else if d == 5 {
        '5'
    } else if d == 6 {
        '6'
    } else if d == 7 {
        '7'
    } else if d == 8 {
        '8'
    } else {
        '9'
    }
}

pub open spec fn digit_value(c: char) -> int {
    (c as int) - ('0' as int)
}

/// The decimal text of a natural number, without leading zeros.
pub open spec fn decimal(n: nat) -> Seq<char>
    decreases n,
{
    if n < 10 {
        seq![digit_char(n as int)]
    } else {
        decimal(n / 10).push(digit_char((n % 10) as int))
    }
}

/// Reading the digits of `rest` after a value `acc` already read: the first
/// character that is no digit, or the first digit that takes the value above
/// `u16::MAX`, ends the reading with an error.
pub open spec fn scan_digits(rest: Seq<char>, acc: int) -> Result<u16, IntErrorKind>
    decreases rest.len(),
{
    if rest.len() == 0 {
        Ok(acc as u16)
    } else if !is_ascii_digit(rest[0]) {
        Err(IntErrorKind::InvalidDigit)
    } else if acc * 10 + digit_value(rest[0]) > 65535 {
        Err(IntErrorKind::PosOverflow)
    } else {
        scan_digits(rest.drop_first(), acc * 10 + digit_value(rest[0]))
    }
}

/// A `u16` read from decimal text, as Rust reads one: an optional leading
/// `+`, then decimal digits.
pub open spec fn parse_u16_spec(s: Seq<char>) -> Result<u16, IntErrorKind> {
    if s.len() == 0 {
        Err(IntErrorKind::Empty)
    } else if s.len() == 1 && (s[0] == '+' || s[0] == '-') {
        Err(IntErrorKind::InvalidDigit)
    } else if s[0] == '+' {
        scan_digits(s.drop_first(), 0)
    } else {
        scan_digits(s, 0)
    }
}

/// The message that describes a reading error.
pub open spec fn int_error_text(k: IntErrorKind) -> Seq<char> {
    match k {
        IntErrorKind::Empty => "cannot parse integer from empty string"@,
        IntErrorKind::InvalidDigit => "invalid digit found in string"@,
        IntErrorKind::PosOverflow => "number too large to fit in target type"@,
    }
}

/// The index of the first `:` of `s` at or after `i`, or `s.len()` when there is none.
pub open spec fn colon_from(s: Seq<char>, i: int) -> int
    decreases s.len() - i,
{
    if i < 0 || i >= s.len() {
        s.len() as int
    } else if s[i] == ':' {
        i
    } else {
        colon_from(s, i + 1)
    }
}

pub open spec fn first_colon(s: Seq<char>) -> int {
    colon_from(s, 0)
}

pub open spec fn split_failure_text() -> Seq<char> {
    "Unable to split status code and value"@
}

pub open spec fn code_failure_prefix() -> Seq<char> {
    "Unable to parse status code: "@
}

/// An error line `code:value` split at its first `:` and its code read.
pub open spec fn status_line_spec(s: Seq<char>) -> Result<(u16, Seq<char>), Seq<char>> {
    let k = first_colon(s);
    if k >= s.len() {
        Err(split_failure_text())
    } else {
        match parse_u16_spec(s.take(k)) {
            Ok(code) => Ok((code, s.skip(k + 1))),
            Err(e) => Err(code_failure_prefix() + int_error_text(e)),
        }
    }
}

/// The value of digits read from the left after a value `acc`.
pub open spec fn value_after(acc: int, s: Seq<char>) -> int
    decreases s.len(),
{
    if s.len() == 0 {
        acc
    } else {
        value_after(acc * 10 + digit_value(s[0]), s.drop_first())
    }
}

proof fn lemma_value_after_push(acc: int, s: Seq<char>, c: char)
    ensures
        value_after(acc, s.push(c)) == value_after(acc, s) * 10 + digit_value(c),
    decreases s.len(),
{
    if s.len() == 0 {
        let e = s.push(c).drop_first();
        assert(e =~= Seq::<char>::empty());
        assert(s.push(c)[0] == c);
        assert(value_after(acc * 10 + digit_value(c), e) == acc * 10 + digit_value(c));
    } else {
        assert(s.push(c).drop_first() =~= s.drop_first().push(c));
        assert(s.push(c)[0] == s[0]);
        lemma_value_after_push(acc * 10 + digit_value(s[0]), s.drop_first(), c);
    }
}

proof fn lemma_value_after_grows(acc: int, s: Seq<char>)
    requires
        acc >= 0,
        all_digits(s),
    ensures
        value_after(acc, s) >= acc,
    decreases s.len(),
{
    if s.len() > 0 {
        assert(all_digits(s.drop_first())) by {
            assert forall|i: int| 0 <= i < s.drop_first().len() implies is_ascii_digit(
                #[trigger] s.drop_first()[i],
            ) by {
                assert(s.drop_first()[i] == s[i + 1]);
            }
        }
        assert(is_ascii_digit(s[0]));
        lemma_value_after_grows(acc * 10 + digit_value(s[0]), s.drop_first());
    }
}

pub open spec fn all_digits(s: Seq<char>) -> bool {
    forall|i: int| 0 <= i < s.len() ==> is_ascii_digit(#[trigger] s[i])
}

proof fn lemma_scan_digits(s: Seq<char>, acc: int)
    requires
        acc >= 0,
        all_digits(s),
        value_after(acc, s) <= 65535,
    ensures
        scan_digits(s, acc) == Ok::<u16, IntErrorKind>(value_after(acc, s) as u16),
    decreases s.len(),
{
    if s.len() > 0 {
        assert(all_digits(s.drop_first())) by {
            assert forall|i: int| 0 <= i < s.drop_first().len() implies is_ascii_digit(
                #[trigger] s.drop_first()[i],
            ) by {
                assert(s.drop_first()[i] == s[i + 1]);
            }
        }
        assert(is_ascii_digit(s[0]));
        let next = acc * 10 + digit_value(s[0]);
        lemma_value_after_grows(next, s.drop_first());
        lemma_scan_digits(s.drop_first(), next);
    }
}

proof fn lemma_digit_char(d: int)
    requires
        0 <= d < 10,
    ensures
        digit_value(digit_char(d)) == d,
        is_ascii_digit(digit_char(d)),
{
    assert('0' as int == 48);
    assert('1' as int == 49);
    assert('2' as int == 50);
    assert('3' as int == 51);
    assert('4' as int == 52);
    assert('5' as int == 53);
    assert('6' as int == 54);
    assert('7' as int == 55);
    assert('8' as int == 56);
    assert('9' as int == 57);
}

proof fn lemma_decimal_shape(n: nat)
    ensures
        decimal(n).len() >= 1,
        all_digits(decimal(n)),
        value_after(0, decimal(n)) == n,
    decreases n,
{
    if n < 10 {
        lemma_digit_char(n as int);
        let d = digit_char(n as int);
        assert(decimal(n) == seq![d]);
        let e = decimal(n).drop_first();
        assert(e =~= Seq::<char>::empty());
        assert(value_after(0 * 10 + digit_value(d), e) == n);
    } else {
        lemma_decimal_shape(n / 10);
        lemma_digit_char((n % 10) as int);
        let d = digit_char((n % 10) as int);
        lemma_value_after_push(0, decimal(n / 10), d);
        assert forall|i: int| 0 <= i < decimal(n).len() implies is_ascii_digit(
            #[trigger] decimal(n)[i],
        ) by {
            if i < decimal(n / 10).len() {
                assert(decimal(n)[i] == decimal(n / 10)[i]);
            }
        }
    }
}

/// A decimal text is a non-empty run of digits.
pub proof fn lemma_digits_of_decimal(n: nat)
    ensures
        decimal(n).len() >= 1,
        all_digits(decimal(n)),
{
    lemma_decimal_shape(n);
}

/// Reading the decimal text of a `u16` gives the `u16` back.
pub proof fn lemma_parse_decimal(n: u16)
    ensures
        parse_u16_spec(decimal(n as nat)) == Ok::<u16, IntErrorKind>(n),
{
    lemma_decimal_shape(n as nat);
    lemma_scan_digits(decimal(n as nat), 0);
    assert(is_ascii_digit(decimal(n as nat)[0]));
}

/// Distinct `u16` values have distinct decimal texts.
pub proof fn lemma_decimal_injective(a: u16, b: u16)
    requires
        a != b,
    ensures
        decimal(a as nat) != decimal(b as nat),
{
    lemma_parse_decimal(a);
    lemma_parse_decimal(b);
}

proof fn lemma_colon_from(s: Seq<char>, i: int, k: int)
    requires
        0 <= i <= k < s.len(),
        s[k] == ':',
        forall|j: int| i <= j < k ==> s[j] != ':',
    ensures
        colon_from(s, i) == k,
    decreases k - i,
{
    if i < k {
        lemma_colon_from(s, i + 1, k);
    }
}

/// An error line written as the decimal code, `:` and a value splits back into
/// that code and that value, whatever the value holds.
pub proof fn lemma_status_line_roundtrip(code: u16, value: Seq<char>)
    ensures
        status_line_spec(decimal(code as nat) + seq![':'] + value) == Ok::<
            (u16, Seq<char>),
            Seq<char>,
        >((code, value)),
{
    let d = decimal(code as nat);
    let s = d + seq![':'] + value;
    lemma_decimal_shape(code as nat);
    let k = d.len() as int;
    assert(s[k] == ':');
    assert forall|j: int| 0 <= j < k implies s[j] != ':' by {
        assert(s[j] == d[j]);
        assert(is_ascii_digit(d[j]));
    }
    lemma_colon_from(s, 0, k);
    assert(s.take(k) =~= d);
    assert(s.skip(k + 1) =~= value);
    lemma_parse_decimal(code);
}

/// `String::push`: appends a character.
#[verifier::external_body]
pub(crate) fn string_push(s: &mut String, c: char)
    ensures
        final(s)@ == old(s)@.push(c),
{
    s.push(c);
}

fn digit_to_char(d: u16) -> (c: char)
    requires
        d < 10,
    ensures
        c == digit_char(d as int),
{
    if d == 0 {
        '0'
    } else if d == 1 {
        '1'
    } else if d == 2 {
        '2'
    } else if d == 3 {
        '3'
    } else if d == 4 {
        '4'
    } else if d == 5 {
        '5'
    } else if d == 6 {
        '6'
    } else if d == 7 {
        '7'
    } else if d == 8 {
        '8'
    } else {
        '9'
    }
}

/// The decimal text of a `u16`.
pub fn u16_to_decimal(n: u16) -> (r: String)
    ensures
        r@ == decimal(n as nat),
    decreases n,
{
    if n < 10 {
        let mut s = String::new();
        string_push(&mut s, digit_to_char(n));
        assert(s@ =~= seq![digit_char(n as int)]);
        s
    } else {
        let mut s = u16_to_decimal(n / 10);
        string_push(&mut s, digit_to_char(n % 10));
        s
    }
}

/// Reads a `u16` from decimal text as Rust's `str::parse::<u16>` does.
pub fn parse_u16(s: &str) -> (r: Result<u16, IntErrorKind>)
    ensures
        r == parse_u16_spec(s@),
{
    let n = s.unicode_len();
    if n == 0 {
        return Err(IntErrorKind::Empty);
    }
    let c0 = s.get_char(0);
    if n == 1 && (c0 == '+' || c0 == '-') {
        return Err(IntErrorKind::InvalidDigit);
    }
    let mut i: usize = if c0 == '+' {
        1
    } else {
        0
    };
    proof {
        if c0 == '+' {
            assert(s@.drop_first() =~= s@.skip(1));
        } else {
            assert(s@ =~= s@.skip(0));
        }
    }
    let mut acc: u32 = 0;
    while i < n
        invariant
            n == s@.len(),
            i <= n,
            acc <= 65535,
            parse_u16_spec(s@) == scan_digits(s@.skip(i as int), acc as int),
        decreases n - i,
    {
        let c = s.get_char(i);
        assert(s@.skip(i as int)[0] == c);
        assert(s@.skip(i as int).drop_first() =~= s@.skip(i + 1));
        if !('0' <= c && c <= '9') {
            return Err(IntErrorKind::InvalidDigit);
        }
        let d = (c as u32) - ('0' as u32);
        if acc * 10 + d > 65535 {
            return Err(IntErrorKind::PosOverflow);
        }
        acc = acc * 10 + d;
        i = i + 1;
    }
    assert(s@.skip(n as int) =~= Seq::<char>::empty());
    Ok(acc as u16)
}

/// The message of a reading error.
pub fn int_error_message(k: IntErrorKind) -> (r: String)
    ensures
        r@ == int_error_text(k),
{
    match k {
        IntErrorKind::Empty => String::from_str("cannot parse integer from empty string"),
        IntErrorKind::InvalidDigit => String::from_str("invalid digit found in string"),
        IntErrorKind::PosOverflow => String::from_str("number too large to fit in target type"),
    }
}

/// Splits an error line `code:value` at its first `:` and reads the code.
///
/// The error is the message that says why: no `:`, or a code that is no `u16`.
pub fn split_status_line(s: &str) -> (r: Result<(u16, String), String>)
    ensures
        match r {
            Ok((code, value)) => status_line_spec(s@) == Ok::<(u16, Seq<char>), Seq<char>>(
                (code, value@),
            ),
            Err(msg) => status_line_spec(s@) == Err::<(u16, Seq<char>), Seq<char>>(msg@),
        },
{
    let n = s.unicode_len();
    let mut k: usize = 0;
    while k < n && s.get_char(k) != ':'
        invariant
            n == s@.len(),
            k <= n,
            colon_from(s@, 0) == colon_from(s@, k as int),
        decreases n - k,
    {
        k = k + 1;
    }
    if k == n {
        return Err(String::from_str("Unable to split status code and value"));
    }
    let code_text = s.substring_char(0, k);
    let value = s.substring_char(k + 1, n);
    assert(code_text@ =~= s@.take(k as int));
    assert(value@ =~= s@.skip(k + 1));
    match parse_u16(code_text) {
        Ok(code) => Ok((code, String::from_str(value))),
        Err(e) => {
            let mut msg = String::from_str("Unable to parse status code: ");
            let text = int_error_message(e);
            msg.append(text.as_str());
            Err(msg)
        },
    }
}

} // verus!
