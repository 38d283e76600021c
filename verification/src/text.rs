//! Decimal numbers in text.

use vstd::prelude::*;

verus! {

pub open spec fn digit(value: int) -> char {
    (48 + value) as char
}

/// A number in decimal notation, without leading zeros.
pub open spec fn decimal(value: nat) -> Seq<char>
    decreases value,
{
    if value < 10 {
        seq![digit(value as int)]
    } else {
        decimal(value / 10).push(digit((value % 10) as int))
    }
}

fn digit_text(value: u128) -> (text: &'static str)
    requires
        value < 10,
    ensures
        text@ == seq![digit(value as int)],
{
    proof {
        reveal_strlit("0");
        reveal_strlit("1");
        reveal_strlit("2");
        reveal_strlit("3");
        reveal_strlit("4");
        reveal_strlit("5");
        reveal_strlit("6");
        reveal_strlit("7");
        reveal_strlit("8");
        reveal_strlit("9");
    }
    let text: &'static str = match value {
        0 => "0",
        1 => "1",
        2 => "2",
        3 => "3",
        4 => "4",
        5 => "5",
        6 => "6",
        7 => "7",
        8 => "8",
        _ => "9",
    };
    assert(text@ =~= seq![digit(value as int)]);
    text
}

/// Appends a number in decimal notation.
pub fn push_decimal(text: &mut String, value: u128)
    ensures
        final(text)@ == old(text)@ + decimal(value as nat),
    decreases value,
{
    if value >= 10 {
        push_decimal(text, value / 10);
    }
    let ghost before = text@;
    text.append(digit_text(value % 10));
    proof {
        if value >= 10 {
            assert(text@ =~= old(text)@ + decimal(value as nat));
        } else {
            assert(before == old(text)@);
        }
    }
}

/// A number in decimal notation.
pub fn decimal_text(value: u128) -> (text: String)
    ensures
        text@ == decimal(value as nat),
{
    let mut text = String::new();
    push_decimal(&mut text, value);
    assert(text@ =~= decimal(value as nat));
    text
}

/// A number in decimal notation, behind a minus sign if it is negative.
pub open spec fn signed_decimal(value: int) -> Seq<char> {
    if value < 0 {
        "-"@ + decimal((-value) as nat)
    } else {
        decimal(value as nat)
    }
}

pub fn signed_decimal_text(value: i128) -> (text: String)
    requires
        value > i128::MIN,
    ensures
        text@ == signed_decimal(value as int),
{
    if value < 0 {
        let mut text = String::from_str("-");
        push_decimal(&mut text, (-value) as u128);
        text
    } else {
        decimal_text(value as u128)
    }
}

/// Whether two texts are the same.
pub fn same_text(a: &str, b: &str) -> (r: bool)
    ensures
        r == (a@ == b@),
{
    let left = a.as_bytes();
    let right = b.as_bytes();
    proof {
        // Equal encodings decode to equal texts.
        vstd::utf8::encode_utf8_decode_utf8(a@);
        vstd::utf8::encode_utf8_decode_utf8(b@);
    }
    if left.len() != right.len() {
        return false;
    }
    let mut at: usize = 0;
    while at < left.len()
        invariant
            at <= left.len(),
            left.len() == right.len(),
            left@ == vstd::utf8::encode_utf8(a@),
            right@ == vstd::utf8::encode_utf8(b@),
            forall|i: int| 0 <= i < at ==> left@[i] == right@[i],
        decreases left.len() - at,
    {
        if left[at] != right[at] {
            return false;
        }
        at = at + 1;
    }
    assert(left@ =~= right@);
    true
}

/// Why a text is not a number in range.
#[derive(Clone, Copy, Debug, PartialEq, Eq, Structural)]
pub enum NumberError {
    Empty,
    InvalidDigit,
    TooLarge,
}

impl NumberError {
    pub open spec fn spec_message(self) -> Seq<char> {
        match self {
            NumberError::Empty => "cannot parse integer from empty string"@,
            NumberError::InvalidDigit => "invalid digit found in string"@,
            NumberError::TooLarge => "number too large to fit in target type"@,
        }
    }

    pub fn message(self) -> (text: &'static str)
        ensures
            text@ == self.spec_message(),
    {
        match self {
            NumberError::Empty => "cannot parse integer from empty string",
            NumberError::InvalidDigit => "invalid digit found in string",
            NumberError::TooLarge => "number too large to fit in target type",
        }
    }
}

pub open spec fn is_digit(byte: u8) -> bool {
    48 <= byte <= 57
}

/// Digits are read from the left until one is none or the number grows too large.
pub open spec fn digits_value(value: int, digits: Seq<u8>, from: int) -> Result<u32, NumberError>
    decreases digits.len() - from,
{
    if from < 0 || from >= digits.len() {
        Ok(value as u32)
    } else if !is_digit(digits[from]) {
        Err(NumberError::InvalidDigit)
    } else if value * 10 + (digits[from] - 48) > u32::MAX {
        Err(NumberError::TooLarge)
    } else {
        digits_value(value * 10 + (digits[from] - 48), digits, from + 1)
    }
}

/// An unsigned number: digits, which a plus sign may precede.
pub open spec fn number(text: Seq<u8>) -> Result<u32, NumberError> {
    if text.len() == 0 {
        Err(NumberError::Empty)
    } else if text[0] == 43 && text.len() > 1 {
        digits_value(0, text, 1)
    } else {
        digits_value(0, text, 0)
    }
}

pub fn parse_number(text: &[u8]) -> (r: Result<u32, NumberError>)
    ensures
        r == number(text@),
{
    if text.len() == 0 {
        return Err(NumberError::Empty);
    }
    let mut at: usize = if text[0] == 43 && text.len() > 1 {
        1
    } else {
        0
    };
    let mut value: u32 = 0;
    while at < text.len()
        invariant
            at <= text.len(),
            text@.len() > 0,
            number(text@) == digits_value(value as int, text@, at as int),
        decreases text.len() - at,
    {
        if text[at] < 48 || text[at] > 57 {
            return Err(NumberError::InvalidDigit);
        }
        let next: u64 = value as u64 * 10 + (text[at] - 48) as u64;
        if next > u32::MAX as u64 {
            return Err(NumberError::TooLarge);
        }
        value = next as u32;
        at = at + 1;
    }
    Ok(value)
}

/// Reading the digits of `value` leads from zero to `value` at their end.
proof fn lemma_digits_step(value: nat, text: Seq<u8>, from: int)
    requires
        value <= u32::MAX,
        0 <= from,
        from + decimal(value).len() <= text.len(),
        forall|i: int| 0 <= i < decimal(value).len() ==> text[from + i] == decimal(value)[i] as u8,
    ensures
        digits_value(0, text, from) == digits_value(
            value as int,
            text,
            from + decimal(value).len(),
        ),
    decreases value,
{
    let digits = decimal(value);
    if value < 10 {
        assert(text[from + 0] == digits[0] as u8);
        assert(digits_value(0, text, from) == digits_value(value as int, text, from + 1));
    } else {
        let shorter = decimal(value / 10);
        assert(forall|i: int| 0 <= i < shorter.len() ==> shorter[i] == digits[i]);
        assert forall|i: int| 0 <= i < shorter.len() implies text[from + i] == shorter[i] as u8 by {
            assert(text[from + i] == digits[i] as u8);
        }
        lemma_digits_step(value / 10, text, from);
        let last = from + shorter.len();
        assert(text[from + shorter.len()] == digits[shorter.len() as int] as u8);
    }
}

/// What is written in decimal notation is read back.
pub proof fn law_decimal_reads_back(value: u32, text: Seq<u8>)
    requires
        text.len() == decimal(value as nat).len(),
        forall|i: int| 0 <= i < text.len() ==> #[trigger] text[i] == decimal(value as nat)[i] as u8,
    ensures
        number(text) == Ok::<u32, NumberError>(value),
{
    lemma_decimal_starts_with_digit(value as nat);
    assert forall|i: int| 0 <= i < decimal(value as nat).len() implies text[0 + i] == decimal(
        value as nat,
    )[i] as u8 by {
        assert(text[i] == decimal(value as nat)[i] as u8);
    }
    lemma_digits_step(value as nat, text, 0);
    assert(text[0] == decimal(value as nat)[0] as u8);
}

proof fn lemma_decimal_starts_with_digit(value: nat)
    ensures
        decimal(value).len() > 0,
        is_digit(decimal(value)[0] as u8),
    decreases value,
{
    if value >= 10 {
        lemma_decimal_starts_with_digit(value / 10);
    }
}

/// Calls `String::from_utf8`, which takes bytes that are valid UTF-8 over as the text
/// that they encode, and refuses any others.
#[verifier::external_body]
pub(crate) fn from_utf8(bytes: Vec<u8>) -> (r: Option<String>)
    ensures
        match r {
            Some(text) => vstd::utf8::valid_utf8(bytes@) && text@ == vstd::utf8::decode_utf8(
                bytes@,
            ) && vstd::utf8::encode_utf8(text@) == bytes@,
            None => !vstd::utf8::valid_utf8(bytes@),
        },
{
    String::from_utf8(bytes).ok()
}

/// Decimal notation: a digit stands for itself, and each further digit behind a number
/// makes ten times that number and the digit.
pub proof fn law_decimal_appends_digits(value: nat, last: nat)
    requires
        last < 10,
    ensures
        decimal(0) == seq!['0'] && decimal(1) == seq!['1'] && decimal(2) == seq!['2'],
        decimal(3) == seq!['3'] && decimal(4) == seq!['4'] && decimal(5) == seq!['5'],
        decimal(6) == seq!['6'] && decimal(7) == seq!['7'] && decimal(8) == seq!['8'],
        decimal(9) == seq!['9'],
        value > 0 ==> decimal(10 * value + last) == decimal(value) + decimal(last),
        value > 0 ==> signed_decimal(-(value as int)) == "-"@ + decimal(value),
        signed_decimal(value as int) == decimal(value),
{
    if value > 0 {
        assert((10 * value + last) / 10 == value && (10 * value + last) % 10 == last);
        assert(decimal(value).push(digit(last as int)) =~= decimal(value) + decimal(last));
    }
}

/// Reading one more digit makes ten times what was read and the digit, while that fits;
/// anything that is no digit is refused.
proof fn lemma_digits_push(value: int, digits: Seq<u8>, from: int, byte: u8)
    requires
        0 <= value <= u32::MAX,
        0 <= from <= digits.len(),
    ensures
        match digits_value(value, digits, from) {
            Ok(read) => digits_value(value, digits.push(byte), from) == if byte < 48 || byte > 57 {
                Err::<u32, NumberError>(NumberError::InvalidDigit)
            } else if read * 10 + (byte - 48) > u32::MAX {
                Err::<u32, NumberError>(NumberError::TooLarge)
            } else {
                Ok::<u32, NumberError>((read * 10 + (byte - 48)) as u32)
            },
            Err(error) => digits_value(value, digits.push(byte), from) == Err::<u32, NumberError>(
                error,
            ),
        },
    decreases digits.len() - from,
{
    let longer = digits.push(byte);
    if from == digits.len() {
        assert(longer[from] == byte);
        if 48 <= byte <= 57 && value * 10 + (byte - 48) <= u32::MAX {
            assert(digits_value(value, longer, from) == digits_value(
                value * 10 + (byte - 48),
                longer,
                from + 1,
            ));
        }
    } else {
        assert(longer[from] == digits[from]);
        if is_digit(digits[from]) && value * 10 + (digits[from] - 48) <= u32::MAX {
            lemma_digits_push(value * 10 + (digits[from] - 48), digits, from + 1, byte);
        }
    }
}

/// How a number is read: nothing is no number, a digit stands for itself, and each
/// further digit makes ten times what was read and the digit, up to what fits 32 bits.
/// What was refused stays refused, and so does anything that is no digit; a plus sign
/// may come first.
pub proof fn law_numbers_are_read_digit_by_digit(text: Seq<u8>, byte: u8)
    ensures
        number(Seq::empty()) == Err::<u32, NumberError>(NumberError::Empty),
        48 <= byte <= 57 ==> number(seq![byte]) == Ok::<u32, NumberError>((byte - 48) as u32),
        byte < 48 || byte > 57 ==> number(seq![byte]) == Err::<u32, NumberError>(
            NumberError::InvalidDigit,
        ),
        text.len() > 0 && text[0] != 43 ==> number(text.push(byte)) == match number(text) {
            Ok(read) => if byte < 48 || byte > 57 {
                Err::<u32, NumberError>(NumberError::InvalidDigit)
            } else if read * 10 + (byte - 48) > 0xffff_ffff {
                Err::<u32, NumberError>(NumberError::TooLarge)
            } else {
                Ok::<u32, NumberError>((read * 10 + (byte - 48)) as u32)
            },
            Err(error) => Err::<u32, NumberError>(error),
        },
        text.len() > 0 && text[0] != 43 ==> number(seq![43u8] + text) == number(text),
{
    let one = seq![byte];
    assert(number(one) == digits_value(0, one, 0));
    if 48 <= byte <= 57 {
        assert(one[0] == byte);
        assert(digits_value(0, one, 0) == digits_value((byte - 48) as int, one, 1));
    }
    if text.len() > 0 && text[0] != 43 {
        assert(text.push(byte)[0] == text[0]);
        lemma_digits_push(0, text, 0, byte);
        assert((seq![43u8] + text)[0] == 43);
        lemma_digits_behind(0, text, 0);
    }
}

proof fn lemma_digits_behind(value: int, digits: Seq<u8>, from: int)
    requires
        0 <= from <= digits.len(),
    ensures
        digits_value(value, seq![43u8] + digits, from + 1) == digits_value(value, digits, from),
    decreases digits.len() - from,
{
    let longer = seq![43u8] + digits;
    if from < digits.len() {
        assert(longer[from + 1] == digits[from]);
        lemma_digits_behind(value * 10 + (digits[from] - 48), digits, from + 1);
    }
}

} // verus!
