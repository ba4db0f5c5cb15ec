//! Text pieces that diagnostics are made of.

use vstd::prelude::*;
use vstd::string::*;

verus! {

/// The digits of hexadecimal notation; the first ten are the decimal digits.
pub const DIGITS: &'static str = "0123456789ABCDEF";

/// The character that stands for the digit `d`.
pub open spec fn digit(d: nat) -> char {
    DIGITS@[d as int]
}

/// Decimal notation of `n`, without leading zeros.
pub open spec fn decimal(n: nat) -> Seq<char>
    decreases n,
{
    if n < 10 {
        seq![digit(n)]
    } else {
        decimal(n / 10).push(digit(n % 10))
    }
}

/// The last `width` digits of the upper-case hexadecimal notation of `n`,
/// filled up with zeros in front.
pub open spec fn hexadecimal(n: nat, width: nat) -> Seq<char>
    decreases width,
{
    if width == 0 {
        Seq::empty()
    } else {
        hexadecimal(n / 16, (width - 1) as nat).push(digit(n % 16))
    }
}

/// How a flag is written in a diagnostic.
pub open spec fn flag_text(flag: bool) -> Seq<char> {
    if flag {
        "true"@
    } else {
        "false"@
    }
}

/// An optional text by its contents.
pub open spec fn optional_text(text: Option<String>) -> Option<Seq<char>> {
    match text {
        Some(text) => Some(text@),
        None => None,
    }
}

fn push_digit(text: &mut String, d: usize)
    requires
        d < 16,
    ensures
        final(text)@ == old(text)@.push(digit(d as nat)),
{
    proof {
        reveal_strlit("0123456789ABCDEF");
    }
    text.append(DIGITS.substring_char(d, d + 1));
    assert(text@ =~= old(text)@.push(digit(d as nat)));
}

/// Appends `n` in decimal notation.
pub fn push_decimal(text: &mut String, n: u64)
    ensures
        final(text)@ == old(text)@ + decimal(n as nat),
    decreases n,
{
    if n >= 10 {
        push_decimal(text, n / 10);
    }
    push_digit(text, (n % 10) as usize);
    assert(text@ =~= old(text)@ + decimal(n as nat));
}

/// Appends the last `width` hexadecimal digits of `n`.
pub fn push_hexadecimal(text: &mut String, n: u128, width: u32)
    ensures
        final(text)@ == old(text)@ + hexadecimal(n as nat, width as nat),
    decreases width,
{
    if width > 0 {
        push_hexadecimal(text, n / 16, width - 1);
        push_digit(text, (n % 16) as usize);
    }
    assert(text@ =~= old(text)@ + hexadecimal(n as nat, width as nat));
}

/// Appends `n` as `0x` and eight hexadecimal digits.
pub fn push_status(text: &mut String, n: u32)
    ensures
        final(text)@ == old(text)@ + "0x"@ + hexadecimal(n as nat, 8),
{
    text.append("0x");
    push_hexadecimal(text, n as u128, 8);
}

/// Appends `true` or `false`.
pub fn push_flag(text: &mut String, flag: bool)
    ensures
        final(text)@ == old(text)@ + flag_text(flag),
{
    if flag {
        text.append("true");
    } else {
        text.append("false");
    }
}

/// The text `left` followed by the text `right`.
pub fn joined(left: &str, right: &str) -> (text: String)
    ensures
        text@ == left@ + right@,
{
    let mut text = String::from_str(left);
    text.append(right);
    text
}

/// Whether two texts hold the same characters.
pub fn same_text(left: &str, right: &str) -> (same: bool)
    ensures
        same == (left@ == right@),
{
    String::from_str(left) == String::from_str(right)
}

/// The value of decimal digits, or `None` where a character is no digit.
pub open spec fn decimal_value(digits: Seq<char>) -> Option<nat>
    decreases digits.len(),
{
    if digits.len() == 0 {
        Some(0)
    } else {
        match decimal_value(digits.drop_last()) {
            Some(head) if '0' <= digits.last() <= '9' => Some(
                head * 10 + (digits.last() as nat - '0' as nat) as nat,
            ),
            _ => None,
        }
    }
}

/// What the text of an unsigned number stands for: an optional plus sign, then
/// at least one decimal digit, of a value below 2^64.
pub open spec fn unsigned_value(text: Seq<char>) -> Option<u64> {
    let digits = if text.len() > 0 && text[0] == '+' {
        text.skip(1)
    } else {
        text
    };
    if digits.len() == 0 {
        None
    } else {
        match decimal_value(digits) {
            Some(value) if value <= u64::MAX => Some(value as u64),
            _ => None,
        }
    }
}

proof fn lemma_decimal_value_prefix(digits: Seq<char>, count: int)
    requires
        0 <= count <= digits.len(),
    ensures
        decimal_value(digits) matches Some(value) ==> (decimal_value(digits.take(count)) matches Some(
            head,
        ) && head <= value),
    decreases digits.len() - count,
{
    if count == digits.len() {
        assert(digits.take(count) =~= digits);
    } else {
        lemma_decimal_value_prefix(digits, count + 1);
        assert(digits.take(count + 1).drop_last() =~= digits.take(count));
    }
}

/// Reads an unsigned number.
pub fn parse_unsigned(text: &str) -> (value: Option<u64>)
    ensures
        value == unsigned_value(text@),
{
    let len: usize = text.unicode_len();
    let mut start: usize = 0;
    if len > 0 && text.get_char(0) == '+' {
        start = 1;
    }
    let ghost digits = if text@.len() > 0 && text@[0] == '+' {
        text@.skip(1)
    } else {
        text@
    };
    if start == len {
        return None;
    }
    let mut i: usize = start;
    let mut total: u64 = 0;
    proof {
        assert(digits.take(0) =~= Seq::<char>::empty());
    }
    while i < len
        invariant
            start <= i <= len,
            len == text@.len(),
            start <= 1,
            digits.len() == len - start,
            forall|k: int| 0 <= k < digits.len() ==> digits[k] == text@[k + start],
            decimal_value(digits.take(i - start)) == Some(total as nat),
            digits.len() > 0,
            unsigned_value(text@) == (match decimal_value(digits) {
                Some(value) if value <= u64::MAX => Some(value as u64),
                _ => None::<u64>,
            }),
        decreases len - i,
    {
        let c: char = text.get_char(i);
        proof {
            let next = digits.take(i - start + 1);
            assert(next.drop_last() =~= digits.take(i - start));
            assert(next.last() == c);
            lemma_decimal_value_prefix(digits, i - start + 1);
        }
        if c < '0' || c > '9' {
            return None;
        }
        let d: u64 = (c as u64) - ('0' as u64);
        if total > (u64::MAX - d) / 10 {
            assert(total * 10 + d > u64::MAX);
            return None;
        }
        total = total * 10 + d;
        i = i + 1;
    }
    proof {
        assert(digits.take(len - start) =~= digits);
    }
    Some(total)
}

/// The digits are the usual ones, with capitals from ten on.
pub proof fn digits_are_the_usual_ones(d: nat)
    requires
        d < 16,
    ensures
        d < 10 ==> digit(d) as int == '0' as int + d,
        d >= 10 ==> digit(d) as int == 'A' as int + d - 10,
{
    reveal_strlit("0123456789ABCDEF");
}

/// A number that is written down in decimal notation and read again is the same
/// number, and is written without leading zeros.
pub proof fn decimal_notation_is_read_back(n: nat)
    ensures
        decimal_value(decimal(n)) == Some(n),
        decimal(n).len() >= 1,
        decimal(n)[0] == '0' <==> n == 0,
        n < 10 <==> decimal(n).len() == 1,
    decreases n,
{
    digits_are_the_usual_ones(n % 10);
    if n < 10 {
        assert(decimal(n).drop_last() =~= Seq::<char>::empty());
        assert(decimal_value(Seq::<char>::empty()) == Some(0nat));
        assert(decimal(n).last() == digit(n));
    } else {
        decimal_notation_is_read_back(n / 10);
        assert(decimal(n).drop_last() =~= decimal(n / 10));
        assert(decimal(n).last() == digit(n % 10));
        assert(decimal(n)[0] == decimal(n / 10)[0]);
    }
}

/// What a digit of hexadecimal notation stands for.
pub open spec fn digit_value(c: char) -> nat {
    if '0' <= c <= '9' {
        (c as int - '0' as int) as nat
    } else {
        (c as int - 'A' as int + 10) as nat
    }
}

/// What hexadecimal notation stands for.
pub open spec fn hexadecimal_value(digits: Seq<char>) -> nat
    decreases digits.len(),
{
    if digits.len() == 0 {
        0
    } else {
        hexadecimal_value(digits.drop_last()) * 16 + digit_value(digits.last())
    }
}

/// How many numbers can be written in so many hexadecimal digits.
pub open spec fn hexadecimal_range(width: nat) -> nat
    decreases width,
{
    if width == 0 {
        1
    } else {
        16 * hexadecimal_range((width - 1) as nat)
    }
}

/// A number that is written down in enough hexadecimal digits and read again is
/// the same number; it is written in exactly as many digits as were asked for.
pub proof fn hexadecimal_notation_is_read_back(n: nat, width: nat)
    ensures
        hexadecimal(n, width).len() == width,
        n < hexadecimal_range(width) ==> hexadecimal_value(hexadecimal(n, width)) == n,
    decreases width,
{
    if width > 0 {
        hexadecimal_notation_is_read_back(n / 16, (width - 1) as nat);
        digits_are_the_usual_ones(n % 16);
        assert(hexadecimal(n, width).drop_last() =~= hexadecimal(n / 16, (width - 1) as nat));
        assert(hexadecimal(n, width).last() == digit(n % 16));
    }
}

/// A number that fits 64 bits is read from its decimal notation, with a plus sign
/// or without; a larger one is not.
pub proof fn numbers_are_read(n: nat)
    ensures
        n <= u64::MAX ==> unsigned_value(decimal(n)) == Some(n as u64),
        n <= u64::MAX ==> unsigned_value(seq!['+'] + decimal(n)) == Some(n as u64),
        n > u64::MAX ==> unsigned_value(decimal(n)) is None,
{
    decimal_notation_is_read_back(n);
    lemma_decimal_digits(n);
    assert((seq!['+'] + decimal(n)).skip(1) =~= decimal(n));
    assert(decimal(n)[0] != '+');
}

proof fn lemma_decimal_digits(n: nat)
    ensures
        forall|i: int| 0 <= i < decimal(n).len() ==> '0' <= #[trigger] decimal(n)[i] <= '9',
    decreases n,
{
    digits_are_the_usual_ones(n % 10);
    if n >= 10 {
        lemma_decimal_digits(n / 10);
        let head = decimal(n / 10);
        assert(decimal(n) == head.push(digit(n % 10)));
        assert forall|i: int| 0 <= i < decimal(n).len() implies '0' <= #[trigger] decimal(n)[i]
            <= '9' by {
            if i < head.len() {
                assert('0' <= head[i] <= '9');
            }
        }
    }
}

proof fn lemma_no_value(digits: Seq<char>, i: int)
    requires
        0 <= i < digits.len(),
        !('0' <= digits[i] <= '9'),
    ensures
        decimal_value(digits) is None,
    decreases digits.len(),
{
    if i < digits.len() - 1 {
        lemma_no_value(digits.drop_last(), i);
    }
}

/// A text that holds anything but digits, but for a plus sign in front, is no
/// number, and neither is an empty one or a plus sign alone.
pub proof fn other_texts_are_no_numbers(text: Seq<char>, i: int)
    requires
        0 <= i < text.len(),
        !('0' <= text[i] <= '9'),
        i > 0 || text[i] != '+',
    ensures
        unsigned_value(text) is None,
        unsigned_value(Seq::empty()) is None,
        unsigned_value(seq!['+']) is None,
{
    if text[0] == '+' {
        assert(text.skip(1)[i - 1] == text[i]);
        lemma_no_value(text.skip(1), i - 1);
    } else {
        lemma_no_value(text, i);
    }
    assert(seq!['+'].skip(1) =~= Seq::<char>::empty());
}

/// An optional text by its contents is that text, and a flag is written as the
/// word for it.
pub proof fn texts_are_what_they_hold(text: Option<String>)
    ensures
        text matches Some(held) ==> optional_text(text) == Some(held@),
        text is None ==> optional_text(text) is None,
        flag_text(true) == "true"@,
        flag_text(false) == "false"@,
{
}

} // verus!
