//! Texts, and numbers as text.

use vstd::prelude::*;

verus! {

/// The characters of an optional text.
pub open spec fn text_of(text: Option<String>) -> Option<Seq<char>> {
    match text {
        Some(text) => Some(text@),
        None => None,
    }
}

/// The character of a decimal digit.
pub open spec fn digit_char(digit: int) -> char {
    if digit == 0 {
        '0'
    } else if digit == 1 {
        '1'
    } else if digit == 2 {
        '2'
    } else if digit == 3 {
        '3'
    } else if digit == 4 {
        '4'
    } else if digit == 5 {
        '5'
    } else if digit == 6 {
        '6'
    } else if digit == 7 {
        '7'
    } else if digit == 8 {
        '8'
    } else {
        '9'
    }
}

/// The decimal digits of a number, without leading zeros.
pub open spec fn decimal_text(number: nat) -> Seq<char>
    decreases number,
{
    if number < 10 {
        seq![digit_char(number as int)]
    } else {
        decimal_text(number / 10).push(digit_char((number % 10) as int))
    }
}

/// A number in decimal notation.
pub open spec fn signed_text(number: int) -> Seq<char> {
    if number < 0 {
        seq!['-'] + decimal_text((-number) as nat)
    } else {
        decimal_text(number as nat)
    }
}

/// The last `width` decimal digits of a number, with leading zeros.
pub open spec fn padded_text(number: nat, width: nat) -> Seq<char>
    decreases width,
{
    if width == 0 {
        Seq::empty()
    } else {
        padded_text(number / 10, (width - 1) as nat).push(digit_char((number % 10) as int))
    }
}

/// The text of one decimal digit.
fn digit(value: u64) -> (text: &'static str)
    requires
        value < 10,
    ensures
        text@ == seq![digit_char(value as int)],
{
    proof {
        reveal_strlit("0");
        reveal_strlit("1");
        reveal_strlit("2");
        reveal_strlit("3");
        reveal_strlit("4");
        reveal_strlit("5");
        reveal_strlit("6");
        reveal_strlit("7");
        reveal_strlit("8");
        reveal_strlit("9");
    }
    let text: &'static str = match value {
        0 => "0",
        1 => "1",
        2 => "2",
        3 => "3",
        4 => "4",
        5 => "5",
        6 => "6",
        7 => "7",
        8 => "8",
        _ => "9",
    };
    assert(text@ =~= seq![digit_char(value as int)]);
    text
}

/// The decimal digits of a number.
pub fn decimal(number: u64) -> (text: String)
    ensures
        text@ == decimal_text(number as nat),
    decreases number,
{
    if number < 10 {
        digit(number).to_string()
    } else {
        let mut text = decimal(number / 10);
        let ghost leading = text@;
        text.append(digit(number % 10));
        assert(text@ =~= leading.push(digit_char((number % 10) as int)));
        text
    }
}

/// A number in decimal notation.
pub fn signed_decimal(number: i64) -> (text: String)
    ensures
        text@ == signed_text(number as int),
{
    if number < 0 {
        proof {
            reveal_strlit("-");
        }
        let magnitude: u64 = if number == i64::MIN {
            0x8000_0000_0000_0000
        } else {
            (-number) as u64
        };
        let mut text = "-".to_string();
        text.append(decimal(magnitude).as_str());
        assert(text@ =~= seq!['-'] + decimal_text((-number) as nat));
        text
    } else {
        decimal(number as u64)
    }
}

/// The last `width` decimal digits of a number, with leading zeros.
pub fn padded_decimal(number: u64, width: u32) -> (text: String)
    ensures
        text@ == padded_text(number as nat, width as nat),
    decreases width,
{
    if width == 0 {
        let text = String::new();
        assert(text@ =~= Seq::empty());
        text
    } else {
        let mut text = padded_decimal(number / 10, width - 1);
        let ghost leading = text@;
        text.append(digit(number % 10));
        assert(text@ =~= leading.push(digit_char((number % 10) as int)));
        text
    }
}

/// The number that a row of decimal digits stands for.
pub open spec fn number_of(digits: Seq<char>) -> int
    decreases digits.len(),
{
    if digits.len() == 0 {
        0
    } else {
        10 * number_of(digits.drop_last()) + (digits.last() as int - '0' as int)
    }
}

/// A row of decimal digits.
pub open spec fn is_digits(digits: Seq<char>) -> bool {
    forall|i: int| 0 <= i < digits.len() ==> '0' <= #[trigger] digits[i] <= '9'
}

/// The text of a number holds digits only, is read back as the same number, and begins with
/// a zero only if it is zero.
pub proof fn lemma_decimal_is_read_back(number: nat)
    ensures
        number_of(decimal_text(number)) == number,
        is_digits(decimal_text(number)),
        decimal_text(number).len() >= 1,
        number > 0 ==> decimal_text(number)[0] != '0',
        number < 10 ==> decimal_text(number).len() == 1,
    decreases number,
{
    let text = decimal_text(number);
    if number < 10 {
        assert(text.drop_last() =~= Seq::empty());
        assert(number_of(Seq::<char>::empty()) == 0);
        assert(text.last() == digit_char(number as int));
    } else {
        lemma_decimal_is_read_back(number / 10);
        let leading = decimal_text(number / 10);
        assert(text.drop_last() =~= leading);
        assert(text.last() == digit_char((number % 10) as int));
        assert forall|i: int| 0 <= i < text.len() implies '0' <= #[trigger] text[i] <= '9' by {
            if i < leading.len() {
                assert(text[i] == leading[i]);
            }
        }
        assert(text[0] == leading[0]);
    }
}

/// Different numbers have different texts.
pub proof fn lemma_decimals_are_distinct(first: nat, second: nat)
    requires
        decimal_text(first) == decimal_text(second),
    ensures
        first == second,
{
    lemma_decimal_is_read_back(first);
    lemma_decimal_is_read_back(second);
}

/// A negative number is shown by a minus sign and its magnitude, any other one by its digits.
pub proof fn lemma_signed_text_is_read_back(number: int, text: Seq<char>)
    requires
        text == signed_text(number),
    ensures
        number >= 0 ==> is_digits(text) && number_of(text) == number,
        number < 0 ==> text[0] == '-' && is_digits(text.drop_first()) && number_of(
            text.drop_first(),
        ) == -number,
{
    if number < 0 {
        lemma_decimal_is_read_back((-number) as nat);
        assert(text.drop_first() =~= decimal_text((-number) as nat));
    } else {
        lemma_decimal_is_read_back(number as nat);
    }
}

/// The last digits of a number are as many as asked for, and stand for what is left of the
/// number beyond its higher digits. Four digits hold every number below ten thousand.
pub proof fn lemma_padded_text_is_read_back(number: nat, width: nat)
    ensures
        padded_text(number, width).len() == width,
        is_digits(padded_text(number, width)),
        width > 0 ==> number_of(padded_text(number, width)) == 10 * number_of(
            padded_text(number / 10, (width - 1) as nat),
        ) + number % 10,
        width == 4 && number < 10000 ==> number_of(padded_text(number, width)) == number,
    decreases width,
{
    if width > 0 {
        let text = padded_text(number, width);
        let leading = padded_text(number / 10, (width - 1) as nat);
        lemma_padded_text_is_read_back(number / 10, (width - 1) as nat);
        assert(text.drop_last() =~= leading);
        assert(text.last() == digit_char((number % 10) as int));
        assert forall|i: int| 0 <= i < text.len() implies '0' <= #[trigger] text[i] <= '9' by {
            if i < leading.len() {
                assert(text[i] == leading[i]);
            }
        }
        if width == 4 && number < 10000 {
            lemma_padded_text_is_read_back(number / 100, 2);
            lemma_padded_text_is_read_back(number / 1000, 1);
            assert(number / 10 / 10 == number / 100);
            assert(number / 100 / 10 == number / 1000);
            assert(number / 1000 / 10 == 0);
            assert(padded_text(0, 0) =~= Seq::empty());
        }
    }
}

} // verus!
