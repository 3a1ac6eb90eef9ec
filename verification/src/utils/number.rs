use vstd::prelude::*;
use vstd::string::StringExecFns;

verus! {

/// The character of one decimal digit.
pub open spec fn digit_char(digit: nat) -> char {
    if digit == 0 {
        '0'
    } else if digit == 1 {
        '1'
    } else if digit == 2 {
        '2'
    } else if digit == 3 {
        '3'
    } else if digit == 4 {
        '4'
    } else if digit == 5 {
        '5'
    } else if digit == 6 {
        '6'
    } else if digit == 7 {
        '7'
    } else if digit == 8 {
        '8'
    } else {
        '9'
    }
}

/// A number written in decimal digits, without leading zeros.
pub open spec fn decimal(number: nat) -> Seq<char>
    decreases number,
{
    if number < 10 {
        seq![digit_char(number)]
    } else {
        decimal(number / 10).push(digit_char(number % 10))
    }
}

/// A text moved to the right end of a field of `width` characters: spaces
/// are put before it until it is `width` long. A longer text stays as it is.
pub open spec fn pad_left(text: Seq<char>, width: nat) -> Seq<char>
    decreases width - text.len(),
{
    if text.len() >= width {
        text
    } else {
        pad_left(seq![' '] + text, width)
    }
}

/// A decimal number has at least one digit, and one digit more than the
/// tenth of it where it has more than one.
pub proof fn lemma_decimal_len(number: nat)
    ensures
        decimal(number).len() >= 1,
        number < 10 <==> decimal(number).len() == 1,
        number >= 10 ==> decimal(number).len() == decimal(number / 10).len() + 1,
    decreases number,
{
    if number >= 10 {
        lemma_decimal_len(number / 10);
    }
}

fn digit_str(digit: u128) -> (text: &'static str)
    requires
        digit < 10,
    ensures
        text@ == seq![digit_char(digit as nat)],
{
    proof {
        reveal_strlit("0");
        reveal_strlit("1");
        reveal_strlit("2");
        reveal_strlit("3");
        reveal_strlit("4");
        reveal_strlit("5");
        reveal_strlit("6");
        reveal_strlit("7");
        reveal_strlit("8");
        reveal_strlit("9");
    }
    let text = if digit == 0 {
        "0"
    } else if digit == 1 {
        "1"
    } else if digit == 2 {
        "2"
    } else if digit == 3 {
        "3"
    } else if digit == 4 {
        "4"
    } else if digit == 5 {
        "5"
    } else if digit == 6 {
        "6"
    } else if digit == 7 {
        "7"
    } else if digit == 8 {
        "8"
    } else {
        "9"
    };
    assert(text@ =~= seq![digit_char(digit as nat)]);
    text
}

/// A number below 2^128 has at most 39 digits.
pub proof fn lemma_decimal_len_bound(number: nat)
    requires
        number <= u128::MAX,
    ensures
        decimal(number).len() <= 39,
{
    reveal_with_fuel(decimal, 40);
}

/// How many digits a number has in decimal.
pub fn count_digits(number: u128) -> (count: usize)
    ensures
        count == decimal(number as nat).len(),
        1 <= count <= 39,
{
    let mut count: usize = 1;
    let mut rest: u128 = number;
    proof {
        lemma_decimal_len(number as nat);
        lemma_decimal_len_bound(number as nat);
    }
    while rest >= 10
        invariant
            1 <= count,
            count + decimal(rest as nat).len() == decimal(number as nat).len() + 1,
            decimal(number as nat).len() <= 39,
        decreases rest,
    {
        proof {
            lemma_decimal_len(rest as nat);
            lemma_decimal_len((rest / 10) as nat);
        }
        rest = rest / 10;
        count = count + 1;
    }
    proof {
        lemma_decimal_len(rest as nat);
    }
    count
}

/// Writes a number in decimal digits.
pub fn to_decimal_string(number: u128) -> (text: String)
    ensures
        text@ == decimal(number as nat),
    decreases number,
{
    if number < 10 {
        String::from_str(digit_str(number))
    } else {
        let front = to_decimal_string(number / 10);
        let text = front.concat(digit_str(number % 10));
        assert(text@ =~= decimal(number as nat));
        text
    }
}

/// Writes a number in decimal digits at the right end of a field of `width`
/// characters.
pub fn to_padded_decimal_string(number: u128, width: usize) -> (text: String)
    ensures
        text@ == pad_left(decimal(number as nat), width as nat),
{
    let digits: usize = count_digits(number);
    let mut text = String::from_str("");
    let mut length: usize = digits;
    proof {
        reveal_strlit("");
    }
    assert(text@ + decimal(number as nat) =~= decimal(number as nat));
    while length < width
        invariant
            digits == decimal(number as nat).len(),
            text@.len() + digits == length,
            pad_left(text@ + decimal(number as nat), width as nat) == pad_left(
                decimal(number as nat),
                width as nat,
            ),
        decreases width - length,
    {
        let ghost before = text@;
        text = String::from_str(" ").concat(text.as_str());
        proof {
            reveal_strlit(" ");
            assert(" "@ =~= seq![' ']);
            assert(text@ + decimal(number as nat) =~= seq![' '] + (before + decimal(
                number as nat,
            )));
        }
        length = length + 1;
    }
    let digits_text = to_decimal_string(number);
    text.concat(digits_text.as_str())
}

} // verus!
