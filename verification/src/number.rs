//! Decimal line numbers, right-aligned in a field of six characters.

use vstd::prelude::*;
use vstd::string::*;

verus! {

/// Width of the field that holds a line number.
pub const NUMBER_WIDTH: usize = 6;

/// The character of one decimal digit.
pub open spec fn digit(d: nat) -> char {
    if d == 0 {
        '0'
    } else if d == 1 {
        '1'
    } else if d == 2 {
        '2'
    } else if d == 3 {
        '3'
    } else if d == 4 {
        '4'
    } else if d == 5 {
        '5'
    } else if d == 6 {
        '6'
    } else if d == 7 {
        '7'
    } else if d == 8 {
        '8'
    } else {
        '9'
    }
}

/// The decimal numeral of `n`, most significant digit first, without
/// leading zeros.
pub open spec fn decimal(n: nat) -> Seq<char>
    decreases n,
{
    if n < 10 {
        seq![digit(n)]
    } else {
        decimal(n / 10).push(digit(n % 10))
    }
}

/// `count` spaces.
pub open spec fn spaces(count: nat) -> Seq<char> {
    Seq::new(count, |i: int| ' ')
}

/// `text` pushed to the right edge of a field of `width` characters.  A
/// text that is wider than the field is left as it is.
pub open spec fn right_aligned(text: Seq<char>, width: nat) -> Seq<char> {
    if text.len() >= width {
        text
    } else {
        spaces((width - text.len()) as nat) + text
    }
}

/// The number field that precedes a numbered line.
pub open spec fn number_field(n: nat) -> Seq<char> {
    right_aligned(decimal(n), NUMBER_WIDTH as nat)
}

/// A numeral has at least one digit and no more digits than its value
/// allows.
pub proof fn lemma_decimal_len(n: nat)
    ensures
        1 <= decimal(n).len() <= n + 1,
    decreases n,
{
    if n >= 10 {
        lemma_decimal_len(n / 10);
    }
}

/// The text of one decimal digit.
fn digit_text(d: usize) -> (text: &'static str)
    requires
        d < 10,
    ensures
        text@ == seq![digit(d as nat)],
{
    proof {
        reveal_strlit("0");
        reveal_strlit("1");
        reveal_strlit("2");
        reveal_strlit("3");
        reveal_strlit("4");
        reveal_strlit("5");
        reveal_strlit("6");
        reveal_strlit("7");
        reveal_strlit("8");
        reveal_strlit("9");
    }
    let text = if d == 0 {
        "0"
    } else if d == 1 {
        "1"
    } else if d == 2 {
        "2"
    } else if d == 3 {
        "3"
    } else if d == 4 {
        "4"
    } else if d == 5 {
        "5"
    } else if d == 6 {
        "6"
    } else if d == 7 {
        "7"
    } else if d == 8 {
        "8"
    } else {
        "9"
    };
    assert(text@ =~= seq![digit(d as nat)]);
    text
}

/// Appends the decimal numeral of `n` to `out` and returns its length.
fn push_decimal(out: &mut String, n: usize) -> (digits: usize)
    ensures
        final(out)@ == old(out)@ + decimal(n as nat),
        digits == decimal(n as nat).len(),
    decreases n,
{
    proof {
        lemma_decimal_len(n as nat);
        lemma_decimal_len((n / 10) as nat);
    }
    if n < 10 {
        out.append(digit_text(n));
        1
    } else {
        let before: usize = push_decimal(out, n / 10);
        out.append(digit_text(n % 10));
        proof {
            assert(final(out)@ =~= old(out)@ + decimal(n as nat));
        }
        before + 1
    }
}

/// The decimal numeral of `n`.
pub fn decimal_string(n: usize) -> (text: String)
    ensures
        text@ == decimal(n as nat),
{
    let mut text = String::new();
    let _ = push_decimal(&mut text, n);
    assert(text@ =~= decimal(n as nat));
    text
}

/// The number field of `n`: its decimal numeral behind as many spaces as
/// bring the field to six characters.
pub fn number_field_string(n: usize) -> (text: String)
    ensures
        text@ == number_field(n as nat),
{
    let numeral = decimal_string(n);
    let digits: usize = numeral.as_str().unicode_len();
    let mut text = String::new();
    let mut filled: usize = digits;
    while filled < NUMBER_WIDTH
        invariant
            digits <= filled,
            digits == numeral@.len(),
            numeral@ == decimal(n as nat),
            digits < NUMBER_WIDTH ==> filled <= NUMBER_WIDTH,
            digits >= NUMBER_WIDTH ==> filled == digits,
            text@ == spaces((filled - digits) as nat),
        decreases NUMBER_WIDTH - filled,
    {
        proof {
            reveal_strlit(" ");
        }
        text.append(" ");
        filled = filled + 1;
        assert(text@ =~= spaces((filled - digits) as nat));
    }
    text.append(numeral.as_str());
    proof {
        assert(text@ =~= number_field(n as nat));
    }
    text
}

} // verus!
