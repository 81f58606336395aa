//! The number that precedes a numbered line: decimal digits, right-aligned
//! in a field of six characters and followed by a tab.

use vstd::prelude::*;

verus! {

/// Width of the field in which a line number is right-aligned.
pub const NUMBER_WIDTH: usize = 6;

/// The character that stands for the decimal digit `d`.
pub open spec fn digit_char(d: nat) -> char
    recommends
        d < 10,
{
    if d == 0 {
        '0'
    } else if d == 1 {
        '1'
    } else if d == 2 {
        '2'
    } else if d == 3 {
        '3'
    } else if d == 4 {
        '4'
    } else if d == 5 {
        '5'
    } else if d == 6 {
        '6'
    } else if d == 7 {
        '7'
    } else if d == 8 {
        '8'
    } else {
        '9'
    }
}

/// The decimal digits of `n`, most significant first, without leading zeros.
pub open spec fn decimal(n: nat) -> Seq<char>
    decreases n,
{
    if n < 10 {
        seq![digit_char(n)]
    } else {
        decimal(n / 10).push(digit_char(n % 10))
    }
}

/// A run of `count` spaces.
pub open spec fn spaces(count: nat) -> Seq<char> {
    Seq::new(count, |i: int| ' ')
}

/// `text` right-aligned in a field of `width` characters: spaces fill the
/// field on the left, and a text wider than the field is left as it is.
pub open spec fn right_aligned(text: Seq<char>, width: nat) -> Seq<char> {
    if text.len() >= width {
        text
    } else {
        spaces((width - text.len()) as nat) + text
    }
}

/// A line as it is written with its number `n`: the number right-aligned in
/// `NUMBER_WIDTH` characters, a tab, then the line itself.
pub open spec fn numbered(n: nat, line: Seq<char>) -> Seq<char> {
    right_aligned(decimal(n), NUMBER_WIDTH as nat) + seq!['\t'] + line
}

/// The one-character text of the decimal digit `d`.
fn digit_text(d: u64) -> (text: &'static str)
    requires
        d < 10,
    ensures
        text@ == seq![digit_char(d as nat)],
{
    proof {
        reveal_strlit("0");
        reveal_strlit("1");
        reveal_strlit("2");
        reveal_strlit("3");
        reveal_strlit("4");
        reveal_strlit("5");
        reveal_strlit("6");
        reveal_strlit("7");
        reveal_strlit("8");
        reveal_strlit("9");
    }
    if d == 0 {
        "0"
    } else if d == 1 {
        "1"
    } else if d == 2 {
        "2"
    } else if d == 3 {
        "3"
    } else if d == 4 {
        "4"
    } else if d == 5 {
        "5"
    } else if d == 6 {
        "6"
    } else if d == 7 {
        "7"
    } else if d == 8 {
        "8"
    } else {
        "9"
    }
}

/// Writes `n` in decimal.
pub fn decimal_string(n: u64) -> (text: String)
    ensures
        text@ == decimal(n as nat),
    decreases n,
{
    if n < 10 {
        digit_text(n).to_owned()
    } else {
        let mut text = decimal_string(n / 10);
        text.append(digit_text(n % 10));
        text
    }
}

/// Writes `line` with the number `n` in front of it.
pub fn numbered_line(n: u64, line: &str) -> (text: String)
    ensures
        text@ == numbered(n as nat, line@),
{
    let digits = decimal_string(n);
    let len = digits.as_str().unicode_len();
    let mut text = String::new();
    let mut filled: usize = len;
    while filled < NUMBER_WIDTH
        invariant
            len <= filled,
            filled <= NUMBER_WIDTH || filled == len,
            text@ == spaces((filled - len) as nat),
        decreases NUMBER_WIDTH - filled,
    {
        proof {
            reveal_strlit(" ");
        }
        text.append(" ");
        filled += 1;
    }
    proof {
        reveal_strlit("\t");
    }
    text.append(digits.as_str());
    text.append("\t");
    text.append(line);
    text
}

} // verus!
