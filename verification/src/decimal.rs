//! Decimal numerals, as they stand in log lines and in the bind address.

use vstd::prelude::*;

verus! {

/// The character of a digit below ten.
pub open spec fn digit(d: nat) -> char {
    (0x30 + d) as char
}

/// The decimal numeral of a number, without leading zeros.
pub open spec fn decimal(n: nat) -> Seq<char>
    decreases n,
{
    if n < 10 {
        seq![digit(n)]
    } else {
        decimal(n / 10).push(digit(n % 10))
    }
}

/// Writes a number in decimal.
pub fn decimal_text(n: u64) -> (text: String)
    ensures
        text@ == decimal(n as nat),
    decreases n,
{
    let mut text = if n < 10 {
        String::new()
    } else {
        decimal_text(n / 10)
    };
    let last: u8 = (n % 10) as u8;
    text.push((0x30 + last) as char);
    assert(text@ =~= decimal(n as nat));
    text
}

} // verus!
