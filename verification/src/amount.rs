//! Monetary amounts, held in satoshis and written with eight fractional digits.

use vstd::prelude::*;
use vstd::string::*;

verus! {

/// Satoshis in one whole coin.
pub const COIN: u64 = 100_000_000;

/// The character that writes the decimal digit `d`.
pub open spec fn digit_char(d: int) -> char {
    if d == 0 {
        '0'
    } else if d == 1 {
        '1'
    } else if d == 2 {
        '2'
    } else if d == 3 {
        '3'
    } else if d == 4 {
        '4'
    } else if d == 5 {
        '5'
    } else if d == 6 {
        '6'
    } else if d == 7 {
        '7'
    } else if d == 8 {
        '8'
    } else {
        '9'
    }
}

/// The decimal numeral of `n`, without leading zeros.
pub open spec fn decimal(n: nat) -> Seq<char>
    decreases n,
{
    if n < 10 {
        seq![digit_char(n as int)]
    } else {
        decimal(n / 10).push(digit_char((n % 10) as int))
    }
}

/// The last `width` decimal digits of `n`, zeros included.
pub open spec fn padded(n: nat, width: nat) -> Seq<char>
    decreases width,
{
    if width == 0 {
        Seq::empty()
    } else {
        padded(n / 10, (width - 1) as nat).push(digit_char((n % 10) as int))
    }
}

/// An amount in coins: the whole part, a point, and exactly eight fractional digits.
pub open spec fn amount_text(sats: u64) -> Seq<char> {
    decimal((sats / COIN) as nat) + seq!['.'] + padded((sats % COIN) as nat, 8)
}

/// The digit that a character writes; zero for a character that writes none.
pub open spec fn digit_value(c: char) -> int {
    if c == '1' {
        1
    } else if c == '2' {
        2
    } else if c == '3' {
        3
    } else if c == '4' {
        4
    } else if c == '5' {
        5
    } else if c == '6' {
        6
    } else if c == '7' {
        7
    } else if c == '8' {
        8
    } else if c == '9' {
        9
    } else {
        0
    }
}

/// The number that a row of digits writes.
pub open spec fn number_of(digits: Seq<char>) -> int
    decreases digits.len(),
{
    if digits.len() == 0 {
        0
    } else {
        number_of(digits.drop_last()) * 10 + digit_value(digits.last())
    }
}

/// Ten to the power `width`.
pub open spec fn ten_to(width: nat) -> nat
    decreases width,
{
    if width == 0 {
        1
    } else {
        10 * ten_to((width - 1) as nat)
    }
}

/// A numeral writes the number it was made from.
pub proof fn lemma_decimal_reads_back(n: nat)
    ensures
        number_of(decimal(n)) == n,
        decimal(n).len() >= 1,
    decreases n,
{
    if n < 10 {
        assert(decimal(n).drop_last().len() == 0);
        assert(number_of(decimal(n).drop_last()) == 0);
    } else {
        lemma_decimal_reads_back(n / 10);
        assert(decimal(n).drop_last() =~= decimal(n / 10));
    }
}

/// Padded digits are as many as asked for, and write the number they were
/// made from where that number fits into them.
pub proof fn lemma_padded_reads_back(n: nat, width: nat)
    ensures
        padded(n, width).len() == width,
        n < ten_to(width) ==> number_of(padded(n, width)) == n,
    decreases width,
{
    if width > 0 {
        lemma_padded_reads_back(n / 10, (width - 1) as nat);
        assert(padded(n, width).drop_last() =~= padded(n / 10, (width - 1) as nat));
    }
}

/// A written amount has its point before exactly eight fractional digits.
pub proof fn lemma_amount_text_shape(sats: u64)
    ensures
        amount_text(sats).len() == decimal((sats / COIN) as nat).len() + 9,
        amount_text(sats).len() >= 10,
        amount_text(sats)[amount_text(sats).len() - 9] == '.',
        amount_text(sats).subrange(0, amount_text(sats).len() - 9) == decimal((sats / COIN) as nat),
        amount_text(sats).subrange(amount_text(sats).len() - 8, amount_text(sats).len() as int) == padded(
            (sats % COIN) as nat,
            8,
        ),
{
    let whole = decimal((sats / COIN) as nat);
    let fraction = padded((sats % COIN) as nat, 8);
    lemma_decimal_reads_back((sats / COIN) as nat);
    lemma_padded_reads_back((sats % COIN) as nat, 8);
    let text = amount_text(sats);
    assert(text.len() == whole.len() + 9);
    assert(text.subrange(0, text.len() - 9) =~= whole);
    assert(text.subrange(text.len() - 8, text.len() as int) =~= fraction);
}

/// Amounts are written exactly: two amounts that are written alike are the
/// same amount.
pub proof fn lemma_amount_text_exact(a: u64, b: u64)
    requires
        amount_text(a) == amount_text(b),
    ensures
        a == b,
{
    lemma_amount_text_shape(a);
    lemma_amount_text_shape(b);
    lemma_decimal_reads_back((a / COIN) as nat);
    lemma_decimal_reads_back((b / COIN) as nat);
    assert(ten_to(8) == COIN) by {
        reveal_with_fuel(ten_to, 9);
    }
    lemma_padded_reads_back((a % COIN) as nat, 8);
    lemma_padded_reads_back((b % COIN) as nat, 8);
    assert(a / COIN == b / COIN);
    assert(a % COIN == b % COIN);
}

fn digit(d: u64) -> (c: char)
    requires
        d < 10,
    ensures
        c == digit_char(d as int),
{
    if d == 0 {
        '0'
    } else if d == 1 {
        '1'
    } else if d == 2 {
        '2'
    } else if d == 3 {
        '3'
    } else if d == 4 {
        '4'
    } else if d == 5 {
        '5'
    } else if d == 6 {
        '6'
    } else if d == 7 {
        '7'
    } else if d == 8 {
        '8'
    } else {
        '9'
    }
}

/// Appends the decimal numeral of `n` to `out`.
pub fn push_decimal(out: &mut String, n: u64)
    ensures
        final(out)@ == old(out)@ + decimal(n as nat),
    decreases n,
{
    if n >= 10 {
        push_decimal(out, n / 10);
    }
    out.push(digit(n % 10));
}

/// Appends the last `width` decimal digits of `n` to `out`.
pub fn push_padded(out: &mut String, n: u64, width: u32)
    ensures
        final(out)@ == old(out)@ + padded(n as nat, width as nat),
    decreases width,
{
    if width > 0 {
        push_padded(out, n / 10, width - 1);
        out.push(digit(n % 10));
    }
}

/// Appends `sats` as an amount in coins to `out`.
pub fn push_amount(out: &mut String, sats: u64)
    ensures
        final(out)@ == old(out)@ + amount_text(sats),
{
    push_decimal(out, sats / COIN);
    out.push('.');
    push_padded(out, sats % COIN, 8);
}

/// The decimal numeral of `n`.
pub fn format_number(n: u64) -> (s: String)
    ensures
        s@ == decimal(n as nat),
{
    let mut s = String::new();
    push_decimal(&mut s, n);
    s
}

/// `sats` written as an amount in coins with eight fractional digits.
pub fn format_amount(sats: u64) -> (s: String)
    ensures
        s@ == amount_text(sats),
{
    let mut s = String::new();
    push_amount(&mut s, sats);
    s
}

} // verus!
