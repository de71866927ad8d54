//! Numbers as text.
use vstd::prelude::*;

verus! {

/// `String::push` appends the character to the end of the string.
pub assume_specification[ String::push ](s: &mut String, c: char)
    ensures
        final(s)@ == old(s)@.push(c),
;

/// The character of a decimal digit.
pub open spec fn digit_char(d: int) -> char {
    if d == 0 {
        '0'
    } else if d == 1 {
        '1'
    } else if d == 2 {
        '2'
    } else if d == 3 {
        '3'
    } else if d == 4 {
        '4'
    } else if d == 5 {
        '5'
    } else if d == 6 {
        '6'
    } else if d == 7 {
        '7'
    } else if d == 8 {
        '8'
    } else {
        '9'
    }
}

/// The decimal notation of `n`, most significant digit first and without leading zeros.
pub open spec fn decimal_text(n: nat) -> Seq<char>
    decreases n,
{
    if n < 10 {
        seq![digit_char(n as int)]
    } else {
        decimal_text(n / 10).push(digit_char((n % 10) as int))
    }
}

/// The number that decimal digits denote, the most significant digit first.
pub open spec fn decimal_value(digits: Seq<char>) -> int
    decreases digits.len(),
{
    if digits.len() == 0 {
        0
    } else {
        10 * decimal_value(digits.drop_last()) + (digits.last() as int - '0' as int)
    }
}

fn digit(d: u64) -> (c: char)
    requires
        d < 10,
    ensures
        c == digit_char(d as int),
        c as int == '0' as int + d,
{
    match d {
        0 => '0',
        1 => '1',
        2 => '2',
        3 => '3',
        4 => '4',
        5 => '5',
        6 => '6',
        7 => '7',
        8 => '8',
        _ => '9',
    }
}

/// Writes `n` in decimal.
pub fn decimal(n: u64) -> (s: String)
    ensures
        s@ == decimal_text(n as nat),
        decimal_value(s@) == n,
        s@.len() > 0,
        forall|i: int| 0 <= i < s@.len() ==> '0' <= #[trigger] s@[i] <= '9',
        s@.len() > 1 ==> s@[0] != '0',
    decreases n,
{
    let mut s = if n < 10 {
        String::new()
    } else {
        decimal(n / 10)
    };
    s.push(digit(n % 10));
    proof {
        decimal_text_denotes_number(n as nat);
    }
    s
}

/// Different numbers have different decimal notations.
pub proof fn decimal_text_is_injective(m: nat, n: nat)
    requires
        decimal_text(m) == decimal_text(n),
    ensures
        m == n,
    decreases m,
{
    decimal_text_is_digits(m);
    decimal_text_is_digits(n);
    if m >= 10 && n >= 10 {
        assert(decimal_text(m).drop_last() =~= decimal_text(m / 10));
        assert(decimal_text(n).drop_last() =~= decimal_text(n / 10));
        decimal_text_is_injective(m / 10, n / 10);
        assert(decimal_text(m).last() == digit_char((m % 10) as int));
        assert(decimal_text(n).last() == digit_char((n % 10) as int));
    } else if m >= 10 {
        decimal_text_is_digits(m / 10);
        assert(decimal_text(m).len() > 1);
    } else if n >= 10 {
        decimal_text_is_digits(n / 10);
        assert(decimal_text(n).len() > 1);
    } else {
        assert(decimal_text(m)[0] == digit_char(m as int));
        assert(decimal_text(n)[0] == digit_char(n as int));
    }
}

/// A decimal notation is not empty and consists of digits.
pub proof fn decimal_text_is_digits(n: nat)
    ensures
        decimal_text(n).len() > 0,
        forall|i: int|
            0 <= i < decimal_text(n).len() ==> '0' <= #[trigger] decimal_text(n)[i] <= '9',
    decreases n,
{
    if n >= 10 {
        decimal_text_is_digits(n / 10);
    }
}

/// A decimal notation is made of digits, denotes the number it is written for, and has no zeros
/// before the number.
pub proof fn decimal_text_denotes_number(n: nat)
    ensures
        decimal_value(decimal_text(n)) == n,
        decimal_text(n).len() > 0,
        forall|i: int|
            0 <= i < decimal_text(n).len() ==> '0' <= #[trigger] decimal_text(n)[i] <= '9',
        decimal_text(n).len() > 1 ==> decimal_text(n)[0] != '0',
    decreases n,
{
    decimal_text_is_digits(n);
    let text = decimal_text(n);
    assert(text.last() as int == '0' as int + n % 10);
    if n >= 10 {
        assert(text.drop_last() =~= decimal_text(n / 10));
        decimal_text_denotes_number(n / 10);
        assert(text[0] == decimal_text(n / 10)[0]);
        if n < 100 {
            assert(decimal_text(n / 10)[0] == digit_char((n / 10) as int));
        } else {
            decimal_text_is_digits(n / 10 / 10);
            assert(decimal_text(n / 10).len() > 1);
        }
    } else {
        assert(text.drop_last() =~= Seq::empty());
        assert(decimal_value(text.drop_last()) == 0);
    }
}

} // verus!
