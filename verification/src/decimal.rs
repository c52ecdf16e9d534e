//! Decimal rendering of unsigned integers, as `{}` formats a `u64`.

use vstd::prelude::*;

verus! {

/// The ASCII character of a decimal digit.
pub open spec fn digit_char(d: nat) -> char
    recommends
        d < 10,
{
    (48 + d) as char
}

/// The decimal digits of `n`, most significant first, without leading zeros.
pub open spec fn decimal(n: nat) -> Seq<char>
    decreases n,
{
    if n < 10 {
        seq![digit_char(n)]
    } else {
        decimal(n / 10).push(digit_char(n % 10))
    }
}

/// The number that a sequence of decimal digits denotes.
pub open spec fn digits_value(s: Seq<char>) -> int
    decreases s.len(),
{
    if s.len() == 0 {
        0
    } else {
        digits_value(s.drop_last()) * 10 + (s.last() as int - 48)
    }
}

/// Every character of `s` is an ASCII digit.
pub open spec fn all_digits(s: Seq<char>) -> bool {
    forall|i: int| 0 <= i < s.len() ==> '0' <= #[trigger] s[i] <= '9'
}

/// Rendering a number in decimal and reading the digits back gives the number,
/// and the rendering holds at least one digit and nothing but digits.
pub proof fn law_decimal_round_trip(n: nat)
    ensures
        digits_value(decimal(n)) == n,
        all_digits(decimal(n)),
        decimal(n).len() >= 1,
    decreases n,
{
    if n >= 10 {
        law_decimal_round_trip(n / 10);
        let s = decimal(n);
        assert(s.drop_last() =~= decimal(n / 10));
        assert(s.last() == digit_char(n % 10));
        assert(digit_char(n % 10) as int == 48 + n % 10);
        assert(digits_value(s) == digits_value(decimal(n / 10)) * 10 + (n % 10));
        assert(n == (n / 10) * 10 + n % 10);
    } else {
        assert(decimal(n).drop_last() =~= Seq::<char>::empty());
        assert(decimal(n).last() == digit_char(n));
        assert(digit_char(n) as int == 48 + n);
        assert(digits_value(decimal(n)) == digits_value(Seq::<char>::empty()) * 10 + n);
    }
}

/// The decimal rendering of a number has no leading zero: only zero itself is
/// written starting with '0', and it is written as that digit alone.
pub proof fn law_decimal_no_leading_zero(n: nat)
    ensures
        n > 0 ==> decimal(n)[0] != '0',
        n == 0 ==> decimal(n) == seq!['0'],
    decreases n,
{
    if n >= 10 {
        law_decimal_no_leading_zero(n / 10);
        law_decimal_round_trip(n / 10);
        assert(decimal(n)[0] == decimal(n / 10)[0]);
    } else {
        assert(digit_char(n) as int == 48 + n);
    }
}

/// A string of digits that starts with a digit other than '0' denotes a
/// positive number.
proof fn lemma_leading_digit_positive(s: Seq<char>)
    requires
        all_digits(s),
        s.len() >= 1,
        s[0] != '0',
    ensures
        digits_value(s) >= 1,
    decreases s.len(),
{
    let t = s.drop_last();
    assert('0' <= s[s.len() - 1] <= '9');
    if s.len() == 1 {
        assert(s.last() == s[0]);
        assert(digits_value(t) == 0);
    } else {
        assert(all_digits(t)) by {
            assert forall|i: int| 0 <= i < t.len() implies '0' <= #[trigger] t[i] <= '9' by {
                assert(t[i] == s[i]);
            }
        }
        assert(t[0] == s[0]);
        lemma_leading_digit_positive(t);
    }
}

/// The decimal rendering is the one way to write a number in digits without
/// a leading zero: any such string of digits that denotes `n` is `decimal(n)`.
pub proof fn law_decimal_unique(s: Seq<char>, n: nat)
    requires
        all_digits(s),
        s.len() >= 1,
        s.len() > 1 ==> s[0] != '0',
        digits_value(s) == n,
    ensures
        s == decimal(n),
    decreases s.len(),
{
    let t = s.drop_last();
    let c = s.last();
    assert('0' <= s[s.len() - 1] <= '9');
    assert(c == s[s.len() - 1]);
    if s.len() == 1 {
        assert(digits_value(t) == 0);
        assert(c as int == 48 + n);
        assert(n < 10);
        assert(digit_char(n) == c);
        assert(s =~= seq![digit_char(n)]);
    } else {
        assert(all_digits(t)) by {
            assert forall|i: int| 0 <= i < t.len() implies '0' <= #[trigger] t[i] <= '9' by {
                assert(t[i] == s[i]);
            }
        }
        assert(t[0] == s[0]);
        lemma_leading_digit_positive(t);
        let m = digits_value(t);
        assert(n == m * 10 + (c as int - 48));
        assert(n / 10 == m);
        assert(n % 10 == c as int - 48);
        assert(n >= 10);
        law_decimal_unique(t, m as nat);
        assert(digit_char(n % 10) == c);
        assert(s =~= t.push(c));
    }
}

/// The one-character string of a decimal digit.
fn digit_str(d: u64) -> (s: &'static str)
    requires
        d < 10,
    ensures
        s@ == seq![digit_char(d as nat)],
{
    proof {
        reveal_strlit("0");
        reveal_strlit("1");
        reveal_strlit("2");
        reveal_strlit("3");
        reveal_strlit("4");
        reveal_strlit("5");
        reveal_strlit("6");
        reveal_strlit("7");
        reveal_strlit("8");
        reveal_strlit("9");
    }
    match d {
        0 => "0",
        1 => "1",
        2 => "2",
        3 => "3",
        4 => "4",
        5 => "5",
        6 => "6",
        7 => "7",
        8 => "8",
        _ => "9",
    }
}

/// Appends the decimal digits of `n` to `out`.
pub fn push_decimal(out: &mut String, n: u64)
    ensures
        final(out)@ == old(out)@ + decimal(n as nat),
    decreases n,
{
    if n < 10 {
        out.append(digit_str(n));
    } else {
        push_decimal(out, n / 10);
        out.append(digit_str(n % 10));
        assert(old(out)@ + decimal(n as nat) =~= old(out)@ + decimal((n / 10) as nat) + seq![
            digit_char((n % 10) as nat),
        ]);
    }
}

/// The decimal rendering of `n`, as `n.to_string()` gives it.
pub fn to_decimal_string(n: u64) -> (s: String)
    ensures
        s@ == decimal(n as nat),
{
    let mut s = String::new();
    push_decimal(&mut s, n);
    assert(s@ =~= decimal(n as nat));
    s
}

} // verus!
