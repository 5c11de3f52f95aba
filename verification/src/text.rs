//! Building strings: decimal rendering of integers and appending to a `String`.

use vstd::prelude::*;

verus! {

/// The character of a decimal digit.
pub open spec fn digit_char(d: nat) -> char
    recommends
        d < 10,
{
    (48 + d) as char
}

/// The decimal digits of a natural number, most significant first, without
/// leading zeros (zero itself is the single digit `0`).
pub open spec fn nat_digits(n: nat) -> Seq<char>
    decreases n,
{
    if n < 10 {
        seq![digit_char(n)]
    } else {
        nat_digits(n / 10).push(digit_char(n % 10))
    }
}

/// The decimal rendering of an integer, with a leading `-` when it is negative.
pub open spec fn int_digits(n: int) -> Seq<char> {
    if n < 0 {
        seq!['-'] + nat_digits((-n) as nat)
    } else {
        nat_digits(n as nat)
    }
}

/// Whether `c` is one of the decimal digits `0` to `9`.
pub open spec fn is_digit(c: char) -> bool {
    '0' <= c <= '9'
}

/// The value of a decimal digit character.
pub open spec fn digit_value(c: char) -> int {
    (c as int) - 48
}

/// The number that a string of decimal digits denotes, read from the left.
pub open spec fn decimal_value(s: Seq<char>) -> int
    decreases s.len(),
{
    if s.len() == 0 {
        0
    } else {
        decimal_value(s.drop_last()) * 10 + digit_value(s.last())
    }
}

/// The number that a decimal rendering denotes: digits, after a `-` for a
/// negative number.
pub open spec fn signed_decimal_value(s: Seq<char>) -> int {
    if s.len() > 0 && s[0] == '-' {
        -decimal_value(s.drop_first())
    } else {
        decimal_value(s)
    }
}

/// The decimal digits of `n` are digits, at least one, without a leading
/// zero unless `n` is zero, and they read back as `n`.
pub proof fn lemma_nat_digits_read_back(n: nat)
    ensures
        nat_digits(n).len() >= 1,
        forall|i: int| 0 <= i < nat_digits(n).len() ==> is_digit(#[trigger] nat_digits(n)[i]),
        nat_digits(n)[0] == '0' ==> n == 0,
        decimal_value(nat_digits(n)) == n,
    decreases n,
{
    let d = digit_char(n % 10);
    assert(digit_value(d) == n % 10);
    if n >= 10 {
        lemma_nat_digits_read_back(n / 10);
        let p = nat_digits(n / 10);
        assert(nat_digits(n).drop_last() =~= p);
        assert(nat_digits(n).last() == d);
        assert(decimal_value(nat_digits(n)) == decimal_value(p) * 10 + digit_value(d));
        assert(nat_digits(n)[0] == p[0]);
        assert forall|i: int| 0 <= i < nat_digits(n).len() implies is_digit(
            #[trigger] nat_digits(n)[i],
        ) by {
            if i < p.len() {
                assert(nat_digits(n)[i] == p[i]);
            }
        }
    } else {
        assert(nat_digits(n).drop_last() =~= Seq::<char>::empty());
        assert(decimal_value(Seq::<char>::empty()) == 0);
        assert(decimal_value(nat_digits(n)) == decimal_value(nat_digits(n).drop_last()) * 10
            + digit_value(nat_digits(n).last()));
    }
}

/// The decimal rendering of an integer reads back as that integer.
pub proof fn lemma_int_digits_read_back(n: int)
    ensures
        int_digits(n).len() >= 1,
        signed_decimal_value(int_digits(n)) == n,
{
    if n < 0 {
        lemma_nat_digits_read_back((-n) as nat);
        assert(int_digits(n).drop_first() =~= nat_digits((-n) as nat));
    } else {
        lemma_nat_digits_read_back(n as nat);
        assert(is_digit(nat_digits(n as nat)[0]));
    }
}

/// Different integers have different decimal renderings.
pub proof fn lemma_int_digits_injective(a: int, b: int)
    ensures
        int_digits(a) == int_digits(b) ==> a == b,
{
    lemma_int_digits_read_back(a);
    lemma_int_digits_read_back(b);
}

/// Appends one character (std's `String::push`).
#[verifier::external_body]
pub(crate) fn push_char(s: &mut String, c: char)
    ensures
        final(s)@ == old(s)@.push(c),
{
    s.push(c);
}

/// Appends the decimal digits of `n`.
pub fn push_u64_decimal(s: &mut String, n: u64)
    ensures
        final(s)@ == old(s)@ + nat_digits(n as nat),
    decreases n,
{
    if n >= 10 {
        push_u64_decimal(s, n / 10);
    }
    let d: u8 = (n % 10) as u8;
    let c: char = (48u8 + d) as char;
    push_char(s, c);
    proof {
        if n >= 10 {
            assert(old(s)@ + nat_digits(n as nat) =~= (old(s)@ + nat_digits((n / 10) as nat)).push(
                digit_char((n % 10) as nat),
            ));
        } else {
            assert(old(s)@ + nat_digits(n as nat) =~= old(s)@.push(digit_char(n as nat)));
        }
    }
}

/// Appends the decimal rendering of `n`, with a `-` sign when it is negative.
pub fn push_i64_decimal(s: &mut String, n: i64)
    ensures
        final(s)@ == old(s)@ + int_digits(n as int),
{
    if n < 0 {
        push_char(s, '-');
        let m: u64 = ((-(n + 1)) as u64) + 1;
        push_u64_decimal(s, m);
        assert(old(s)@ + int_digits(n as int) =~= old(s)@.push('-') + nat_digits(m as nat));
    } else {
        push_u64_decimal(s, n as u64);
    }
}

/// The decimal rendering of `n`.
pub fn i64_to_decimal(n: i64) -> (s: String)
    ensures
        s@ == int_digits(n as int),
{
    let mut s = String::new();
    push_i64_decimal(&mut s, n);
    assert(s@ =~= int_digits(n as int));
    s
}

} // verus!
