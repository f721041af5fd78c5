//! Decimal text of a signed integer, as `i64::to_string` writes it.

use vstd::prelude::*;

verus! {

/// The ASCII digit for a value in `0..10`.
pub open spec fn digit_char(d: int) -> char {
    if d == 0 {
        '0'
    } else if d == 1 {
        '1'
    } else if d == 2 {
        '2'
    } else if d == 3 {
        '3'
    } else if d == 4 {
        '4'
    } else if d == 5 {
        '5'
    } else if d == 6 {
        '6'
    } else if d == 7 {
        '7'
    } else if d == 8 {
        '8'
    } else {
        '9'
    }
}

/// The decimal digits of a natural number, most significant first, with no
/// leading zero (zero itself is the single digit `0`).
pub open spec fn digits(n: nat) -> Seq<char>
    decreases n,
{
    if n < 10 {
        seq![digit_char(n as int)]
    } else {
        digits(n / 10).push(digit_char((n % 10) as int))
    }
}

/// The decimal text of an integer: a `-` before the digits of its magnitude
/// when it is negative.
pub open spec fn decimal(n: int) -> Seq<char> {
    if n < 0 {
        seq!['-'] + digits((-n) as nat)
    } else {
        digits(n as nat)
    }
}

/// Digits of `n` without its last digit: empty for a single-digit number.
spec fn leading_digits(n: nat) -> Seq<char> {
    if n < 10 {
        Seq::empty()
    } else {
        digits(n / 10)
    }
}

proof fn lemma_digits_split(n: nat)
    ensures
        digits(n) == leading_digits(n) + seq![digit_char((n % 10) as int)],
{
    if n < 10 {
        assert(n % 10 == n);
        assert(digits(n) =~= Seq::<char>::empty() + seq![digit_char(n as int)]);
    } else {
        assert(digits(n) =~= digits(n / 10) + seq![digit_char((n % 10) as int)]);
    }
}

fn digit_str(d: u64) -> (r: &'static str)
    requires
        d < 10,
    ensures
        r@ == seq![digit_char(d as int)],
{
    if d == 0 {
        proof { reveal_strlit("0"); }
        "0"
    } else if d == 1 {
        proof { reveal_strlit("1"); }
        "1"
    } else if d == 2 {
        proof { reveal_strlit("2"); }
        "2"
    } else if d == 3 {
        proof { reveal_strlit("3"); }
        "3"
    } else if d == 4 {
        proof { reveal_strlit("4"); }
        "4"
    } else if d == 5 {
        proof { reveal_strlit("5"); }
        "5"
    } else if d == 6 {
        proof { reveal_strlit("6"); }
        "6"
    } else if d == 7 {
        proof { reveal_strlit("7"); }
        "7"
    } else if d == 8 {
        proof { reveal_strlit("8"); }
        "8"
    } else {
        proof { reveal_strlit("9"); }
        "9"
    }
}

/// The decimal digits of an unsigned magnitude.
fn digits_string(mag: u64) -> (r: String)
    ensures
        r@ == digits(mag as nat),
{
    let mut m: u64 = mag / 10;
    let mut s = String::from_str(digit_str(mag % 10));
    proof {
        lemma_digits_split(mag as nat);
    }
    while m > 0
        invariant
            digits(mag as nat) == (if m == 0 { Seq::empty() } else { digits(m as nat) }) + s@,
        decreases m,
    {
        proof {
            lemma_digits_split(m as nat);
            assert(digits(mag as nat) =~= leading_digits(m as nat) + (seq![
                digit_char((m % 10) as int),
            ] + s@));
        }
        s = String::from_str(digit_str(m % 10)).concat(s.as_str());
        m = m / 10;
    }
    assert(digits(mag as nat) =~= s@);
    s
}

/// The decimal text of a signed 64-bit integer.
pub fn decimal_string(n: i64) -> (r: String)
    ensures
        r@ == decimal(n as int),
        decimal_value(r@) == n,
        r@.len() >= 1,
        forall|i: int| 0 <= i < r@.len() ==> #[trigger] r@[i] == '-' || ('0' <= r@[i] <= '9'),
        r@[0] == '-' <==> n < 0,
        n >= 0 ==> r@[0] != '0' || r@.len() == 1,
        n < 0 ==> r@[1] != '0',
{
    proof {
        law_decimal_reads_back(n as int);
        lemma_decimal_shape(n as int);
    }
    if n < 0 {
        let wide: i128 = n as i128;
        let mag: u64 = (0i128 - wide) as u64;
        let digits_text = digits_string(mag);
        proof {
            reveal_strlit("-");
        }
        String::from_str("-").concat(digits_text.as_str())
    } else {
        digits_string(n as u64)
    }
}

/// Every character of a digit string is an ASCII digit, there is at least one,
/// and a number of ten or more has at least two.
pub proof fn lemma_digits_shape(n: nat)
    ensures
        digits(n).len() >= 1,
        n >= 10 ==> digits(n).len() >= 2,
        forall|i: int| 0 <= i < digits(n).len() ==> '0' <= #[trigger] digits(n)[i] <= '9',
    decreases n,
{
    if n >= 10 {
        lemma_digits_shape(n / 10);
        assert forall|i: int| 0 <= i < digits(n).len() implies '0' <= #[trigger] digits(n)[i]
            <= '9' by {
            if i < digits(n / 10).len() {
                assert(digits(n)[i] == digits(n / 10)[i]);
            }
        }
    }
}

/// Decimal text is made of a possible leading `-` followed by ASCII digits.
pub proof fn lemma_decimal_shape(n: int)
    ensures
        decimal(n).len() >= 1,
        forall|i: int|
            0 <= i < decimal(n).len() ==> #[trigger] decimal(n)[i] == '-' || ('0' <= decimal(n)[i]
                <= '9'),
        decimal(n)[0] == '-' <==> n < 0,
{
    if n < 0 {
        lemma_digits_shape((-n) as nat);
        assert forall|i: int| 0 <= i < decimal(n).len() implies #[trigger] decimal(n)[i] == '-'
            || ('0' <= decimal(n)[i] <= '9') by {
            if i > 0 {
                assert(decimal(n)[i] == digits((-n) as nat)[i - 1]);
            }
        }
    } else {
        lemma_digits_shape(n as nat);
    }
}

proof fn lemma_digits_injective(a: nat, b: nat)
    requires
        digits(a) == digits(b),
    ensures
        a == b,
    decreases a,
{
    lemma_digits_shape(a);
    lemma_digits_shape(b);
    if a < 10 && b < 10 {
        assert(digits(a)[0] == digit_char(a as int));
        assert(digits(b)[0] == digit_char(b as int));
        lemma_digit_char_injective(a as int, b as int);
    } else if a < 10 {
        assert(digits(a).len() == 1);
    } else if b < 10 {
        assert(digits(b).len() == 1);
    } else {
        let da = digits(a);
        let db = digits(b);
        assert(da[da.len() - 1] == digit_char((a % 10) as int));
        assert(db[db.len() - 1] == digit_char((b % 10) as int));
        assert(da.drop_last() =~= digits(a / 10));
        assert(db.drop_last() =~= digits(b / 10));
        lemma_digits_injective(a / 10, b / 10);
        assert(a % 10 == b % 10) by {
            lemma_digit_char_injective((a % 10) as int, (b % 10) as int);
        }
    }
}

proof fn lemma_digit_char_injective(x: int, y: int)
    requires
        0 <= x < 10,
        0 <= y < 10,
        digit_char(x) == digit_char(y),
    ensures
        x == y,
{
}

/// Distinct integers have distinct decimal texts: the text names the number.
pub proof fn law_decimal_injective(a: int, b: int)
    requires
        decimal(a) == decimal(b),
    ensures
        a == b,
{
    lemma_decimal_shape(a);
    lemma_decimal_shape(b);
    if a < 0 && b < 0 {
        assert(decimal(a).drop_first() =~= digits((-a) as nat));
        assert(decimal(b).drop_first() =~= digits((-b) as nat));
        lemma_digits_injective((-a) as nat, (-b) as nat);
    } else if a >= 0 && b >= 0 {
        lemma_digits_injective(a as nat, b as nat);
    }
}

/// The value of an ASCII digit (0 for any other character).
pub open spec fn digit_value(c: char) -> int {
    if '0' <= c <= '9' {
        (c as int) - ('0' as int)
    } else {
        0
    }
}

/// Reads a string of digits as a base-ten natural number.
pub open spec fn digits_value(s: Seq<char>) -> int
    decreases s.len(),
{
    if s.len() == 0 {
        0
    } else {
        digits_value(s.drop_last()) * 10 + digit_value(s.last())
    }
}

/// Reads decimal text: a leading `-` negates the digits after it.
pub open spec fn decimal_value(s: Seq<char>) -> int {
    if s.len() > 0 && s[0] == '-' {
        -digits_value(s.drop_first())
    } else {
        digits_value(s)
    }
}

proof fn lemma_digits_read_back(n: nat)
    ensures
        digits_value(digits(n)) == n,
    decreases n,
{
    lemma_digit_value_of_char((n % 10) as int);
    if n < 10 {
        assert(digits(n).drop_last() =~= Seq::<char>::empty());
        assert(digits(n).last() == digit_char(n as int));
        assert(digits_value(Seq::<char>::empty()) == 0);
        assert(n % 10 == n);
        assert(digits_value(digits(n)) == digits_value(digits(n).drop_last()) * 10 + digit_value(
            digits(n).last(),
        ));
    } else {
        lemma_digits_read_back(n / 10);
        assert(digits(n).drop_last() =~= digits(n / 10));
        assert(digits(n).last() == digit_char((n % 10) as int));
        assert(n == (n / 10) * 10 + n % 10);
        assert(digits_value(digits(n)) == digits_value(digits(n).drop_last()) * 10 + digit_value(
            digits(n).last(),
        ));
    }
}

proof fn lemma_digit_value_of_char(d: int)
    requires
        0 <= d < 10,
    ensures
        digit_value(digit_char(d)) == d,
{
}

/// Decimal text reads back as the number it was written from; with
/// `lemma_decimal_shape` (digits only, `-` first exactly for negatives) and
/// the absence of leading zeros in `digits`, this is base-ten notation.
pub proof fn law_decimal_reads_back(n: int)
    ensures
        decimal_value(decimal(n)) == n,
        n >= 0 ==> decimal(n)[0] != '0' || decimal(n).len() == 1,
        n < 0 ==> decimal(n)[1] != '0',
{
    lemma_decimal_shape(n);
    if n < 0 {
        lemma_digits_read_back((-n) as nat);
        assert(decimal(n).drop_first() =~= digits((-n) as nat));
        lemma_leading_digit_nonzero((-n) as nat);
        assert(decimal(n)[1] == digits((-n) as nat)[0]);
    } else {
        lemma_digits_read_back(n as nat);
        lemma_leading_digit_nonzero(n as nat);
    }
}

proof fn lemma_leading_digit_nonzero(n: nat)
    ensures
        n > 0 ==> digits(n)[0] != '0',
        n == 0 ==> digits(n).len() == 1,
    decreases n,
{
    if n >= 10 {
        lemma_leading_digit_nonzero(n / 10);
        lemma_digits_shape(n / 10);
        assert(digits(n)[0] == digits(n / 10)[0]);
    }
}

} // verus!
