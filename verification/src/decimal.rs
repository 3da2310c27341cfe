//! Decimal rendering of integers, as `{}` prints them.
use vstd::prelude::*;

verus! {

/// The character that shows the decimal digit `d` (for `0 <= d < 10`).
pub open spec fn digit_char(d: int) -> char {
    if d == 0 {
        '0'
    } else if d == 1 {
        '1'
    } else if d == 2 {
        '2'
    } else if d == 3 {
        '3'
    } else if d == 4 {
        '4'
    } else if d == 5 {
        '5'
    } else if d == 6 {
        '6'
    } else if d == 7 {
        '7'
    } else if d == 8 {
        '8'
    } else {
        '9'
    }
}

/// The decimal digits of `n`, most significant first, without leading zeros.
pub open spec fn nat_decimal(n: nat) -> Seq<char>
    decreases n,
{
    if n < 10 {
        seq![digit_char(n as int)]
    } else {
        nat_decimal(n / 10).push(digit_char((n % 10) as int))
    }
}

/// `n` written in decimal: a minus sign before the digits of `|n|` when `n` is negative.
pub open spec fn int_decimal(n: int) -> Seq<char> {
    if n < 0 {
        seq!['-'] + nat_decimal((-n) as nat)
    } else {
        nat_decimal(n as nat)
    }
}

/// Every decimal rendering has at least one digit, and two or more from ten on.
pub proof fn lemma_nat_decimal_len(n: nat)
    ensures
        nat_decimal(n).len() >= 1,
        n >= 10 ==> nat_decimal(n).len() >= 2,
    decreases n,
{
    if n >= 10 {
        lemma_nat_decimal_len(n / 10);
    }
}

/// The digits of a natural number are all digit characters; in particular none is a minus sign.
pub proof fn lemma_nat_decimal_no_sign(n: nat)
    ensures
        nat_decimal(n)[0] != '-',
    decreases n,
{
    if n >= 10 {
        lemma_nat_decimal_len(n / 10);
        lemma_nat_decimal_no_sign(n / 10);
    }
}

/// Two natural numbers with the same decimal rendering are equal.
pub proof fn lemma_nat_decimal_injective(a: nat, b: nat)
    requires
        nat_decimal(a) == nat_decimal(b),
    ensures
        a == b,
    decreases a,
{
    lemma_nat_decimal_len(a);
    lemma_nat_decimal_len(b);
    if a >= 10 && b >= 10 {
        let sa = nat_decimal(a);
        let sb = nat_decimal(b);
        assert(sa.drop_last() =~= nat_decimal(a / 10));
        assert(sb.drop_last() =~= nat_decimal(b / 10));
        assert(sa.last() == digit_char((a % 10) as int));
        assert(sb.last() == digit_char((b % 10) as int));
        lemma_nat_decimal_injective(a / 10, b / 10);
    } else if a < 10 && b >= 10 {
        lemma_nat_decimal_len(b);
    } else if a >= 10 && b < 10 {
        lemma_nat_decimal_len(a);
    } else {
        assert(nat_decimal(a)[0] == digit_char(a as int));
        assert(nat_decimal(b)[0] == digit_char(b as int));
    }
}

/// Law: the decimal rendering of an integer determines it; two integers print
/// alike only when they are equal.
pub proof fn lemma_int_decimal_injective(a: int, b: int)
    requires
        int_decimal(a) == int_decimal(b),
    ensures
        a == b,
{
    if a < 0 && b < 0 {
        let sa = int_decimal(a);
        assert(sa.subrange(1, sa.len() as int) =~= nat_decimal((-a) as nat));
        assert(int_decimal(b).subrange(1, sa.len() as int) =~= nat_decimal((-b) as nat));
        lemma_nat_decimal_injective((-a) as nat, (-b) as nat);
    } else if a < 0 && b >= 0 {
        lemma_nat_decimal_no_sign(b as nat);
        assert(int_decimal(a)[0] == '-');
    } else if a >= 0 && b < 0 {
        lemma_nat_decimal_no_sign(a as nat);
        assert(int_decimal(b)[0] == '-');
    } else {
        lemma_nat_decimal_injective(a as nat, b as nat);
    }
}

/// The one-character string that shows the digit `d`.
fn digit_str(d: u32) -> (s: &'static str)
    requires
        d < 10,
    ensures
        s@ == seq![digit_char(d as int)],
{
    if d == 0 {
        proof {
            reveal_strlit("0");
        }
        "0"
    } else if d == 1 {
        proof {
            reveal_strlit("1");
        }
        "1"
    } else if d == 2 {
        proof {
            reveal_strlit("2");
        }
        "2"
    } else if d == 3 {
        proof {
            reveal_strlit("3");
        }
        "3"
    } else if d == 4 {
        proof {
            reveal_strlit("4");
        }
        "4"
    } else if d == 5 {
        proof {
            reveal_strlit("5");
        }
        "5"
    } else if d == 6 {
        proof {
            reveal_strlit("6");
        }
        "6"
    } else if d == 7 {
        proof {
            reveal_strlit("7");
        }
        "7"
    } else if d == 8 {
        proof {
            reveal_strlit("8");
        }
        "8"
    } else {
        proof {
            reveal_strlit("9");
        }
        "9"
    }
}

/// Appends the decimal digits of `n` to `s`.
fn append_nat_decimal(s: &mut String, n: u32)
    ensures
        final(s)@ == old(s)@ + nat_decimal(n as nat),
    decreases n,
{
    if n >= 10 {
        append_nat_decimal(s, n / 10);
    }
    s.append(digit_str(n % 10));
}

/// Appends `n`, written in decimal, to `s`.
pub fn append_decimal(s: &mut String, n: i32)
    ensures
        final(s)@ == old(s)@ + int_decimal(n as int),
{
    if n < 0 {
        proof {
            reveal_strlit("-");
        }
        s.append("-");
        let wide: i64 = n as i64;
        let magnitude: u32 = (0 - wide) as u32;
        append_nat_decimal(s, magnitude);
        assert(s@ =~= old(s)@ + int_decimal(n as int));
    } else {
        let magnitude: u32 = n as u32;
        append_nat_decimal(s, magnitude);
    }
}

} // verus!
