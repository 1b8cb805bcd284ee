//! Decimal rendering of integers, used for tag columns such as the
//! device id of a station observation.

use vstd::prelude::*;
use vstd::string::StringExecFns;

verus! {

/// The decimal digit character for a value below ten.
pub open spec fn digit_char(d: int) -> char {
    if d == 0 {
        '0'
    } else if d == 1 {
        '1'
    } else if d == 2 {
        '2'
    } else if d == 3 {
        '3'
    } else if d == 4 {
        '4'
    } else if d == 5 {
        '5'
    } else if d == 6 {
        '6'
    } else if d == 7 {
        '7'
    } else if d == 8 {
        '8'
    } else {
        '9'
    }
}

/// The decimal digit string of a natural number, most significant first,
/// with no leading zeros.
pub open spec fn spec_udec(n: nat) -> Seq<char>
    decreases n,
{
    if n < 10 {
        seq![digit_char(n as int)]
    } else {
        spec_udec(n / 10).push(digit_char((n % 10) as int))
    }
}

/// The decimal string of an integer: a minus sign for negatives, then
/// the digits of the magnitude.
pub open spec fn spec_dec(n: int) -> Seq<char> {
    if n < 0 {
        seq!['-'] + spec_udec((-n) as nat)
    } else {
        spec_udec(n as nat)
    }
}

/// A decimal string is never empty and never starts with a minus sign.
pub proof fn lemma_udec_shape(n: nat)
    ensures
        spec_udec(n).len() >= 1,
        spec_udec(n)[0] != '-',
    decreases n,
{
    if n >= 10 {
        lemma_udec_shape(n / 10);
    }
}

/// Distinct numbers render to distinct digit strings.
pub proof fn lemma_udec_injective(m: nat, n: nat)
    requires
        spec_udec(m) == spec_udec(n),
    ensures
        m == n,
    decreases m,
{
    lemma_udec_shape(m);
    lemma_udec_shape(n);
    if m < 10 && n < 10 {
        assert(spec_udec(m)[0] == spec_udec(n)[0]);
    } else if m < 10 {
        lemma_udec_shape(n / 10);
        assert(spec_udec(n).len() >= 2);
        assert(false);
    } else if n < 10 {
        lemma_udec_shape(m / 10);
        assert(spec_udec(m).len() >= 2);
        assert(false);
    } else {
        let a = spec_udec(m / 10);
        let b = spec_udec(n / 10);
        assert(a.push(digit_char((m % 10) as int)).len() == a.len() + 1);
        assert(a.len() == b.len());
        assert(spec_udec(m)[a.len() as int] == digit_char((m % 10) as int));
        assert(spec_udec(n)[b.len() as int] == digit_char((n % 10) as int));
        assert(m % 10 == n % 10);
        assert forall|i: int| 0 <= i < a.len() implies a[i] == b[i] by {
            assert(spec_udec(m)[i] == a[i]);
            assert(spec_udec(n)[i] == b[i]);
        }
        assert(a =~= b);
        lemma_udec_injective(m / 10, n / 10);
        assert(m == 10 * (m / 10) + m % 10) by {
            vstd::arithmetic::div_mod::lemma_fundamental_div_mod(m as int, 10);
        }
        assert(n == 10 * (n / 10) + n % 10) by {
            vstd::arithmetic::div_mod::lemma_fundamental_div_mod(n as int, 10);
        }
    }
}

/// Law: decimal rendering is injective — two integers render to the same
/// string only if they are the same integer.
pub proof fn lemma_dec_injective(m: int, n: int)
    requires
        spec_dec(m) == spec_dec(n),
    ensures
        m == n,
{
    if m >= 0 && n >= 0 {
        lemma_udec_injective(m as nat, n as nat);
    } else if m < 0 && n < 0 {
        let a = spec_udec((-m) as nat);
        let b = spec_udec((-n) as nat);
        assert(spec_dec(m) == seq!['-'] + a);
        assert(spec_dec(n) == seq!['-'] + b);
        assert(spec_dec(m).len() == 1 + a.len());
        assert(spec_dec(n).len() == 1 + b.len());
        assert(a.len() == b.len());
        assert forall|i: int| 0 <= i < a.len() implies a[i] == b[i] by {
            assert((seq!['-'] + a)[i + 1] == a[i]);
            assert((seq!['-'] + b)[i + 1] == b[i]);
        }
        assert(a =~= b);
        lemma_udec_injective((-m) as nat, (-n) as nat);
    } else if m < 0 {
        lemma_udec_shape(n as nat);
        assert(spec_dec(m)[0] == '-');
        assert(false);
    } else {
        lemma_udec_shape(m as nat);
        assert(spec_dec(n)[0] == '-');
        assert(false);
    }
}

fn digit_str(d: u64) -> (r: &'static str)
    requires
        d < 10,
    ensures
        r@ == seq![digit_char(d as int)],
{
    proof {
        reveal_strlit("0");
        reveal_strlit("1");
        reveal_strlit("2");
        reveal_strlit("3");
        reveal_strlit("4");
        reveal_strlit("5");
        reveal_strlit("6");
        reveal_strlit("7");
        reveal_strlit("8");
        reveal_strlit("9");
    }
    match d {
        0 => "0",
        1 => "1",
        2 => "2",
        3 => "3",
        4 => "4",
        5 => "5",
        6 => "6",
        7 => "7",
        8 => "8",
        _ => "9",
    }
}

/// Renders an unsigned number in decimal.
pub fn u64_to_string(n: u64) -> (r: String)
    ensures
        r@ == spec_udec(n as nat),
    decreases n,
{
    if n < 10 {
        digit_str(n).to_owned()
    } else {
        let mut s = u64_to_string(n / 10);
        s.append(digit_str(n % 10));
        proof {
            assert(s@ == spec_udec((n / 10) as nat).push(digit_char((n % 10) as int)));
        }
        s
    }
}

/// Renders a signed number in decimal.
pub fn i64_to_string(n: i64) -> (r: String)
    ensures
        r@ == spec_dec(n as int),
{
    if n >= 0 {
        u64_to_string(n as u64)
    } else {
        let magnitude: u64 = if n == i64::MIN {
            9_223_372_036_854_775_808u64
        } else {
            (-n) as u64
        };
        proof {
            reveal_strlit("-");
        }
        let mut s = "-".to_owned();
        let digits = u64_to_string(magnitude);
        s.append(digits.as_str());
        s
    }
}

} // verus!
