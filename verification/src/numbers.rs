use vstd::prelude::*;

verus! {

/// A decimal number `(-1)^(1 - positive) * mantissa * 10^exponent`, as the
/// geocode and weather payloads carry coordinates, temperatures and wind
/// speeds. Keeping the three parts avoids any rounding: the number is exactly
/// what the payload's text said.
#[derive(Clone, Copy, PartialEq, Eq, Structural, Debug)]
pub struct Decimal {
    pub positive: bool,
    pub mantissa: u64,
    pub exponent: i16,
}

/// The character for one decimal digit.
pub open spec fn digit_char(d: nat) -> char {
    if d == 0 {
        '0'
    } else if d == 1 {
        '1'
    } else if d == 2 {
        '2'
    } else if d == 3 {
        '3'
    } else if d == 4 {
        '4'
    } else if d == 5 {
        '5'
    } else if d == 6 {
        '6'
    } else if d == 7 {
        '7'
    } else if d == 8 {
        '8'
    } else {
        '9'
    }
}

/// The decimal digits of `n`, most significant first, without leading zeros
/// (except for `n == 0`, which is the single digit `0`).
pub open spec fn spec_digits(n: nat) -> Seq<char>
    decreases n,
{
    if n < 10 {
        seq![digit_char(n)]
    } else {
        spec_digits(n / 10).push(digit_char(n % 10))
    }
}

/// `n` zeros.
pub open spec fn spec_zeros(n: nat) -> Seq<char> {
    Seq::new(n, |i: int| '0')
}

/// How a `Decimal` is written in a URL: plain decimal notation, a leading `-`
/// for a negative number, a `.` only when the exponent is negative, and `0`
/// for a zero mantissa whatever the sign or exponent.
pub open spec fn spec_decimal_chars(d: Decimal) -> Seq<char> {
    if d.mantissa == 0 {
        seq!['0']
    } else {
        let sign: Seq<char> = if d.positive {
            Seq::<char>::empty()
        } else {
            seq!['-']
        };
        let digits = spec_digits(d.mantissa as nat);
        if d.exponent >= 0 {
            sign + digits + spec_zeros(d.exponent as nat)
        } else {
            let e = -(d.exponent as int);
            if digits.len() > e {
                sign + digits.take(digits.len() - e) + seq!['.'] + digits.skip(digits.len() - e)
            } else {
                sign + seq!['0', '.'] + spec_zeros((e - digits.len()) as nat) + digits
            }
        }
    }
}

proof fn lemma_zeros_push(n: nat)
    ensures
        spec_zeros(n + 1) == spec_zeros(n).push('0'),
{
    assert(spec_zeros(n + 1) =~= spec_zeros(n).push('0'));
}

/// One decimal digit as text.
fn digit_str(d: u64) -> (r: &'static str)
    requires
        d < 10,
    ensures
        r@ == seq![digit_char(d as nat)],
{
    proof {
        reveal_strlit("0");
        reveal_strlit("1");
        reveal_strlit("2");
        reveal_strlit("3");
        reveal_strlit("4");
        reveal_strlit("5");
        reveal_strlit("6");
        reveal_strlit("7");
        reveal_strlit("8");
        reveal_strlit("9");
    }
    let r = if d == 0 {
        "0"
    } else if d == 1 {
        "1"
    } else if d == 2 {
        "2"
    } else if d == 3 {
        "3"
    } else if d == 4 {
        "4"
    } else if d == 5 {
        "5"
    } else if d == 6 {
        "6"
    } else if d == 7 {
        "7"
    } else if d == 8 {
        "8"
    } else {
        "9"
    };
    proof {
        assert(r@ =~= seq![digit_char(d as nat)]);
    }
    r
}

/// Appends the decimal digits of `n` to `out`.
fn push_digits(n: u64, out: &mut String)
    ensures
        final(out)@ == old(out)@ + spec_digits(n as nat),
    decreases n,
{
    if n >= 10 {
        push_digits(n / 10, out);
    }
    out.append(digit_str(n % 10));
    proof {
        assert(old(out)@ + spec_digits(n as nat) =~= out@);
    }
}

/// Writes a `Decimal` in the plain decimal notation of `spec_decimal_chars`.
pub fn format_decimal(d: &Decimal) -> (r: String)
    ensures
        r@ == spec_decimal_chars(*d),
{
    proof {
        reveal_strlit("0");
        reveal_strlit("-");
        reveal_strlit(".");
        reveal_strlit("0.");
    }
    if d.mantissa == 0 {
        let r = String::from_str("0");
        proof {
            assert(r@ =~= spec_decimal_chars(*d));
        }
        return r;
    }
    let mut digits = String::new();
    push_digits(d.mantissa, &mut digits);
    let mut out = String::new();
    if !d.positive {
        out.append("-");
    }
    let ghost sign: Seq<char> = if d.positive {
        Seq::<char>::empty()
    } else {
        seq!['-']
    };
    assert(out@ =~= sign);
    if d.exponent >= 0 {
        out.append(digits.as_str());
        let mut i: i16 = 0;
        while i < d.exponent
            invariant
                0 <= i <= d.exponent,
                out@ == sign + spec_digits(d.mantissa as nat) + spec_zeros(i as nat),
            decreases d.exponent - i,
        {
            out.append("0");
            proof {
                reveal_strlit("0");
                lemma_zeros_push(i as nat);
                assert(out@ =~= sign + spec_digits(d.mantissa as nat) + spec_zeros(
                    (i + 1) as nat,
                ));
            }
            i = i + 1;
        }
        proof {
            assert(out@ =~= spec_decimal_chars(*d));
        }
        out
    } else {
        let e32: i32 = -(d.exponent as i32);
        let e: usize = e32 as usize;
        let len: usize = digits.as_str().unicode_len();
        if len > e {
            out.append(digits.as_str().substring_char(0, len - e));
            out.append(".");
            out.append(digits.as_str().substring_char(len - e, len));
            proof {
                assert(out@ =~= spec_decimal_chars(*d));
            }
            out
        } else {
            out.append("0.");
            let mut i: usize = 0;
            while i < e - len
                invariant
                    0 <= i <= e - len,
                    out@ == sign + seq!['0', '.'] + spec_zeros(i as nat),
                decreases e - len - i,
            {
                out.append("0");
                proof {
                    reveal_strlit("0");
                    lemma_zeros_push(i as nat);
                    assert(out@ =~= sign + seq!['0', '.'] + spec_zeros((i + 1) as nat));
                }
                i = i + 1;
            }
            out.append(digits.as_str());
            proof {
                assert(out@ =~= spec_decimal_chars(*d));
            }
            out
        }
    }
}

} // verus!
