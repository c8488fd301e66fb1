//! Numbers written as text in messages.

use vstd::prelude::*;

verus! {

/// The decimal digit or upper-case hexadecimal digit of value `d`.
pub open spec fn digit_char(d: nat) -> char {
    "0123456789ABCDEF"@[d as int]
}

/// The decimal writing of `n`, without leading zeros.
pub open spec fn decimal_digits(n: nat) -> Seq<char>
    decreases n,
{
    if n < 10 {
        seq![digit_char(n)]
    } else {
        decimal_digits(n / 10).push(digit_char(n % 10))
    }
}

/// The lowest `k` hexadecimal digits of `n`, most significant first.
pub open spec fn hex_digits(n: nat, k: nat) -> Seq<char>
    decreases k,
{
    if k == 0 {
        Seq::empty()
    } else {
        hex_digits(n / 16, (k - 1) as nat).push(digit_char(n % 16))
    }
}

fn push_digit(out: &mut String, d: u64)
    requires
        d < 16,
    ensures
        final(out)@ == old(out)@.push(digit_char(d as nat)),
{
    let digits = "0123456789ABCDEF";
    proof {
        reveal_strlit("0123456789ABCDEF");
    }
    let one = digits.substring_char(d as usize, (d + 1) as usize);
    out.append(one);
    proof {
        assert(one@ =~= seq![digit_char(d as nat)]);
    }
}

/// Appends the decimal writing of `n` to `out`.
pub fn push_decimal(out: &mut String, n: u64)
    ensures
        final(out)@ == old(out)@ + decimal_digits(n as nat),
    decreases n,
{
    if n >= 10 {
        push_decimal(out, n / 10);
    }
    push_digit(out, n % 10);
    proof {
        if n >= 10 {
            assert(decimal_digits(n as nat) == decimal_digits((n / 10) as nat).push(digit_char((n % 10) as nat)));
        }
    }
}

/// Appends the lowest `k` hexadecimal digits of `n` to `out`, zero-padded.
pub fn push_hex(out: &mut String, n: u64, k: u64)
    ensures
        final(out)@ == old(out)@ + hex_digits(n as nat, k as nat),
    decreases k,
{
    if k > 0 {
        push_hex(out, n / 16, k - 1);
        push_digit(out, n % 16);
    } else {
        proof {
            assert(old(out)@ + Seq::<char>::empty() =~= old(out)@);
        }
    }
}

/// `prefix` followed by the decimal writing of `n`.
pub fn with_decimal(prefix: &str, n: u64) -> (r: String)
    ensures
        r@ == prefix@ + decimal_digits(n as nat),
{
    let mut s = String::from_str(prefix);
    push_decimal(&mut s, n);
    s
}

/// `prefix` followed by `0x` and eight upper-case hexadecimal digits of `n`.
pub fn with_hex8(prefix: &str, n: u32) -> (r: String)
    ensures
        r@ == prefix@ + "0x"@ + hex_digits(n as nat, 8),
{
    let mut s = String::from_str(prefix);
    s.append("0x");
    push_hex(&mut s, n as u64, 8);
    s
}

} // verus!
