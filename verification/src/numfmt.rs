//! Decimal rendering of a reading, for the status messages.

use vstd::prelude::*;

verus! {

/// The character for one decimal digit.
pub open spec fn digit_char(d: nat) -> char
    recommends
        d < 10,
{
    ((48 + d) as u8) as char
}

/// The decimal representation of `n`, most significant digit first, with
/// no leading zeros (a single '0' for zero itself).
pub open spec fn dec_digits(n: nat) -> Seq<char>
    decreases n,
{
    if n < 10 {
        seq![digit_char(n)]
    } else {
        dec_digits(n / 10).push(digit_char(n % 10))
    }
}

/// A decimal digit's character lies between '0' and '9'.
pub proof fn lemma_digit_char_range(d: nat)
    requires
        d < 10,
    ensures
        '0' <= digit_char(d) && digit_char(d) <= '9',
{
    assert(digit_char(d) as u32 == 48 + d);
}

/// Every character of a decimal representation is an ASCII digit.
pub proof fn lemma_dec_digits_ascii(n: nat)
    ensures
        vstd::utf8::is_ascii_chars(dec_digits(n)),
        forall|i: int| 0 <= i < dec_digits(n).len() ==> '0' <= #[trigger] dec_digits(n)[i]
            && dec_digits(n)[i] <= '9',
    decreases n,
{
    if n < 10 {
        lemma_digit_char_range(n);
        assert(dec_digits(n) =~= seq![digit_char(n)]);
    } else {
        lemma_dec_digits_ascii(n / 10);
        lemma_digit_char_range(n % 10);
        assert(dec_digits(n) =~= dec_digits(n / 10).push(digit_char(n % 10)));
    }
}

/// A value below `10^k` renders in at most `k` digits.
pub proof fn lemma_dec_digits_len(n: nat, k: nat)
    requires
        k >= 1,
        n < vstd::arithmetic::power::pow(10, k),
    ensures
        dec_digits(n).len() <= k,
    decreases k,
{
    if n < 10 {
    } else {
        assert(vstd::arithmetic::power::pow(10, k) == 10 * vstd::arithmetic::power::pow(
            10,
            (k - 1) as nat,
        )) by {
            reveal(vstd::arithmetic::power::pow);
        }
        assert(k >= 2) by {
            vstd::arithmetic::power::lemma_pow1(10);
        }
        lemma_dec_digits_len(n / 10, (k - 1) as nat);
    }
}

/// A 16-bit value renders in at most 5 digits.
pub proof fn lemma_dec_digits_len_u16(n: u16)
    ensures
        dec_digits(n as nat).len() <= 5,
{
    assert(vstd::arithmetic::power::pow(10, 5) == 100000) by {
        reveal_with_fuel(vstd::arithmetic::power::pow, 6);
    }
    lemma_dec_digits_len(n as nat, 5);
}

/// The character for one decimal digit.
pub fn digit_char_exec(d: u16) -> (c: char)
    requires
        d < 10,
    ensures
        c == digit_char(d as nat),
        '0' <= c && c <= '9',
{
    proof {
        lemma_digit_char_range(d as nat);
    }
    (48 + d as u8) as char
}

/// Renders `v` in decimal, most significant digit first.
pub fn u16_digits(v: u16) -> (r: Vec<char>)
    ensures
        r@ =~= dec_digits(v as nat),
        r@.len() <= 5,
        vstd::utf8::is_ascii_chars(r@),
{
    let mut out: Vec<char> = Vec::new();
    let mut n: u16 = v;
    while n >= 10
        invariant
            dec_digits(v as nat) =~= dec_digits(n as nat) + out@,
        decreases n,
    {
        let ghost pre = out@;
        let d = digit_char_exec(n % 10);
        out.insert(0, d);
        proof {
            assert(out@ =~= seq![d] + pre);
            assert(dec_digits(n as nat) =~= dec_digits((n / 10) as nat).push(
                digit_char((n % 10) as nat),
            ));
            assert(dec_digits((n / 10) as nat) + out@ =~= dec_digits(n as nat) + pre);
        }
        n = n / 10;
    }
    let ghost pre = out@;
    let d = digit_char_exec(n);
    out.insert(0, d);
    proof {
        assert(out@ =~= seq![d] + pre);
        assert(dec_digits(n as nat) =~= seq![digit_char(n as nat)]);
        assert(out@ =~= dec_digits(n as nat) + pre);
        assert(out@ =~= dec_digits(v as nat));
        lemma_dec_digits_len_u16(v);
        lemma_dec_digits_ascii(v as nat);
    }
    out
}

} // verus!
