//! Status bar texts: cursor position, selected entry, git branch, sizes.

use vstd::prelude::*;
use crate::fs::entry::FileEntry;
use crate::git::branch::BranchInfo;
use crate::text::{char_of_digit, chars_of, decimal, digit_char, string_from_chars, u64_to_decimal};

verus! {

/// Data needed to render the status bar.
pub struct StatusBarProps<'a> {
    pub entry_count: usize,
    pub selected_index: usize,
    pub selected_entry: Option<&'a FileEntry>,
    pub show_hidden: bool,
    pub status_message: Option<&'a str>,
    pub branch_info: Option<&'a BranchInfo>,
    pub remote_label: Option<&'a str>,
}

/// Appends the characters of `s` to `out`.
fn push_str(out: &mut Vec<char>, s: &str)
    ensures
        final(out)@ == old(out)@ + s@,
{
    let mut cs = chars_of(s);
    out.append(&mut cs);
}

/// Appends the decimal digits of `n` to `out`.
fn push_decimal(out: &mut Vec<char>, n: u64)
    ensures
        final(out)@ == old(out)@ + decimal(n as nat),
{
    let mut d = u64_to_decimal(n);
    out.append(&mut d);
}

/// `n` rounded to the nearest multiple of `2^s`, ties to the even multiple,
/// which is how an integer converts to `f64` once it needs more than 53
/// significant bits.
pub open spec fn round_to_multiple(n: nat, d: nat) -> nat {
    let q = n / d;
    let rem = n % d;
    if d <= 1 {
        n
    } else if rem * 2 > d || (rem * 2 == d && q % 2 == 1) {
        (q + 1) * d
    } else {
        q * d
    }
}

/// `2^k`.
pub open spec fn pow2(k: nat) -> nat
    decreases k,
{
    if k == 0 {
        1
    } else {
        2 * pow2((k - 1) as nat)
    }
}

/// The smallest `k` with `n < 2^(53 + k)`, for `n < 2^64`.
pub open spec fn excess_bits(n: nat, k: nat) -> nat
    decreases 11 - k,
{
    if k >= 11 || n < pow2(53 + k) {
        k
    } else {
        excess_bits(n, k + 1)
    }
}

/// The value of `bytes as f64`: exact below `2^53`, otherwise rounded to 53
/// significant bits.
pub open spec fn as_f64_value(bytes: nat) -> nat {
    round_to_multiple(bytes, pow2(excess_bits(bytes, 0)))
}

/// `num / den` rounded to the nearest integer, ties to even.
pub open spec fn div_round_even(num: nat, den: nat) -> nat {
    let q = num / den;
    let rem = num % den;
    if rem * 2 > den || (rem * 2 == den && q % 2 == 1) {
        q + 1
    } else {
        q
    }
}

/// `value / unit` with one decimal digit (`{:.1}` of the exact quotient,
/// ties to even), followed by a space and the unit name.
pub open spec fn one_decimal(value: nat, unit: nat, name: Seq<char>) -> Seq<char> {
    let tenths = div_round_even(value * 10, unit);
    decimal(tenths / 10) + seq!['.', digit_char(tenths % 10)] + seq![' '] + name
}

/// A byte count in human-readable form: bytes below 1 KiB, otherwise KB, MB
/// or GB (powers of 1024) with one decimal digit.
pub open spec fn size_text(bytes: nat) -> Seq<char> {
    let v = as_f64_value(bytes);
    if bytes >= 1073741824 {
        one_decimal(v, 1073741824, "GB"@)
    } else if bytes >= 1048576 {
        one_decimal(v, 1048576, "MB"@)
    } else if bytes >= 1024 {
        one_decimal(v, 1024, "KB"@)
    } else {
        decimal(bytes) + " B"@
    }
}

proof fn lemma_pow2_values()
    ensures
        pow2(53) == 9007199254740992,
        pow2(64) == 18446744073709551616,
{
    reveal_with_fuel(pow2, 65);
}

/// `bytes as f64` as an integer: `bytes` rounded to 53 significant bits.
#[verifier::spinoff_prover]
#[verifier::rlimit(50)]
fn f64_value(bytes: u64) -> (v: u128)
    ensures
        v == as_f64_value(bytes as nat),
        v <= 18446744073709551616 + 2048,
{
    let mut k: u64 = 0;
    let mut d: u128 = 1;
    let mut limit: u128 = 9007199254740992;
    proof {
        lemma_pow2_values();
        assert(pow2(0) == 1);
    }
    while k < 11 && (bytes as u128) >= limit
        invariant
            k <= 11,
            d == pow2(k as nat),
            d >= 1,
            limit == pow2((53 + k) as nat),
            limit <= 2 * 18446744073709551616,
            excess_bits(bytes as nat, 0) == excess_bits(bytes as nat, k as nat),
            bytes < 18446744073709551616,
        decreases 11 - k,
    {
        proof {
            assert(pow2((k + 1) as nat) == 2 * pow2(k as nat));
            assert(pow2((53 + k + 1) as nat) == 2 * pow2((53 + k) as nat));
            lemma_pow2_mono(k as nat, 10);
            assert(pow2(10) == 1024) by {
                reveal_with_fuel(pow2, 11);
            }
            if k >= 10 {
                lemma_pow2_mono(63, (53 + k) as nat);
                assert(pow2(63) == 9223372036854775808) by {
                    reveal_with_fuel(pow2, 64);
                }
                assert(limit >= 9223372036854775808);
                lemma_pow2_mono((53 + k) as nat, 64);
                lemma_pow2_values();
            }
        }
        k = k + 1;
        d = d * 2;
        limit = limit * 2;
    }
    proof {
        assert(excess_bits(bytes as nat, k as nat) == k);
        lemma_pow2_mono(k as nat, 11);
        assert(pow2(11) == 2048) by {
            reveal_with_fuel(pow2, 12);
        }
    }
    let b = bytes as u128;
    let q = b / d;
    let rem = b % d;
    proof {
        assert(q * d <= b) by (nonlinear_arith)
            requires
                q == b / d,
                d > 0,
        ;
        assert(rem < d) by (nonlinear_arith)
            requires
                rem == b % d,
                d > 0,
        ;
    }
    if d <= 1 {
        b
    } else if rem * 2 > d || (rem * 2 == d && q % 2 == 1) {
        proof {
            assert((q + 1) * d <= b + d) by (nonlinear_arith)
                requires
                    q * d <= b,
            ;
        }
        (q + 1) * d
    } else {
        q * d
    }
}

/// `2^a <= 2^b` when `a <= b`.
proof fn lemma_pow2_mono(a: nat, b: nat)
    requires
        a <= b,
    ensures
        pow2(a) <= pow2(b),
    decreases b,
{
    if a < b {
        lemma_pow2_mono(a, (b - 1) as nat);
    }
}

/// Appends `value / unit` with one decimal digit and the unit name.
fn push_one_decimal(out: &mut Vec<char>, value: u128, unit: u128, name: &str)
    requires
        1024 <= unit <= 1073741824,
        value <= 18446744073709551616 + 2048,
    ensures
        final(out)@ == old(out)@ + one_decimal(value as nat, unit as nat, name@),
{
    let num = value * 10;
    let q = num / unit;
    let rem = num % unit;
    proof {
        assert(q * unit <= num) by (nonlinear_arith)
            requires
                q == num / unit,
                unit > 0,
        ;
        assert(q * 1024 <= num) by (nonlinear_arith)
            requires
                q * unit <= num,
                unit >= 1024,
                q >= 0,
        ;
        assert(rem < unit) by (nonlinear_arith)
            requires
                rem == num % unit,
                unit > 0,
        ;
    }
    let tenths: u128 = if rem * 2 > unit || (rem * 2 == unit && q % 2 == 1) {
        q + 1
    } else {
        q
    };
    let whole = tenths / 10;
    let frac = (tenths % 10) as u32;
    let ghost before = out@;
    push_decimal(out, whole as u64);
    out.push('.');
    out.push(char_of_digit(frac));
    out.push(' ');
    push_str(out, name);
    proof {
        assert(tenths == div_round_even(value as nat * 10, unit as nat));
        assert(out@ =~= before + one_decimal(value as nat, unit as nat, name@));
    }
}

/// Formats a byte count: `"512 B"`, `"1.5 KB"`, `"5.0 MB"`, `"2.0 GB"`.
pub fn format_size(bytes: u64) -> (r: String)
    ensures
        r@ == size_text(bytes as nat),
{
    let mut out: Vec<char> = Vec::new();
    let v = f64_value(bytes);
    if bytes >= 1073741824 {
        push_one_decimal(&mut out, v, 1073741824, "GB");
    } else if bytes >= 1048576 {
        push_one_decimal(&mut out, v, 1048576, "MB");
    } else if bytes >= 1024 {
        push_one_decimal(&mut out, v, 1024, "KB");
    } else {
        push_decimal(&mut out, bytes);
        push_str(&mut out, " B");
    }
    proof {
        assert(out@ =~= size_text(bytes as nat));
    }
    string_from_chars(out.as_slice())
}

} // verus!
