//! Decimal text handling for the wire protocol.
//!
//! Outgoing quantities are written either as plain decimal integers or as
//! fixed-point values with three fractional digits (millivolts or milliamps
//! rendered as volts or amps).  Incoming quantities are plain decimal
//! integers, or decimal values with up to three fractional digits that are
//! read back into milli-units.

use vstd::prelude::*;

use crate::text::spec_find;

verus! {

/// A decimal digit byte.
pub open spec fn spec_is_digit(b: u8) -> bool {
    48 <= b <= 57
}

/// Every byte is a decimal digit (an empty sequence qualifies).
pub open spec fn spec_all_digits(s: Seq<u8>) -> bool {
    forall|i: int| 0 <= i < s.len() ==> spec_is_digit(#[trigger] s[i])
}

/// A non-empty run of decimal digits.
pub open spec fn spec_is_digits(s: Seq<u8>) -> bool {
    s.len() > 0 && spec_all_digits(s)
}

/// The integer a digit run denotes, most significant digit first.
pub open spec fn spec_dec_value(s: Seq<u8>) -> int
    decreases s.len(),
{
    if s.len() == 0 {
        0
    } else {
        spec_dec_value(s.drop_last()) * 10 + (s.last() - 48)
    }
}

/// The shortest digit run denoting `n`.
pub open spec fn spec_dec_digits(n: nat) -> Seq<u8>
    decreases n,
{
    if n < 10 {
        seq![(48 + n) as u8]
    } else {
        spec_dec_digits(n / 10).push((48 + n % 10) as u8)
    }
}

/// The fixed-point rendering of `m` milli-units: whole units, a dot, and
/// exactly three fractional digits.
pub open spec fn spec_milli_digits(m: nat) -> Seq<u8> {
    spec_dec_digits(m / 1000) + seq![
        46u8,
        (48 + (m % 1000) / 100) as u8,
        (48 + (m % 100) / 10) as u8,
        (48 + m % 10) as u8,
    ]
}

pub proof fn lemma_dec_digits_are_digits(n: nat)
    ensures
        spec_is_digits(spec_dec_digits(n)),
    decreases n,
{
    if n >= 10 {
        lemma_dec_digits_are_digits(n / 10);
    }
}

pub proof fn lemma_dec_digits_value(n: nat)
    ensures
        spec_dec_value(spec_dec_digits(n)) == n,
    decreases n,
{
    if n < 10 {
        assert(spec_dec_digits(n).drop_last() =~= Seq::<u8>::empty());
        assert(spec_dec_value(Seq::<u8>::empty()) == 0);
        assert(spec_dec_digits(n).last() == (48 + n) as u8);
        assert((48 + n) as u8 == 48 + n);
    } else {
        lemma_dec_digits_value(n / 10);
        vstd::arithmetic::div_mod::lemma_fundamental_div_mod(n as int, 10);
        let prefix = spec_dec_digits(n / 10);
        assert(prefix.push((48 + n % 10) as u8).drop_last() =~= prefix);
        assert(prefix.push((48 + n % 10) as u8).last() == (48 + n % 10) as u8);
        assert((48 + n % 10) as u8 == 48 + n % 10);
        assert(spec_dec_value(spec_dec_digits(n)) == spec_dec_value(prefix) * 10 + n % 10);
    }
}

/// A digit run denotes a non-negative value.
pub proof fn lemma_dec_value_nonneg(s: Seq<u8>)
    requires
        spec_all_digits(s),
    ensures
        spec_dec_value(s) >= 0,
    decreases s.len(),
{
    if s.len() > 0 {
        assert(spec_all_digits(s.drop_last()));
        lemma_dec_value_nonneg(s.drop_last());
    }
}

/// Ten to the `k`.
pub open spec fn spec_pow10(k: nat) -> int
    decreases k,
{
    if k == 0 {
        1
    } else {
        10 * spec_pow10((k - 1) as nat)
    }
}

/// The powers of ten a three-digit fraction can involve.
pub proof fn lemma_pow10_small()
    ensures
        spec_pow10(0) == 1,
        spec_pow10(1) == 10,
        spec_pow10(2) == 100,
        spec_pow10(3) == 1000,
{
    assert(spec_pow10(1) == 10 * spec_pow10(0));
    assert(spec_pow10(2) == 10 * spec_pow10(1));
    assert(spec_pow10(3) == 10 * spec_pow10(2));
}

/// A run of `k` digits denotes a value below ten to the `k`.
pub proof fn lemma_dec_value_bound(s: Seq<u8>)
    requires
        spec_all_digits(s),
    ensures
        spec_dec_value(s) < spec_pow10(s.len()),
    decreases s.len(),
{
    if s.len() > 0 {
        assert(spec_all_digits(s.drop_last()));
        lemma_dec_value_bound(s.drop_last());
    }
}

/// Dropping digits from the right never increases the value.
pub proof fn lemma_dec_prefix_le(s: Seq<u8>, i: int)
    requires
        spec_all_digits(s),
        0 <= i <= s.len(),
    ensures
        spec_dec_value(s.take(i)) <= spec_dec_value(s),
    decreases s.len() - i,
{
    if i < s.len() {
        assert(s.take(i + 1).drop_last() =~= s.take(i));
        assert(spec_all_digits(s.take(i + 1)));
        lemma_dec_value_nonneg(s.take(i));
        assert(spec_dec_value(s.take(i + 1)) == spec_dec_value(s.take(i)) * 10 + (s[i] - 48));
        lemma_dec_prefix_le(s, i + 1);
    } else {
        assert(s.take(i) =~= s);
    }
}

/// Append the decimal rendering of `n` to `out`.
pub fn push_decimal(n: u64, out: &mut Vec<u8>)
    ensures
        final(out)@ == old(out)@ + spec_dec_digits(n as nat),
    decreases n,
{
    if n < 10 {
        out.push((48 + n) as u8);
        proof {
            assert(final(out)@ =~= old(out)@ + spec_dec_digits(n as nat));
        }
    } else {
        push_decimal(n / 10, out);
        out.push((48 + n % 10) as u8);
        proof {
            assert(final(out)@ =~= old(out)@ + spec_dec_digits(n as nat));
        }
    }
}

/// Append the fixed-point rendering of `m` milli-units to `out`.
pub fn push_milli(m: u32, out: &mut Vec<u8>)
    ensures
        final(out)@ == old(out)@ + spec_milli_digits(m as nat),
{
    push_decimal((m / 1000) as u64, out);
    out.push(46);
    out.push((48 + (m % 1000) / 100) as u8);
    out.push((48 + (m % 100) / 10) as u8);
    out.push((48 + m % 10) as u8);
    proof {
        assert(final(out)@ =~= old(out)@ + spec_milli_digits(m as nat));
    }
}

/// The fixed-point rendering of any milli-unit value reads back as exactly
/// that value: the formatter and the parser are mutually consistent.
pub proof fn lemma_milli_round_trip(m: u32)
    ensures
        spec_parse_milli(spec_milli_digits(m as nat)) == Some(m),
{
    let n = m as nat;
    let s = spec_milli_digits(n);
    let ip = spec_dec_digits(n / 1000);
    let d1 = (48 + (n % 1000) / 100) as u8;
    let d2 = (48 + (n % 100) / 10) as u8;
    let d3 = (48 + n % 10) as u8;
    lemma_dec_digits_are_digits(n / 1000);
    lemma_dec_digits_value(n / 1000);
    assert(s.len() == ip.len() + 4);
    assert(s[ip.len() as int] == 46);
    // the dot is the first non-digit byte, right after the integer part
    crate::text::lemma_find_props(s, 46, 0);
    let f = spec_find(s, 46, 0);
    assert(f != -1);
    assert(f == ip.len()) by {
        if 0 <= f < ip.len() {
            assert(s[f] == ip[f]);
            assert(spec_is_digit(ip[f]));
        }
    }
    let ipart = s.subrange(0, f);
    let fpart = s.subrange(f + 1, s.len() as int);
    assert(ipart =~= ip);
    assert(fpart =~= seq![d1, d2, d3]);
    // each fractional digit byte is a digit, written without truncation
    assert((n % 1000) / 100 <= 9);
    assert((n % 100) / 10 <= 9);
    assert(n % 10 <= 9);
    assert(d1 == 48 + (n % 1000) / 100);
    assert(d2 == 48 + (n % 100) / 10);
    assert(d3 == 48 + n % 10);
    assert(spec_is_digits(fpart));
    // the three fractional digits denote m % 1000
    assert(fpart.drop_last() =~= seq![d1, d2]);
    assert(seq![d1, d2].drop_last() =~= seq![d1]);
    assert(seq![d1].drop_last() =~= Seq::<u8>::empty());
    assert(spec_dec_value(Seq::<u8>::empty()) == 0);
    assert(seq![d1].last() == d1);
    assert(spec_dec_value(seq![d1]) == (n % 1000) / 100);
    assert(spec_dec_value(seq![d1, d2]) == ((n % 1000) / 100) * 10 + (n % 100) / 10);
    assert(spec_dec_value(fpart) == (((n % 1000) / 100) * 10 + (n % 100) / 10) * 10 + n % 10);
    vstd::arithmetic::div_mod::lemma_mod_mod(m as int, 100, 10);
    vstd::arithmetic::div_mod::lemma_mod_mod(m as int, 10, 10);
    vstd::arithmetic::div_mod::lemma_fundamental_div_mod(m as int % 1000, 100);
    vstd::arithmetic::div_mod::lemma_fundamental_div_mod(m as int % 100, 10);
    assert(spec_dec_value(fpart) == n % 1000);
    // and the whole line denotes m
    vstd::arithmetic::div_mod::lemma_fundamental_div_mod(m as int, 1000);
    assert(spec_milli_value(s) == m);
}

/// The value denoted by `s` as a decimal integer: defined exactly when `s`
/// is a non-empty digit run whose value fits.
pub open spec fn spec_parse_dec(s: Seq<u8>) -> Option<u64> {
    if spec_is_digits(s) && spec_dec_value(s) <= u64::MAX {
        Some(spec_dec_value(s) as u64)
    } else {
        None
    }
}

/// Parse `s[start..end]` as a decimal integer.
pub fn parse_decimal(s: &[u8], start: usize, end: usize) -> (r: Option<u64>)
    requires
        start <= end <= s@.len(),
    ensures
        r == spec_parse_dec(s@.subrange(start as int, end as int)),
{
    let ghost sub = s@.subrange(start as int, end as int);
    if start == end {
        return None;
    }
    let mut acc: u64 = 0;
    let mut i = start;
    while i < end
        invariant
            start <= i <= end <= s@.len(),
            sub == s@.subrange(start as int, end as int),
            spec_all_digits(sub.take(i - start)),
            acc == spec_dec_value(sub.take(i - start)),
        decreases end - i,
    {
        let b = s[i];
        if b < 48 || b > 57 {
            proof {
                assert(sub[i - start] == b);
                assert(!spec_is_digits(sub));
            }
            return None;
        }
        let d: u64 = (b - 48) as u64;
        proof {
            assert(sub.take(i - start + 1).drop_last() =~= sub.take(i - start));
            assert(sub.take(i - start + 1).last() == b);
            assert(spec_dec_value(sub.take(i - start + 1)) == acc * 10 + d);
        }
        if acc > (u64::MAX - d) / 10 {
            proof {
                vstd::arithmetic::div_mod::lemma_fundamental_div_mod(u64::MAX - d, 10);
                assert(acc * 10 + d > u64::MAX);
                if spec_all_digits(sub) {
                    lemma_dec_prefix_le(sub, i - start + 1);
                    assert(spec_dec_value(sub) > u64::MAX);
                }
            }
            return None;
        }
        proof {
            vstd::arithmetic::div_mod::lemma_fundamental_div_mod(u64::MAX - d, 10);
            assert(acc * 10 + d <= u64::MAX);
        }
        acc = acc * 10 + d;
        i = i + 1;
    }
    proof {
        assert(sub.take(end - start) =~= sub);
    }
    Some(acc)
}

/// A decimal value with an optional fractional part of one to three digits:
/// the format in which the supply reports voltages and currents.
pub open spec fn spec_is_milli(s: Seq<u8>) -> bool {
    let dot = spec_find(s, 46, 0);
    if dot == -1 {
        spec_is_digits(s)
    } else {
        &&& spec_is_digits(s.subrange(0, dot))
        &&& 1 <= s.len() - dot - 1 <= 3
        &&& spec_is_digits(s.subrange(dot + 1, s.len() as int))
    }
}

/// Weight of the fractional digits when `k` of them are present.
pub open spec fn spec_frac_scale(k: int) -> int {
    if k == 1 {
        100
    } else if k == 2 {
        10
    } else {
        1
    }
}

/// The number of milli-units such a value denotes.
pub open spec fn spec_milli_value(s: Seq<u8>) -> int {
    let dot = spec_find(s, 46, 0);
    if dot == -1 {
        spec_dec_value(s) * 1000
    } else {
        spec_dec_value(s.subrange(0, dot)) * 1000 + spec_dec_value(
            s.subrange(dot + 1, s.len() as int),
        ) * spec_frac_scale(s.len() - dot - 1)
    }
}

/// The milli-unit reading of `s`: defined exactly when `s` has the
/// fixed-point format and its value fits.
pub open spec fn spec_parse_milli(s: Seq<u8>) -> Option<u32> {
    if spec_is_milli(s) && spec_milli_value(s) <= u32::MAX {
        Some(spec_milli_value(s) as u32)
    } else {
        None
    }
}

/// Parse `s[start..end]` as a fixed-point value, in milli-units.
pub fn parse_milli(s: &[u8], start: usize, end: usize) -> (r: Option<u32>)
    requires
        start <= end <= s@.len(),
    ensures
        r == spec_parse_milli(s@.subrange(start as int, end as int)),
{
    let ghost sub = s@.subrange(start as int, end as int);
    proof {
        crate::text::lemma_find_props(sub, 46, 0);
    }
    match crate::text::find_byte_range(s, 46, start, end) {
        None => {
            proof {
                if spec_find(sub, 46, 0) >= 0 {
                    let f = spec_find(sub, 46, 0);
                    assert(s@[start + f] == 46);
                }
            }
            match parse_decimal(s, start, end) {
                None => {
                    proof {
                        if spec_is_digits(sub) {
                            // the digit run overflows u64, so a fortiori u32
                            lemma_dec_value_nonneg(sub);
                        }
                    }
                    None
                },
                Some(v) => {
                    if v > 4294967 {
                        proof {
                            lemma_dec_value_nonneg(sub);
                            assert(spec_dec_value(sub) * 1000 > u32::MAX);
                        }
                        None
                    } else {
                        proof {
                            lemma_dec_value_nonneg(sub);
                        }
                        Some((v * 1000) as u32)
                    }
                },
            }
        },
        Some(di) => {
            proof {
                let f = spec_find(sub, 46, 0);
                assert(sub[di - start] == 46);
                assert(f >= 0);
                assert(s@[start + f] == 46);
                assert(f == di - start);
            }
            let ghost f = di - start;
            let fraclen = end - di - 1;
            if fraclen < 1 || fraclen > 3 {
                return None;
            }
            let ghost ipart_seq = sub.subrange(0, f as int);
            let ghost frac_seq = sub.subrange(f + 1, sub.len() as int);
            proof {
                assert(ipart_seq =~= s@.subrange(start as int, di as int));
                assert(frac_seq =~= s@.subrange(di + 1, end as int));
            }
            match parse_decimal(s, start, di) {
                None => {
                    proof {
                        if spec_is_milli(sub) {
                            // integer part overflows u64; fraction is non-negative
                            lemma_dec_value_nonneg(ipart_seq);
                            lemma_dec_value_nonneg(frac_seq);
                        }
                    }
                    None
                },
                Some(ip) => {
                    match parse_decimal(s, di + 1, end) {
                        None => {
                            proof {
                                if spec_is_digits(frac_seq) {
                                    lemma_dec_value_bound(frac_seq);
                                    lemma_pow10_small();
                                }
                            }
                            None
                        },
                        Some(fv) => {
                            proof {
                                lemma_dec_value_bound(frac_seq);
                                lemma_dec_value_nonneg(frac_seq);
                                lemma_dec_value_nonneg(ipart_seq);
                                lemma_pow10_small();
                            }
                            let fscaled: u64 = if fraclen == 1 {
                                fv * 100
                            } else if fraclen == 2 {
                                fv * 10
                            } else {
                                fv
                            };
                            if ip > 4294967 {
                                None
                            } else {
                                let total: u64 = ip * 1000 + fscaled;
                                if total > 4294967295 {
                                    None
                                } else {
                                    Some(total as u32)
                                }
                            }
                        },
                    }
                },
            }
        },
    }
}

} // verus!
