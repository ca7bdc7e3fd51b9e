use vstd::prelude::*;

use crate::store::ListItemData;

verus! {

/// The character of one decimal digit.
pub open spec fn digit_char(d: int) -> char {
    if d == 0 {
        '0'
    } else if d == 1 {
        '1'
    } else if d == 2 {
        '2'
    } else if d == 3 {
        '3'
    } else if d == 4 {
        '4'
    } else if d == 5 {
        '5'
    } else if d == 6 {
        '6'
    } else if d == 7 {
        '7'
    } else if d == 8 {
        '8'
    } else {
        '9'
    }
}

/// The decimal digits of `n`, most significant first, with no leading
/// zeros (`0` itself is the single digit `0`).
pub open spec fn dec_digits(n: nat) -> Seq<char>
    decreases n,
{
    if n < 10 {
        seq![digit_char(n as int)]
    } else {
        dec_digits(n / 10) + seq![digit_char((n % 10) as int)]
    }
}

/// Exactly two digits, for the fractional part: `f` must be below 100.
pub open spec fn two_digits(f: nat) -> Seq<char> {
    seq![digit_char((f / 10) as int), digit_char((f % 10) as int)]
}

/// The rendering of a quantity of `h` hundredths, fixed to two places
/// after the point, with an optional leading minus sign (which is kept
/// even when `h` is zero, as a negative zero keeps its sign).
pub open spec fn fixed2_of_hundredths(neg: bool, h: nat) -> Seq<char> {
    let body = dec_digits(h / 100) + seq!['.'] + two_digits(h % 100);
    if neg {
        seq!['-'] + body
    } else {
        body
    }
}

/// The rendering of an integer fixed to two decimal places: its digits
/// followed by ".00".
pub open spec fn int_fixed2(n: int) -> Seq<char> {
    if n < 0 {
        fixed2_of_hundredths(true, ((-n) * 100) as nat)
    } else {
        fixed2_of_hundredths(false, (n * 100) as nat)
    }
}

/// Appends the character of one decimal digit.
fn append_digit(s: &mut String, d: u64)
    requires
        d < 10,
    ensures
        final(s)@ == old(s)@ + seq![digit_char(d as int)],
{
    let t: &str = if d == 0 {
        proof {
            reveal_strlit("0");
        }
        "0"
    } else if d == 1 {
        proof {
            reveal_strlit("1");
        }
        "1"
    } else if d == 2 {
        proof {
            reveal_strlit("2");
        }
        "2"
    } else if d == 3 {
        proof {
            reveal_strlit("3");
        }
        "3"
    } else if d == 4 {
        proof {
            reveal_strlit("4");
        }
        "4"
    } else if d == 5 {
        proof {
            reveal_strlit("5");
        }
        "5"
    } else if d == 6 {
        proof {
            reveal_strlit("6");
        }
        "6"
    } else if d == 7 {
        proof {
            reveal_strlit("7");
        }
        "7"
    } else if d == 8 {
        proof {
            reveal_strlit("8");
        }
        "8"
    } else {
        proof {
            reveal_strlit("9");
        }
        "9"
    };
    proof {
        assert(t@ =~= seq![digit_char(d as int)]);
    }
    s.append(t);
}

/// Appends the decimal digits of `n`, most significant first.
fn append_dec_u64(s: &mut String, n: u64)
    ensures
        final(s)@ == old(s)@ + dec_digits(n as nat),
    decreases n,
{
    if n < 10 {
        append_digit(s, n);
    } else {
        append_dec_u64(s, n / 10);
        append_digit(s, n % 10);
        proof {
            assert(final(s)@ =~= old(s)@ + (dec_digits(n as nat / 10) + seq![
                digit_char((n as nat % 10) as int),
            ]));
        }
    }
}

/// Appends a minus sign.
fn append_minus(s: &mut String)
    ensures
        final(s)@ == old(s)@ + seq!['-'],
{
    proof {
        reveal_strlit("-");
        assert("-"@ =~= seq!['-']);
    }
    s.append("-");
}

/// Appends a decimal point.
fn append_point(s: &mut String)
    ensures
        final(s)@ == old(s)@ + seq!['.'],
{
    proof {
        reveal_strlit(".");
        assert("."@ =~= seq!['.']);
    }
    s.append(".");
}

/// `h` hundredths rendered fixed to two places, with `neg` prefixing a
/// minus sign.
fn fixed2_string_u64(neg: bool, h: u64) -> (s: String)
    ensures
        s@ == fixed2_of_hundredths(neg, h as nat),
{
    let mut s = String::new();
    if neg {
        append_minus(&mut s);
    }
    append_dec_u64(&mut s, h / 100);
    append_point(&mut s);
    let frac = h % 100;
    append_digit(&mut s, frac / 10);
    append_digit(&mut s, frac % 10);
    proof {
        assert(s@ =~= fixed2_of_hundredths(neg, h as nat));
    }
    s
}

/// An integer rendered fixed to two decimal places, from its sign and
/// magnitude.
fn int_fixed2_string(neg: bool, magnitude: u64) -> (s: String)
    ensures
        s@ == fixed2_of_hundredths(neg, (magnitude * 100) as nat),
{
    let mut s = String::new();
    if neg {
        append_minus(&mut s);
    }
    append_dec_u64(&mut s, magnitude);
    append_point(&mut s);
    append_digit(&mut s, 0);
    append_digit(&mut s, 0);
    proof {
        let h = (magnitude * 100) as nat;
        assert(h / 100 == magnitude as nat && h % 100 == 0) by {
            vstd::arithmetic::div_mod::lemma_div_multiples_vanish_fancy(
                magnitude as int,
                0,
                100,
            );
            vstd::arithmetic::div_mod::lemma_mod_multiples_basic(magnitude as int, 100);
        }
        assert(s@ =~= fixed2_of_hundredths(neg, h));
    }
    s
}

/// Ten to the `k`.
pub open spec fn pow10(k: nat) -> nat
    decreases k,
{
    if k == 0 {
        1
    } else {
        10 * pow10((k - 1) as nat)
    }
}

/// The number written by a little-endian sequence of decimal digits
/// (least significant digit first).
pub open spec fn le_value(ds: Seq<u8>) -> nat
    decreases ds.len(),
{
    if ds.len() == 0 {
        0
    } else {
        (le_value(ds.drop_last()) + ds.last() * pow10((ds.len() - 1) as nat)) as nat
    }
}

/// A well-formed little-endian digit sequence: non-empty, every element
/// a digit, and no leading zero (in the most significant place) unless
/// the number is the single digit zero.
pub open spec fn le_wf(ds: Seq<u8>) -> bool {
    &&& ds.len() > 0
    &&& forall|i: int| 0 <= i < ds.len() ==> ds[i] < 10
    &&& ds.len() > 1 ==> ds.last() != 0
}

/// The characters of a little-endian digit sequence, read out most
/// significant digit first.
pub open spec fn be_chars(ds: Seq<u8>) -> Seq<char> {
    Seq::new(ds.len(), |i: int| digit_char(ds[ds.len() - 1 - i] as int))
}

proof fn lemma_pow10_pos(k: nat)
    ensures
        pow10(k) >= 1,
    decreases k,
{
    if k > 0 {
        lemma_pow10_pos((k - 1) as nat);
    }
}

/// Appending a digit to a little-endian sequence adds its value at the
/// next power of ten.
proof fn lemma_le_value_push(ds: Seq<u8>, d: u8)
    ensures
        le_value(ds.push(d)) == le_value(ds) + d * pow10(ds.len()),
{
    assert(ds.push(d).drop_last() =~= ds);
    assert(ds.push(d).last() == d);
}

/// A little-endian digit number splits as its lowest digit plus ten
/// times the rest.
proof fn lemma_le_value_first(ds: Seq<u8>)
    requires
        ds.len() > 0,
    ensures
        le_value(ds) == ds[0] + 10 * le_value(ds.drop_first()),
    decreases ds.len(),
{
    if ds.len() == 1 {
        assert(ds.drop_last() =~= Seq::<u8>::empty());
        assert(ds.drop_first() =~= Seq::<u8>::empty());
        assert(le_value(ds.drop_last()) == 0);
        assert(le_value(ds.drop_first()) == 0);
        assert(pow10(0) == 1);
        assert(ds.last() == ds[0]);
    } else {
        let dl = ds.drop_last();
        let df = ds.drop_first();
        lemma_le_value_first(dl);
        assert(df.drop_last() =~= dl.drop_first());
        assert(df.last() == ds.last());
        let k = (ds.len() - 2) as nat;
        assert(le_value(df) == le_value(dl.drop_first()) + ds.last() * pow10(k));
        assert(le_value(ds) == le_value(dl) + ds.last() * pow10(k + 1));
        assert(10 * (le_value(dl.drop_first()) + ds.last() * pow10(k)) == 10 * le_value(
            dl.drop_first(),
        ) + ds.last() * (10 * pow10(k))) by (nonlinear_arith);
        assert(pow10(k + 1) == 10 * pow10(k));
        assert(ds.last() * pow10(k + 1) == ds.last() * (10 * pow10(k)));
    }
}

/// Bounds of a digit sequence's value: below ten to its length, and at
/// least ten to the place of a nonzero leading digit.
proof fn lemma_le_value_bounds(ds: Seq<u8>)
    requires
        forall|i: int| 0 <= i < ds.len() ==> ds[i] < 10,
    ensures
        le_value(ds) < pow10(ds.len()),
        ds.len() > 0 && ds.last() >= 1 ==> le_value(ds) >= pow10((ds.len() - 1) as nat),
    decreases ds.len(),
{
    if ds.len() == 0 {
    } else {
        let dl = ds.drop_last();
        lemma_le_value_bounds(dl);
        let k = (ds.len() - 1) as nat;
        lemma_pow10_pos(k);
        assert(ds.last() * pow10(k) <= 9 * pow10(k) && (ds.last() >= 1 ==> ds.last() * pow10(k)
            >= pow10(k))) by (nonlinear_arith)
            requires
                0 <= ds.last() < 10,
                pow10(k) >= 1,
        ;
        assert(pow10(k + 1) == 10 * pow10(k));
    }
}

/// Reading a well-formed digit sequence out most significant digit first
/// spells the decimal rendering of its value.
proof fn lemma_be_chars_dec(ds: Seq<u8>)
    requires
        le_wf(ds),
    ensures
        be_chars(ds) == dec_digits(le_value(ds)),
    decreases ds.len(),
{
    if ds.len() == 1 {
        assert(ds.drop_last() =~= Seq::<u8>::empty());
        assert(le_value(ds.drop_last()) == 0);
        assert(pow10(0) == 1);
        let v = (le_value(ds.drop_last()) + ds.last() * pow10((ds.len() - 1) as nat)) as nat;
        assert(v == ds.last() * 1);
        assert(le_value(ds) == v);
        assert(ds.last() == ds[0]);
        assert(le_value(ds) == ds[0]);
        assert(be_chars(ds) =~= dec_digits(le_value(ds)));
    } else {
        let df = ds.drop_first();
        let v = le_value(ds);
        let q = le_value(df);
        lemma_le_value_first(ds);
        lemma_le_value_bounds(df);
        lemma_le_value_bounds(ds);
        lemma_pow10_pos((ds.len() - 2) as nat);
        assert(le_wf(df));
        lemma_be_chars_dec(df);
        vstd::arithmetic::div_mod::lemma_fundamental_div_mod_converse(
            v as int,
            10,
            q as int,
            ds[0] as int,
        );
        assert(v / 10 == q && v % 10 == ds[0]);
        assert(v >= pow10((ds.len() - 1) as nat));
        assert(pow10((ds.len() - 1) as nat) == 10 * pow10((ds.len() - 2) as nat));
        assert(v >= 10);
        assert(dec_digits(v) == dec_digits(q) + seq![digit_char(ds[0] as int)]);
        assert(be_chars(ds) =~= be_chars(df) + seq![digit_char(ds[0] as int)]);
    }
}

/// The little-endian decimal digits of `n`.
fn digits_from_u64(n: u64) -> (ds: Vec<u8>)
    ensures
        le_wf(ds@),
        le_value(ds@) == n as nat,
{
    let mut ds: Vec<u8> = Vec::new();
    if n == 0 {
        ds.push(0);
        proof {
            assert(ds@.drop_last() =~= Seq::<u8>::empty());
            assert(le_value(Seq::<u8>::empty()) == 0);
            assert(le_value(ds@) == 0);
        }
        return ds;
    }
    let mut rem = n;
    proof {
        assert(ds@ =~= Seq::<u8>::empty());
        assert(le_value(ds@) == 0);
        assert(pow10(0) == 1);
    }
    while rem > 0
        invariant
            le_value(ds@) + rem as nat * pow10(ds@.len()) == n as nat,
            forall|i: int| 0 <= i < ds@.len() ==> ds@[i] < 10,
            rem > 0 || (ds@.len() > 0 && ds@.last() != 0),
        decreases rem,
    {
        let ghost before = ds@;
        let ghost len0 = ds@.len();
        let d = (rem % 10) as u8;
        ds.push(d);
        proof {
            lemma_le_value_push(before, d);
            let p = pow10(len0);
            let q = rem as nat / 10;
            let r = rem as nat % 10;
            vstd::arithmetic::div_mod::lemma_fundamental_div_mod(rem as int, 10);
            assert(le_value(ds@) == le_value(before) + r * p);
            assert(r * p + q * (10 * p) == (10 * q + r) * p) by (nonlinear_arith);
            assert(pow10(len0 + 1) == 10 * p);
        }
        rem = rem / 10;
    }
    ds
}

/// Twice the number a digit sequence writes, as a digit sequence.
fn double_digits(ds: &Vec<u8>) -> (r: Vec<u8>)
    requires
        le_wf(ds@),
    ensures
        le_wf(r@),
        le_value(r@) == 2 * le_value(ds@),
{
    let n = ds.len();
    let mut out: Vec<u8> = Vec::new();
    let mut carry: u8 = 0;
    for i in 0..n
        invariant
            n == ds@.len(),
            le_wf(ds@),
            carry <= 1,
            out@.len() == i,
            forall|j: int| 0 <= j < out@.len() ==> out@[j] < 10,
            le_value(out@) + carry as nat * pow10(i as nat) == 2 * le_value(ds@.take(i as int)),
    {
        let ghost before = out@;
        let t = 2 * ds[i] + carry;
        out.push(t % 10);
        proof {
            lemma_le_value_push(before, t % 10);
            assert(ds@.take(i + 1) =~= ds@.take(i as int).push(ds@[i as int]));
            lemma_le_value_push(ds@.take(i as int), ds@[i as int]);
            let p = pow10(i as nat);
            let q = t as nat / 10;
            let r = t as nat % 10;
            vstd::arithmetic::div_mod::lemma_fundamental_div_mod(t as int, 10);
            assert(r * p + q * (10 * p) == (10 * q + r) * p) by (nonlinear_arith);
            assert(t as nat * p == 2 * (ds@[i as int] as nat * p) + carry as nat * p) by (
            nonlinear_arith)
                requires
                    t == 2 * ds@[i as int] + carry,
            ;
            assert(pow10(i as nat + 1) == 10 * p);
        }
        carry = t / 10;
    }
    proof {
        assert(ds@.take(n as int) =~= ds@);
    }
    if carry > 0 {
        let ghost before = out@;
        out.push(carry);
        proof {
            lemma_le_value_push(before, carry);
        }
    } else {
        proof {
            if n > 1 {
                if out@.last() == 0 {
                    lemma_le_value_bounds(out@.drop_last());
                    assert(out@.drop_last().len() == n - 1);
                    let v = (le_value(out@.drop_last()) + out@.last() * pow10(
                        (out@.len() - 1) as nat,
                    )) as nat;
                    assert(le_value(out@) == v);
                    assert(v == le_value(out@.drop_last()) + 0 * pow10((out@.len() - 1) as nat));
                    assert(le_value(out@) == le_value(out@.drop_last()));
                    lemma_le_value_bounds(ds@);
                    assert(le_value(ds@) >= pow10((n - 1) as nat));
                    assert(false);
                }
            }
        }
    }
    out
}

/// Appends the digits of `ds`, most significant first.
fn append_digits_be(s: &mut String, ds: &Vec<u8>)
    requires
        forall|i: int| 0 <= i < ds@.len() ==> ds@[i] < 10,
    ensures
        final(s)@ == old(s)@ + be_chars(ds@),
{
    let n = ds.len();
    for i in 0..n
        invariant
            n == ds@.len(),
            forall|j: int| 0 <= j < ds@.len() ==> ds@[j] < 10,
            s@ == old(s)@ + be_chars(ds@).take(i as int),
    {
        append_digit(s, ds[n - 1 - i] as u64);
        proof {
            assert(be_chars(ds@).take(i + 1) =~= be_chars(ds@).take(i as int) + seq![
                digit_char(ds@[n - 1 - i] as int),
            ]);
            assert(s@ =~= old(s)@ + be_chars(ds@).take(i + 1));
        }
    }
    proof {
        assert(be_chars(ds@).take(n as int) =~= be_chars(ds@));
    }
}

/// `a / d` rounded to the nearest integer, ties going to the even
/// neighbour.
pub open spec fn round_half_even(a: nat, d: nat) -> nat {
    let q = a / d;
    let r = a % d;
    if 2 * r < d {
        q
    } else if 2 * r > d {
        q + 1
    } else if q % 2 == 0 {
        q
    } else {
        q + 1
    }
}

/// The exact number of hundredths in `m * 2^e`, rounded half-to-even
/// when `e` is negative (where the value need not be a whole number of
/// hundredths).
pub open spec fn hundredths(m: nat, e: int) -> nat {
    if e >= 0 {
        (m * 100) * vstd::arithmetic::power2::pow2(e as nat)
    } else {
        round_half_even(m * 100, vstd::arithmetic::power2::pow2((-e) as nat))
    }
}

/// The fixed-two-places rendering of the finite value `(-1)^sign * m * 2^e`.
pub open spec fn finite_fixed2(sign: bool, m: nat, e: int) -> Seq<char> {
    fixed2_of_hundredths(sign, hundredths(m, e))
}

/// The fixed-two-places rendering of an IEEE 754 double-precision value
/// given by its bit pattern: `NaN`, `inf` and `-inf` by name, every
/// finite value as its exactly rounded number of hundredths.
pub open spec fn f64_fixed2(bits: u64) -> Seq<char> {
    let sign = (bits >> 63) & 1 == 1;
    let ef = (bits >> 52) & 0x7ff;
    let mf = bits & 0xf_ffff_ffff_ffff;
    if ef == 0x7ff {
        if mf != 0 {
            "NaN"@
        } else if sign {
            "-inf"@
        } else {
            "inf"@
        }
    } else {
        let m = if ef == 0 {
            mf as nat
        } else {
            (mf + 0x10_0000_0000_0000) as nat
        };
        let e = if ef == 0 {
            -1074
        } else {
            ef as int - 1075
        };
        finite_fixed2(sign, m, e)
    }
}

/// The fixed-two-places rendering of an IEEE 754 single-precision value
/// given by its bit pattern.
pub open spec fn f32_fixed2(bits: u32) -> Seq<char> {
    let sign = (bits >> 31) & 1 == 1;
    let ef = (bits >> 23) & 0xff;
    let mf = bits & 0x7f_ffff;
    if ef == 0xff {
        if mf != 0 {
            "NaN"@
        } else if sign {
            "-inf"@
        } else {
            "inf"@
        }
    } else {
        let m = if ef == 0 {
            mf as nat
        } else {
            (mf + 0x80_0000) as nat
        };
        let e = if ef == 0 {
            -149
        } else {
            ef as int - 150
        };
        finite_fixed2(sign, m, e)
    }
}

/// Renders the finite value `(-1)^neg * m * 2^e` fixed to two places.
/// The mantissa bound is that of a double; the exponent range covers
/// both single and double precision.
fn fixed2_from_parts(neg: bool, m: u64, e: i32) -> (s: String)
    requires
        m < 0x20_0000_0000_0000,
        -1074 <= e <= 971,
    ensures
        s@ == finite_fixed2(neg, m as nat, e as int),
{
    proof {
        vstd::arithmetic::power2::lemma2_to64();
        vstd::arithmetic::power2::lemma2_to64_rest();
    }
    if e >= 0 {
        let ghost e0 = e as nat;
        let mut ds = digits_from_u64(m);
        let mut k: u32 = e as u32;
        proof {
            assert(m as nat * vstd::arithmetic::power2::pow2(0) == m as nat);
        }
        while k > 0
            invariant
                k <= e0,
                e0 <= 971,
                le_wf(ds@),
                le_value(ds@) == m as nat * vstd::arithmetic::power2::pow2((e0 - k) as nat),
            decreases k,
        {
            ds = double_digits(&ds);
            proof {
                let j = (e0 - k) as nat;
                vstd::arithmetic::power2::lemma_pow2_unfold((j + 1) as nat);
                assert(2 * (m as nat * vstd::arithmetic::power2::pow2(j)) == m as nat * (2
                    * vstd::arithmetic::power2::pow2(j))) by (nonlinear_arith);
                assert(vstd::arithmetic::power2::pow2(j + 1) == 2
                    * vstd::arithmetic::power2::pow2(j));
            }
            k = k - 1;
        }
        let mut s = String::new();
        if neg {
            append_minus(&mut s);
        }
        append_digits_be(&mut s, &ds);
        append_point(&mut s);
        append_digit(&mut s, 0);
        append_digit(&mut s, 0);
        proof {
            let p = vstd::arithmetic::power2::pow2(e0);
            let x = m as nat * p;
            let h = hundredths(m as nat, e as int);
            assert(h == (m as nat * 100) * p);
            assert((m as nat * 100) * p == 100 * (m as nat * p)) by (nonlinear_arith);
            assert(h == 100 * x + 0);
            vstd::arithmetic::div_mod::lemma_div_multiples_vanish_fancy(x as int, 0, 100);
            assert(h / 100 == x);
            assert(h % 100 == 0) by {
                vstd::arithmetic::div_mod::lemma_mod_multiples_basic(x as int, 100);
                assert(x * 100 == 100 * x) by (nonlinear_arith);
            }
            lemma_be_chars_dec(ds@);
            assert(s@ =~= fixed2_of_hundredths(neg, h));
        }
        s
    } else {
        let f: u32 = (-e) as u32;
        let a: u64 = m * 100;
        let ghost d_spec = vstd::arithmetic::power2::pow2(f as nat);
        proof {
            assert(a < 0x1000_0000_0000_0000);
        }
        let h: u64 = if f >= 61 {
            proof {
                if f > 61 {
                    vstd::arithmetic::power2::lemma_pow2_strictly_increases(61, f as nat);
                }
                assert(2 * a < d_spec);
                vstd::arithmetic::div_mod::lemma_basic_div(a as int, d_spec as int);
                vstd::arithmetic::div_mod::lemma_small_mod(a as nat, d_spec);
                assert(round_half_even(a as nat, d_spec) == 0);
            }
            0
        } else {
            let d: u64 = 1u64 << f;
            proof {
                vstd::bits::lemma_u64_shl_is_mul(1u64, f as u64);
                assert(d == d_spec);
                vstd::arithmetic::power2::lemma_pow2_pos(f as nat);
            }
            let q = a / d;
            let r = a % d;
            if 2 * r < d {
                q
            } else if 2 * r > d {
                q + 1
            } else if q % 2 == 0 {
                q
            } else {
                q + 1
            }
        };
        proof {
            assert(h as nat == hundredths(m as nat, e as int));
        }
        fixed2_string_u64(neg, h)
    }
}

/// Renders an IEEE 754 double-precision value from its bit pattern.
pub fn format_f64_bits(bits: u64) -> (s: String)
    ensures
        s@ == f64_fixed2(bits),
{
    let sign = (bits >> 63) & 1 == 1;
    let ef = (bits >> 52) & 0x7ff;
    let mf = bits & 0xf_ffff_ffff_ffff;
    proof {
        assert((bits >> 52) & 0x7ff <= 0x7ff) by (bit_vector);
        assert(bits & 0xf_ffff_ffff_ffff < 0x10_0000_0000_0000) by (bit_vector);
    }
    if ef == 0x7ff {
        if mf != 0 {
            String::from_str("NaN")
        } else if sign {
            String::from_str("-inf")
        } else {
            String::from_str("inf")
        }
    } else {
        let m: u64 = if ef == 0 {
            mf
        } else {
            mf + 0x10_0000_0000_0000
        };
        let e: i32 = if ef == 0 {
            -1074
        } else {
            ef as i32 - 1075
        };
        fixed2_from_parts(sign, m, e)
    }
}

/// Renders an IEEE 754 single-precision value from its bit pattern.
pub fn format_f32_bits(bits: u32) -> (s: String)
    ensures
        s@ == f32_fixed2(bits),
{
    let sign = (bits >> 31) & 1 == 1;
    let ef = (bits >> 23) & 0xff;
    let mf = bits & 0x7f_ffff;
    proof {
        assert((bits >> 23) & 0xff <= 0xff) by (bit_vector);
        assert(bits & 0x7f_ffff < 0x80_0000) by (bit_vector);
    }
    if ef == 0xff {
        if mf != 0 {
            String::from_str("NaN")
        } else if sign {
            String::from_str("-inf")
        } else {
            String::from_str("inf")
        }
    } else {
        let m: u64 = if ef == 0 {
            mf as u64
        } else {
            mf as u64 + 0x80_0000
        };
        let e: i32 = if ef == 0 {
            -149
        } else {
            ef as i32 - 150
        };
        fixed2_from_parts(sign, m, e)
    }
}

/// The display text of a bound value: booleans in their natural form,
/// every numeric type fixed to two decimal places, and text verbatim.
pub open spec fn display_text(v: ListItemData) -> Seq<char> {
    match v {
        ListItemData::Bool(b) => if b {
            "true"@
        } else {
            "false"@
        },
        ListItemData::I32(n) => int_fixed2(n as int),
        ListItemData::I64(n) => int_fixed2(n as int),
        ListItemData::U32(n) => int_fixed2(n as int),
        ListItemData::U64(n) => int_fixed2(n as int),
        ListItemData::F32Bits(b) => f32_fixed2(b),
        ListItemData::F64Bits(b) => f64_fixed2(b),
        ListItemData::Text(s) => s@,
    }
}

/// Formats a bound value for display next to its label.
pub fn value_display_text(v: &ListItemData) -> (s: String)
    ensures
        s@ == display_text(*v),
{
    match v {
        ListItemData::Bool(b) => {
            if *b {
                String::from_str("true")
            } else {
                String::from_str("false")
            }
        },
        ListItemData::I32(n) => {
            if *n < 0 {
                int_fixed2_string(true, (-(*n as i64)) as u64)
            } else {
                int_fixed2_string(false, *n as u64)
            }
        },
        ListItemData::I64(n) => {
            if *n < 0 {
                int_fixed2_string(true, (-(*n as i128)) as u64)
            } else {
                int_fixed2_string(false, *n as u64)
            }
        },
        ListItemData::U32(n) => int_fixed2_string(false, *n as u64),
        ListItemData::U64(n) => int_fixed2_string(false, *n),
        ListItemData::F32Bits(b) => format_f32_bits(*b),
        ListItemData::F64Bits(b) => format_f64_bits(*b),
        ListItemData::Text(s) => s.clone(),
    }
}

/// The text of an entry's label as laid out: the label followed by a
/// colon and a space.
pub fn label_text(label: &str) -> (s: String)
    ensures
        s@ == label@ + ": "@,
{
    let mut s = label.to_owned();
    s.append(": ");
    s
}

} // verus!

