//! Parsing of serialized CSS color values.
//!
//! In a browser the accent color is detected by reading an element's
//! computed `color` value back. Serialized colors use the legacy form:
//! `rgb(R, G, B)` with an implicit alpha of one, or `rgba(R, G, B, A)`,
//! with exactly one comma and one space between components. The red, green
//! and blue components are numbers on the 0..255 scale, the alpha is a
//! number on the 0..1 scale; components are unsigned decimal numbers
//! (digits with at most one decimal point).
//!
//! Each component is clamped to its scale and rounded — halves away from
//! zero — to the nearest 8-bit channel value. Rounding looks at the first
//! nine fraction digits, which decides every value a browser serializes.

use vstd::prelude::*;

use crate::Srgba;

verus! {

/// True for the ASCII digits.
pub open spec fn is_digit(b: u8) -> bool {
    48 <= b <= 57
}

/// True when every byte is an ASCII digit.
pub open spec fn all_digits(s: Seq<u8>) -> bool {
    forall|i: int| 0 <= i < s.len() ==> is_digit(#[trigger] s[i])
}

/// The integer a digit string denotes.
pub open spec fn digits_val(s: Seq<u8>) -> int
    decreases s.len(),
{
    if s.len() == 0 {
        0
    } else {
        digits_val(s.drop_last()) * 10 + (s.last() - 48)
    }
}

/// Ten to the `n`th.
pub open spec fn pow10(n: nat) -> int
    decreases n,
{
    if n == 0 {
        1
    } else {
        10 * pow10((n - 1) as nat)
    }
}

/// The index of the first decimal point, or the length when there is none.
pub open spec fn dot_pos(s: Seq<u8>) -> int
    decreases s.len(),
{
    if s.len() == 0 {
        0
    } else if s.first() == 46 {
        0
    } else {
        1 + dot_pos(s.drop_first())
    }
}

/// True when the bytes form an unsigned decimal number: digits with at
/// most one decimal point and at least one digit.
pub open spec fn is_number(s: Seq<u8>) -> bool {
    let p = dot_pos(s);
    &&& all_digits(s.take(p))
    &&& (p == s.len() || all_digits(s.skip(p + 1)))
    &&& (p > 0 || p + 1 < s.len())
}

/// The number's integer part.
pub open spec fn int_val(s: Seq<u8>) -> int {
    digits_val(s.take(dot_pos(s)))
}

/// The number's fraction digits.
pub open spec fn frac_digits(s: Seq<u8>) -> Seq<u8> {
    if dot_pos(s) == s.len() {
        Seq::empty()
    } else {
        s.skip(dot_pos(s) + 1)
    }
}

/// The number's first nine fraction digits, scaled up to exactly nine
/// places: the fraction as a count of billionths, with digits beyond the
/// ninth ignored.
pub open spec fn frac9_val(s: Seq<u8>) -> int {
    let f = frac_digits(s);
    let k = if f.len() < 9 {
        f.len() as int
    } else {
        9
    };
    digits_val(f.take(k)) * pow10((9 - k) as nat)
}

/// An RGB component on the 0..255 scale, clamped and rounded (halves up)
/// to a channel value, from the component's integer part and its fraction
/// in billionths.
pub open spec fn channel_of(i: int, f9: int) -> int {
    if i >= 255 {
        255
    } else if f9 >= 500000000 {
        i + 1
    } else {
        i
    }
}

/// An alpha component on the 0..1 scale, clamped and scaled to a channel
/// value: `round(255 * f)` with halves up.
pub open spec fn alpha_of(i: int, f9: int) -> int {
    if i >= 1 {
        255
    } else {
        (510 * f9 + 1000000000) / 2000000000
    }
}

/// The channel an RGB component string denotes.
pub open spec fn spec_channel(s: Seq<u8>) -> int {
    channel_of(int_val(s), frac9_val(s))
}

/// The channel an alpha component string denotes.
pub open spec fn spec_alpha(s: Seq<u8>) -> int {
    alpha_of(int_val(s), frac9_val(s))
}

/// The index of the first `", "` separator, or the length when there is
/// none.
pub open spec fn sep_pos(s: Seq<u8>) -> int
    decreases s.len(),
{
    if s.len() < 2 {
        s.len() as int
    } else if s.first() == 44 && s[1] == 32 {
        0
    } else {
        1 + sep_pos(s.drop_first())
    }
}

/// True when the bytes are shaped `rgb(` … `)`.
pub open spec fn has_rgb_shape(s: Seq<u8>) -> bool {
    s.len() >= 5 && s[0] == 114 && s[1] == 103 && s[2] == 98 && s[3] == 40 && s.last() == 41
}

/// True when the bytes are shaped `rgba(` … `)`.
pub open spec fn has_rgba_shape(s: Seq<u8>) -> bool {
    s.len() >= 6 && s[0] == 114 && s[1] == 103 && s[2] == 98 && s[3] == 97 && s[4] == 40
        && s.last() == 41
}

/// The color an `rgb(` body (without the wrapper) denotes: three
/// comma-space separated number components, with full alpha.
pub open spec fn spec_rgb_body(inner: Seq<u8>) -> Option<Srgba> {
    let p1 = sep_pos(inner);
    if p1 + 2 <= inner.len() {
        let c1 = inner.take(p1);
        let rest = inner.skip(p1 + 2);
        let p2 = sep_pos(rest);
        if p2 + 2 <= rest.len() {
            let c2 = rest.take(p2);
            let c3 = rest.skip(p2 + 2);
            if is_number(c1) && is_number(c2) && is_number(c3) {
                Some(
                    Srgba {
                        red: spec_channel(c1) as u8,
                        green: spec_channel(c2) as u8,
                        blue: spec_channel(c3) as u8,
                        alpha: 255,
                    },
                )
            } else {
                None
            }
        } else {
            None
        }
    } else {
        None
    }
}

/// The color an `rgba(` body (without the wrapper) denotes: four
/// comma-space separated number components, the last being the alpha.
pub open spec fn spec_rgba_body(inner: Seq<u8>) -> Option<Srgba> {
    let p1 = sep_pos(inner);
    if p1 + 2 <= inner.len() {
        let c1 = inner.take(p1);
        let rest1 = inner.skip(p1 + 2);
        let p2 = sep_pos(rest1);
        if p2 + 2 <= rest1.len() {
            let c2 = rest1.take(p2);
            let rest2 = rest1.skip(p2 + 2);
            let p3 = sep_pos(rest2);
            if p3 + 2 <= rest2.len() {
                let c3 = rest2.take(p3);
                let c4 = rest2.skip(p3 + 2);
                if is_number(c1) && is_number(c2) && is_number(c3) && is_number(c4) {
                    Some(
                        Srgba {
                            red: spec_channel(c1) as u8,
                            green: spec_channel(c2) as u8,
                            blue: spec_channel(c3) as u8,
                            alpha: spec_alpha(c4) as u8,
                        },
                    )
                } else {
                    None
                }
            } else {
                None
            }
        } else {
            None
        }
    } else {
        None
    }
}

/// The color a serialized CSS color value denotes, or `None` for anything
/// that is not a legacy-form `rgb()` or `rgba()` value.
pub open spec fn spec_css_color(s: Seq<u8>) -> Option<Srgba> {
    if has_rgba_shape(s) {
        spec_rgba_body(s.subrange(5, s.len() - 1))
    } else if has_rgb_shape(s) {
        spec_rgb_body(s.subrange(4, s.len() - 1))
    } else {
        None
    }
}

/// Clamps a non-negative value to 255.
pub open spec fn clamp255(v: int) -> int {
    if v > 255 {
        255
    } else {
        v
    }
}

/// A digit string's value is non-negative and below ten to its length.
proof fn lemma_digits_val_bound(s: Seq<u8>)
    requires
        all_digits(s),
    ensures
        0 <= digits_val(s) < pow10(s.len()),
    decreases s.len(),
{
    if s.len() > 0 {
        lemma_digits_val_bound(s.drop_last());
        assert(is_digit(s[s.len() - 1]));
    }
}

/// Ten to any power is at least one.
proof fn lemma_pow10_pos(n: nat)
    ensures
        pow10(n) >= 1,
    decreases n,
{
    if n > 0 {
        lemma_pow10_pos((n - 1) as nat);
    }
}

/// Ten to a power grows with the exponent.
proof fn lemma_pow10_mono(a: nat, b: nat)
    requires
        a <= b,
    ensures
        pow10(a) <= pow10(b),
    decreases b,
{
    if a < b {
        lemma_pow10_mono(a, (b - 1) as nat);
        lemma_pow10_pos((b - 1) as nat);
    }
}

/// Powers of ten multiply by adding exponents.
proof fn lemma_pow10_add(a: nat, b: nat)
    ensures
        pow10(a) * pow10(b) == pow10(a + b),
    decreases a,
{
    if a == 0 {
        assert(pow10(0) * pow10(b) == pow10(b));
    } else {
        lemma_pow10_add((a - 1) as nat, b);
        assert(pow10(a) * pow10(b) == 10 * (pow10((a - 1) as nat) * pow10(b)))
            by (nonlinear_arith)
            requires
                pow10(a) == 10 * pow10((a - 1) as nat),
        ;
    }
}

/// Finds the first `", "` separator, as [`sep_pos`] defines it.
fn find_sep(s: &[u8]) -> (r: usize)
    ensures
        r == sep_pos(s@),
        r <= s@.len(),
        r < s@.len() ==> r + 2 <= s@.len(),
{
    let n = s.len();
    if n < 2 {
        return n;
    }
    let mut i: usize = 0;
    proof {
        assert(s@.skip(0) =~= s@);
    }
    while i < n - 1
        invariant
            n == s@.len(),
            n >= 2,
            i <= n - 1,
            sep_pos(s@) == i + sep_pos(s@.skip(i as int)),
        decreases n - i,
    {
        let found = s[i] == 44 && s[i + 1] == 32;
        proof {
            let tail = s@.skip(i as int);
            assert(tail.len() >= 2);
            assert(tail.first() == s@[i as int]);
            assert(tail[1] == s@[i + 1]);
            if !found {
                assert(tail.drop_first() =~= s@.skip(i + 1));
            }
        }
        if found {
            return i;
        }
        i = i + 1;
    }
    proof {
        assert(s@.skip(i as int).len() < 2);
    }
    n
}

/// Finds the first decimal point, as [`dot_pos`] defines it.
fn find_dot(s: &[u8]) -> (r: usize)
    ensures
        r == dot_pos(s@),
        r <= s@.len(),
{
    let n = s.len();
    let mut i: usize = 0;
    proof {
        assert(s@.skip(0) =~= s@);
    }
    while i < n
        invariant
            n == s@.len(),
            i <= n,
            dot_pos(s@) == i + dot_pos(s@.skip(i as int)),
        decreases n - i,
    {
        let found = s[i] == 46;
        proof {
            let tail = s@.skip(i as int);
            assert(tail.first() == s@[i as int]);
            if !found {
                assert(tail.drop_first() =~= s@.skip(i + 1));
            }
        }
        if found {
            return i;
        }
        i = i + 1;
    }
    proof {
        assert(s@.skip(i as int).len() == 0);
    }
    n
}

/// Parses one component: `Some` exactly for a number, carrying the
/// integer part clamped to 255 and the fraction in billionths.
fn parse_number(s: &[u8]) -> (r: Option<(u32, u32)>)
    ensures
        r is Some <==> is_number(s@),
        (match r {
            Some((i, f)) => {
                &&& i == clamp255(int_val(s@))
                &&& f == frac9_val(s@)
                &&& int_val(s@) >= 0
                &&& f < 1000000000
            },
            None => true,
        }),
{
    let n = s.len();
    let d = find_dot(s);
    if d == 0 && d + 1 >= n {
        return None;
    }
    let ghost int_part = s@.take(d as int);
    // Integer part: validate digits and accumulate, clamped to 255.
    let mut acc: u32 = 0;
    let mut j: usize = 0;
    proof {
        assert(int_part.take(0) =~= Seq::<u8>::empty());
    }
    while j < d
        invariant
            d <= n == s@.len(),
            d == dot_pos(s@),
            j <= d,
            int_part == s@.take(d as int),
            all_digits(int_part.take(j as int)),
            acc == clamp255(digits_val(int_part.take(j as int))),
            acc <= 255,
        decreases d - j,
    {
        let b = s[j];
        if b < 48 || b > 57 {
            proof {
                assert(int_part[j as int] == s@[j as int]);
                assert(!is_digit(int_part[j as int]));
                assert(!all_digits(int_part));
                assert(!is_number(s@));
            }
            return None;
        }
        proof {
            lemma_digits_val_bound(int_part.take(j as int));
            assert(int_part.take(j + 1).drop_last() =~= int_part.take(j as int));
            assert(int_part.take(j + 1).last() == s@[j as int]);
        }
        let next = acc * 10 + ((b - 48) as u32);
        acc = if next > 255 {
            255
        } else {
            next
        };
        j = j + 1;
    }
    proof {
        assert(int_part.take(d as int) =~= int_part);
    }
    // Fraction part: validate digits and take the first nine.
    let mut facc: u32 = 0;
    let mut flen: usize = 0;
    if d < n {
        let ghost frac = s@.skip(d + 1);
        let mut j: usize = d + 1;
        proof {
            assert(frac.take(0) =~= Seq::<u8>::empty());
        }
        while j < n
            invariant
                d < n == s@.len(),
                d == dot_pos(s@),
                d + 1 <= j <= n,
                frac == s@.skip(d + 1),
                all_digits(frac.take(j - d - 1)),
                flen == if j - d - 1 < 9 {
                    j - d - 1
                } else {
                    9
                },
                facc == digits_val(frac.take(flen as int)),
                facc < pow10(flen as nat),
            decreases n - j,
        {
            let b = s[j];
            if b < 48 || b > 57 {
                proof {
                    assert(frac[j - d - 1] == s@[j as int]);
                    assert(!is_digit(frac[j - d - 1]));
                    assert(!all_digits(frac));
                    assert(!is_number(s@));
                }
                return None;
            }
            proof {
                assert(frac.take(j - d) =~= frac.take(j - d - 1).push(s@[j as int]));
                assert(frac.take(j - d).drop_last() =~= frac.take(j - d - 1));
            }
            if flen < 9 {
                proof {
                    lemma_pow10_mono(flen as nat, 8);
                    reveal_with_fuel(pow10, 10);
                    assert(facc < 100000000);
                }
                facc = facc * 10 + ((b - 48) as u32);
                flen = flen + 1;
            }
            j = j + 1;
        }
        proof {
            assert(frac.take(frac.len() as int) =~= frac);
        }
    }
    // Scale the fraction up to exactly nine places.
    let scale: u32 = match 9 - flen {
        0 => 1,
        1 => 10,
        2 => 100,
        3 => 1000,
        4 => 10000,
        5 => 100000,
        6 => 1000000,
        7 => 10000000,
        8 => 100000000,
        _ => 1000000000,
    };
    proof {
        reveal_with_fuel(pow10, 11);
        assert(scale == pow10((9 - flen) as nat));
        lemma_pow10_add(flen as nat, (9 - flen) as nat);
        assert(facc * scale < pow10(flen as nat) * pow10((9 - flen) as nat)) by (nonlinear_arith)
            requires
                facc < pow10(flen as nat),
                scale == pow10((9 - flen) as nat),
                scale > 0,
        ;
        lemma_digits_val_bound(int_part);
    }
    let f9 = facc * scale;
    Some((acc, f9))
}

/// Rounds an RGB component from its clamped integer part and its fraction
/// in billionths.
fn channel_from(i_sat: u32, f9: u32, Ghost(iv): Ghost<int>) -> (r: u8)
    requires
        iv >= 0,
        i_sat == clamp255(iv),
        f9 < 1000000000,
    ensures
        r == channel_of(iv, f9 as int),
{
    if i_sat >= 255 {
        255
    } else if f9 >= 500000000 {
        (i_sat + 1) as u8
    } else {
        i_sat as u8
    }
}

/// Rounds an alpha component from its clamped integer part and its
/// fraction in billionths.
fn alpha_from(i_sat: u32, f9: u32, Ghost(iv): Ghost<int>) -> (r: u8)
    requires
        iv >= 0,
        i_sat == clamp255(iv),
        f9 < 1000000000,
    ensures
        r == alpha_of(iv, f9 as int),
{
    if i_sat >= 1 {
        255
    } else {
        let scaled = 510u64 * (f9 as u64) + 1000000000;
        (scaled / 2000000000) as u8
    }
}

/// Parses the body of an `rgb(` value.
fn parse_rgb_body(inner: &[u8]) -> (r: Option<Srgba>)
    ensures
        r == spec_rgb_body(inner@),
{
    let p1 = find_sep(inner);
    if p1 >= inner.len() {
        return None;
    }
    let c1 = &inner[0..p1];
    let rest = &inner[p1 + 2..inner.len()];
    proof {
        assert(c1@ =~= inner@.take(p1 as int));
        assert(rest@ =~= inner@.skip(p1 + 2));
    }
    let p2 = find_sep(rest);
    if p2 >= rest.len() {
        return None;
    }
    let c2 = &rest[0..p2];
    let c3 = &rest[p2 + 2..rest.len()];
    proof {
        assert(c2@ =~= rest@.take(p2 as int));
        assert(c3@ =~= rest@.skip(p2 + 2));
    }
    match (parse_number(c1), parse_number(c2), parse_number(c3)) {
        (Some((i1, f1)), Some((i2, f2)), Some((i3, f3))) => Some(
            Srgba {
                red: channel_from(i1, f1, Ghost(int_val(c1@))),
                green: channel_from(i2, f2, Ghost(int_val(c2@))),
                blue: channel_from(i3, f3, Ghost(int_val(c3@))),
                alpha: 255,
            },
        ),
        _ => None,
    }
}

/// Parses the body of an `rgba(` value.
fn parse_rgba_body(inner: &[u8]) -> (r: Option<Srgba>)
    ensures
        r == spec_rgba_body(inner@),
{
    let p1 = find_sep(inner);
    if p1 >= inner.len() {
        return None;
    }
    let c1 = &inner[0..p1];
    let rest1 = &inner[p1 + 2..inner.len()];
    proof {
        assert(c1@ =~= inner@.take(p1 as int));
        assert(rest1@ =~= inner@.skip(p1 + 2));
    }
    let p2 = find_sep(rest1);
    if p2 >= rest1.len() {
        return None;
    }
    let c2 = &rest1[0..p2];
    let rest2 = &rest1[p2 + 2..rest1.len()];
    proof {
        assert(c2@ =~= rest1@.take(p2 as int));
        assert(rest2@ =~= rest1@.skip(p2 + 2));
    }
    let p3 = find_sep(rest2);
    if p3 >= rest2.len() {
        return None;
    }
    let c3 = &rest2[0..p3];
    let c4 = &rest2[p3 + 2..rest2.len()];
    proof {
        assert(c3@ =~= rest2@.take(p3 as int));
        assert(c4@ =~= rest2@.skip(p3 + 2));
    }
    match (parse_number(c1), parse_number(c2), parse_number(c3), parse_number(c4)) {
        (Some((i1, f1)), Some((i2, f2)), Some((i3, f3)), Some((i4, f4))) => Some(
            Srgba {
                red: channel_from(i1, f1, Ghost(int_val(c1@))),
                green: channel_from(i2, f2, Ghost(int_val(c2@))),
                blue: channel_from(i3, f3, Ghost(int_val(c3@))),
                alpha: alpha_from(i4, f4, Ghost(int_val(c4@))),
            },
        ),
        _ => None,
    }
}

/// Parses a serialized CSS color value, exactly as [`spec_css_color`]
/// reads it: the legacy `rgb()` and `rgba()` forms with comma-space
/// separators, every component an unsigned decimal number, quantized to
/// 8-bit channels.
pub fn parse_css_color(s: &[u8]) -> (r: Option<Srgba>)
    ensures
        r == spec_css_color(s@),
{
    let n = s.len();
    if n >= 6 && s[0] == 114 && s[1] == 103 && s[2] == 98 && s[3] == 97 && s[4] == 40 && s[n - 1]
        == 41 {
        let inner = &s[5..n - 1];
        proof {
            assert(inner@ =~= s@.subrange(5, n - 1));
        }
        parse_rgba_body(inner)
    } else if n >= 5 && s[0] == 114 && s[1] == 103 && s[2] == 98 && s[3] == 40 && s[n - 1] == 41 {
        let inner = &s[4..n - 1];
        proof {
            assert(inner@ =~= s@.subrange(4, n - 1));
        }
        parse_rgb_body(inner)
    } else {
        None
    }
}

} // verus!
