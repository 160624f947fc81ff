//! Decimal fixed-point numbers.
//!
//! Every quantity the library measures (kilometres, metres of ascent, degrees
//! of latitude and longitude) is a [`Fixed`]: a whole number of millionths.
//! Arithmetic on them is exact integer arithmetic, so two runs on the same
//! input always rank trails the same way.

use vstd::prelude::*;
use crate::text::{chars_of, push_char};

verus! {

/// A decimal number with six fractional digits, stored as its value times
/// one million.
#[derive(Clone, Copy, PartialEq, Eq, Structural, Debug)]
pub struct Fixed {
    pub micros: i64,
}

/// `v` forced into the range of `i64`.
pub open spec fn clamp(v: int) -> i64 {
    if v < i64::MIN {
        i64::MIN
    } else if v > i64::MAX {
        i64::MAX
    } else {
        v as i64
    }
}

/// Ten to the power `n`.
pub open spec fn pow10(n: nat) -> nat
    decreases n,
{
    if n == 0 {
        1
    } else {
        10 * pow10((n - 1) as nat)
    }
}

/// `c` is one of the ten ASCII digits.
pub open spec fn is_digit(c: char) -> bool {
    '0' <= c && c <= '9'
}

/// `c` may occur in an unsigned decimal number: a digit or the point.
pub open spec fn is_numeric(c: char) -> bool {
    is_digit(c) || c == '.'
}

/// The value of the digit `c`.
pub open spec fn digit_of(c: char) -> nat {
    (c as u32 - '0' as u32) as nat
}

/// The character that writes the digit `d`.
pub open spec fn digit_char(d: nat) -> char {
    if d == 0 {
        '0'
    } else if d == 1 {
        '1'
    } else if d == 2 {
        '2'
    } else if d == 3 {
        '3'
    } else if d == 4 {
        '4'
    } else if d == 5 {
        '5'
    } else if d == 6 {
        '6'
    } else if d == 7 {
        '7'
    } else if d == 8 {
        '8'
    } else {
        '9'
    }
}

/// The number that the digit string `s` writes in base ten.
pub open spec fn digits_value(s: Seq<char>) -> nat
    decreases s.len(),
{
    if s.len() == 0 {
        0
    } else {
        digits_value(s.drop_last()) * 10 + digit_of(s.last())
    }
}

/// How many characters at the start of `s` satisfy `p`.
pub open spec fn prefix_len(s: Seq<char>, p: spec_fn(char) -> bool) -> nat
    decreases s.len(),
{
    if s.len() == 0 || !p(s[0]) {
        0
    } else {
        1 + prefix_len(s.skip(1), p)
    }
}

/// The millionths written by the digits `f` that follow a decimal point:
/// the first six count, any further ones are cut off.
pub open spec fn fraction_micros(f: Seq<char>) -> nat {
    let kept = if f.len() < 6 {
        f.len()
    } else {
        6
    };
    digits_value(f.take(kept as int)) * pow10((6 - kept) as nat)
}

/// The value, in millionths, of an unsigned decimal number: digits, then
/// optionally a point and more digits, with at least one digit in all.
/// `None` for any other text.
pub open spec fn decimal_micros(s: Seq<char>) -> Option<nat> {
    let w = prefix_len(s, |c: char| is_digit(c));
    let whole = digits_value(s.take(w as int)) * 1_000_000;
    if w == s.len() {
        if w > 0 {
            Some(whole)
        } else {
            None
        }
    } else if s[w as int] == '.' {
        let rest = s.skip(w as int + 1);
        if prefix_len(rest, |c: char| is_digit(c)) == rest.len() && w + rest.len() > 0 {
            Some(whole + fraction_micros(rest))
        } else {
            None
        }
    } else {
        None
    }
}

/// The value, in millionths, of a decimal number with an optional sign in
/// front.
pub open spec fn signed_micros(s: Seq<char>) -> Option<int> {
    if s.len() > 0 && s[0] == '-' {
        match decimal_micros(s.skip(1)) {
            Some(v) => Some(-(v as int)),
            None => None,
        }
    } else if s.len() > 0 && s[0] == '+' {
        match decimal_micros(s.skip(1)) {
            Some(v) => Some(v as int),
            None => None,
        }
    } else {
        match decimal_micros(s) {
            Some(v) => Some(v as int),
            None => None,
        }
    }
}

/// The first run of digits and points in `s`: what is left after skipping
/// everything up to the first such character and stopping at the first
/// character after it that is neither.
pub open spec fn number_run(s: Seq<char>) -> Seq<char> {
    let rest = s.skip(prefix_len(s, |c: char| !is_numeric(c)) as int);
    rest.take(prefix_len(rest, |c: char| is_numeric(c)) as int)
}

/// The number that free text such as `"about 3.5 km"` mentions first.
pub open spec fn mentioned_number(s: Seq<char>) -> Option<Fixed> {
    match decimal_micros(number_run(s)) {
        Some(v) => Some(Fixed { micros: clamp(v as int) }),
        None => None,
    }
}

/// The digits of `n` in base ten, without leading zeros.
pub open spec fn nat_digits(n: nat) -> Seq<char>
    decreases n,
{
    if n < 10 {
        seq![digit_char(n)]
    } else {
        nat_digits(n / 10).push(digit_char(n % 10))
    }
}

/// The digits after the point for the fraction `f` of `pow10(width)`, up to
/// and including its last digit that is not zero.
pub open spec fn fraction_digits(f: nat, width: nat) -> Seq<char>
    decreases width,
{
    if f == 0 || width == 0 {
        Seq::empty()
    } else {
        seq![digit_char(f / pow10((width - 1) as nat))] + fraction_digits(
            f % pow10((width - 1) as nat),
            (width - 1) as nat,
        )
    }
}

/// How the number of `micros` millionths is written: a minus sign if it is
/// negative, the whole part, and the fraction only where there is one.
pub open spec fn decimal_text(micros: int) -> Seq<char> {
    let a = if micros < 0 {
        -micros
    } else {
        micros
    };
    let sign = if micros < 0 {
        seq!['-']
    } else {
        Seq::empty()
    };
    let fraction = if a % 1_000_000 == 0 {
        Seq::empty()
    } else {
        seq!['.'] + fraction_digits((a % 1_000_000) as nat, 6)
    };
    sign + nat_digits((a / 1_000_000) as nat) + fraction
}

/// A prefix of length `k` whose characters all satisfy `p`, followed by the
/// end or by a character that does not, is the longest such prefix.
pub proof fn lemma_prefix_len(s: Seq<char>, p: spec_fn(char) -> bool, k: int)
    requires
        0 <= k <= s.len(),
        forall|i: int| 0 <= i < k ==> p(#[trigger] s[i]),
        k == s.len() || !p(s[k]),
    ensures
        prefix_len(s, p) == k,
    decreases k,
{
    if k > 0 {
        let t = s.skip(1);
        assert forall|i: int| 0 <= i < k - 1 implies p(#[trigger] t[i]) by {}
        lemma_prefix_len(t, p, k - 1);
    }
}

/// Appending a digit multiplies the value by ten and adds the digit.
proof fn lemma_digits_push(s: Seq<char>, k: int)
    requires
        0 <= k < s.len(),
    ensures
        digits_value(s.take(k + 1)) == digits_value(s.take(k)) * 10 + digit_of(s[k]),
{
    assert(s.take(k + 1).drop_last() =~= s.take(k));
}

fn is_digit_char(c: char) -> (r: bool)
    ensures
        r == is_digit(c),
{
    c >= '0' && c <= '9'
}

fn digit_value(c: char) -> (d: u128)
    requires
        is_digit(c),
    ensures
        d == digit_of(c),
        d <= 9,
{
    ((c as u32) - ('0' as u32)) as u128
}

fn char_of_digit(d: u64) -> (c: char)
    requires
        d <= 9,
    ensures
        c == digit_char(d as nat),
{
    if d == 0 {
        '0'
    } else if d == 1 {
        '1'
    } else if d == 2 {
        '2'
    } else if d == 3 {
        '3'
    } else if d == 4 {
        '4'
    } else if d == 5 {
        '5'
    } else if d == 6 {
        '6'
    } else if d == 7 {
        '7'
    } else if d == 8 {
        '8'
    } else {
        '9'
    }
}

/// The smaller of `v` and two to the power 63.
pub open spec fn capped(v: nat) -> nat {
    if v > 0x8000_0000_0000_0000 {
        0x8000_0000_0000_0000
    } else {
        v
    }
}

/// Reads the unsigned decimal number written by `cs[from..to]`.
fn scan_decimal(cs: &Vec<char>, from: usize, to: usize) -> (r: Option<u128>)
    requires
        from <= to <= cs.len(),
    ensures
        r.is_some() == decimal_micros(cs@.subrange(from as int, to as int)).is_some(),
        r matches Some(t) ==> t == capped(
            decimal_micros(cs@.subrange(from as int, to as int)).unwrap(),
        ),
{
    let ghost s = cs@.subrange(from as int, to as int);
    let ghost digit = |c: char| is_digit(c);
    let limit: u128 = 1_000_000_000_000_000_000_000_000_000_000;
    let mut i: usize = from;
    let mut whole: u128 = 0;
    while i < to && is_digit_char(cs[i])
        invariant
            from <= i <= to <= cs.len(),
            s == cs@.subrange(from as int, to as int),
            limit == 1_000_000_000_000_000_000_000_000_000_000,
            forall|k: int| 0 <= k < i - from ==> is_digit(#[trigger] s[k]),
            whole <= limit,
            digits_value(s.take(i - from)) < limit ==> whole == digits_value(s.take(i - from)),
            digits_value(s.take(i - from)) >= limit ==> whole == limit,
        decreases to - i,
    {
        proof {
            lemma_digits_push(s, i - from);
        }
        let d = digit_value(cs[i]);
        whole = whole * 10 + d;
        if whole > limit {
            whole = limit;
        }
        i = i + 1;
    }
    let ghost w = (i - from) as int;
    proof {
        assert forall|k: int| 0 <= k < w implies digit(#[trigger] s[k]) by {}
        lemma_prefix_len(s, digit, w);
    }
    if i == to {
        if i > from {
            Some(cap_total(whole, 0, Ghost(digits_value(s.take(w))), Ghost(0)))
        } else {
            None
        }
    } else if cs[i] == '.' {
        let start: usize = i + 1;
        let ghost rest = s.skip(w + 1);
        let mut j: usize = start;
        let mut frac: u128 = 0;
        let mut kept: usize = 0;
        while j < to && is_digit_char(cs[j])
            invariant
                from <= i < to,
                start <= j <= to <= cs.len(),
                start == i + 1,
                w == i - from,
                s == cs@.subrange(from as int, to as int),
                rest == s.skip(w + 1),
                forall|k: int| 0 <= k < j - start ==> is_digit(#[trigger] rest[k]),
                kept <= 6,
                kept == if j - start < 6 { j - start } else { 6 },
                frac == digits_value(rest.take(kept as int)),
                frac < pow10(kept as nat),
                pow10(kept as nat) <= 1_000_000,
            decreases to - j,
        {
            proof {
                lemma_digits_push(rest, kept as int);
                if kept < 6 {
                    lemma_pow10_small((kept + 1) as nat);
                }
            }
            if kept < 6 {
                let d = digit_value(cs[j]);
                frac = frac * 10 + d;
                kept = kept + 1;
            }
            j = j + 1;
        }
        proof {
            assert forall|k: int| 0 <= k < j - start implies digit(#[trigger] rest[k]) by {}
            lemma_prefix_len(rest, digit, j - start);
        }
        if j == to && (i - from) + (j - start) > 0 {
            let ghost kept0 = kept;
            let mut scaled: u128 = frac;
            proof {
                assert(frac * pow10((kept - kept0) as nat) == frac) by (nonlinear_arith)
                    requires
                        pow10((kept - kept0) as nat) == 1,
                ;
            }
            while kept < 6
                invariant
                    kept0 <= kept <= 6,
                    scaled == frac * pow10((kept - kept0) as nat),
                    scaled < pow10(kept as nat),
                    pow10(kept as nat) <= 1_000_000,
                decreases 6 - kept,
            {
                proof {
                    lemma_pow10_small((kept + 1) as nat);
                    assert(frac * pow10((kept + 1 - kept0) as nat) == frac * pow10(
                        (kept - kept0) as nat,
                    ) * 10) by (nonlinear_arith)
                        requires
                            pow10((kept + 1 - kept0) as nat) == 10 * pow10((kept - kept0) as nat),
                    ;
                }
                scaled = scaled * 10;
                kept = kept + 1;
            }
            Some(
                cap_total(
                    whole,
                    scaled,
                    Ghost(digits_value(s.take(w))),
                    Ghost(fraction_micros(rest)),
                ),
            )
        } else {
            None
        }
    } else {
        None
    }
}

/// The first seven powers of ten.
proof fn lemma_pow10_small(n: nat)
    requires
        n <= 6,
    ensures
        pow10(n) == if n == 0 {
            1nat
        } else if n == 1 {
            10nat
        } else if n == 2 {
            100nat
        } else if n == 3 {
            1_000nat
        } else if n == 4 {
            10_000nat
        } else if n == 5 {
            100_000nat
        } else {
            1_000_000nat
        },
{
    reveal_with_fuel(pow10, 8);
}

/// Puts a whole part, known up to `10^30`, and a fraction together.
fn cap_total(whole: u128, frac: u128, Ghost(w): Ghost<nat>, Ghost(f): Ghost<nat>) -> (t: u128)
    requires
        whole <= 1_000_000_000_000_000_000_000_000_000_000,
        w < 1_000_000_000_000_000_000_000_000_000_000 ==> whole == w,
        w >= 1_000_000_000_000_000_000_000_000_000_000 ==> whole
            == 1_000_000_000_000_000_000_000_000_000_000,
        frac == f,
        f < 1_000_000,
    ensures
        t == capped(w * 1_000_000 + f),
{
    let total: u128 = whole * 1_000_000 + frac;
    if total > 0x8000_0000_0000_0000 {
        0x8000_0000_0000_0000
    } else {
        total
    }
}

impl Fixed {
    /// The number of `micros` millionths.
    pub fn from_micros(micros: i64) -> (r: Fixed)
        ensures
            r.micros == micros,
    {
        Fixed { micros }
    }

    /// The whole number `units`, or the nearest number that fits.
    pub fn from_units(units: i64) -> (r: Fixed)
        ensures
            r.micros == clamp(units * 1_000_000),
    {
        let wide: i128 = (units as i128) * 1_000_000;
        Fixed { micros: clamp_wide(wide) }
    }

    /// A thousandth of the number, rounded towards zero.
    pub open spec fn spec_thousandth(self) -> Fixed {
        Fixed {
            micros: if self.micros >= 0 {
                (self.micros / 1000) as i64
            } else {
                (-((-self.micros) / 1000)) as i64
            },
        }
    }

    /// A thousandth of the number, rounded towards zero: a length in metres
    /// read as kilometres.
    pub fn thousandth(self) -> (r: Fixed)
        ensures
            r == self.spec_thousandth(),
    {
        Fixed { micros: self.micros / 1000 }
    }

    /// Zero.
    pub fn zero() -> (r: Fixed)
        ensures
            r.micros == 0,
    {
        Fixed { micros: 0 }
    }

    /// Reads a decimal number with an optional sign, such as `"-12.5"`.
    /// Digits beyond the sixth after the point are cut off, and a number too
    /// large to hold becomes the largest that fits. Nothing else is read as
    /// a number: no exponent, no blanks, no words.
    pub fn parse(text: &str) -> (r: Option<Fixed>)
        ensures
            r == match signed_micros(text@) {
                Some(v) => Some(Fixed { micros: clamp(v) }),
                None => None,
            },
    {
        let cs = chars_of(text);
        let n = cs.len();
        let negative = n > 0 && cs[0] == '-';
        let signed = n > 0 && (cs[0] == '-' || cs[0] == '+');
        let from: usize = if signed {
            1
        } else {
            0
        };
        proof {
            if signed {
            } else {
                assert(cs@.subrange(0, n as int) =~= text@);
            }
        }
        match scan_decimal(&cs, from, n) {
            Some(t) => {
                if negative {
                    if t >= 0x8000_0000_0000_0000 {
                        Some(Fixed { micros: i64::MIN })
                    } else {
                        Some(Fixed { micros: -(t as i64) })
                    }
                } else if t > 0x7fff_ffff_ffff_ffff {
                    Some(Fixed { micros: i64::MAX })
                } else {
                    Some(Fixed { micros: t as i64 })
                }
            },
            None => None,
        }
    }

    /// Writes the number in decimal, as short as it can be written exactly.
    pub fn to_text(&self) -> (out: String)
        ensures
            out@ == decimal_text(self.micros as int),
    {
        let mut out = String::new();
        let magnitude: u64 = if self.micros < 0 {
            push_char(&mut out, '-');
            ((-(self.micros + 1)) as u64) + 1
        } else {
            self.micros as u64
        };
        let ghost sign = out@;
        push_nat(&mut out, magnitude / 1_000_000);
        let mut f: u64 = magnitude % 1_000_000;
        if f != 0 {
            push_char(&mut out, '.');
            let ghost head = out@;
            let ghost target = head + fraction_digits(f as nat, 6);
            let mut div: u64 = 100_000;
            let mut width: usize = 6;
            proof {
                lemma_pow10_small(6);
            }
            while f != 0
                invariant
                    width <= 6,
                    width >= 1 ==> div == pow10((width - 1) as nat),
                    f < pow10(width as nat),
                    out@ + fraction_digits(f as nat, width as nat) == target,
                decreases width,
            {
                proof {
                    assert(f / div <= 9) by (nonlinear_arith)
                        requires
                            f < 10 * div,
                            div > 0,
                    ;
                }
                let d = f / div;
                let ghost before = out@;
                push_char(&mut out, char_of_digit(d));
                proof {
                    assert(before + (seq![digit_char(d as nat)] + fraction_digits(
                        (f % div) as nat,
                        (width - 1) as nat,
                    )) =~= out@ + fraction_digits((f % div) as nat, (width - 1) as nat));
                }
                f = f % div;
                width = width - 1;
                if width >= 1 {
                    div = div / 10;
                }
            }
            assert(out@ =~= sign + nat_digits((magnitude / 1_000_000) as nat) + (seq!['.']
                + fraction_digits((magnitude % 1_000_000) as nat, 6)));
        } else {
            assert(out@ =~= sign + nat_digits((magnitude / 1_000_000) as nat) + Seq::<
                char,
            >::empty());
        }
        out
    }
}

/// `v` forced into the range of `i64`.
pub(crate) fn clamp_wide(v: i128) -> (r: i64)
    ensures
        r == clamp(v as int),
{
    if v < -0x8000_0000_0000_0000 {
        i64::MIN
    } else if v > 0x7fff_ffff_ffff_ffff {
        i64::MAX
    } else {
        v as i64
    }
}

/// Appends the decimal digits of `n` to `out`.
pub(crate) fn push_nat(out: &mut String, n: u64)
    ensures
        final(out)@ == old(out)@ + nat_digits(n as nat),
    decreases n,
{
    if n >= 10 {
        push_nat(out, n / 10);
    }
    push_char(out, char_of_digit(n % 10));
    proof {
        if n >= 10 {
            assert(out@ =~= old(out)@ + nat_digits((n / 10) as nat).push(
                digit_char((n % 10) as nat),
            ));
        } else {
        }
    }
}

/// Reads the first number mentioned in free text, such as the `3.5` of
/// `"about 3.5 km"`. `None` where the text holds no digit or point, or where
/// the first run of them is not a number (`"1.2.3"`, `"."`).
pub fn parse_number(text: &str) -> (r: Option<Fixed>)
    ensures
        r == mentioned_number(text@),
{
    let cs = chars_of(text);
    let n = cs.len();
    let ghost other = |c: char| !is_numeric(c);
    let ghost numeric = |c: char| is_numeric(c);
    let mut a: usize = 0;
    while a < n && !(is_digit_char(cs[a]) || cs[a] == '.')
        invariant
            a <= n == cs.len(),
            forall|k: int| 0 <= k < a ==> !is_numeric(#[trigger] cs@[k]),
        decreases n - a,
    {
        a = a + 1;
    }
    let ghost rest = cs@.skip(a as int);
    let mut b: usize = a;
    while b < n && (is_digit_char(cs[b]) || cs[b] == '.')
        invariant
            a <= b <= n == cs.len(),
            rest == cs@.skip(a as int),
            forall|k: int| 0 <= k < b - a ==> is_numeric(#[trigger] rest[k]),
        decreases n - b,
    {
        b = b + 1;
    }
    proof {
        assert forall|k: int| 0 <= k < a implies other(#[trigger] cs@[k]) by {}
        lemma_prefix_len(cs@, other, a as int);
        assert forall|k: int| 0 <= k < b - a implies numeric(#[trigger] rest[k]) by {}
        lemma_prefix_len(rest, numeric, b - a);
        assert(rest.take(b - a) =~= cs@.subrange(a as int, b as int));
    }
    match scan_decimal(&cs, a, b) {
        Some(t) => {
            if t > 0x7fff_ffff_ffff_ffff {
                Some(Fixed { micros: i64::MAX })
            } else {
                Some(Fixed { micros: t as i64 })
            }
        },
        None => None,
    }
}

} // verus!
