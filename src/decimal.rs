use vstd::prelude::*;

verus! {

/// Most digits a decimal text may carry, so that every mantissa stays
/// below 10^18 and halving it cannot overflow.
pub const MAX_DIGITS: usize = 18;

pub open spec fn pow10(n: nat) -> nat
    decreases n,
{
    if n == 0 {
        1
    } else {
        10 * pow10((n - 1) as nat)
    }
}

/// A non-negative decimal number, `mantissa / 10^scale`.
#[derive(Clone, Copy, Debug, PartialEq, Eq, Structural)]
pub struct Decimal {
    pub mantissa: u64,
    pub scale: u32,
}

impl Decimal {
    /// The mantissa halved when it is even, else five times the mantissa
    /// one place further right.
    pub open spec fn halved(self) -> Decimal {
        if self.mantissa % 2 == 0 {
            Decimal { mantissa: self.mantissa / 2, scale: self.scale }
        } else {
            Decimal { mantissa: (self.mantissa * 5) as u64, scale: (self.scale + 1) as u32 }
        }
    }

    /// `self` is exactly half of `other`.
    pub open spec fn is_half_of(self, other: Decimal) -> bool {
        2 * self.mantissa * pow10(other.scale as nat) == other.mantissa * pow10(self.scale as nat)
    }
}

pub open spec fn is_digit(b: u8) -> bool {
    48 <= b <= 57
}

pub open spec fn is_point(b: u8) -> bool {
    b == 46
}

/// Number of decimal points in `s`.
pub open spec fn points(s: Seq<u8>) -> nat
    decreases s.len(),
{
    if s.len() == 0 {
        0
    } else {
        points(s.drop_last()) + if is_point(s.last()) { 1nat } else { 0nat }
    }
}

/// Number of digits in `s`.
pub open spec fn digit_count(s: Seq<u8>) -> nat
    decreases s.len(),
{
    if s.len() == 0 {
        0
    } else {
        digit_count(s.drop_last()) + if is_digit(s.last()) { 1nat } else { 0nat }
    }
}

/// The digits of `s` read as one integer, the point skipped.
pub open spec fn mantissa_of(s: Seq<u8>) -> nat
    decreases s.len(),
{
    if s.len() == 0 {
        0
    } else if is_digit(s.last()) {
        mantissa_of(s.drop_last()) * 10 + (s.last() - 48) as nat
    } else {
        mantissa_of(s.drop_last())
    }
}

/// Number of digits after the point (0 without a point).
pub open spec fn fraction_len(s: Seq<u8>) -> nat
    decreases s.len(),
{
    if s.len() == 0 {
        0
    } else if is_digit(s.last()) && points(s.drop_last()) > 0 {
        fraction_len(s.drop_last()) + 1
    } else {
        fraction_len(s.drop_last())
    }
}

/// A byte allowed at position `i` of plain decimal notation.
pub open spec fn allowed_at(b: u8, i: int) -> bool {
    is_digit(b) || is_point(b) || (i == 0 && b == 43)
}

/// Plain decimal notation: an optional `+`, then digits with at most one
/// point and at least one digit (`7`, `100.5`, `.5`, `5.`, `+5`; not `-1`,
/// `.`, `1.2.3`).
pub open spec fn is_decimal_text(s: Seq<u8>) -> bool {
    &&& forall|i: int| 0 <= i < s.len() ==> allowed_at(#[trigger] s[i], i)
    &&& points(s) <= 1
    &&& digit_count(s) >= 1
}

/// The decimal that `s` writes, if it is plain decimal notation with at
/// most `MAX_DIGITS` digits.
pub open spec fn plain_decimal_of(s: Seq<u8>) -> Option<Decimal> {
    if is_decimal_text(s) && digit_count(s) <= MAX_DIGITS {
        Some(Decimal { mantissa: mantissa_of(s) as u64, scale: fraction_len(s) as u32 })
    } else {
        None
    }
}

pub open spec fn is_exponent_marker(b: u8) -> bool {
    b == 101 || b == 69
}

/// Index of the first exponent marker (`e` or `E`) at or after `i`, or
/// `s.len()` where there is none.
pub open spec fn marker_from(s: Seq<u8>, i: int) -> int
    decreases s.len() - i,
{
    if i < 0 || i >= s.len() {
        s.len() as int
    } else if is_exponent_marker(s[i]) {
        i
    } else {
        marker_from(s, i + 1)
    }
}

pub open spec fn is_sign(b: u8) -> bool {
    b == 43 || b == 45
}

/// The digits of an exponent, after its sign if it has one.
pub open spec fn exponent_digits(t: Seq<u8>) -> Seq<u8> {
    if t.len() > 0 && is_sign(t[0]) {
        t.subrange(1, t.len() as int)
    } else {
        t
    }
}

/// The exponent written after the marker: an optional sign and one to
/// three digits.
pub open spec fn exponent_of(t: Seq<u8>) -> Option<int> {
    let signed = t.len() > 0 && is_sign(t[0]);
    let digits = exponent_digits(t);
    if 1 <= digits.len() <= 3 && (forall|i: int| 0 <= i < digits.len() ==> is_digit(#[trigger] digits[i])) {
        Some(
            if signed && t[0] == 45 {
                -(mantissa_of(digits) as int)
            } else {
                mantissa_of(digits) as int
            },
        )
    } else {
        None
    }
}

/// `d` times `10^e`, where the result keeps at most `MAX_DIGITS` decimal
/// places and a mantissa below 10^18.
pub open spec fn scaled(d: Decimal, e: int) -> Option<Decimal> {
    let scale = d.scale - e;
    if 0 <= scale <= MAX_DIGITS {
        Some(Decimal { mantissa: d.mantissa, scale: scale as u32 })
    } else if scale < 0 && d.mantissa * pow10((-scale) as nat) < 1_000_000_000_000_000_000 {
        Some(Decimal { mantissa: (d.mantissa * pow10((-scale) as nat)) as u64, scale: 0 })
    } else {
        None
    }
}

/// The decimal that `s` writes: plain decimal notation, optionally
/// followed by an exponent (`2.0149e+8`, `15E-1`), within the bounds of
/// `plain_decimal_of` and `scaled`.
pub open spec fn decimal_of(s: Seq<u8>) -> Option<Decimal> {
    let p = marker_from(s, 0);
    if p == s.len() {
        plain_decimal_of(s)
    } else {
        match (plain_decimal_of(s.subrange(0, p)), exponent_of(s.subrange(p + 1, s.len() as int))) {
            (Some(d), Some(e)) => scaled(d, e),
            _ => None,
        }
    }
}

pub proof fn lemma_pow10_add(a: nat, b: nat)
    ensures
        pow10(a + b) == pow10(a) * pow10(b),
    decreases b,
{
    if b > 0 {
        let c = (b - 1) as nat;
        lemma_pow10_add(a, c);
        assert(pow10(a + b) == 10 * pow10(a + c));
        assert(pow10(b) == 10 * pow10(c));
        let pa = pow10(a);
        let pb = pow10(b);
        let pc = pow10(c);
        assert(pa * pb == 10 * (pa * pc)) by (nonlinear_arith)
            requires
                pb == 10 * pc,
        ;
        assert(pow10(a + b) == pa * pb);
    } else {
        assert(pow10(b) == 1);
        assert(a + b == a);
    }
}

pub proof fn lemma_pow10_positive(n: nat)
    ensures
        pow10(n) >= 1,
    decreases n,
{
    if n > 0 {
        lemma_pow10_positive((n - 1) as nat);
    }
}

pub proof fn lemma_pow10_monotone(a: nat, b: nat)
    requires
        a <= b,
    ensures
        pow10(a) <= pow10(b),
    decreases b,
{
    if a < b {
        lemma_pow10_monotone(a, (b - 1) as nat);
        lemma_pow10_positive((b - 1) as nat);
    }
}

proof fn lemma_pow10_18()
    ensures
        pow10(18) == 1_000_000_000_000_000_000,
{
    reveal_with_fuel(pow10, 19);
}

proof fn lemma_counts_bounded(s: Seq<u8>)
    ensures
        digit_count(s) <= s.len(),
        fraction_len(s) <= digit_count(s),
    decreases s.len(),
{
    if s.len() > 0 {
        lemma_counts_bounded(s.drop_last());
    }
}

impl Decimal {
    /// Reads plain decimal notation.
    pub(crate) fn parse_plain(s: &[u8]) -> (r: Option<Decimal>)
        ensures
            r == plain_decimal_of(s@),
            r matches Some(d) ==> d.mantissa < 1_000_000_000_000_000_000 && d.scale <= MAX_DIGITS,
    {
        let n = s.len();
        let mut i: usize = 0;
        let mut mantissa: u64 = 0;
        let mut digits: usize = 0;
        let mut seen_points: usize = 0;
        let mut fraction: usize = 0;
        let mut only_digits_and_points = true;
        while i < n
            invariant
                n == s@.len(),
                i <= n,
                digits == digit_count(s@.subrange(0, i as int)),
                seen_points == points(s@.subrange(0, i as int)),
                fraction == fraction_len(s@.subrange(0, i as int)),
                digits <= MAX_DIGITS ==> mantissa == mantissa_of(s@.subrange(0, i as int)),
                digits <= MAX_DIGITS ==> mantissa < pow10(digits as nat),
                digits <= i,
                seen_points <= i,
                fraction <= digits,
                only_digits_and_points <==> forall|j: int|
                    0 <= j < i ==> allowed_at(#[trigger] s@[j], j),
            decreases n - i,
        {
            let b = s[i];
            let ghost prefix = s@.subrange(0, i as int);
            let ghost next = s@.subrange(0, i + 1);
            assert(next.drop_last() =~= prefix);
            if 48 <= b && b <= 57 {
                if digits < MAX_DIGITS {
                    proof {
                        lemma_pow10_monotone((digits + 1) as nat, 18);
                        lemma_pow10_18();
                        assert(mantissa * 10 + 9 < pow10((digits + 1) as nat)) by (nonlinear_arith)
                            requires
                                mantissa < pow10(digits as nat),
                                pow10((digits + 1) as nat) == 10 * pow10(digits as nat),
                        ;
                    }
                    mantissa = mantissa * 10 + (b - 48) as u64;
                }
                if seen_points > 0 {
                    fraction = fraction + 1;
                }
                digits = digits + 1;
            } else if b == 46 {
                seen_points = seen_points + 1;
            } else if !(i == 0 && b == 43) {
                only_digits_and_points = false;
            }
            i = i + 1;
            assert(s@.subrange(0, i as int) =~= next);
        }
        assert(s@.subrange(0, n as int) =~= s@);
        proof {
            lemma_counts_bounded(s@);
        }
        if digits == 0 || !only_digits_and_points || seen_points > 1 || digits > MAX_DIGITS {
            return None;
        }
        proof {
            lemma_pow10_monotone(digits as nat, 18);
            lemma_pow10_18();
        }
        Some(Decimal { mantissa, scale: fraction as u32 })
    }

    /// Exactly half of `self`.
    pub fn half(self) -> (r: Decimal)
        requires
            self.mantissa < 1_000_000_000_000_000_000,
            self.scale < 1000,
        ensures
            r.is_half_of(self),
            r.mantissa < 5_000_000_000_000_000_000,
            r == self.halved(),
            r.scale <= self.scale + 1,
    {
        if self.mantissa % 2 == 0 {
            let r = Decimal { mantissa: self.mantissa / 2, scale: self.scale };
            assert(2 * r.mantissa == self.mantissa);
            r
        } else {
            let r = Decimal { mantissa: self.mantissa * 5, scale: self.scale + 1 };
            let ghost p = pow10(self.scale as nat);
            assert(pow10(r.scale as nat) == 10 * p);
            assert(2 * r.mantissa * p == self.mantissa * (10 * p)) by (nonlinear_arith)
                requires
                    r.mantissa == self.mantissa * 5,
            ;
            r
        }
    }
}

fn parse_exponent(t: &[u8]) -> (r: Option<i64>)
    ensures
        match r {
            Some(e) => exponent_of(t@) == Some(e as int) && -999 <= e <= 999,
            None => exponent_of(t@) is None,
        },
{
    let n = t.len();
    let signed = n > 0 && (t[0] == 43 || t[0] == 45);
    let start: usize = if signed {
        1
    } else {
        0
    };
    let ghost digits = exponent_digits(t@);
    assert(digits =~= t@.subrange(start as int, n as int));
    if n - start < 1 || n - start > 3 {
        return None;
    }
    let mut i: usize = start;
    let mut v: u64 = 0;
    assert(t@.subrange(start as int, start as int) =~= Seq::<u8>::empty());
    while i < n
        invariant
            start <= i <= n == t@.len(),
            n - start <= 3,
            v == mantissa_of(t@.subrange(start as int, i as int)),
            v < pow10((i - start) as nat),
            forall|j: int| start <= j < i ==> is_digit(#[trigger] t@[j]),
            digits == t@.subrange(start as int, n as int),
            digits == exponent_digits(t@),
        decreases n - i,
    {
        let b = t[i];
        if !(48 <= b && b <= 57) {
            assert(!is_digit(digits[i - start]));
            return None;
        }
        let ghost next = t@.subrange(start as int, i + 1);
        assert(next.drop_last() =~= t@.subrange(start as int, i as int));
        proof {
            lemma_pow10_monotone((i + 1 - start) as nat, 3);
            reveal_with_fuel(pow10, 4);
            assert(v * 10 + 9 < pow10((i + 1 - start) as nat)) by (nonlinear_arith)
                requires
                    v < pow10((i - start) as nat),
                    pow10((i + 1 - start) as nat) == 10 * pow10((i - start) as nat),
            ;
        }
        v = v * 10 + (b - 48) as u64;
        i = i + 1;
        assert(t@.subrange(start as int, i as int) =~= next);
    }
    proof {
        lemma_pow10_monotone((n - start) as nat, 3);
        reveal_with_fuel(pow10, 4);
    }
    assert(forall|j: int| 0 <= j < digits.len() ==> is_digit(#[trigger] digits[j])) by {
        assert forall|j: int| 0 <= j < digits.len() implies is_digit(#[trigger] digits[j]) by {
            assert(digits[j] == t@[j + start]);
        }
    }
    if signed && t[0] == 45 {
        Some(-(v as i64))
    } else {
        Some(v as i64)
    }
}

fn scale_by(d: Decimal, e: i64) -> (r: Option<Decimal>)
    requires
        d.mantissa < 1_000_000_000_000_000_000,
        d.scale <= MAX_DIGITS,
        -999 <= e <= 999,
    ensures
        r == scaled(d, e as int),
        r matches Some(x) ==> x.mantissa < 1_000_000_000_000_000_000 && x.scale <= MAX_DIGITS,
{
    let scale: i64 = d.scale as i64 - e;
    if 0 <= scale && scale <= 18 {
        return Some(Decimal { mantissa: d.mantissa, scale: scale as u32 });
    }
    if scale > 18 {
        return None;
    }
    let k: u64 = (-scale) as u64;
    let mut m: u64 = d.mantissa;
    let mut i: u64 = 0;
    while i < k
        invariant
            i <= k,
            k == -(d.scale - e),
            m == d.mantissa * pow10(i as nat),
            m < 1_000_000_000_000_000_000,
        decreases k - i,
    {
        if m >= 100_000_000_000_000_000 {
            proof {
                lemma_pow10_add(i as nat, (k - i) as nat);
                lemma_pow10_monotone(1, (k - i) as nat);
                reveal_with_fuel(pow10, 2);
                assert(d.mantissa * pow10(k as nat) >= 1_000_000_000_000_000_000) by (nonlinear_arith)
                    requires
                        pow10(k as nat) == pow10(i as nat) * pow10((k - i) as nat),
                        pow10((k - i) as nat) >= 10,
                        m == d.mantissa * pow10(i as nat),
                        m >= 100_000_000_000_000_000,
                ;
            }
            return None;
        }
        proof {
            assert(m * 10 == d.mantissa * pow10((i + 1) as nat)) by (nonlinear_arith)
                requires
                    m == d.mantissa * pow10(i as nat),
                    pow10((i + 1) as nat) == 10 * pow10(i as nat),
            ;
        }
        m = m * 10;
        i = i + 1;
    }
    Some(Decimal { mantissa: m, scale: 0 })
}

impl Decimal {
    /// Reads decimal notation, with an optional exponent.
    pub fn parse(s: &[u8]) -> (r: Option<Decimal>)
        ensures
            r == decimal_of(s@),
            r matches Some(d) ==> d.mantissa < 1_000_000_000_000_000_000 && d.scale <= MAX_DIGITS,
    {
        let n = s.len();
        let mut p: usize = 0;
        while p < n && !(s[p] == 101 || s[p] == 69)
            invariant
                p <= n == s@.len(),
                marker_from(s@, p as int) == marker_from(s@, 0),
            decreases n - p,
        {
            p = p + 1;
        }
        if p == n {
            return Decimal::parse_plain(s);
        }
        let d = match Decimal::parse_plain(vstd::slice::slice_subrange(s, 0, p)) {
            Some(d) => d,
            None => return None,
        };
        let e = match parse_exponent(vstd::slice::slice_subrange(s, p + 1, n)) {
            Some(e) => e,
            None => return None,
        };
        scale_by(d, e)
    }
}

} // verus!
