use vstd::prelude::*;
use vstd::string::StrSliceExecFns;

verus! {

// The unit converter. The network's display unit is worth one billion
// atomic units. A display amount arrives as decimal text (the calling layer
// guarantees well-formed input; this parser still rejects anything else),
// and converts to atomic units by scaling and truncating toward zero, the
// same truncation the chain applies. Floating point is kept out: the text
// is read digit by digit.

/// Number of atomic units (lamports) in one display unit.
pub const LAMPORTS_PER_SOL: u64 = 1_000_000_000;

/// Decimal digits of the atomic/display scale: 10^9 atomic units per
/// display unit.
pub const ATOMIC_SCALE_DIGITS: usize = 9;

/// Why an amount was rejected.
#[derive(Debug, PartialEq, Eq, Structural)]
pub enum AmountError {
    /// The input holds nothing but whitespace.
    Empty,
    /// The input is not an unsigned decimal number.
    Malformed,
    /// The input denotes a value below one atomic unit (zero, or negative).
    NotPositive,
    /// The scaled value exceeds the unsigned 64-bit range.
    TooLarge,
}

/// ASCII whitespace stripped from either end of an amount.
pub open spec fn is_space(c: char) -> bool {
    c == ' ' || c == '\t' || c == '\n' || c == '\r'
}

pub open spec fn is_ascii_digit(c: char) -> bool {
    '0' <= c && c <= '9'
}

pub open spec fn digit_value(c: char) -> int {
    c as int - '0' as int
}

pub open spec fn all_digits(s: Seq<char>) -> bool {
    forall|i: int| 0 <= i < s.len() ==> is_ascii_digit(#[trigger] s[i])
}

/// The number the digit string denotes, most significant digit first.
pub open spec fn digits_value(s: Seq<char>) -> int
    decreases s.len(),
{
    if s.len() == 0 {
        0
    } else {
        digits_value(s.drop_last()) * 10 + digit_value(s.last())
    }
}

pub open spec fn pow10(n: nat) -> int
    decreases n,
{
    if n == 0 {
        1
    } else {
        10 * pow10((n - 1) as nat)
    }
}

pub open spec fn strip_leading(s: Seq<char>) -> Seq<char>
    decreases s.len(),
{
    if s.len() > 0 && is_space(s[0]) {
        strip_leading(s.drop_first())
    } else {
        s
    }
}

pub open spec fn strip_trailing(s: Seq<char>) -> Seq<char>
    decreases s.len(),
{
    if s.len() > 0 && is_space(s.last()) {
        strip_trailing(s.drop_last())
    } else {
        s
    }
}

/// The input with ASCII whitespace stripped from both ends.
pub open spec fn trimmed(s: Seq<char>) -> Seq<char> {
    strip_trailing(strip_leading(s))
}

/// An unsigned decimal numeral: digits with at most one point somewhere
/// among them, and at least one digit.
pub open spec fn decimal_shape(t: Seq<char>) -> bool {
    ||| (t.len() > 0 && all_digits(t))
    ||| (t.len() > 1 && exists|i: int|
        0 <= i < t.len() && #[trigger] t[i] == '.' && all_digits(t.take(i)) && all_digits(
            t.skip(i + 1),
        ))
}

/// The integer and fractional digit strings of a numeral.
pub open spec fn split_at_dot(t: Seq<char>) -> (Seq<char>, Seq<char>) {
    if exists|i: int| 0 <= i < t.len() && #[trigger] t[i] == '.' {
        let i = choose|i: int| 0 <= i < t.len() && #[trigger] t[i] == '.';
        (t.take(i), t.skip(i + 1))
    } else {
        (t, Seq::empty())
    }
}

/// The fractional digits scaled to nine places: padded with zeros when
/// shorter, truncated toward zero when longer.
pub open spec fn frac_scaled(fp: Seq<char>) -> int {
    if fp.len() <= ATOMIC_SCALE_DIGITS {
        digits_value(fp) * pow10((ATOMIC_SCALE_DIGITS - fp.len()) as nat)
    } else {
        digits_value(fp.take(ATOMIC_SCALE_DIGITS as int))
    }
}

/// The atomic-unit value a numeral denotes: the integer part scaled by
/// 10^9, plus the fraction truncated toward zero at the ninth place.
pub open spec fn atomic_value(t: Seq<char>) -> int {
    let (ip, fp) = split_at_dot(t);
    digits_value(ip) * pow10(ATOMIC_SCALE_DIGITS as nat) + frac_scaled(fp)
}

/// What converting display text to atomic units must produce: the exact
/// truncated value, or the one error the input dictates. A leading minus on
/// an otherwise well-formed numeral is a negative amount; any other
/// departure from the numeral shape is malformed.
pub open spec fn parse_amount_spec(s: Seq<char>) -> Result<u64, AmountError> {
    let t = trimmed(s);
    if t.len() == 0 {
        Err(AmountError::Empty)
    } else if t[0] == '-' && decimal_shape(t.skip(1)) {
        Err(AmountError::NotPositive)
    } else if !decimal_shape(t) {
        Err(AmountError::Malformed)
    } else if atomic_value(t) == 0 {
        Err(AmountError::NotPositive)
    } else if atomic_value(t) > u64::MAX {
        Err(AmountError::TooLarge)
    } else {
        Ok(atomic_value(t) as u64)
    }
}

/// The optional variant: whitespace-only input is a valid "none", distinct
/// from an explicit zero, and converts to zero atomic units.
pub open spec fn parse_sol_amount_spec(s: Seq<char>) -> Result<u64, AmountError> {
    if trimmed(s).len() == 0 {
        Ok(0)
    } else {
        parse_amount_spec(s)
    }
}

proof fn lemma_pow10_values()
    ensures
        pow10(0) == 1,
        pow10(1) == 10,
        pow10(2) == 100,
        pow10(3) == 1000,
        pow10(4) == 10000,
        pow10(5) == 100000,
        pow10(6) == 1000000,
        pow10(7) == 10000000,
        pow10(8) == 100000000,
        pow10(9) == 1000000000,
{
    assert(pow10(0) == 1);
    assert(pow10(1) == 10);
    assert(pow10(2) == 100);
    assert(pow10(3) == 1000);
    assert(pow10(4) == 10000);
    assert(pow10(5) == 100000);
    assert(pow10(6) == 1000000);
    assert(pow10(7) == 10000000);
    assert(pow10(8) == 100000000);
    assert(pow10(9) == 1000000000);
}

proof fn lemma_pow10_pos(n: nat)
    ensures
        pow10(n) >= 1,
    decreases n,
{
    if n > 0 {
        lemma_pow10_pos((n - 1) as nat);
    }
}

proof fn lemma_pow10_mono(a: nat, b: nat)
    requires
        a <= b,
    ensures
        pow10(a) <= pow10(b),
    decreases b,
{
    if a < b {
        lemma_pow10_mono(a, (b - 1) as nat);
        lemma_pow10_pos((b - 1) as nat);
    }
}

proof fn lemma_pow10_adds(a: nat, b: nat)
    ensures
        pow10(a + b) == pow10(a) * pow10(b),
    decreases a,
{
    if a == 0 {
        assert(pow10(0 + b) == 1 * pow10(b));
    } else {
        lemma_pow10_adds((a - 1) as nat, b);
        assert(pow10(a + b) == 10 * pow10((a + b - 1) as nat));
        assert(pow10(a) * pow10(b) == 10 * (pow10((a - 1) as nat) * pow10(b)))
            by (nonlinear_arith)
            requires
                pow10(a) == 10 * pow10((a - 1) as nat),
        ;
    }
}

proof fn lemma_digits_nonneg(s: Seq<char>)
    requires
        all_digits(s),
    ensures
        digits_value(s) >= 0,
    decreases s.len(),
{
    if s.len() > 0 {
        assert(all_digits(s.drop_last()));
        lemma_digits_nonneg(s.drop_last());
    }
}

proof fn lemma_digits_bound(s: Seq<char>)
    requires
        all_digits(s),
    ensures
        0 <= digits_value(s) < pow10(s.len()),
    decreases s.len(),
{
    if s.len() == 0 {
    } else {
        assert(all_digits(s.drop_last()));
        lemma_digits_bound(s.drop_last());
        assert(digits_value(s) < pow10(s.len())) by (nonlinear_arith)
            requires
                digits_value(s) == digits_value(s.drop_last()) * 10 + digit_value(s.last()),
                0 <= digits_value(s.drop_last()) < pow10((s.len() - 1) as nat),
                digit_value(s.last()) <= 9,
                pow10(s.len()) == 10 * pow10((s.len() - 1) as nat),
        ;
    }
}

proof fn lemma_digits_concat(a: Seq<char>, b: Seq<char>)
    ensures
        digits_value(a + b) == digits_value(a) * pow10(b.len()) + digits_value(b),
    decreases b.len(),
{
    if b.len() == 0 {
        assert(a + b =~= a);
    } else {
        lemma_digits_concat(a, b.drop_last());
        assert((a + b).drop_last() =~= a + b.drop_last());
        assert((a + b).last() == b.last());
        assert(digits_value(a + b) == (digits_value(a) * pow10((b.len() - 1) as nat)
            + digits_value(b.drop_last())) * 10 + digit_value(b.last()));
        assert(digits_value(a) * pow10(b.len()) == 10 * (digits_value(a) * pow10(
            (b.len() - 1) as nat,
        ))) by (nonlinear_arith)
            requires
                pow10(b.len()) == 10 * pow10((b.len() - 1) as nat),
        ;
    }
}

proof fn lemma_digits_take_step(s: Seq<char>, i: int)
    requires
        0 <= i < s.len(),
    ensures
        digits_value(s.take(i + 1)) == digits_value(s.take(i)) * 10 + digit_value(s[i]),
{
    assert(s.take(i + 1).drop_last() =~= s.take(i));
    assert(s.take(i + 1).last() == s[i]);
}

proof fn lemma_strip_leading(s: Seq<char>, k: int)
    requires
        0 <= k <= s.len(),
        forall|j: int| 0 <= j < k ==> is_space(#[trigger] s[j]),
        k == s.len() || !is_space(s[k]),
    ensures
        strip_leading(s) == s.skip(k),
    decreases k,
{
    if k == 0 {
        assert(s.skip(0) =~= s);
    } else {
        assert(is_space(s[0]));
        lemma_strip_leading(s.drop_first(), k - 1);
        assert(s.drop_first().skip(k - 1) =~= s.skip(k));
    }
}

proof fn lemma_strip_trailing(s: Seq<char>, k: int)
    requires
        0 <= k <= s.len(),
        forall|j: int| k <= j < s.len() ==> is_space(#[trigger] s[j]),
        k == 0 || !is_space(s[k - 1]),
    ensures
        strip_trailing(s) == s.take(k),
    decreases s.len() - k,
{
    if k == s.len() {
        assert(s.take(k) =~= s);
    } else {
        assert(is_space(s.last()));
        lemma_strip_trailing(s.drop_last(), k);
        assert(s.drop_last().take(k) =~= s.take(k));
    }
}

/// Under the numeral shape, the point's position is unique, so the split is
/// exactly the ranges on either side of it.
proof fn lemma_split_at_dot_unique(t: Seq<char>, i: int)
    requires
        0 <= i < t.len(),
        t[i] == '.',
        all_digits(t.take(i)),
        all_digits(t.skip(i + 1)),
    ensures
        split_at_dot(t) == (t.take(i), t.skip(i + 1)),
{
    let j = choose|j: int| 0 <= j < t.len() && #[trigger] t[j] == '.';
    if j < i {
        assert(is_ascii_digit(t.take(i)[j]));
        assert(false);
    } else if j > i {
        assert(is_ascii_digit(t.skip(i + 1)[j - i - 1]));
        assert(false);
    }
}

/// A numeral without a point splits into itself and an empty fraction.
proof fn lemma_split_at_dot_none(t: Seq<char>)
    requires
        all_digits(t),
    ensures
        split_at_dot(t) == (t, Seq::<char>::empty()),
{
    if exists|i: int| 0 <= i < t.len() && #[trigger] t[i] == '.' {
        let i = choose|i: int| 0 <= i < t.len() && #[trigger] t[i] == '.';
        assert(is_ascii_digit(t[i]));
        assert(false);
    }
}

/// Law: the conversion truncates toward zero by less than one atomic unit.
/// With `(ip, fp)` the digits on either side of the point, the display value
/// is `digits_value(ip + fp) / pow10(fp.len())` display units; scaling the
/// atomic result back by the fraction's denominator brackets the exact
/// scaled value within one:
/// `atomic <= value * 10^9 < atomic + 1` (all terms times `pow10(fp.len())`).
/// Recovering the display value from the atomic value is therefore exact to
/// within one atomic unit.
pub proof fn lemma_atomic_truncation(t: Seq<char>)
    requires
        decimal_shape(t),
    ensures
        ({
            let (ip, fp) = split_at_dot(t);
            atomic_value(t) * pow10(fp.len()) <= digits_value(ip + fp) * pow10(
                ATOMIC_SCALE_DIGITS as nat,
            ) < (atomic_value(t) + 1) * pow10(fp.len())
        }),
{
    let (ip, fp) = split_at_dot(t);
    let k = fp.len();
    let p9 = pow10(ATOMIC_SCALE_DIGITS as nat);
    let pk = pow10(k);
    let a = atomic_value(t);
    lemma_pow10_pos(k);
    lemma_pow10_pos(ATOMIC_SCALE_DIGITS as nat);
    // The split's parts are digit strings.
    if t.len() > 0 && all_digits(t) {
        lemma_split_at_dot_none(t);
    } else {
        let i = choose|i: int|
            0 <= i < t.len() && #[trigger] t[i] == '.' && all_digits(t.take(i)) && all_digits(
                t.skip(i + 1),
            );
        lemma_split_at_dot_unique(t, i);
    }
    assert(all_digits(ip));
    assert(all_digits(fp));
    lemma_digits_concat(ip, fp);
    let di = digits_value(ip);
    let df = digits_value(fp);
    assert(digits_value(ip + fp) == di * pk + df);
    lemma_digits_bound(ip);
    lemma_digits_bound(fp);
    if k <= ATOMIC_SCALE_DIGITS {
        // Exact: the fraction scales up without loss.
        let up = pow10((ATOMIC_SCALE_DIGITS - k) as nat);
        assert(a == di * p9 + df * up);
        lemma_pow10_adds((ATOMIC_SCALE_DIGITS - k) as nat, k);
        assert(up * pk == p9);
        assert(a * pk == digits_value(ip + fp) * p9) by (nonlinear_arith)
            requires
                a == di * p9 + df * up,
                digits_value(ip + fp) == di * pk + df,
                up * pk == p9,
        ;
        assert((a + 1) * pk == a * pk + pk) by (nonlinear_arith);
        assert(pk > 0);
    } else {
        // Truncated: the digits beyond the ninth place are the remainder.
        let hi = fp.take(ATOMIC_SCALE_DIGITS as int);
        let lo = fp.skip(ATOMIC_SCALE_DIGITS as int);
        assert(fp =~= hi + lo);
        assert(all_digits(hi));
        assert(all_digits(lo));
        lemma_digits_concat(hi, lo);
        lemma_digits_bound(lo);
        let pr = pow10(lo.len());
        assert(df == digits_value(hi) * pr + digits_value(lo));
        assert(a == di * p9 + digits_value(hi));
        lemma_pow10_adds(ATOMIC_SCALE_DIGITS as nat, lo.len());
        assert(pk == p9 * pr);
        assert(digits_value(ip + fp) * p9 == a * pk + digits_value(lo) * p9) by (nonlinear_arith)
            requires
                digits_value(ip + fp) == di * pk + df,
                df == digits_value(hi) * pr + digits_value(lo),
                a == di * p9 + digits_value(hi),
                pk == p9 * pr,
        ;
        assert(0 <= digits_value(lo) * p9 < pk) by (nonlinear_arith)
            requires
                0 <= digits_value(lo) < pr,
                p9 >= 1,
                pk == p9 * pr,
        ;
        assert((a + 1) * pk == a * pk + pk) by (nonlinear_arith);
    }
}

/// Law: whatever the conversion accepts it converts within one atomic unit.
/// When parsing succeeds with `a`, and `(ip, fp)` are the digits on either
/// side of the point of the trimmed input, the display value it denotes is
/// `digits_value(ip + fp) / pow10(fp.len())`, and `a` brackets that value
/// scaled by 10^9 from below, short by less than one unit.
pub proof fn lemma_accepted_amount_truncates(s: Seq<char>)
    requires
        parse_amount_spec(s) is Ok,
    ensures
        ({
            let t = trimmed(s);
            let (ip, fp) = split_at_dot(t);
            let a = parse_amount_spec(s)->Ok_0;
            a * pow10(fp.len()) <= digits_value(ip + fp) * pow10(ATOMIC_SCALE_DIGITS as nat) < (a
                + 1) * pow10(fp.len())
        }),
{
    let t = trimmed(s);
    lemma_atomic_truncation(t);
    let (ip, fp) = split_at_dot(t);
    // the accepted value is nonnegative, so the result carries it exactly
    if t.len() > 0 && all_digits(t) {
        lemma_split_at_dot_none(t);
    } else {
        let i = choose|i: int|
            0 <= i < t.len() && #[trigger] t[i] == '.' && all_digits(t.take(i)) && all_digits(
                t.skip(i + 1),
            );
        lemma_split_at_dot_unique(t, i);
    }
    lemma_digits_nonneg(ip);
    lemma_pow10_pos(ATOMIC_SCALE_DIGITS as nat);
    assert(digits_value(ip) * pow10(ATOMIC_SCALE_DIGITS as nat) >= 0) by (nonlinear_arith)
        requires
            digits_value(ip) >= 0,
            pow10(ATOMIC_SCALE_DIGITS as nat) >= 1,
    ;
    if fp.len() <= ATOMIC_SCALE_DIGITS {
        lemma_digits_nonneg(fp);
        lemma_pow10_pos((ATOMIC_SCALE_DIGITS - fp.len()) as nat);
        assert(digits_value(fp) * pow10((ATOMIC_SCALE_DIGITS - fp.len()) as nat) >= 0)
            by (nonlinear_arith)
            requires
                digits_value(fp) >= 0,
                pow10((ATOMIC_SCALE_DIGITS - fp.len()) as nat) >= 1,
        ;
    } else {
        assert(all_digits(fp.take(ATOMIC_SCALE_DIGITS as int)));
        lemma_digits_nonneg(fp.take(ATOMIC_SCALE_DIGITS as int));
    }
    assert(atomic_value(t) >= 0);
}

/// Law: the conversion rejects deterministically, and exactly these inputs:
/// whitespace-only input; a well-formed numeral behind a minus sign, and any
/// input that is no unsigned numeral at all; a value below one atomic unit;
/// and a scaled value beyond the unsigned 64-bit range.
pub proof fn lemma_amount_rejections(s: Seq<char>)
    ensures
        ({
            let t = trimmed(s);
            &&& (parse_amount_spec(s) == Err::<u64, AmountError>(AmountError::Empty) <==> t.len()
                == 0)
            &&& (parse_amount_spec(s) == Err::<u64, AmountError>(AmountError::NotPositive) <==> (
            t.len() > 0 && ((t[0] == '-' && decimal_shape(t.skip(1))) || (decimal_shape(t) && !(
            t[0] == '-' && decimal_shape(t.skip(1))) && atomic_value(t) == 0))))
            &&& (parse_amount_spec(s) == Err::<u64, AmountError>(AmountError::Malformed) <==> (
            t.len() > 0 && !decimal_shape(t) && !(t[0] == '-' && decimal_shape(t.skip(1)))))
            &&& (parse_amount_spec(s) == Err::<u64, AmountError>(AmountError::TooLarge) <==> (
            t.len() > 0 && decimal_shape(t) && !(t[0] == '-' && decimal_shape(t.skip(1)))
                && atomic_value(t) > u64::MAX))
        }),
{
}

/// The largest integer part whose scaling alone stays within range:
/// `u64::MAX / 10^9`.
pub const MAX_INTEGER_PART: u64 = 18_446_744_073;

/// What may still follow a full integer part: `u64::MAX - 10^9 * (u64::MAX / 10^9)`.
pub const MAX_FRACTION_AT_CAP: u64 = 709_551_615;

fn is_space_char(c: char) -> (r: bool)
    ensures
        r == is_space(c),
{
    c == ' ' || c == '\t' || c == '\n' || c == '\r'
}

fn is_digit_char(c: char) -> (r: bool)
    ensures
        r == is_ascii_digit(c),
{
    c >= '0' && c <= '9'
}

fn digit_of(c: char) -> (d: u64)
    requires
        is_ascii_digit(c),
    ensures
        d == digit_value(c),
        d <= 9,
{
    ((c as u32) - ('0' as u32)) as u64
}

/// 10^k for the scale's digit positions.
fn pow10_u64(k: usize) -> (r: u64)
    requires
        k <= 9,
    ensures
        r == pow10(k as nat),
{
    proof {
        lemma_pow10_values();
    }
    if k == 0 {
        1
    } else if k == 1 {
        10
    } else if k == 2 {
        100
    } else if k == 3 {
        1_000
    } else if k == 4 {
        10_000
    } else if k == 5 {
        100_000
    } else if k == 6 {
        1_000_000
    } else if k == 7 {
        10_000_000
    } else if k == 8 {
        100_000_000
    } else {
        1_000_000_000
    }
}

fn collect_chars(s: &str) -> (cs: Vec<char>)
    ensures
        cs@ == s@,
{
    let n = s.unicode_len();
    let mut cs: Vec<char> = Vec::new();
    let mut i: usize = 0;
    while i < n
        invariant
            n == s@.len(),
            i <= n,
            cs@ == s@.take(i as int),
        decreases n - i,
    {
        cs.push(s.get_char(i));
        proof {
            assert(s@.take(i + 1 as int) =~= s@.take(i as int).push(s@[i as int]));
        }
        i += 1;
    }
    proof {
        assert(cs@ =~= s@);
    }
    cs
}

/// The bounds of the whitespace-trimmed middle of `cs`.
fn trim_bounds(cs: &Vec<char>) -> (r: (usize, usize))
    ensures
        r.0 <= r.1 <= cs@.len(),
        cs@.subrange(r.0 as int, r.1 as int) == trimmed(cs@),
{
    let n = cs.len();
    let mut start: usize = 0;
    while start < n && is_space_char(cs[start])
        invariant
            start <= n,
            n == cs@.len(),
            forall|j: int| 0 <= j < start ==> is_space(#[trigger] cs@[j]),
        decreases n - start,
    {
        start += 1;
    }
    let mut end: usize = n;
    while end > start && is_space_char(cs[end - 1])
        invariant
            start <= end <= n,
            n == cs@.len(),
            forall|j: int| 0 <= j < start ==> is_space(#[trigger] cs@[j]),
            forall|j: int| end <= j < n ==> is_space(#[trigger] cs@[j]),
        decreases end,
    {
        end -= 1;
    }
    proof {
        lemma_strip_leading(cs@, start as int);
        let mid = cs@.skip(start as int);
        lemma_strip_trailing(mid, end - start);
        assert(mid.take(end - start) =~= cs@.subrange(start as int, end as int));
    }
    (start, end)
}

/// Scans `[start, end)` of `cs` for the numeral shape. Returns whether the
/// shape holds, and the point's position (`end` when there is none).
fn scan_shape(cs: &Vec<char>, start: usize, end: usize) -> (r: (bool, usize))
    requires
        start <= end <= cs@.len(),
    ensures
        ({
            let t = cs@.subrange(start as int, end as int);
            &&& r.0 == decimal_shape(t)
            &&& r.0 ==> start <= r.1 <= end
            &&& (r.0 && r.1 == end) ==> all_digits(t) && t.len() > 0
            &&& (r.0 && r.1 < end) ==> cs@[r.1 as int] == '.' && all_digits(
                t.take(r.1 - start),
            ) && all_digits(t.skip(r.1 - start + 1))
        }),
{
    let ghost t = cs@.subrange(start as int, end as int);
    let mut i: usize = start;
    let mut dot: usize = end;
    let mut seen_dot: bool = false;
    while i < end
        invariant
            start <= i <= end <= cs@.len(),
            t == cs@.subrange(start as int, end as int),
            !seen_dot ==> dot == end && forall|j: int| start <= j < i ==> is_ascii_digit(
                #[trigger] cs@[j],
            ),
            seen_dot ==> start <= dot < i && cs@[dot as int] == '.' && forall|j: int|
                start <= j < i && j != dot ==> is_ascii_digit(#[trigger] cs@[j]),
        decreases end - i,
    {
        let c = cs[i];
        if is_digit_char(c) {
            // fine
        } else if c == '.' && !seen_dot {
            seen_dot = true;
            dot = i;
        } else {
            proof {
                assert(!decimal_shape(t)) by {
                    if decimal_shape(t) {
                        if t.len() > 0 && all_digits(t) {
                            assert(is_ascii_digit(t[i - start]));
                            assert(false);
                        } else {
                            let w = choose|w: int|
                                0 <= w < t.len() && #[trigger] t[w] == '.' && all_digits(
                                    t.take(w),
                                ) && all_digits(t.skip(w + 1));
                            if w + start < i {
                                if seen_dot && w + start != dot {
                                    if w + start < dot {
                                        assert(is_ascii_digit(t[dot - start]) || t.skip(w + 1)[
                                            dot - start - w - 1] == '.');
                                        assert(t.skip(w + 1)[dot - start - w - 1] == '.');
                                        assert(!is_ascii_digit('.'));
                                        assert(false);
                                    } else {
                                        assert(t.take(w)[dot - start] == '.');
                                        assert(!is_ascii_digit('.'));
                                        assert(false);
                                    }
                                }
                                // the scanned prefix admits only one point
                                if !seen_dot {
                                    assert(is_ascii_digit(cs@[w + start]));
                                    assert(false);
                                } else if w + start == dot {
                                    // current char must then be a digit or a second point
                                    if c == '.' {
                                        assert(t.skip(w + 1)[i - start - w - 1] == '.');
                                        assert(!is_ascii_digit('.'));
                                        assert(false);
                                    } else {
                                        assert(is_ascii_digit(t.skip(w + 1)[i - start - w - 1]));
                                        assert(false);
                                    }
                                }
                            } else if w + start == i {
                                // the failing char would itself be the point
                                assert(c == '.');
                                assert(seen_dot);
                                assert(t.take(w)[dot - start] == '.');
                                assert(!is_ascii_digit('.'));
                                assert(false);
                            } else {
                                // the failing char sits before the point, in its
                                // integer digits
                                assert(is_ascii_digit(t.take(w)[i - start]));
                                assert(false);
                            }
                        }
                    }
                };
            }
            return (false, end);
        }
        i += 1;
    }
    let ok = if seen_dot {
        end - start >= 2
    } else {
        end - start >= 1
    };
    proof {
        if seen_dot {
            let w = dot - start;
            if end - start >= 2 {
                assert(t[w] == '.');
                assert(forall|j: int| 0 <= j < w ==> is_ascii_digit(#[trigger] t.take(w)[j]));
                assert(forall|j: int|
                    0 <= j < t.len() - w - 1 ==> is_ascii_digit(#[trigger] t.skip(w + 1)[j]));
                assert(decimal_shape(t));
            } else {
                // only the point itself: no digit anywhere
                assert(t.len() == 1 && t[0] == '.');
                assert(!decimal_shape(t)) by {
                    if decimal_shape(t) {
                        if t.len() > 0 && all_digits(t) {
                            assert(is_ascii_digit(t[0]));
                            assert(false);
                        }
                    }
                };
            }
        } else {
            if end > start {
                assert(forall|j: int| 0 <= j < t.len() ==> is_ascii_digit(#[trigger] t[j]));
                assert(decimal_shape(t));
            } else {
                assert(!decimal_shape(t));
            }
        }
    }
    (ok, dot)
}

/// The value of the digit range `[start, end)`, capped just above the
/// largest integer part that can scale into range: the result is the exact
/// value when that value is at most `MAX_INTEGER_PART`, and the cap plus one
/// otherwise.
fn scan_integer_part(cs: &Vec<char>, start: usize, end: usize) -> (acc: u64)
    requires
        start <= end <= cs@.len(),
        all_digits(cs@.subrange(start as int, end as int)),
    ensures
        ({
            let v = digits_value(cs@.subrange(start as int, end as int));
            if v <= MAX_INTEGER_PART {
                acc == v
            } else {
                acc == MAX_INTEGER_PART + 1
            }
        }),
{
    let ghost t = cs@.subrange(start as int, end as int);
    let mut acc: u64 = 0;
    let mut i: usize = start;
    while i < end
        invariant
            start <= i <= end <= cs@.len(),
            t == cs@.subrange(start as int, end as int),
            all_digits(t),
            ({
                let v = digits_value(t.take(i - start));
                if v <= MAX_INTEGER_PART {
                    acc == v
                } else {
                    acc == MAX_INTEGER_PART + 1
                }
            }),
        decreases end - i,
    {
        let c = cs[i];
        assert(is_ascii_digit(t[i - start]));
        let d = digit_of(c);
        proof {
            lemma_digits_take_step(t, i - start);
            lemma_digits_nonneg(t.take(i - start));
        }
        if acc > MAX_INTEGER_PART {
            // already beyond range; appending digits keeps it there
        } else {
            let next = acc * 10 + d;
            if next > MAX_INTEGER_PART {
                acc = MAX_INTEGER_PART + 1;
            } else {
                acc = next;
            }
        }
        i += 1;
    }
    proof {
        assert(t.take(end - start) =~= t);
    }
    acc
}

/// The fraction's digits scaled to nine places: exactly `frac_scaled` of the
/// range, which is below 10^9.
fn scan_fraction_part(cs: &Vec<char>, start: usize, end: usize) -> (frac: u64)
    requires
        start <= end <= cs@.len(),
        all_digits(cs@.subrange(start as int, end as int)),
    ensures
        frac == frac_scaled(cs@.subrange(start as int, end as int)),
        frac < 1_000_000_000,
{
    let ghost t = cs@.subrange(start as int, end as int);
    let len = end - start;
    let m: usize = if len < 9 {
        len
    } else {
        9
    };
    let mut acc: u64 = 0;
    let mut i: usize = 0;
    proof {
        lemma_pow10_values();
    }
    while i < m
        invariant
            i <= m <= 9,
            m <= len == end - start,
            start <= end <= cs@.len(),
            t == cs@.subrange(start as int, end as int),
            all_digits(t),
            acc == digits_value(t.take(i as int)),
            acc < pow10(i as nat),
            pow10(9) == 1_000_000_000,
        decreases m - i,
    {
        let c = cs[start + i];
        assert(is_ascii_digit(t[i as int]));
        let d = digit_of(c);
        proof {
            lemma_digits_take_step(t, i as int);
            assert(pow10((i + 1) as nat) == 10 * pow10(i as nat));
            assert(acc * 10 + d < 10 * pow10(i as nat)) by (nonlinear_arith)
                requires
                    acc < pow10(i as nat),
                    d <= 9,
                    acc >= 0,
            ;
            lemma_pow10_mono((i + 1) as nat, 9);
        }
        acc = acc * 10 + d;
        i += 1;
    }
    if len <= 9 {
        proof {
            assert(t.take(len as int) =~= t);
            lemma_digits_bound(t);
        }
        let scale = pow10_u64(9 - len);
        proof {
            lemma_pow10_adds((9 - len) as nat, len as nat);
            lemma_pow10_values();
            lemma_pow10_pos((9 - len) as nat);
            assert(pow10(len as nat) * pow10((9 - len) as nat) == 1_000_000_000)
                by (nonlinear_arith)
                requires
                    pow10((9 - len) as nat) * pow10(len as nat) == pow10(9),
                    pow10(9) == 1_000_000_000,
            ;
            assert(acc * scale < 1_000_000_000) by (nonlinear_arith)
                requires
                    0 <= acc < pow10(len as nat),
                    scale == pow10((9 - len) as nat),
                    pow10(len as nat) * pow10((9 - len) as nat) == 1_000_000_000,
                    scale >= 1,
            ;
        }
        acc * scale
    } else {
        proof {
            assert(t.take(9) =~= cs@.subrange(start as int, start + 9));
        }
        acc
    }
}

/// Converts display-unit text to atomic units: exactly `parse_amount_spec`
/// of the characters. Succeeds if and only if the trimmed text is an
/// unsigned decimal numeral whose truncated scaled value is nonzero and
/// fits in 64 bits, and returns that value.
pub fn parse_amount(s: &str) -> (r: Result<u64, AmountError>)
    ensures
        r == parse_amount_spec(s@),
{
    let cs = collect_chars(s);
    let (start, end) = trim_bounds(&cs);
    let ghost t = trimmed(s@);
    if start == end {
        return Err(AmountError::Empty);
    }
    if cs[start] == '-' {
        let (rest_ok, _) = scan_shape(&cs, start + 1, end);
        proof {
            assert(cs@.subrange(start + 1 as int, end as int) =~= t.skip(1));
        }
        if rest_ok {
            return Err(AmountError::NotPositive);
        } else {
            proof {
                assert(!decimal_shape(t)) by {
                    if decimal_shape(t) {
                        if t.len() > 0 && all_digits(t) {
                            assert(is_ascii_digit(t[0]));
                            assert(false);
                        } else {
                            let w = choose|w: int|
                                0 <= w < t.len() && #[trigger] t[w] == '.' && all_digits(
                                    t.take(w),
                                ) && all_digits(t.skip(w + 1));
                            if w == 0 {
                                assert(t[0] == '.');
                                assert(false);
                            } else {
                                assert(is_ascii_digit(t.take(w)[0]));
                                assert(false);
                            }
                        }
                    }
                };
            }
            return Err(AmountError::Malformed);
        }
    }
    let (ok, dot) = scan_shape(&cs, start, end);
    if !ok {
        return Err(AmountError::Malformed);
    }
    let ghost ip = if dot < end {
        t.take(dot - start)
    } else {
        t
    };
    let ghost fp = if dot < end {
        t.skip(dot - start + 1)
    } else {
        Seq::<char>::empty()
    };
    proof {
        if dot < end {
            lemma_split_at_dot_unique(t, dot - start);
        } else {
            lemma_split_at_dot_none(t);
        }
        assert(split_at_dot(t) == (ip, fp));
    }
    let int_end = if dot < end {
        dot
    } else {
        end
    };
    proof {
        assert(cs@.subrange(start as int, int_end as int) =~= ip);
    }
    let int_acc = scan_integer_part(&cs, start, int_end);
    let frac_acc = if dot < end {
        proof {
            assert(cs@.subrange(dot + 1 as int, end as int) =~= fp);
        }
        scan_fraction_part(&cs, dot + 1, end)
    } else {
        proof {
            assert(digits_value(fp) == 0);
            assert(frac_scaled(fp) == 0 * pow10(9));
        }
        0u64
    };
    proof {
        lemma_pow10_values();
        lemma_digits_nonneg(ip);
        assert(atomic_value(t) == digits_value(ip) * 1_000_000_000 + frac_scaled(fp));
    }
    if int_acc > MAX_INTEGER_PART {
        // the integer part alone exceeds the range
        proof {
            assert(digits_value(ip) * 1_000_000_000 > u64::MAX) by (nonlinear_arith)
                requires
                    digits_value(ip) > MAX_INTEGER_PART,
            ;
            assert(frac_scaled(fp) >= 0) by {
                if fp.len() <= 9 {
                    lemma_digits_nonneg(fp);
                    lemma_pow10_pos((9 - fp.len()) as nat);
                    assert(digits_value(fp) * pow10((9 - fp.len()) as nat) >= 0)
                        by (nonlinear_arith)
                        requires
                            digits_value(fp) >= 0,
                            pow10((9 - fp.len()) as nat) >= 1,
                    ;
                } else {
                    assert(all_digits(fp.take(9)));
                    lemma_digits_nonneg(fp.take(9));
                }
            };
        }
        return Err(AmountError::TooLarge);
    }
    // here int_acc == digits_value(ip) <= MAX_INTEGER_PART
    proof {
        assert(int_acc * 1_000_000_000 <= MAX_INTEGER_PART * 1_000_000_000) by (nonlinear_arith)
            requires
                int_acc <= MAX_INTEGER_PART,
        ;
    }
    let atomic = int_acc * 1_000_000_000;
    if int_acc == MAX_INTEGER_PART && frac_acc > MAX_FRACTION_AT_CAP {
        return Err(AmountError::TooLarge);
    }
    proof {
        if int_acc < MAX_INTEGER_PART {
            assert(int_acc * 1_000_000_000 <= (MAX_INTEGER_PART - 1) * 1_000_000_000)
                by (nonlinear_arith)
                requires
                    int_acc <= MAX_INTEGER_PART - 1,
            ;
        }
    }
    let atomic = atomic + frac_acc;
    if atomic == 0 {
        return Err(AmountError::NotPositive);
    }
    Ok(atomic)
}

/// Converts optional display-unit text to atomic units: whitespace-only
/// input is a valid "none" worth zero; anything else follows
/// `parse_amount`. Exactly `parse_sol_amount_spec` of the characters.
pub fn parse_sol_amount(s: &str) -> (r: Result<u64, AmountError>)
    ensures
        r == parse_sol_amount_spec(s@),
{
    match parse_amount(s) {
        Err(AmountError::Empty) => Ok(0),
        other => other,
    }
}

/// Why a commission was rejected.
#[derive(Debug, PartialEq, Eq, Structural)]
pub enum CommissionError {
    /// The input is not an unsigned whole number.
    Malformed,
    /// The number exceeds one hundred percent.
    OutOfRange,
}

/// What reading a commission percentage must produce: empty input defaults
/// to zero; otherwise the input must be a whole number of at most one
/// hundred.
pub open spec fn parse_commission_spec(s: Seq<char>) -> Result<u8, CommissionError> {
    let t = trimmed(s);
    if t.len() == 0 {
        Ok(0)
    } else if !all_digits(t) {
        Err(CommissionError::Malformed)
    } else if digits_value(t) > 100 {
        Err(CommissionError::OutOfRange)
    } else {
        Ok(digits_value(t) as u8)
    }
}

/// A validator commission percentage, held only within its valid range.
#[derive(Debug)]
pub struct Commission {
    pub percent: u8,
}

impl Commission {
    /// A commission never exceeds one hundred percent.
    pub open spec fn wf(&self) -> bool {
        self.percent <= 100
    }

    pub fn new(percent: u8) -> (r: Commission)
        requires
            percent <= 100,
        ensures
            r.percent == percent,
            r.wf(),
    {
        Commission { percent }
    }

    pub fn value(&self) -> (r: u8)
        ensures
            r == self.percent,
    {
        self.percent
    }

    /// Reads a commission from text: exactly `parse_commission_spec`.
    pub fn parse(s: &str) -> (r: Result<Commission, CommissionError>)
        ensures
            match r {
                Ok(c) => parse_commission_spec(s@) == Ok::<u8, CommissionError>(c.percent)
                    && c.wf(),
                Err(e) => parse_commission_spec(s@) == Err::<u8, CommissionError>(e),
            },
    {
        match parse_commission(s) {
            Ok(percent) => {
                proof {
                    let t = trimmed(s@);
                    if t.len() != 0 {
                        lemma_digits_nonneg(t);
                    }
                }
                Ok(Commission { percent })
            },
            Err(e) => Err(e),
        }
    }
}

/// Reads a commission percentage from text: exactly
/// `parse_commission_spec` of the characters.
pub fn parse_commission(s: &str) -> (r: Result<u8, CommissionError>)
    ensures
        r == parse_commission_spec(s@),
{
    let cs = collect_chars(s);
    let (start, end) = trim_bounds(&cs);
    let ghost t = trimmed(s@);
    if start == end {
        return Ok(0);
    }
    // every character must be a digit
    let mut i: usize = start;
    while i < end
        invariant
            start <= i <= end <= cs@.len(),
            t == trimmed(s@),
            t == cs@.subrange(start as int, end as int),
            forall|j: int| start <= j < i ==> is_ascii_digit(#[trigger] cs@[j]),
        decreases end - i,
    {
        if !is_digit_char(cs[i]) {
            proof {
                assert(t[i - start] == cs@[i as int]);
                assert(!all_digits(t));
            }
            return Err(CommissionError::Malformed);
        }
        i += 1;
    }
    proof {
        assert(forall|j: int| 0 <= j < t.len() ==> is_ascii_digit(#[trigger] t[j]));
    }
    let v = scan_integer_part(&cs, start, end);
    proof {
        lemma_digits_nonneg(t);
    }
    if v > 100 {
        return Err(CommissionError::OutOfRange);
    }
    Ok(v as u8)
}

} // verus!

