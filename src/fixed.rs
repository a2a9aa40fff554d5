//! Fixed-point quantities and their decimal text form.
//!
//! A health, a ratio, a temperature or a duration is held as an integer
//! count of units of one hundred-thousandth (`SCALE` units make `1.0`).
//! This module formats such values with a given number of decimal places
//! and parses decimal text back into units.

use vstd::prelude::*;

verus! {

/// Units in `1.0`.
pub const SCALE: u32 = 100_000;

/// Largest magnitude that a parsed decimal saturates to (one billion).
pub const PARSE_CAP: i64 = 100_000_000_000_000;

pub open spec fn pow10(n: nat) -> nat
    decreases n,
{
    if n == 0 {
        1
    } else {
        10 * pow10((n - 1) as nat)
    }
}

pub open spec fn digit_char(d: nat) -> char {
    if d == 0 {
        '0'
    } else if d == 1 {
        '1'
    } else if d == 2 {
        '2'
    } else if d == 3 {
        '3'
    } else if d == 4 {
        '4'
    } else if d == 5 {
        '5'
    } else if d == 6 {
        '6'
    } else if d == 7 {
        '7'
    } else if d == 8 {
        '8'
    } else {
        '9'
    }
}

pub open spec fn is_digit(c: char) -> bool {
    '0' <= c && c <= '9'
}

pub open spec fn digit_value(c: char) -> nat {
    (c as u32 - '0' as u32) as nat
}

/// The decimal digits of `n`, most significant first, without leading zeros.
pub open spec fn digits_of(n: nat) -> Seq<char>
    decreases n,
{
    if n < 10 {
        seq![digit_char(n)]
    } else {
        digits_of(n / 10).push(digit_char(n % 10))
    }
}

/// The last `width` decimal digits of `n`, zero padded on the left.
pub open spec fn padded_digits(n: nat, width: nat) -> Seq<char>
    decreases width,
{
    if width == 0 {
        Seq::empty()
    } else {
        padded_digits(n / 10, (width - 1) as nat).push(digit_char(n % 10))
    }
}

/// The number that a string of decimal digits denotes.
pub open spec fn value_of(s: Seq<char>) -> nat
    decreases s.len(),
{
    if s.len() == 0 {
        0
    } else {
        value_of(s.drop_last()) * 10 + digit_value(s.last())
    }
}

/// `v` units rounded half up to `places` decimal places (at most five).
pub open spec fn rounded(v: nat, places: nat) -> nat {
    let div = pow10((5 - places) as nat);
    (v + div / 2) / div
}

/// `v` units written with `places` decimals, e.g. `0.98000` for `98000`
/// units at five places and `0.98` at two.
pub open spec fn fixed_text(v: nat, places: nat) -> Seq<char> {
    let q = rounded(v, places);
    if places == 0 {
        digits_of(q)
    } else {
        digits_of(q / pow10(places)) + seq!['.'] + padded_digits(q % pow10(places), places)
    }
}

/// A signed quantity written with `places` decimals and a leading `-` when
/// it is negative.
pub open spec fn signed_fixed_text(v: int, places: nat) -> Seq<char> {
    if v < 0 {
        seq!['-'] + fixed_text((-v) as nat, places)
    } else {
        fixed_text(v as nat, places)
    }
}

fn digit_to_char(d: u64) -> (c: char)
    requires
        d < 10,
    ensures
        c == digit_char(d as nat),
{
    if d == 0 {
        '0'
    } else if d == 1 {
        '1'
    } else if d == 2 {
        '2'
    } else if d == 3 {
        '3'
    } else if d == 4 {
        '4'
    } else if d == 5 {
        '5'
    } else if d == 6 {
        '6'
    } else if d == 7 {
        '7'
    } else if d == 8 {
        '8'
    } else {
        '9'
    }
}

/// Relies on `String::push`: appends one character at the end.
#[verifier::external_body]
pub(crate) fn push_char(s: &mut String, c: char)
    ensures
        final(s)@ == old(s)@.push(c),
{
    s.push(c);
}

/// The decimal text of `n`.
pub fn format_u64(n: u64) -> (r: String)
    ensures
        r@ == digits_of(n as nat),
{
    let mut rev: Vec<char> = Vec::new();
    let mut m: u64 = n;
    // digits of `n` = digits of `m` followed by the reverse of `rev`
    while m >= 10
        invariant
            digits_of(n as nat) == digits_of(m as nat) + rev@.reverse(),
        decreases m,
    {
        let d = m % 10;
        let c = digit_to_char(d);
        proof {
            assert(digits_of(m as nat) == digits_of((m / 10) as nat).push(c));
            assert(rev@.push(c).reverse() =~= seq![c] + rev@.reverse());
            assert(digits_of((m / 10) as nat).push(c) + rev@.reverse() =~= digits_of(
                (m / 10) as nat,
            ) + (seq![c] + rev@.reverse()));
        }
        rev.push(c);
        m = m / 10;
    }
    let first = digit_to_char(m);
    let mut out = String::new();
    push_char(&mut out, first);
    let mut i: usize = rev.len();
    while i > 0
        invariant
            i <= rev.len(),
            digits_of(n as nat) == seq![first] + rev@.reverse(),
            out@ == seq![first] + rev@.subrange(i as int, rev.len() as int).reverse(),
        decreases i,
    {
        i = i - 1;
        proof {
            assert(rev@.subrange(i as int, rev.len() as int).reverse() =~= rev@.subrange(
                i + 1,
                rev.len() as int,
            ).reverse().push(rev@[i as int]));
        }
        push_char(&mut out, rev[i]);
    }
    proof {
        assert(rev@.subrange(0, rev.len() as int) =~= rev@);
    }
    out
}

pub fn pow10_u64(n: u32) -> (r: u64)
    requires
        n <= 18,
    ensures
        r == pow10(n as nat),
{
    let mut r: u64 = 1;
    let mut i: u32 = 0;
    while i < n
        invariant
            i <= n <= 18,
            r == pow10(i as nat),
        decreases n - i,
    {
        proof {
            lemma_pow10_bound(i as nat);
        }
        r = r * 10;
        i = i + 1;
    }
    r
}

pub proof fn lemma_pow10_mono(m: nat, n: nat)
    requires
        m <= n,
    ensures
        1 <= pow10(m) <= pow10(n),
    decreases n,
{
    if n > m {
        lemma_pow10_mono(m, (n - 1) as nat);
    } else {
        lemma_pow10_pos(m);
    }
}

pub proof fn lemma_pow10_pos(n: nat)
    ensures
        1 <= pow10(n),
    decreases n,
{
    if n > 0 {
        lemma_pow10_pos((n - 1) as nat);
    }
}

pub proof fn lemma_pow10_bound(n: nat)
    requires
        n <= 18,
    ensures
        1 <= pow10(n) <= 1_000_000_000_000_000_000,
{
    reveal_with_fuel(pow10, 19);
    lemma_pow10_mono(n, 18);
}

/// The last `width` digits of `n`, zero padded on the left.
pub fn format_padded(n: u64, width: u32) -> (r: String)
    ensures
        r@ == padded_digits(n as nat, width as nat),
{
    let mut rev: Vec<char> = Vec::new();
    let mut m: u64 = n;
    let mut k: u32 = width;
    while k > 0
        invariant
            k <= width,
            padded_digits(n as nat, width as nat) == padded_digits(m as nat, k as nat)
                + rev@.reverse(),
        decreases k,
    {
        let c = digit_to_char(m % 10);
        proof {
            assert(rev@.push(c).reverse() =~= seq![c] + rev@.reverse());
            assert(padded_digits((m / 10) as nat, (k - 1) as nat).push(c) + rev@.reverse()
                =~= padded_digits((m / 10) as nat, (k - 1) as nat) + (seq![c]
                + rev@.reverse()));
        }
        rev.push(c);
        m = m / 10;
        k = k - 1;
    }
    let mut out = String::new();
    let mut i: usize = rev.len();
    while i > 0
        invariant
            i <= rev.len(),
            padded_digits(n as nat, width as nat) == rev@.reverse(),
            out@ == rev@.subrange(i as int, rev.len() as int).reverse(),
        decreases i,
    {
        i = i - 1;
        proof {
            assert(rev@.subrange(i as int, rev.len() as int).reverse() =~= rev@.subrange(
                i + 1,
                rev.len() as int,
            ).reverse().push(rev@[i as int]));
        }
        push_char(&mut out, rev[i]);
    }
    proof {
        assert(rev@.subrange(0, rev.len() as int) =~= rev@);
        assert(padded_digits(0, 0) =~= Seq::<char>::empty());
    }
    out
}

/// `v` units as decimal text with `places` decimals, rounded half up.
pub fn format_fixed(v: u64, places: u32) -> (r: String)
    requires
        places <= 5,
        v <= u64::MAX / 2,
    ensures
        r@ == fixed_text(v as nat, places as nat),
{
    let div = pow10_u64(5 - places);
    let unit = pow10_u64(places);
    proof {
        lemma_pow10_bound((5 - places) as nat);
        lemma_pow10_bound(places as nat);
    }
    let q = (v + div / 2) / div;
    assert(q == rounded(v as nat, places as nat));
    let mut out = format_u64(q / unit);
    if places > 0 {
        push_char(&mut out, '.');
        let frac = format_padded(q % unit, places);
        out.append(frac.as_str());
    } else {
        assert(unit == 1);
        assert(q / unit == q) by (nonlinear_arith)
            requires
                unit == 1,
        ;
    }
    out
}

/// A signed quantity of units as decimal text with `places` decimals.
pub fn format_signed(v: i64, places: u32) -> (r: String)
    requires
        places <= 5,
        v > i64::MIN,
    ensures
        r@ == signed_fixed_text(v as int, places as nat),
{
    if v < 0 {
        let mut out = String::new();
        push_char(&mut out, '-');
        let body = format_fixed((-v) as u64, places);
        out.append(body.as_str());
        out
    } else {
        format_fixed(v as u64, places)
    }
}

/// Exponents beyond this magnitude (one million) saturate while parsing.
pub const EXP_CAP: u64 = 1_000_000;

pub open spec fn all_digits(s: Seq<char>) -> bool {
    forall|i: int| 0 <= i < s.len() ==> is_digit(#[trigger] s[i])
}

/// `v`, or `cap` when `v` is larger.
pub open spec fn sat(v: nat, cap: nat) -> nat {
    if v < cap {
        v
    } else {
        cap
    }
}

/// Index of the first `a` or `b` in `s`, or its length when there is none.
pub open spec fn first_of(s: Seq<char>, a: char, b: char) -> nat
    decreases s.len(),
{
    if s.len() == 0 {
        0
    } else if s[0] == a || s[0] == b {
        0
    } else {
        1 + first_of(s.drop_first(), a, b)
    }
}

pub open spec fn sign_len(s: Seq<char>) -> nat {
    if s.len() > 0 && (s[0] == '-' || s[0] == '+') {
        1
    } else {
        0
    }
}

pub open spec fn unsigned_body(s: Seq<char>) -> Seq<char> {
    s.skip(sign_len(s) as int)
}

/// The body before its exponent marker (`e` or `E`).
pub open spec fn mantissa(s: Seq<char>) -> Seq<char> {
    let b = unsigned_body(s);
    b.take(first_of(b, 'e', 'E') as int)
}

pub open spec fn has_exp(s: Seq<char>) -> bool {
    let b = unsigned_body(s);
    first_of(b, 'e', 'E') < b.len()
}

/// What follows the exponent marker.
pub open spec fn exp_part(s: Seq<char>) -> Seq<char> {
    let b = unsigned_body(s);
    if has_exp(s) {
        b.skip(first_of(b, 'e', 'E') + 1int)
    } else {
        Seq::empty()
    }
}

pub open spec fn exp_digits(s: Seq<char>) -> Seq<char> {
    exp_part(s).skip(sign_len(exp_part(s)) as int)
}

/// The exponent, saturated at `EXP_CAP` in magnitude; `0` without one.
pub open spec fn exponent(s: Seq<char>) -> int {
    if !has_exp(s) {
        0
    } else if sign_len(exp_part(s)) > 0 && exp_part(s)[0] == '-' {
        -sat(value_of(exp_digits(s)), EXP_CAP as nat)
    } else {
        sat(value_of(exp_digits(s)), EXP_CAP as nat) as int
    }
}

pub open spec fn int_digits(s: Seq<char>) -> Seq<char> {
    let m = mantissa(s);
    m.take(first_of(m, '.', '.') as int)
}

pub open spec fn frac_digits(s: Seq<char>) -> Seq<char> {
    let m = mantissa(s);
    if first_of(m, '.', '.') < m.len() {
        m.skip(first_of(m, '.', '.') + 1int)
    } else {
        Seq::empty()
    }
}

/// `[sign] digits [. digits] [(e|E) [sign] digits]`, with at least one
/// digit before the exponent.
pub open spec fn is_decimal(s: Seq<char>) -> bool {
    &&& all_digits(int_digits(s))
    &&& all_digits(frac_digits(s))
    &&& int_digits(s).len() + frac_digits(s).len() > 0
    &&& has_exp(s) ==> exp_digits(s).len() > 0 && all_digits(exp_digits(s))
}

/// Whether `a` spells the lower-case ASCII word `w`, in any case.
pub open spec fn spells(a: Seq<char>, w: Seq<char>) -> bool {
    &&& a.len() == w.len()
    &&& forall|i: int| 0 <= i < a.len() ==> (#[trigger] a[i] == w[i] || a[i] as u32 + 32 == w[i] as u32)
}

/// `[sign] inf` or `[sign] infinity`, in any case.
pub open spec fn is_infinity(s: Seq<char>) -> bool {
    spells(unsigned_body(s), "inf"@) || spells(unsigned_body(s), "infinity"@)
}

/// The first `p` digits of `d`, padded with zeros on the right; empty when
/// `p` is not positive.
pub open spec fn scaled_window(d: Seq<char>, p: int) -> Seq<char> {
    if p <= 0 {
        Seq::empty()
    } else {
        Seq::new(p as nat, |j: int| if j < d.len() { d[j] } else { '0' })
    }
}

/// Units that numeric text stands for, ignoring the sign: the number times
/// `SCALE`, with digits past the units place dropped, saturated at
/// `PARSE_CAP`.
pub open spec fn decimal_magnitude(s: Seq<char>) -> nat {
    let d = int_digits(s) + frac_digits(s);
    sat(value_of(scaled_window(d, int_digits(s).len() + 5 + exponent(s))), PARSE_CAP as nat)
}

/// The signed number of units that `s` denotes, if it is numeric text;
/// infinity saturates at `PARSE_CAP`.
pub open spec fn decimal_units(s: Seq<char>) -> Option<int> {
    if is_infinity(s) {
        if s[0] == '-' {
            Some(-PARSE_CAP)
        } else {
            Some(PARSE_CAP as int)
        }
    } else if is_decimal(s) {
        if s[0] == '-' {
            Some(-decimal_magnitude(s))
        } else {
            Some(decimal_magnitude(s) as int)
        }
    } else {
        None
    }
}

pub proof fn lemma_first_of(b: Seq<char>, x: char, y: char, d: nat)
    requires
        d <= b.len(),
        forall|k: int| 0 <= k < d ==> b[k] != x && b[k] != y,
        d == b.len() || b[d as int] == x || b[d as int] == y,
    ensures
        first_of(b, x, y) == d,
    decreases d,
{
    if d > 0 {
        assert forall|k: int| 0 <= k < d - 1 implies b.drop_first()[k] != x && b.drop_first()[k] != y by {
            assert(b.drop_first()[k] == b[k + 1]);
        }
        lemma_first_of(b.drop_first(), x, y, (d - 1) as nat);
    }
}

pub proof fn lemma_value_of_push(s: Seq<char>, c: char)
    ensures
        value_of(s.push(c)) == value_of(s) * 10 + digit_value(c),
{
    assert(s.push(c).drop_last() =~= s);
}

proof fn lemma_take_mono(w: Seq<char>, j: nat, k: nat)
    requires
        j <= k <= w.len(),
    ensures
        value_of(w.take(j as int)) <= value_of(w.take(k as int)),
    decreases k,
{
    if k > j {
        lemma_take_mono(w, j, (k - 1) as nat);
        assert(w.take(k as int) =~= w.take(k - 1).push(w[k - 1]));
        lemma_value_of_push(w.take(k - 1), w[k - 1]);
    }
}

proof fn lemma_take_zeros(w: Seq<char>, j: nat, k: nat)
    requires
        j <= k <= w.len(),
        value_of(w.take(j as int)) == 0,
        forall|i: int| j <= i < w.len() ==> w[i] == '0',
    ensures
        value_of(w.take(k as int)) == 0,
    decreases k,
{
    if k > j {
        lemma_take_zeros(w, j, (k - 1) as nat);
        assert(w.take(k as int) =~= w.take(k - 1).push(w[k - 1]));
        lemma_value_of_push(w.take(k - 1), w[k - 1]);
    }
}

fn char_digit(c: char) -> (r: Option<u64>)
    ensures
        r is Some <==> is_digit(c),
        r is Some ==> r->0 == digit_value(c) && r->0 < 10,
{
    if '0' <= c && c <= '9' {
        Some((c as u32 - '0' as u32) as u64)
    } else {
        None
    }
}

/// First index in `[from, to)` of `x` or `y`, or `to`.
fn find_first(s: &str, from: usize, to: usize, x: char, y: char) -> (r: usize)
    requires
        from <= to <= s@.len(),
    ensures
        from <= r <= to,
        first_of(s@.subrange(from as int, to as int), x, y) == r - from,
{
    let mut j: usize = from;
    while j < to && s.get_char(j) != x && s.get_char(j) != y
        invariant
            from <= j <= to <= s@.len(),
            forall|k: int| from <= k < j ==> s@[k] != x && s@[k] != y,
        decreases to - j,
    {
        j = j + 1;
    }
    proof {
        let b = s@.subrange(from as int, to as int);
        assert forall|k: int| 0 <= k < j - from implies b[k] != x && b[k] != y by {
            assert(b[k] == s@[k + from]);
        }
        if j < to {
            assert(b[j - from] == s@[j as int]);
        }
        lemma_first_of(b, x, y, (j - from) as nat);
    }
    j
}

/// Whether every character in `[from, to)` is a digit.
fn digits_between(s: &str, from: usize, to: usize) -> (r: bool)
    requires
        from <= to <= s@.len(),
    ensures
        r == all_digits(s@.subrange(from as int, to as int)),
{
    let ghost b = s@.subrange(from as int, to as int);
    let mut k: usize = from;
    while k < to
        invariant
            from <= k <= to <= s@.len(),
            b == s@.subrange(from as int, to as int),
            forall|m: int| from <= m < k ==> is_digit(#[trigger] s@[m]),
        decreases to - k,
    {
        if char_digit(s.get_char(k)).is_none() {
            assert(b[k - from] == s@[k as int]);
            return false;
        }
        k = k + 1;
    }
    assert forall|m: int| 0 <= m < b.len() implies is_digit(#[trigger] b[m]) by {
        assert(b[m] == s@[m + from]);
    }
    true
}

/// The digits in `[from, to)` as a number, saturated at `cap`.
fn saturated_value(s: &str, from: usize, to: usize, cap: u64) -> (r: u64)
    requires
        from <= to <= s@.len(),
        all_digits(s@.subrange(from as int, to as int)),
        0 < cap <= PARSE_CAP,
    ensures
        r == sat(value_of(s@.subrange(from as int, to as int)), cap as nat),
{
    let mut acc: u64 = 0;
    let mut i: usize = from;
    assert(s@.subrange(from as int, from as int) =~= Seq::<char>::empty());
    while i < to
        invariant
            from <= i <= to <= s@.len(),
            0 < cap <= PARSE_CAP,
            all_digits(s@.subrange(from as int, to as int)),
            acc == sat(value_of(s@.subrange(from as int, i as int)), cap as nat),
        decreases to - i,
    {
        let c = s.get_char(i);
        assert(s@.subrange(from as int, to as int)[i - from] == c);
        let d = match char_digit(c) {
            Some(d) => d,
            None => 0,
        };
        proof {
            assert(s@.subrange(from as int, i + 1) =~= s@.subrange(from as int, i as int).push(c));
            lemma_value_of_push(s@.subrange(from as int, i as int), c);
        }
        acc = if acc * 10 + d < cap {
            acc * 10 + d
        } else {
            cap
        };
        i = i + 1;
    }
    acc
}

/// Whether the text from `from` on spells the lower-case ASCII `word`.
fn spells_from(s: &str, from: usize, word: &str) -> (r: bool)
    requires
        from <= s@.len(),
    ensures
        r == spells(s@.skip(from as int), word@),
{
    let ghost a = s@.skip(from as int);
    let n = s.unicode_len();
    let m = word.unicode_len();
    if n - from != m {
        return false;
    }
    let mut i: usize = 0;
    while i < m
        invariant
            i <= m,
            m == word@.len(),
            n == s@.len(),
            n - from == m,
            a == s@.skip(from as int),
            forall|k: int| 0 <= k < i ==> (#[trigger] a[k] == word@[k] || a[k] as u32 + 32 == word@[k] as u32),
        decreases m - i,
    {
        let c = s.get_char(from + i);
        let w = word.get_char(i);
        assert(a[i as int] == c);
        if !(c == w || c as u32 + 32 == w as u32) {
            return false;
        }
        i = i + 1;
    }
    true
}

/// The value of the first `p` digits of `d` (padded with zeros), saturated
/// at `PARSE_CAP`, where `d` is `[a, b)` followed by `[c, e)` of the text.
fn window_value(s: &str, a: usize, b: usize, c: usize, e: usize, p: i128) -> (r: u64)
    requires
        a <= b <= c <= e <= s@.len(),
        all_digits(s@.subrange(a as int, b as int)),
        all_digits(s@.subrange(c as int, e as int)),
    ensures
        r == sat(
            value_of(
                scaled_window(s@.subrange(a as int, b as int) + s@.subrange(c as int, e as int), p as int),
            ),
            PARSE_CAP as nat,
        ),
{
    let ghost d = s@.subrange(a as int, b as int) + s@.subrange(c as int, e as int);
    let ghost w = scaled_window(d, p as int);
    if p <= 0 {
        return 0;
    }
    let lb = (b - a) as u128;
    let len = lb + (e - c) as u128;
    let cap = PARSE_CAP as u64;
    let mut acc: u64 = 0;
    let mut j: u128 = 0;
    assert(w.take(0) =~= Seq::<char>::empty());
    while j < p as u128
        invariant
            0 <= j <= p,
            p > 0,
            w.len() == p,
            lb == b - a,
            len == d.len(),
            a <= b <= c <= e <= s@.len(),
            d == s@.subrange(a as int, b as int) + s@.subrange(c as int, e as int),
            w == scaled_window(d, p as int),
            all_digits(s@.subrange(a as int, b as int)),
            all_digits(s@.subrange(c as int, e as int)),
            cap == PARSE_CAP,
            acc == sat(value_of(w.take(j as int)), cap as nat),
        decreases p - j,
    {
        if acc == cap {
            proof {
                lemma_take_mono(w, j as nat, w.len());
                assert(w.take(w.len() as int) =~= w);
            }
            return cap;
        }
        if j >= len && acc == 0 {
            proof {
                assert forall|i: int| j <= i < w.len() implies w[i] == '0' by {}
                lemma_take_zeros(w, j as nat, w.len());
                assert(w.take(w.len() as int) =~= w);
            }
            return 0;
        }
        let ch = if j < lb {
            s.get_char(a + j as usize)
        } else if j < len {
            s.get_char(c + (j - lb) as usize)
        } else {
            '0'
        };
        proof {
            if j < lb {
                assert(s@.subrange(a as int, b as int)[j as int] == ch);
            } else if j < len {
                assert(s@.subrange(c as int, e as int)[j - lb] == ch);
            }
            assert(w[j as int] == ch);
            assert(is_digit(ch));
            assert(w.take(j + 1) =~= w.take(j as int).push(ch));
            lemma_value_of_push(w.take(j as int), ch);
        }
        let dv = match char_digit(ch) {
            Some(v) => v,
            None => 0,
        };
        acc = if acc * 10 + dv < cap {
            acc * 10 + dv
        } else {
            cap
        };
        j = j + 1;
    }
    assert(w.take(p as int) =~= w);
    acc
}

/// Parses numeric text into signed units.
pub fn parse_decimal(s: &str) -> (r: Option<i64>)
    ensures
        match r {
            Some(v) => decimal_units(s@) == Some(v as int),
            None => decimal_units(s@) is None,
        },
        r is Some ==> -PARSE_CAP <= r->0 <= PARSE_CAP,
{
    let n = s.unicode_len();
    let ghost t = s@;
    let mut start: usize = 0;
    let mut neg = false;
    if n > 0 {
        let c0 = s.get_char(0);
        if c0 == '-' || c0 == '+' {
            start = 1;
            neg = c0 == '-';
        }
    }
    let ghost body = unsigned_body(t);
    assert(start == sign_len(t));
    assert(body =~= t.subrange(start as int, n as int));
    assert(neg == (t.len() > 0 && t[0] == '-'));
    assert(t.skip(start as int) =~= body);
    if spells_from(s, start, "inf") || spells_from(s, start, "infinity") {
        assert(is_infinity(t));
        assert(t.len() > 0) by {
            reveal_strlit("inf");
            reveal_strlit("infinity");
        }
        assert(decimal_units(t) == Some(if neg { -PARSE_CAP as int } else { PARSE_CAP as int }));
        return if neg {
            Some(-PARSE_CAP)
        } else {
            Some(PARSE_CAP)
        };
    }
    assert(!is_infinity(t));
    match parse_unsigned(s, start) {
        Some(mag) => {
            if neg {
                Some(-(mag as i64))
            } else {
                Some(mag as i64)
            }
        },
        None => None,
    }
}

/// Parses the numeric text after a sign of `start` characters into units.
fn parse_unsigned(s: &str, start: usize) -> (r: Option<u64>)
    requires
        start == sign_len(s@),
    ensures
        r is Some <==> is_decimal(s@),
        r is Some ==> r->0 == decimal_magnitude(s@) && r->0 <= PARSE_CAP,
{
    let n = s.unicode_len();
    let ghost t = s@;
    assert(unsigned_body(t) =~= t.subrange(start as int, n as int));
    let e = find_first(s, start, n, 'e', 'E');
    let ghost m = mantissa(t);
    assert(m =~= t.subrange(start as int, e as int));
    let d = find_first(s, start, e, '.', '.');
    let fstart: usize = if d < e {
        d + 1
    } else {
        e
    };
    assert(int_digits(t) =~= t.subrange(start as int, d as int));
    assert(frac_digits(t) =~= t.subrange(fstart as int, e as int));
    if !digits_between(s, start, d) || !digits_between(s, fstart, e) {
        return None;
    }
    if d - start == 0 && e - fstart == 0 {
        return None;
    }
    let mut exp: i64 = 0;
    if e < n {
        assert(exp_part(t) =~= t.subrange(e + 1, n as int));
        let mut ds: usize = e + 1;
        let mut eneg = false;
        if ds < n {
            let c = s.get_char(ds);
            if c == '-' || c == '+' {
                eneg = c == '-';
                ds = ds + 1;
            }
        }
        assert(exp_digits(t) =~= t.subrange(ds as int, n as int));
        if ds == n || !digits_between(s, ds, n) {
            return None;
        }
        let v = saturated_value(s, ds, n, EXP_CAP);
        exp = if eneg {
            -(v as i64)
        } else {
            v as i64
        };
    } else {
        assert(!has_exp(t));
    }
    assert(exp == exponent(t));
    let p: i128 = (d - start) as i128 + 5 + exp as i128;
    Some(window_value(s, start, d, fstart, e, p))
}

} // verus!
