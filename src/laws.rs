//! Laws that relate the library's functions, stated over the same spec
//! functions that their contracts use, and proved.

use vstd::prelude::*;
use crate::fixed::{
    SCALE, pow10, digit_char, digit_value, is_digit, digits_of, padded_digits, value_of,
    all_digits, fixed_text, rounded, sign_len, unsigned_body, int_digits, frac_digits, mantissa,
    has_exp, exponent, scaled_window, lemma_first_of, is_infinity,
    decimal_magnitude, decimal_units, is_decimal,
};
use crate::organism::{Organ, OrganKind, role_health, weighted_awareness, healths_in_range};
use crate::kernel::{min_health, blended, clamp_unit};
use crate::command::{
    adjusted, kind_exact, kind_from_name, state_line, state_text, text_lines, load_line, load_lines,
    with_health_of_kind, lemma_first_of_kind,
};
use crate::organism::kind_name;
use crate::text::{is_ws, words};

verus! {

/// Awareness stays within `[0, 1]` and never falls when any of the three
/// core healths (cortex, memory, I/O bridge) rises, the others held.
pub proof fn awareness_bounded_and_monotone(c: nat, m: nat, i: nat, c2: nat, m2: nat, i2: nat)
    requires
        c <= c2 <= SCALE,
        m <= m2 <= SCALE,
        i <= i2 <= SCALE,
    ensures
        weighted_awareness(c, m, i) <= SCALE,
        weighted_awareness(c, m, i) <= weighted_awareness(c2, m2, i2),
        weighted_awareness(c, m, i) == (5 * c + 3 * m + 2 * i) / 10,
{
    assert((5 * c + 3 * m + 2 * i) / 10 <= (5 * c2 + 3 * m2 + 2 * i2) / 10) by (nonlinear_arith)
        requires
            5 * c + 3 * m + 2 * i <= 5 * c2 + 3 * m2 + 2 * i2,
    ;
    assert((5 * c2 + 3 * m2 + 2 * i2) / 10 <= SCALE) by (nonlinear_arith)
        requires
            5 * c2 + 3 * m2 + 2 * i2 <= 10 * SCALE,
    ;
}

/// A core role that no organ plays counts as fully healthy.
pub proof fn absent_role_is_healthy(organs: Seq<Organ>, kind: OrganKind)
    requires
        forall|i: int| 0 <= i < organs.len() ==> #[trigger] organs[i].kind != kind,
    ensures
        role_health(organs, kind) == SCALE,
    decreases organs.len(),
{
    if organs.len() > 0 {
        assert(organs.last() == organs[organs.len() - 1]);
        assert forall|i: int| 0 <= i < organs.drop_last().len() implies #[trigger] organs.drop_last()[i].kind
            != kind by {
            assert(organs.drop_last()[i] == organs[i]);
        }
        absent_role_is_healthy(organs.drop_last(), kind);
    }
}

/// Overall health is `1.0` for no organs, and otherwise the least health
/// that some organ has.
pub proof fn overall_health_is_minimum(organs: Seq<Organ>)
    requires
        healths_in_range(organs),
    ensures
        organs.len() == 0 ==> min_health(organs) == SCALE,
        organs.len() > 0 ==> exists|i: int|
            0 <= i < organs.len() && min_health(organs) == #[trigger] organs[i].health,
        forall|i: int| 0 <= i < organs.len() ==> min_health(organs) <= #[trigger] organs[i].health,
    decreases organs.len(),
{
    if organs.len() > 0 {
        let rest = organs.drop_last();
        assert(healths_in_range(rest)) by {
            assert forall|i: int| 0 <= i < rest.len() implies #[trigger] rest[i].health <= SCALE by {
                assert(rest[i] == organs[i]);
            }
        }
        overall_health_is_minimum(rest);
        let n = organs.len() - 1;
        assert(organs.last() == organs[n]);
        assert forall|i: int| 0 <= i < organs.len() implies min_health(organs) <= #[trigger] organs[i].health by {
            if i < n {
                assert(rest[i] == organs[i]);
            }
        }
        if rest.len() == 0 {
            assert(organs[n].health <= SCALE);
            assert(min_health(organs) == organs[n].health);
        } else if (organs.last().health as nat) < min_health(rest) {
            assert(min_health(organs) == organs[n].health);
        } else {
            let j = choose|j: int| 0 <= j < rest.len() && min_health(rest) == #[trigger] rest[j].health;
            assert(rest[j] == organs[j]);
            assert(min_health(organs) == organs[j].health);
        }
    }
}

/// A blend step toward a target equal to the current health changes
/// nothing.
pub proof fn blend_fixed_point(t: nat)
    requires
        t <= SCALE,
    ensures
        blended(t, t) == t,
{
}

/// One blend step moves health toward the target without passing it, and
/// strictly closer unless it is already there.
pub proof fn blend_step_approaches(c: nat, t: nat)
    requires
        c <= SCALE,
        t <= SCALE,
    ensures
        c <= t ==> c <= blended(c, t) <= t,
        t <= c ==> t <= blended(c, t) <= c,
        c != t ==> dist(blended(c, t), t) < dist(c, t),
{
}

pub open spec fn dist(a: nat, b: nat) -> nat {
    if a >= b {
        (a - b) as nat
    } else {
        (b - a) as nat
    }
}

/// Health after `k` blend steps toward a fixed target.
pub open spec fn blend_steps(c: nat, t: nat, k: nat) -> nat
    decreases k,
{
    if k == 0 {
        c
    } else {
        blend_steps(blended(c, t), t, (k - 1) as nat)
    }
}

/// Repeated blend steps toward a constant target move monotonically toward
/// it (never past it) and reach it after at most as many steps as units
/// separate them.
pub proof fn blend_converges(c: nat, t: nat, k: nat)
    requires
        c <= SCALE,
        t <= SCALE,
    ensures
        dist(blend_steps(c, t, k + 1), t) <= dist(blend_steps(c, t, k), t),
        c <= t ==> c <= blend_steps(c, t, k) <= blend_steps(c, t, k + 1) <= t,
        t <= c ==> t <= blend_steps(c, t, k + 1) <= blend_steps(c, t, k) <= c,
        k >= dist(c, t) ==> blend_steps(c, t, k) == t,
    decreases k,
{
    blend_step_approaches(c, t);
    let c1 = blended(c, t);
    assert(blend_steps(c, t, k + 1) == blend_steps(c1, t, k));
    if k > 0 {
        assert(blend_steps(c, t, k) == blend_steps(c1, t, (k - 1) as nat));
        blend_converges(c1, t, (k - 1) as nat);
    } else {
        assert(blend_steps(c1, t, 0) == c1);
    }
}

/// Damaging by an amount and then healing by the same amount restores the
/// health, unless the damage clamped at `0` (then the result is the amount)
/// or, for a negative amount, at `1`.
pub proof fn damage_then_heal(h: nat, amount: int)
    requires
        h <= SCALE,
    ensures
        adjusted(adjusted(h, amount, false), amount, true) == if h - amount < 0 {
            clamp_unit(amount)
        } else if h - amount > SCALE {
            clamp_unit(SCALE + amount)
        } else {
            h
        },
{
}

proof fn lemma_digit_char(d: nat)
    requires
        d < 10,
    ensures
        is_digit(digit_char(d)),
        digit_value(digit_char(d)) == d,
{
}

proof fn lemma_digits_of(n: nat)
    ensures
        digits_of(n).len() > 0,
        all_digits(digits_of(n)),
        value_of(digits_of(n)) == n,
    decreases n,
{
    if n < 10 {
        lemma_digit_char(n);
        assert(digits_of(n).drop_last() =~= Seq::<char>::empty());
        assert(value_of(Seq::<char>::empty()) == 0);
        assert(value_of(digits_of(n)) == value_of(digits_of(n).drop_last()) * 10 + digit_value(digit_char(n)));
    } else {
        lemma_digits_of(n / 10);
        lemma_digit_char(n % 10);
        let s = digits_of(n);
        assert(s.drop_last() =~= digits_of(n / 10));
        assert(s.last() == digit_char(n % 10));
        assert(value_of(s) == value_of(digits_of(n / 10)) * 10 + digit_value(digit_char(n % 10)));
        assert((n / 10) * 10 + n % 10 == n) by (nonlinear_arith);
        assert forall|i: int| 0 <= i < s.len() implies is_digit(#[trigger] s[i]) by {
            if i < s.len() - 1 {
                assert(s[i] == digits_of(n / 10)[i]);
            }
        }
    }
}

proof fn lemma_padded_digits(n: nat, w: nat)
    ensures
        padded_digits(n, w).len() == w,
        all_digits(padded_digits(n, w)),
        value_of(padded_digits(n, w)) == n % pow10(w),
    decreases w,
{
    if w > 0 {
        lemma_padded_digits(n / 10, (w - 1) as nat);
        lemma_digit_char(n % 10);
        let s = padded_digits(n, w);
        assert(s.drop_last() =~= padded_digits(n / 10, (w - 1) as nat));
        assert forall|i: int| 0 <= i < s.len() implies is_digit(#[trigger] s[i]) by {
            if i < s.len() - 1 {
                assert(s[i] == padded_digits(n / 10, (w - 1) as nat)[i]);
            }
        }
        let p = pow10((w - 1) as nat);
        crate::fixed::lemma_pow10_pos((w - 1) as nat);
        assert((n / 10) % p * 10 + n % 10 == n % (10 * p)) by (nonlinear_arith)
            requires
                p >= 1,
        {
            vstd::arithmetic::div_mod::lemma_breakdown(n as int, 10, p as int);
        }
    }
}

proof fn lemma_value_of_concat(a: Seq<char>, b: Seq<char>)
    ensures
        value_of(a + b) == value_of(a) * pow10(b.len()) + value_of(b),
    decreases b.len(),
{
    if b.len() == 0 {
        assert(a + b =~= a);
        assert(value_of(b) == 0);
        assert(pow10(0) == 1);
    } else {
        lemma_value_of_concat(a, b.drop_last());
        assert(value_of(a + b) == value_of((a + b).drop_last()) * 10 + digit_value((a + b).last()));
        assert(value_of(b) == value_of(b.drop_last()) * 10 + digit_value(b.last()));
        assert(pow10(b.len()) == 10 * pow10((b.len() - 1) as nat));
        assert((a + b).drop_last() =~= a + b.drop_last());
        assert((a + b).last() == b.last());
        let x = value_of(a);
        let p = pow10((b.len() - 1) as nat);
        assert((x * p + value_of(b.drop_last())) * 10 + digit_value(b.last()) == x * (10 * p) + (
        value_of(b.drop_last()) * 10 + digit_value(b.last()))) by (nonlinear_arith);
    }
}

/// The five-decimal text of a health reads back as that health.
pub proof fn fixed_text_parses_back(v: nat)
    requires
        v <= SCALE,
    ensures
        decimal_units(fixed_text(v, 5)) == Some(v as int),
{
    reveal_with_fuel(pow10, 6);
    assert(rounded(v, 5) == v);
    let ip = digits_of(v / SCALE as nat);
    let fp = padded_digits(v % SCALE as nat, 5);
    let s = fixed_text(v, 5);
    assert(s == ip + seq!['.'] + fp);
    lemma_digits_of(v / SCALE as nat);
    lemma_padded_digits(v % SCALE as nat, 5);
    assert(s[0] == ip[0]);
    assert(is_digit(ip[0]));
    assert(sign_len(s) == 0);
    assert(unsigned_body(s) =~= s);
    // no exponent marker, and the dot right after the integer digits
    assert forall|k: int| 0 <= k < s.len() implies s[k] != 'e' && s[k] != 'E' && (k < ip.len() ==> s[k]
        != '.') by {
        if k < ip.len() {
            assert(s[k] == ip[k] && is_digit(ip[k]));
        } else if k > ip.len() {
            assert(s[k] == fp[k - ip.len() - 1] && is_digit(fp[k - ip.len() - 1]));
        }
    }
    lemma_first_of(s, 'e', 'E', s.len());
    assert(!has_exp(s));
    assert(mantissa(s) =~= s);
    lemma_first_of(s, '.', '.', ip.len());
    assert(int_digits(s) =~= ip);
    assert(frac_digits(s) =~= fp);
    assert(is_decimal(s));
    reveal_strlit("inf");
    reveal_strlit("infinity");
    assert(!is_infinity(s)) by {
        assert(s[0] != 'i');
        assert(s[0] as u32 + 32 != 'i' as u32);
    }
    assert(exponent(s) == 0);
    assert(scaled_window(ip + fp, ip.len() + 5int) =~= ip + fp);
    lemma_value_of_concat(ip, fp);
    assert((v / SCALE as nat) * SCALE + v % SCALE as nat == v) by (nonlinear_arith);
    assert((v % SCALE as nat) % 100_000 == v % SCALE as nat) by (nonlinear_arith);
    assert(value_of(fp) == v % SCALE as nat);
    assert(s[0] != '-');
    assert(decimal_magnitude(s) == v);
}

/// No whitespace in `s`.
pub open spec fn solid(s: Seq<char>) -> bool {
    forall|i: int| 0 <= i < s.len() ==> !is_ws(#[trigger] s[i])
}

proof fn lemma_kind_name(k: OrganKind)
    ensures
        kind_from_name(kind_name(k)) == Some(k),
        kind_name(k).len() > 0,
        solid(kind_name(k)),
{
    reveal_strlit("Cortex");
    reveal_strlit("Memory");
    reveal_strlit("IoBridge");
    reveal_strlit("SensorHub");
    reveal_strlit("MotorControl");
    reveal_strlit("Network");
    reveal_strlit("Storage");
    let c = kind_name(OrganKind::Cortex);
    let m = kind_name(OrganKind::Memory);
    let io = kind_name(OrganKind::IoBridge);
    let sh = kind_name(OrganKind::SensorHub);
    let mc = kind_name(OrganKind::MotorControl);
    let nw = kind_name(OrganKind::Network);
    let st = kind_name(OrganKind::Storage);
    assert(c[0] != m[0] && c[0] != io[0] && c[0] != sh[0] && c[0] != mc[0] && c[0] != nw[0] && c[0] != st[0]);
    assert(m[0] != io[0] && m[0] != sh[0] && m[1] != mc[1] && m[0] != nw[0] && m[0] != st[0]);
    assert(io[0] != sh[0] && io[0] != mc[0] && io[0] != nw[0] && io[0] != st[0]);
    assert(sh[0] != mc[0] && sh[0] != nw[0] && sh[1] != st[1]);
    assert(mc[0] != nw[0] && mc[0] != st[0]);
    assert(nw[0] != st[0]);
    assert(kind_exact(kind_name(k)) == Some(k));
}

proof fn lemma_words_solid(x: Seq<char>)
    requires
        x.len() > 0,
        solid(x),
    ensures
        words(x) == seq![x],
    decreases x.len(),
{
    if x.len() == 1 {
        assert(x.drop_last() =~= Seq::<char>::empty());
        assert(words(Seq::<char>::empty()) == Seq::<Seq<char>>::empty());
        assert(seq![x.last()] =~= x);
    } else {
        lemma_words_solid(x.drop_last());
        assert(!is_ws(x[x.len() - 2]));
        assert(!is_ws(x.last()));
        assert(x.drop_last().push(x.last()) =~= x);
        assert(seq![x.drop_last()].drop_last().push(x.drop_last().push(x.last())) =~= seq![x]);
    }
}

proof fn lemma_words_space_solid(p: Seq<char>, y: Seq<char>)
    requires
        y.len() > 0,
        solid(y),
    ensures
        words(p + seq![' '] + y) == words(p).push(y),
    decreases y.len(),
{
    let s = p + seq![' '] + y;
    assert(is_ws(' '));
    if y.len() == 1 {
        assert(s.drop_last() =~= p + seq![' ']);
        assert((p + seq![' ']).drop_last() =~= p);
        assert(words(p + seq![' ']) == words(p));
        assert(s[s.len() - 2] == ' ');
        assert(!is_ws(s.last()));
        assert(seq![s.last()] =~= y);
    } else {
        let y1 = y.drop_last();
        assert forall|i: int| 0 <= i < y1.len() implies !is_ws(#[trigger] y1[i]) by {
            assert(y1[i] == y[i]);
        }
        lemma_words_space_solid(p, y1);
        assert(s.drop_last() =~= p + seq![' '] + y1);
        assert(s[s.len() - 2] == y[y.len() - 2]);
        assert(!is_ws(s.last()));
        assert(words(p).push(y1).drop_last() =~= words(p));
        assert(y1.push(s.last()) =~= y);
    }
}

/// The words of a saved line (without its newline) are the kind's name and
/// the health's text.
proof fn lemma_state_line_words(k: OrganKind, h: nat)
    ensures
        words(kind_name(k) + seq![' '] + fixed_text(h, 5)) == seq![kind_name(k), fixed_text(h, 5)],
{
    reveal_with_fuel(pow10, 6);
    lemma_kind_name(k);
    let f = fixed_text(h, 5);
    let ip = digits_of(rounded(h, 5) / pow10(5));
    let fp = padded_digits(rounded(h, 5) % pow10(5), 5);
    assert(f == ip + seq!['.'] + fp);
    lemma_digits_of(rounded(h, 5) / pow10(5));
    lemma_padded_digits(rounded(h, 5) % pow10(5), 5);
    assert(solid(f)) by {
        assert forall|i: int| 0 <= i < f.len() implies !is_ws(#[trigger] f[i]) by {
            if i < ip.len() {
                assert(f[i] == ip[i]);
                assert(is_digit(ip[i]));
            } else if i == ip.len() {
                assert(f[i] == '.');
            } else {
                assert(f[i] == fp[i - ip.len() - 1]);
                assert(is_digit(fp[i - ip.len() - 1]));
            }
        }
    }
    lemma_words_space_solid(kind_name(k), f);
    lemma_words_solid(kind_name(k));
}

/// A saved line without its newline.
pub open spec fn state_body(o: Organ) -> Seq<char> {
    kind_name(o.kind) + seq![' '] + fixed_text(o.health as nat, 5)
}

pub open spec fn state_bodies(organs: Seq<Organ>) -> Seq<Seq<char>> {
    Seq::new(organs.len(), |i: int| state_body(organs[i]))
}

proof fn lemma_text_lines_append(a: Seq<char>, x: Seq<char>)
    requires
        forall|i: int| 0 <= i < x.len() ==> #[trigger] x[i] != '\n',
    ensures
        text_lines(a + x) == text_lines(a).drop_last().push(text_lines(a).last() + x),
    decreases x.len(),
{
    crate::command::lemma_text_lines_nonempty(a);
    if x.len() == 0 {
        assert(a + x =~= a);
        assert(text_lines(a).last() + x =~= text_lines(a).last());
        assert(text_lines(a).drop_last().push(text_lines(a).last()) =~= text_lines(a));
    } else {
        let x1 = x.drop_last();
        lemma_text_lines_append(a, x1);
        assert((a + x).drop_last() =~= a + x1);
        assert((a + x).last() == x.last());
        let l = text_lines(a + x1);
        assert(l.drop_last() =~= text_lines(a).drop_last());
        assert(l.last() == text_lines(a).last() + x1);
        assert((text_lines(a).last() + x1).push(x.last()) =~= text_lines(a).last() + x);
    }
}

proof fn lemma_state_body(o: Organ)
    ensures
        state_line(o) == state_body(o).push('\n'),
        forall|i: int| 0 <= i < state_body(o).len() ==> #[trigger] state_body(o)[i] != '\n',
        words(state_body(o)) == seq![kind_name(o.kind), fixed_text(o.health as nat, 5)],
{
    reveal_strlit(" ");
    reveal_strlit("\n");
    assert(state_line(o) =~= state_body(o).push('\n'));
    lemma_state_line_words(o.kind, o.health as nat);
    let b = state_body(o);
    assert forall|i: int| 0 <= i < b.len() implies #[trigger] b[i] != '\n' by {
        if b[i] == '\n' {
            assert(is_ws(b[i]));
            // every character of a line with two solid words is a word
            // character or the one space between them
            lemma_kind_name(o.kind);
            let n = kind_name(o.kind);
            if i < n.len() {
                assert(b[i] == n[i]);
            } else if i > n.len() {
                reveal_with_fuel(pow10, 6);
                let f = fixed_text(o.health as nat, 5);
                let ip = digits_of(rounded(o.health as nat, 5) / pow10(5));
                let fp = padded_digits(rounded(o.health as nat, 5) % pow10(5), 5);
                assert(f == ip + seq!['.'] + fp);
                lemma_digits_of(rounded(o.health as nat, 5) / pow10(5));
                lemma_padded_digits(rounded(o.health as nat, 5) % pow10(5), 5);
                let j = i - n.len() - 1;
                assert(b[i] == f[j]);
                if j < ip.len() {
                    assert(f[j] == ip[j]);
                    assert(is_digit(ip[j]));
                } else if j > ip.len() {
                    assert(f[j] == fp[j - ip.len() - 1]);
                    assert(is_digit(fp[j - ip.len() - 1]));
                }
            }
        }
    }
}

/// The lines of a saved file: one per organ, then the empty rest after the
/// final newline.
proof fn lemma_state_text_lines(organs: Seq<Organ>)
    ensures
        text_lines(state_text(organs)) == state_bodies(organs).push(Seq::empty()),
    decreases organs.len(),
{
    if organs.len() == 0 {
        assert(text_lines(Seq::<char>::empty()) == seq![Seq::<char>::empty()]);
        assert(state_bodies(organs).push(Seq::empty()) =~= seq![Seq::<char>::empty()]);
    } else {
        let dl = organs.drop_last();
        lemma_state_text_lines(dl);
        let o = organs.last();
        lemma_state_body(o);
        let a = state_text(dl);
        lemma_text_lines_append(a, state_body(o));
        assert(state_text(organs) == a + state_line(o));
        assert(a + state_line(o) =~= (a + state_body(o)).push('\n'));
        assert((a + state_body(o)).push('\n').drop_last() =~= a + state_body(o));
        assert(text_lines(a).last() + state_body(o) =~= state_body(o));
        assert(state_bodies(dl).push(Seq::empty()).drop_last() =~= state_bodies(dl));
        assert(state_bodies(organs) =~= state_bodies(dl).push(state_body(o)));
    }
}

/// `current` with the first `j` organs' health taken from `saved`.
pub open spec fn restored(current: Seq<Organ>, saved: Seq<Organ>, j: int) -> Seq<Organ> {
    Seq::new(current.len(), |i: int| if i < j { Organ { health: saved[i].health, ..current[i] } } else { current[i] })
}

/// Each kind occurs at most once.
pub open spec fn distinct_kinds(organs: Seq<Organ>) -> bool {
    forall|i: int, j: int| 0 <= i < j < organs.len() ==> organs[i].kind != organs[j].kind
}

proof fn lemma_restore_prefix(saved: Seq<Organ>, current: Seq<Organ>, j: int)
    requires
        0 <= j <= saved.len(),
        healths_in_range(saved),
        distinct_kinds(saved),
        current.len() == saved.len(),
        forall|i: int| 0 <= i < saved.len() ==> #[trigger] current[i].kind == saved[i].kind,
    ensures
        load_lines(current, state_bodies(saved).take(j)) == restored(current, saved, j),
    decreases j,
{
    let b = state_bodies(saved);
    if j == 0 {
        assert(restored(current, saved, 0) =~= current);
        assert(b.take(0) =~= Seq::<Seq<char>>::empty());
    } else {
        let k = j - 1;
        lemma_restore_prefix(saved, current, k);
        let r = restored(current, saved, k);
        let o = saved[k];
        assert(b.take(j).drop_last() =~= b.take(k));
        assert(b.take(j).last() == state_body(o));
        lemma_state_body(o);
        lemma_kind_name(o.kind);
        fixed_text_parses_back(o.health as nat);
        assert(clamp_unit(o.health as int) == o.health);
        assert forall|m: int| 0 <= m < k implies r[m].kind != o.kind by {
            assert(r[m].kind == saved[m].kind);
        }
        assert(r[k].kind == o.kind);
        lemma_first_of_kind(r, o.kind, k);
        assert(load_line(r, state_body(o)) == with_health_of_kind(r, o.kind, o.health as nat));
        assert(with_health_of_kind(r, o.kind, o.health as nat) =~= restored(current, saved, j));
    }
}

/// Saving organs of distinct kinds and loading the saved text into organs
/// of the same kinds, in the same order, restores every organ's health
/// exactly and changes nothing else.
pub proof fn save_then_load_restores(saved: Seq<Organ>, current: Seq<Organ>)
    requires
        healths_in_range(saved),
        distinct_kinds(saved),
        current.len() == saved.len(),
        forall|i: int| 0 <= i < saved.len() ==> #[trigger] current[i].kind == saved[i].kind,
    ensures
        load_lines(current, text_lines(state_text(saved))) == restored(current, saved, saved.len() as int),
{
    let n = saved.len() as int;
    let b = state_bodies(saved);
    lemma_state_text_lines(saved);
    lemma_restore_prefix(saved, current, n);
    assert(b.take(n) =~= b);
    let lines = b.push(Seq::empty());
    assert(lines.drop_last() =~= b);
    assert(words(Seq::<char>::empty()) == Seq::<Seq<char>>::empty());
}

} // verus!
