//! Words and lines of command text: whitespace, splitting, trimming,
//! comparison and lower-casing.

use vstd::prelude::*;
use crate::fixed::push_char;

verus! {

/// Unicode White_Space, as `char::is_whitespace` defines it.
pub open spec fn is_ws(c: char) -> bool {
    ||| c == ' '
    ||| ('\t' <= c && c <= '\r')
    ||| c == '\u{85}'
    ||| c == '\u{a0}'
    ||| c == '\u{1680}'
    ||| ('\u{2000}' <= c && c <= '\u{200a}')
    ||| c == '\u{2028}'
    ||| c == '\u{2029}'
    ||| c == '\u{202f}'
    ||| c == '\u{205f}'
    ||| c == '\u{3000}'
}

pub fn is_whitespace(c: char) -> (r: bool)
    ensures
        r == is_ws(c),
{
    c == ' ' || ('\t' <= c && c <= '\r') || c == '\u{85}' || c == '\u{a0}' || c == '\u{1680}' || (
    '\u{2000}' <= c && c <= '\u{200a}') || c == '\u{2028}' || c == '\u{2029}' || c == '\u{202f}'
        || c == '\u{205f}' || c == '\u{3000}'
}

/// The maximal runs of non-whitespace characters of `s`, in order.
pub open spec fn words(s: Seq<char>) -> Seq<Seq<char>>
    decreases s.len(),
{
    if s.len() == 0 {
        Seq::empty()
    } else {
        let w = words(s.drop_last());
        let c = s.last();
        if is_ws(c) {
            w
        } else if s.len() > 1 && !is_ws(s[s.len() - 2]) {
            w.drop_last().push(w.last().push(c))
        } else {
            w.push(seq![c])
        }
    }
}

pub open spec fn views(v: Seq<String>) -> Seq<Seq<char>> {
    v.map_values(|s: String| s@)
}

/// Split `s` at whitespace into its words.
pub fn split_words(s: &str) -> (r: Vec<String>)
    ensures
        views(r@) == words(s@),
{
    let ghost t = s@;
    let n = s.unicode_len();
    let mut out: Vec<String> = Vec::new();
    let mut cur = String::new();
    let mut in_word = false;
    let mut i: usize = 0;
    while i < n
        invariant
            i <= n,
            n == t.len(),
            t == s@,
            in_word == (i > 0 && !is_ws(t[i - 1])),
            in_word ==> words(t.take(i as int)) == views(out@).push(cur@),
            !in_word ==> words(t.take(i as int)) == views(out@),
        decreases n - i,
    {
        let c = s.get_char(i);
        proof {
            assert(t.take(i + 1).drop_last() =~= t.take(i as int));
            assert(t.take(i + 1).last() == c);
            if i > 0 {
                assert(t.take(i + 1)[i - 1] == t[i - 1]);
            }
        }
        if is_whitespace(c) {
            if in_word {
                let ghost before = out@;
                out.push(cur);
                cur = String::new();
                proof {
                    assert(views(out@) =~= views(before).push(out@.last()@));
                }
            }
            in_word = false;
        } else {
            if in_word {
                let ghost prev = cur@;
                push_char(&mut cur, c);
                proof {
                    let w = views(out@).push(prev);
                    assert(w.drop_last() =~= views(out@));
                }
            } else {
                cur = String::new();
                push_char(&mut cur, c);
                assert(cur@ =~= seq![c]);
            }
            in_word = true;
        }
        i = i + 1;
    }
    proof {
        assert(t.take(n as int) =~= t);
    }
    if in_word {
        let ghost before = out@;
        out.push(cur);
        proof {
            assert(views(out@) =~= views(before).push(out@.last()@));
        }
    }
    out
}

/// Number of leading whitespace characters.
pub open spec fn lead_ws(s: Seq<char>) -> nat
    decreases s.len(),
{
    if s.len() == 0 || !is_ws(s[0]) {
        0
    } else {
        1 + lead_ws(s.drop_first())
    }
}

/// Number of trailing whitespace characters.
pub open spec fn trail_ws(s: Seq<char>) -> nat
    decreases s.len(),
{
    if s.len() == 0 || !is_ws(s.last()) {
        0
    } else {
        1 + trail_ws(s.drop_last())
    }
}

/// `s` without leading and trailing whitespace.
pub open spec fn trimmed(s: Seq<char>) -> Seq<char> {
    if lead_ws(s) == s.len() {
        Seq::empty()
    } else {
        s.subrange(lead_ws(s) as int, s.len() - trail_ws(s))
    }
}

proof fn lemma_lead_ws(s: Seq<char>, d: nat)
    requires
        d <= s.len(),
        forall|k: int| 0 <= k < d ==> is_ws(s[k]),
        d == s.len() || !is_ws(s[d as int]),
    ensures
        lead_ws(s) == d,
    decreases d,
{
    if d > 0 {
        assert forall|k: int| 0 <= k < d - 1 implies is_ws(s.drop_first()[k]) by {
            assert(s.drop_first()[k] == s[k + 1]);
        }
        lemma_lead_ws(s.drop_first(), (d - 1) as nat);
    }
}

proof fn lemma_trail_ws(s: Seq<char>, d: nat)
    requires
        d <= s.len(),
        forall|k: int| s.len() - d <= k < s.len() ==> is_ws(s[k]),
        d == s.len() || !is_ws(s[s.len() - 1 - d]),
    ensures
        trail_ws(s) == d,
    decreases d,
{
    if d > 0 {
        assert forall|k: int| s.len() - 1 - (d - 1) <= k < s.len() - 1 implies is_ws(
            s.drop_last()[k],
        ) by {
            assert(s.drop_last()[k] == s[k]);
        }
        if d - 1 < s.len() - 1 {
            assert(s.drop_last()[s.len() - 1 - 1 - (d - 1)] == s[s.len() - 1 - d]);
        }
        lemma_trail_ws(s.drop_last(), (d - 1) as nat);
    }
}

/// `s` without leading and trailing whitespace.
pub fn trim_text(s: &str) -> (r: String)
    ensures
        r@ == trimmed(s@),
{
    let ghost t = s@;
    let n = s.unicode_len();
    let mut a: usize = 0;
    while a < n && is_whitespace(s.get_char(a))
        invariant
            a <= n,
            n == t.len(),
            t == s@,
            forall|k: int| 0 <= k < a ==> is_ws(t[k]),
        decreases n - a,
    {
        a = a + 1;
    }
    proof {
        lemma_lead_ws(t, a as nat);
    }
    if a == n {
        return String::new();
    }
    let mut b: usize = n;
    while b > a && is_whitespace(s.get_char(b - 1))
        invariant
            a < n,
            a <= b <= n,
            n == t.len(),
            t == s@,
            !is_ws(t[a as int]),
            forall|k: int| b <= k < n ==> is_ws(t[k]),
        decreases b,
    {
        b = b - 1;
    }
    proof {
        lemma_trail_ws(t, (n - b) as nat);
    }
    String::from_str(s.substring_char(a, b))
}

/// Whether two texts are equal, character for character.
pub fn text_eq(a: &str, b: &str) -> (r: bool)
    ensures
        r == (a@ == b@),
{
    let n = a.unicode_len();
    if n != b.unicode_len() {
        return false;
    }
    let mut i: usize = 0;
    while i < n
        invariant
            i <= n,
            n == a@.len(),
            n == b@.len(),
            forall|k: int| 0 <= k < i ==> a@[k] == b@[k],
        decreases n - i,
    {
        if a.get_char(i) != b.get_char(i) {
            return false;
        }
        i = i + 1;
    }
    assert(a@ =~= b@);
    true
}

/// What `str::to_lowercase` returns for a text.
pub uninterp spec fn lower_of(s: Seq<char>) -> Seq<char>;

/// Relies on `str::to_lowercase`: the lowercase form, which depends on the
/// characters alone.
#[verifier::external_body]
pub(crate) fn to_lowercase(s: &str) -> (r: String)
    ensures
        r@ == lower_of(s@),
{
    s.to_lowercase()
}

} // verus!
