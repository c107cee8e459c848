//! Text predicates shared by the plugin model.

use vstd::prelude::*;
use vstd::std_specs::iter::IteratorSpec;

verus! {

/// The texts of a list of strings.
pub open spec fn texts(strings: Seq<String>) -> Seq<Seq<char>> {
    strings.map_values(|s: String| s@)
}

/// The characters that count as white space: those with the Unicode
/// property `White_Space`.
pub open spec fn is_space(c: char) -> bool {
    ||| '\u{9}' <= c <= '\u{D}'
    ||| c == ' '
    ||| c == '\u{85}'
    ||| c == '\u{A0}'
    ||| c == '\u{1680}'
    ||| '\u{2000}' <= c <= '\u{200A}'
    ||| c == '\u{2028}'
    ||| c == '\u{2029}'
    ||| c == '\u{202F}'
    ||| c == '\u{205F}'
    ||| c == '\u{3000}'
}

/// Tells whether `c` is a white-space character.
pub fn char_is_space(c: char) -> (b: bool)
    ensures
        b == is_space(c),
{
    ('\u{9}' <= c && c <= '\u{D}') || c == ' ' || c == '\u{85}' || c == '\u{A0}' || c == '\u{1680}'
        || ('\u{2000}' <= c && c <= '\u{200A}') || c == '\u{2028}' || c == '\u{2029}' || c
        == '\u{202F}' || c == '\u{205F}' || c == '\u{3000}'
}

/// A text is blank when nothing is left of it after trimming white space.
pub open spec fn is_blank(s: Seq<char>) -> bool {
    forall|i: int| 0 <= i < s.len() ==> is_space(#[trigger] s[i])
}

/// Tells whether `s` is empty or made of white space only.
pub fn str_is_blank(s: &str) -> (b: bool)
    ensures
        b == is_blank(s@),
{
    for c in it: s.chars()
        invariant
            it.seq() == s@,
            forall|i: int| 0 <= i < it.index() ==> is_space(#[trigger] s@[i]),
    {
        if !char_is_space(c) {
            return false;
        }
    }
    true
}

/// How one text stands to another in the order of texts.
#[derive(Clone, Copy, Debug, PartialEq, Eq, Structural)]
pub enum TextOrder {
    Before,
    Same,
    After,
}

/// `a` comes before `b`: where the two first differ, `a` has the lower code
/// point; and a text comes before every longer text that begins with it.
pub open spec fn text_before(a: Seq<char>, b: Seq<char>) -> bool {
    exists|k: int|
        0 <= k <= a.len() && k < b.len() && #[trigger] a.take(k) == b.take(k) && (k == a.len() || a[k]
            < b[k])
}

/// How `a` stands to `b`.
pub open spec fn text_order(a: Seq<char>, b: Seq<char>) -> TextOrder {
    if a == b {
        TextOrder::Same
    } else if text_before(a, b) {
        TextOrder::Before
    } else {
        TextOrder::After
    }
}

/// Two texts that agree up to `k` and part there are in the order in which
/// they part.
proof fn lemma_parting(a: Seq<char>, b: Seq<char>, k: int, j: int)
    requires
        0 <= k <= a.len(),
        k <= b.len(),
        a.take(k) == b.take(k),
        0 <= j <= a.len(),
        j <= b.len(),
        a.take(j) == b.take(j),
        k < a.len() && k < b.len() ==> a[k] != b[k],
        k < a.len() || k < b.len(),
    ensures
        j <= k,
{
    if k < j {
        assert(a.take(j)[k] == a[k]);
        assert(b.take(j)[k] == b[k]);
    }
}

/// No text comes before itself.
pub proof fn lemma_text_before_irreflexive(a: Seq<char>)
    ensures
        !text_before(a, a),
{
}

/// Of two texts at most one comes before the other.
pub proof fn lemma_text_before_asymmetric(a: Seq<char>, b: Seq<char>)
    requires
        text_before(a, b),
    ensures
        !text_before(b, a),
        a != b,
{
    let k = choose|k: int|
        0 <= k <= a.len() && k < b.len() && #[trigger] a.take(k) == b.take(k) && (k == a.len() || a[k]
            < b[k]);
    if text_before(b, a) {
        let j = choose|j: int|
            0 <= j <= b.len() && j < a.len() && #[trigger] b.take(j) == a.take(j) && (j == b.len()
                || b[j] < a[j]);
        lemma_parting(a, b, k, j);
        lemma_parting(b, a, j, k);
    }
}

/// Of two different texts one comes before the other.
pub proof fn lemma_text_before_total(a: Seq<char>, b: Seq<char>)
    requires
        a != b,
    ensures
        text_before(a, b) || text_before(b, a),
{
    assert(a.take(0) =~= b.take(0));
    lemma_first_difference(a, b, 0);
}

/// Two different texts that agree before `k` part at `k` or later, and are
/// ordered there.
proof fn lemma_first_difference(a: Seq<char>, b: Seq<char>, k: int)
    requires
        a != b,
        0 <= k <= a.len(),
        k <= b.len(),
        a.take(k) == b.take(k),
    ensures
        text_before(a, b) || text_before(b, a),
    decreases a.len() - k,
{
    if k == a.len() {
        if k == b.len() {
            assert(a =~= a.take(k));
            assert(b =~= b.take(k));
        } else {
            assert(text_before(a, b));
        }
    } else if k == b.len() {
        assert(b.take(k) == a.take(k));
        assert(text_before(b, a));
    } else if a[k] != b[k] {
        if a[k] < b[k] {
            assert(text_before(a, b));
        } else {
            assert(b.take(k) == a.take(k));
            assert(text_before(b, a));
        }
    } else {
        assert(a.take(k + 1) =~= a.take(k).push(a[k]));
        assert(b.take(k + 1) =~= b.take(k).push(b[k]));
        lemma_first_difference(a, b, k + 1);
    }
}

/// The order of texts is transitive.
pub proof fn lemma_text_before_transitive(a: Seq<char>, b: Seq<char>, c: Seq<char>)
    requires
        text_before(a, b),
        text_before(b, c),
    ensures
        text_before(a, c),
{
    let k = choose|k: int|
        0 <= k <= a.len() && k < b.len() && #[trigger] a.take(k) == b.take(k) && (k == a.len() || a[k]
            < b[k]);
    let j = choose|j: int|
        0 <= j <= b.len() && j < c.len() && #[trigger] b.take(j) == c.take(j) && (j == b.len() || b[j]
            < c[j]);
    let m = if k <= j {
        k
    } else {
        j
    };
    assert(a.take(m) =~= a.take(k).take(m));
    assert(b.take(m) =~= b.take(k).take(m));
    assert(b.take(m) =~= b.take(j).take(m));
    assert(c.take(m) =~= c.take(j).take(m));
    assert(a.take(m) == c.take(m));
    if m < a.len() {
        if k < j {
            assert(b.take(j)[k] == b[k]);
            assert(c.take(j)[k] == c[k]);
        } else if j < k {
            assert(a.take(k)[j] == a[j]);
            assert(b.take(k)[j] == b[j]);
        }
    }
}

/// Compares two texts by the code points of their characters.
pub fn str_order(a: &str, b: &str) -> (order: TextOrder)
    ensures
        order == text_order(a@, b@),
{
    let mut left = a.chars();
    let mut right = b.chars();
    let ghost mut k: int = 0;
    loop
        invariant
            0 <= k <= a@.len(),
            k <= b@.len(),
            left.remaining() == a@.skip(k),
            right.remaining() == b@.skip(k),
            a@.take(k) == b@.take(k),
        decreases a@.len() - k,
    {
        let x = left.next();
        let y = right.next();
        match (x, y) {
            (None, None) => {
                proof {
                    assert(a@ =~= a@.take(k));
                    assert(b@ =~= b@.take(k));
                }
                return TextOrder::Same;
            },
            (None, Some(_)) => {
                assert(text_before(a@, b@));
                proof {
                    lemma_text_before_asymmetric(a@, b@);
                }
                return TextOrder::Before;
            },
            (Some(_), None) => {
                proof {
                    assert(b@.take(k) == a@.take(k));
                    assert(text_before(b@, a@));
                    lemma_text_before_asymmetric(b@, a@);
                }
                return TextOrder::After;
            },
            (Some(p), Some(q)) => {
                if p < q {
                    assert(text_before(a@, b@));
                    proof {
                        lemma_text_before_asymmetric(a@, b@);
                    }
                    return TextOrder::Before;
                }
                if q < p {
                    proof {
                        assert(b@.take(k) == a@.take(k));
                        assert(text_before(b@, a@));
                        lemma_text_before_asymmetric(b@, a@);
                    }
                    return TextOrder::After;
                }
                proof {
                    assert(a@.take(k + 1) =~= a@.take(k).push(a@[k]));
                    assert(b@.take(k + 1) =~= b@.take(k).push(b@[k]));
                    assert(a@.skip(k).drop_first() =~= a@.skip(k + 1));
                    assert(b@.skip(k).drop_first() =~= b@.skip(k + 1));
                    k = k + 1;
                }
            },
        }
    }
}

/// Tells whether `a` and `b` hold the same characters.
pub fn str_eq(a: &str, b: &str) -> (same: bool)
    ensures
        same == (a@ == b@),
{
    match str_order(a, b) {
        TextOrder::Same => true,
        _ => false,
    }
}

} // verus!
