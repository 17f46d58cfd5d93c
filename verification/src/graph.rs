use vstd::prelude::*;

verus! {

/// Lexicographic order on strings, compared character by character by
/// Unicode code point; a proper prefix comes before the longer string.
pub open spec fn str_precedes(a: Seq<char>, b: Seq<char>) -> bool
    decreases a.len(),
{
    if a.len() == 0 {
        b.len() > 0
    } else if b.len() == 0 {
        false
    } else if a[0] != b[0] {
        (a[0] as int) < (b[0] as int)
    } else {
        str_precedes(a.drop_first(), b.drop_first())
    }
}

/// `a` comes before `b` lexicographically: `a` is a proper prefix of `b`, or
/// the two agree up to some position `k` at which the character of `a` has
/// the smaller Unicode code point.
pub open spec fn lex_before(a: Seq<char>, b: Seq<char>) -> bool {
    ||| a.len() < b.len() && a == b.take(a.len() as int)
    ||| exists|k: int|
        0 <= k < a.len() && k < b.len() && #[trigger] a.take(k) == b.take(k) && (a[k] as int) < (
        b[k] as int)
}

/// The key under which the undirected edge between `a` and `b` is stored:
/// the two endpoints, the one that comes first in string order first.
pub open spec fn edge_key_of(a: Seq<char>, b: Seq<char>) -> (Seq<char>, Seq<char>) {
    if str_precedes(a, b) {
        (a, b)
    } else {
        (b, a)
    }
}

/// Whether `a` comes before `b` in string order, read off the characters of
/// the two strings: `a` is a proper prefix of `b`, or at the first position
/// where they differ the character of `a` has the smaller code point.
fn str_less(a: &str, b: &str) -> (r: bool)
    ensures
        r == str_precedes(a@, b@),
{
    let mut ia = a.chars();
    let mut ib = b.chars();
    let ghost mut i: int = 0;
    loop
        invariant
            0 <= i <= a@.len(),
            i <= b@.len(),
            vstd::std_specs::iter::IteratorSpec::remaining(&ia) == a@.skip(i),
            vstd::std_specs::iter::IteratorSpec::remaining(&ib) == b@.skip(i),
            str_precedes(a@, b@) == str_precedes(a@.skip(i), b@.skip(i)),
        decreases a@.len() - i,
    {
        let ca = ia.next();
        let cb = ib.next();
        match (ca, cb) {
            (None, None) => {
                return false;
            },
            (None, Some(_)) => {
                return true;
            },
            (Some(_), None) => {
                return false;
            },
            (Some(x), Some(y)) => {
                if x != y {
                    return x < y;
                }
                proof {
                    assert(a@.skip(i).drop_first() =~= a@.skip(i + 1));
                    assert(b@.skip(i).drop_first() =~= b@.skip(i + 1));
                    i = i + 1;
                }
            },
        }
    }
}

/// The canonical key of an emotional-resonance edge between the nodes `a`
/// and `b`: the pair of node names in string order, so that an edge and its
/// reverse share one key.
pub fn edge_key(a: &str, b: &str) -> (key: (String, String))
    ensures
        (key.0@, key.1@) == edge_key_of(a@, b@),
        (key.0@ == a@ && key.1@ == b@) || (key.0@ == b@ && key.1@ == a@),
        key.0@ == key.1@ || lex_before(key.0@, key.1@),
{
    proof {
        lemma_str_precedes_is_lexicographic(a@, b@);
        lemma_str_precedes_is_lexicographic(b@, a@);
        lemma_str_precedes_total(a@, b@);
    }
    if str_less(a, b) {
        (a.to_owned(), b.to_owned())
    } else {
        (b.to_owned(), a.to_owned())
    }
}

/// The recursive string order is exactly the lexicographic order: `a` comes
/// before `b` iff `a` is a proper prefix of `b`, or at the first position
/// where they differ the character of `a` has the smaller code point.
pub proof fn lemma_str_precedes_is_lexicographic(a: Seq<char>, b: Seq<char>)
    ensures
        str_precedes(a, b) <==> lex_before(a, b),
    decreases a.len(),
{
    if a.len() == 0 {
        assert(a =~= b.take(0));
    } else if b.len() == 0 {
    } else if a[0] != b[0] {
        if str_precedes(a, b) {
            assert(a.take(0) =~= b.take(0));
        }
        if lex_before(a, b) {
            if a.len() < b.len() && a == b.take(a.len() as int) {
                assert(a[0] == b.take(a.len() as int)[0]);
            } else {
                let k = choose|k: int|
                    0 <= k < a.len() && k < b.len() && #[trigger] a.take(k) == b.take(k) && (
                    a[k] as int) < (b[k] as int);
                if k > 0 {
                    assert(a.take(k)[0] == b.take(k)[0]);
                }
            }
        }
    } else {
        let a1 = a.drop_first();
        let b1 = b.drop_first();
        lemma_str_precedes_is_lexicographic(a1, b1);
        if lex_before(a1, b1) {
            if a1.len() < b1.len() && a1 == b1.take(a1.len() as int) {
                assert forall|i: int| 0 < i < a.len() implies a[i] == b[i] by {
                    assert(a[i] == a1[i - 1]);
                    assert(a1[i - 1] == b1.take(a1.len() as int)[i - 1]);
                }
                assert(a =~= b.take(a.len() as int));
            } else {
                let k = choose|k: int|
                    0 <= k < a1.len() && k < b1.len() && #[trigger] a1.take(k) == b1.take(k) && (
                    a1[k] as int) < (b1[k] as int);
                assert(a.take(k + 1) =~= seq![a[0]] + a1.take(k));
                assert(b.take(k + 1) =~= seq![b[0]] + b1.take(k));
                assert(a.take(k + 1) == b.take(k + 1));
            }
        }
        if lex_before(a, b) {
            if a.len() < b.len() && a == b.take(a.len() as int) {
                assert(a1 =~= b1.take(a1.len() as int));
            } else {
                let k = choose|k: int|
                    0 <= k < a.len() && k < b.len() && #[trigger] a.take(k) == b.take(k) && (
                    a[k] as int) < (b[k] as int);
                assert(k > 0);
                assert(a1.take(k - 1) =~= a.take(k).drop_first());
                assert(b1.take(k - 1) =~= b.take(k).drop_first());
                assert(a1.take(k - 1) == b1.take(k - 1));
            }
        }
    }
}

/// String order is asymmetric: no string comes both before and after another.
pub proof fn lemma_str_precedes_asymmetric(a: Seq<char>, b: Seq<char>)
    ensures
        str_precedes(a, b) ==> !str_precedes(b, a),
    decreases a.len(),
{
    if a.len() > 0 && b.len() > 0 && a[0] == b[0] {
        lemma_str_precedes_asymmetric(a.drop_first(), b.drop_first());
    }
}

/// String order is total: of two different strings, one comes first.
pub proof fn lemma_str_precedes_total(a: Seq<char>, b: Seq<char>)
    ensures
        a != b ==> str_precedes(a, b) || str_precedes(b, a),
    decreases a.len(),
{
    if a.len() > 0 && b.len() > 0 && a[0] == b[0] {
        lemma_str_precedes_total(a.drop_first(), b.drop_first());
        if a.drop_first() == b.drop_first() {
            assert(a =~= seq![a[0]] + a.drop_first());
            assert(b =~= seq![b[0]] + b.drop_first());
        }
    } else if a.len() == 0 && b.len() == 0 {
        assert(a =~= b);
    }
}

/// An edge and its reverse have the same key, and that key holds the two
/// endpoints, the earlier one in string order first.
pub proof fn lemma_edge_key_symmetric(a: Seq<char>, b: Seq<char>)
    ensures
        edge_key_of(a, b) == edge_key_of(b, a),
        edge_key_of(a, b) == (a, b) || edge_key_of(a, b) == (b, a),
        !str_precedes(edge_key_of(a, b).1, edge_key_of(a, b).0),
{
    lemma_str_precedes_asymmetric(a, b);
    lemma_str_precedes_asymmetric(b, a);
    lemma_str_precedes_total(a, b);
}

} // verus!
