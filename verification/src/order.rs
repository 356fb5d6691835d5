//! Three-way comparisons and the lexicographic order they induce on sequences.
use vstd::prelude::*;

verus! {

/// `ord` is a three-way comparison of a total order: it answers -1, 0 or 1,
/// answers 0 exactly on equal values, flips sign when its arguments swap,
/// and is transitive.
pub open spec fn is_total_order<T>(ord: spec_fn(T, T) -> int) -> bool {
    &&& forall|x: T, y: T| #[trigger] ord(x, y) == 0 <==> x == y
    &&& forall|x: T, y: T| #[trigger] ord(x, y) == -ord(y, x)
    &&& forall|x: T, y: T| -1 <= #[trigger] ord(x, y) <= 1
    &&& forall|x: T, y: T, z: T|
        #![trigger ord(x, y), ord(y, z)]
        ord(x, y) < 0 && ord(y, z) < 0 ==> ord(x, z) < 0
}

/// Lexicographic three-way comparison of two sequences, element by element
/// with `ord`; a proper prefix comes first.
pub open spec fn lex_order<T>(a: Seq<T>, b: Seq<T>, ord: spec_fn(T, T) -> int) -> int
    decreases a.len(),
{
    if a.len() == 0 {
        if b.len() == 0 {
            0
        } else {
            -1
        }
    } else if b.len() == 0 {
        1
    } else if ord(a[0], b[0]) != 0 {
        ord(a[0], b[0])
    } else {
        lex_order(a.drop_first(), b.drop_first(), ord)
    }
}

proof fn lemma_lex_basic<T>(a: Seq<T>, b: Seq<T>, ord: spec_fn(T, T) -> int)
    requires
        is_total_order(ord),
    ensures
        lex_order(a, b, ord) == 0 <==> a == b,
        lex_order(a, b, ord) == -lex_order(b, a, ord),
        -1 <= lex_order(a, b, ord) <= 1,
    decreases a.len(),
{
    if a.len() == 0 && b.len() == 0 {
        assert(a =~= b);
    } else if a.len() > 0 && b.len() > 0 {
        let _ = ord(a[0], b[0]);
        let _ = ord(b[0], a[0]);
        lemma_lex_basic(a.drop_first(), b.drop_first(), ord);
        if ord(a[0], b[0]) == 0 && a.drop_first() == b.drop_first() {
            assert(a =~= seq![a[0]] + a.drop_first());
            assert(b =~= seq![b[0]] + b.drop_first());
        }
        if a == b {
            assert(a[0] == b[0]);
            assert(a.drop_first() == b.drop_first());
        }
    }
}

proof fn lemma_lex_trans<T>(a: Seq<T>, b: Seq<T>, c: Seq<T>, ord: spec_fn(T, T) -> int)
    requires
        is_total_order(ord),
        lex_order(a, b, ord) < 0,
        lex_order(b, c, ord) < 0,
    ensures
        lex_order(a, c, ord) < 0,
    decreases a.len(),
{
    if a.len() > 0 && b.len() > 0 && c.len() > 0 {
        let h1 = ord(a[0], b[0]);
        let h2 = ord(b[0], c[0]);
        let _ = ord(a[0], c[0]);
        if h1 == 0 && h2 == 0 {
            lemma_lex_trans(a.drop_first(), b.drop_first(), c.drop_first(), ord);
        }
    }
}

/// The lexicographic order of a total order is a total order.
pub proof fn lemma_lex_total_order<T>(ord: spec_fn(T, T) -> int)
    requires
        is_total_order(ord),
    ensures
        is_total_order(|a: Seq<T>, b: Seq<T>| lex_order(a, b, ord)),
{
    let lex = |a: Seq<T>, b: Seq<T>| lex_order(a, b, ord);
    assert forall|x: Seq<T>, y: Seq<T>|
        (#[trigger] lex(x, y) == 0 <==> x == y) && lex(x, y) == -lex(y, x) && -1 <= lex(x, y)
            <= 1 by {
        lemma_lex_basic(x, y, ord);
    }
    assert forall|x: Seq<T>, y: Seq<T>, z: Seq<T>|
        #![trigger lex(x, y), lex(y, z)]
        lex(x, y) < 0 && lex(y, z) < 0 implies lex(x, z) < 0 by {
        lemma_lex_trans(x, y, z, ord);
    }
}

/// Three-way comparison of characters by code point.
pub open spec fn char_order(a: char, b: char) -> int {
    if a < b {
        -1
    } else if a == b {
        0
    } else {
        1
    }
}

/// Lexicographic comparison of texts by code point; for UTF-8 strings this is
/// the byte order that `String` compares by.
pub open spec fn text_order(a: Seq<char>, b: Seq<char>) -> int {
    lex_order(a, b, |x: char, y: char| char_order(x, y))
}

/// The text order is a total order.
pub proof fn lemma_text_total_order()
    ensures
        is_total_order(|a: Seq<char>, b: Seq<char>| text_order(a, b)),
{
    let c = |x: char, y: char| char_order(x, y);
    assert forall|x: char, y: char| #[trigger] c(x, y) == 0 <==> x == y by {
    }
    lemma_lex_total_order(c);
    let lex = |a: Seq<char>, b: Seq<char>| lex_order(a, b, c);
    let t = |a: Seq<char>, b: Seq<char>| text_order(a, b);
    assert(t == lex);
}

/// The facts of the text order for three given texts.
pub proof fn lemma_text_facts(a: Seq<char>, b: Seq<char>, c: Seq<char>)
    ensures
        text_order(a, b) == -text_order(b, a),
        -1 <= text_order(a, b) <= 1,
        text_order(a, b) == 0 <==> a == b,
        text_order(a, b) <= 0 && text_order(b, c) <= 0 ==> text_order(a, c) <= 0,
{
    lemma_text_total_order();
    let t = |x: Seq<char>, y: Seq<char>| text_order(x, y);
    let _ = t(a, b);
    let _ = t(b, a);
    let _ = t(b, c);
    let _ = t(a, c);
    let _ = t(c, a);
}

/// Three-way comparison of two texts, character by character.
pub fn compare_text(a: &Vec<char>, b: &Vec<char>) -> (r: i8)
    ensures
        r as int == text_order(a@, b@),
{
    let mut i: usize = 0;
    assert(a@.skip(0) == a@);
    assert(b@.skip(0) == b@);
    while i < a.len() && i < b.len()
        invariant
            i <= a@.len(),
            i <= b@.len(),
            text_order(a@, b@) == text_order(a@.skip(i as int), b@.skip(i as int)),
        decreases a@.len() - i,
    {
        let x = a[i];
        let y = b[i];
        assert(a@.skip(i as int)[0] == x);
        assert(b@.skip(i as int)[0] == y);
        if x < y {
            return -1;
        } else if x > y {
            return 1;
        }
        assert(x == y);
        assert(a@.skip(i as int).drop_first() == a@.skip(i + 1));
        assert(b@.skip(i as int).drop_first() == b@.skip(i + 1));
        i += 1;
    }
    if i < a.len() {
        1
    } else if i < b.len() {
        -1
    } else {
        0
    }
}

} // verus!
