use vstd::prelude::*;

use crate::expr::Regex;

verus! {

/// Language membership: the string `s` belongs to the language denoted
/// by the expression `e`.
///
/// This is the denotational meaning of an expression, stated without
/// reference to the derivative-based matcher. Concatenation quantifies
/// over a split point. A non-empty member of a starred language is split
/// into a non-empty first chunk from one repetition and a remainder from
/// the star; insisting that the first chunk is non-empty loses nothing
/// (empty repetitions contribute nothing) and makes the recursion
/// well-founded.
pub open spec fn in_lang(e: Regex, s: Seq<char>) -> bool
    decreases e, s.len(),
{
    match e {
        Regex::Null => false,
        Regex::Empty => s.len() == 0,
        Regex::Char(c) => s.len() == 1 && s[0] == c,
        Regex::Concat(a, b) => exists|i: int|
            0 <= i <= s.len()
            && in_lang(*a, s.subrange(0, i))
            && in_lang(*b, s.subrange(i, s.len() as int)),
        Regex::Star(a) => s.len() == 0 || exists|i: int|
            1 <= i <= s.len()
            && in_lang(*a, s.subrange(0, i))
            && in_lang(e, s.subrange(i, s.len() as int)),
        Regex::Or(a, b) => in_lang(*a, s) || in_lang(*b, s),
        Regex::And(a, b) => in_lang(*a, s) && in_lang(*b, s),
        Regex::Not(a) => !in_lang(*a, s),
    }
}

/// Whether the empty string belongs to the language of `e`, computed
/// structurally (the nullability oracle, at the specification level).
pub open spec fn is_nullable(e: Regex) -> bool
    decreases e,
{
    match e {
        Regex::Null => false,
        Regex::Empty => true,
        Regex::Char(_) => false,
        Regex::Concat(a, b) => is_nullable(*a) && is_nullable(*b),
        Regex::Star(_) => true,
        Regex::Or(a, b) => is_nullable(*a) || is_nullable(*b),
        Regex::And(a, b) => is_nullable(*a) && is_nullable(*b),
        Regex::Not(a) => !is_nullable(*a),
    }
}

/// The Brzozowski derivative of `e` with respect to the character `c`:
/// the expression denoting `{ w | c.w is in the language of e }`,
/// built exactly as the matcher builds it (no algebraic simplification).
pub open spec fn deriv(c: char, e: Regex) -> Regex
    decreases e,
{
    match e {
        Regex::Null => Regex::Null,
        Regex::Empty => Regex::Null,
        Regex::Char(b) => if b == c {
            Regex::Empty
        } else {
            Regex::Null
        },
        Regex::Concat(a, b) => Regex::Or(
            Box::new(Regex::Concat(Box::new(deriv(c, *a)), b)),
            Box::new(Regex::Concat(
                Box::new(if is_nullable(*a) { Regex::Empty } else { Regex::Null }),
                Box::new(deriv(c, *b)),
            )),
        ),
        Regex::Star(a) => Regex::Concat(Box::new(deriv(c, *a)), Box::new(Regex::Star(a))),
        Regex::Or(a, b) => Regex::Or(Box::new(deriv(c, *a)), Box::new(deriv(c, *b))),
        Regex::And(a, b) => Regex::And(Box::new(deriv(c, *a)), Box::new(deriv(c, *b))),
        Regex::Not(a) => Regex::Not(Box::new(deriv(c, *a))),
    }
}

/// The derivative folded across a whole string, character by character,
/// strictly left to right.
pub open spec fn deriv_fold(e: Regex, s: Seq<char>) -> Regex
    decreases s.len(),
{
    if s.len() == 0 {
        e
    } else {
        deriv_fold(deriv(s[0], e), s.subrange(1, s.len() as int))
    }
}

/// The nullability oracle is correct: `e` is nullable exactly when the
/// empty string belongs to its language.
pub proof fn lemma_nullable_iff_empty(e: Regex)
    ensures
        is_nullable(e) == in_lang(e, Seq::<char>::empty()),
    decreases e,
{
    let s = Seq::<char>::empty();
    match e {
        Regex::Null => {}
        Regex::Empty => {}
        Regex::Char(_) => {}
        Regex::Star(_) => {}
        Regex::Concat(a, b) => {
            lemma_nullable_iff_empty(*a);
            lemma_nullable_iff_empty(*b);
            assert(s.subrange(0, 0) =~= s);
            if is_nullable(*a) && is_nullable(*b) {
                assert(in_lang(*a, s.subrange(0, 0)));
                assert(in_lang(*b, s.subrange(0, s.len() as int)));
                assert(in_lang(e, s));
            }
            if in_lang(e, s) {
                let i = choose|i: int|
                    0 <= i <= s.len()
                    && in_lang(*a, s.subrange(0, i))
                    && in_lang(*b, s.subrange(i, s.len() as int));
                assert(i == 0);
                assert(is_nullable(*a) && is_nullable(*b));
            }
        }
        Regex::Or(a, b) => {
            lemma_nullable_iff_empty(*a);
            lemma_nullable_iff_empty(*b);
        }
        Regex::And(a, b) => {
            lemma_nullable_iff_empty(*a);
            lemma_nullable_iff_empty(*b);
        }
        Regex::Not(a) => {
            lemma_nullable_iff_empty(*a);
        }
    }
}

/// The character derivative is correct: `s` belongs to the language of
/// the derivative of `e` by `c` exactly when `c` followed by `s` belongs
/// to the language of `e`.
pub proof fn lemma_deriv_in_lang(c: char, e: Regex, s: Seq<char>)
    ensures
        in_lang(deriv(c, e), s) == in_lang(e, seq![c] + s),
    decreases e,
{
    let cs = seq![c] + s;
    match e {
        Regex::Null => {}
        Regex::Empty => {}
        Regex::Char(_) => {}
        Regex::Or(a, b) => {
            lemma_deriv_in_lang(c, *a, s);
            lemma_deriv_in_lang(c, *b, s);
        }
        Regex::And(a, b) => {
            lemma_deriv_in_lang(c, *a, s);
            lemma_deriv_in_lang(c, *b, s);
        }
        Regex::Not(a) => {
            lemma_deriv_in_lang(c, *a, s);
        }
        Regex::Concat(a, b) => {
            let da = deriv(c, *a);
            let db = deriv(c, *b);
            if in_lang(e, cs) {
                let i = choose|i: int|
                    0 <= i <= cs.len()
                    && in_lang(*a, cs.subrange(0, i))
                    && in_lang(*b, cs.subrange(i, cs.len() as int));
                if i == 0 {
                    assert(cs.subrange(0, 0) =~= Seq::<char>::empty());
                    lemma_nullable_iff_empty(*a);
                    assert(cs.subrange(0, cs.len() as int) =~= cs);
                    lemma_deriv_in_lang(c, *b, s);
                    assert(in_lang(db, s));
                    assert(s.subrange(0, 0) =~= Seq::<char>::empty());
                    assert(s.subrange(0, s.len() as int) =~= s);
                    assert(in_lang(Regex::Empty, s.subrange(0, 0)));
                    assert(in_lang(Regex::Concat(Box::new(Regex::Empty), Box::new(db)), s));
                } else {
                    assert(cs.subrange(0, i) =~= seq![c] + s.subrange(0, i - 1));
                    lemma_deriv_in_lang(c, *a, s.subrange(0, i - 1));
                    assert(in_lang(da, s.subrange(0, i - 1)));
                    assert(cs.subrange(i, cs.len() as int) =~= s.subrange(i - 1, s.len() as int));
                    assert(in_lang(*b, s.subrange(i - 1, s.len() as int)));
                    assert(in_lang(Regex::Concat(Box::new(da), b), s));
                }
                assert(in_lang(deriv(c, e), s));
            }
            if in_lang(deriv(c, e), s) {
                if in_lang(Regex::Concat(Box::new(da), b), s) {
                    let j = choose|j: int|
                        0 <= j <= s.len()
                        && in_lang(da, s.subrange(0, j))
                        && in_lang(*b, s.subrange(j, s.len() as int));
                    lemma_deriv_in_lang(c, *a, s.subrange(0, j));
                    assert(cs.subrange(0, j + 1) =~= seq![c] + s.subrange(0, j));
                    assert(in_lang(*a, cs.subrange(0, j + 1)));
                    assert(cs.subrange(j + 1, cs.len() as int) =~= s.subrange(j, s.len() as int));
                    assert(in_lang(*b, cs.subrange(j + 1, cs.len() as int)));
                    assert(in_lang(e, cs));
                } else {
                    let na = if is_nullable(*a) { Regex::Empty } else { Regex::Null };
                    assert(in_lang(Regex::Concat(Box::new(na), Box::new(db)), s));
                    let j = choose|j: int|
                        0 <= j <= s.len()
                        && in_lang(na, s.subrange(0, j))
                        && in_lang(db, s.subrange(j, s.len() as int));
                    assert(na is Empty);
                    assert(s.subrange(0, j).len() == j);
                    assert(j == 0);
                    assert(s.subrange(0, s.len() as int) =~= s);
                    assert(in_lang(db, s));
                    lemma_deriv_in_lang(c, *b, s);
                    assert(in_lang(*b, cs));
                    lemma_nullable_iff_empty(*a);
                    assert(cs.subrange(0, 0) =~= Seq::<char>::empty());
                    assert(in_lang(*a, cs.subrange(0, 0)));
                    assert(cs.subrange(0, cs.len() as int) =~= cs);
                    assert(in_lang(e, cs));
                }
            }
        }
        Regex::Star(a) => {
            let da = deriv(c, *a);
            if in_lang(e, cs) {
                assert(cs.len() > 0);
                let i = choose|i: int|
                    1 <= i <= cs.len()
                    && in_lang(*a, cs.subrange(0, i))
                    && in_lang(e, cs.subrange(i, cs.len() as int));
                assert(cs.subrange(0, i) =~= seq![c] + s.subrange(0, i - 1));
                lemma_deriv_in_lang(c, *a, s.subrange(0, i - 1));
                assert(in_lang(da, s.subrange(0, i - 1)));
                assert(cs.subrange(i, cs.len() as int) =~= s.subrange(i - 1, s.len() as int));
                assert(in_lang(e, s.subrange(i - 1, s.len() as int)));
                assert(in_lang(deriv(c, e), s));
            }
            if in_lang(deriv(c, e), s) {
                let j = choose|j: int|
                    0 <= j <= s.len()
                    && in_lang(da, s.subrange(0, j))
                    && in_lang(e, s.subrange(j, s.len() as int));
                lemma_deriv_in_lang(c, *a, s.subrange(0, j));
                assert(cs.subrange(0, j + 1) =~= seq![c] + s.subrange(0, j));
                assert(in_lang(*a, cs.subrange(0, j + 1)));
                assert(cs.subrange(j + 1, cs.len() as int) =~= s.subrange(j, s.len() as int));
                assert(in_lang(e, cs.subrange(j + 1, cs.len() as int)));
                assert(in_lang(e, cs));
            }
        }
    }
}

/// Folding the derivative across `s` and asking for nullability decides
/// exactly language membership: the heart of the matcher's correctness.
pub proof fn lemma_deriv_fold_in_lang(e: Regex, s: Seq<char>)
    ensures
        is_nullable(deriv_fold(e, s)) == in_lang(e, s),
    decreases s.len(),
{
    if s.len() == 0 {
        lemma_nullable_iff_empty(e);
        assert(s =~= Seq::<char>::empty());
    } else {
        let d = deriv(s[0], e);
        let tail = s.subrange(1, s.len() as int);
        lemma_deriv_fold_in_lang(d, tail);
        lemma_deriv_in_lang(s[0], e, tail);
        assert(seq![s[0]] + tail =~= s);
    }
}

/// `Null` matches no string at all, the empty string included.
pub proof fn lemma_null_matches_nothing(s: Seq<char>)
    ensures
        !in_lang(Regex::Null, s),
{
}

/// `Empty` matches the empty string and nothing else.
pub proof fn lemma_empty_matches_only_empty(s: Seq<char>)
    ensures
        in_lang(Regex::Empty, s) <==> s.len() == 0,
{
}

/// `Char(c)` matches exactly the strings of length one whose sole
/// character is `c`.
pub proof fn lemma_char_matches_single(c: char, s: Seq<char>)
    ensures
        in_lang(Regex::Char(c), s) <==> (s.len() == 1 && s[0] == c),
{
}

/// `Star(e)` matches the empty string, whatever `e` is: zero
/// repetitions always satisfy a star.
pub proof fn lemma_star_matches_empty(e: Regex)
    ensures
        in_lang(Regex::Star(Box::new(e)), Seq::<char>::empty()),
{
}

/// Union law: `Or(a, b)` matches exactly the strings matched by `a`
/// or by `b`.
pub proof fn lemma_or_is_union(a: Regex, b: Regex, s: Seq<char>)
    ensures
        in_lang(Regex::Or(Box::new(a), Box::new(b)), s)
            == (in_lang(a, s) || in_lang(b, s)),
{
}

/// Intersection law: `And(a, b)` matches exactly the strings matched
/// by both `a` and `b`.
pub proof fn lemma_and_is_intersection(a: Regex, b: Regex, s: Seq<char>)
    ensures
        in_lang(Regex::And(Box::new(a), Box::new(b)), s)
            == (in_lang(a, s) && in_lang(b, s)),
{
}

/// Complement law: `Not(a)` matches exactly the strings `a` does not.
pub proof fn lemma_not_is_complement(a: Regex, s: Seq<char>)
    ensures
        in_lang(Regex::Not(Box::new(a)), s) == !in_lang(a, s),
{
}

} // verus!
