use vstd::prelude::*;

use crate::expr::Regex;
use crate::semantics::{deriv, deriv_fold, in_lang, is_nullable, lemma_deriv_fold_in_lang};

verus! {

impl Regex {
    /// Whether the empty string is a member of this expression's
    /// language, decided by structural recursion.
    fn nullable_bool(&self) -> (r: bool)
        ensures
            r == is_nullable(*self),
        decreases self,
    {
        match self {
            Regex::Null => false,
            Regex::Empty => true,
            Regex::Char(_) => false,
            Regex::Concat(s, t) => s.nullable_bool() && t.nullable_bool(),
            Regex::Star(_) => true,
            Regex::Or(s, t) => s.nullable_bool() || t.nullable_bool(),
            Regex::And(s, t) => s.nullable_bool() && t.nullable_bool(),
            Regex::Not(s) => !s.nullable_bool(),
        }
    }

    /// The nullability oracle as an expression: `Empty` when this
    /// expression is nullable, `Null` otherwise. This is the base case
    /// that bootstraps the derivative of a concatenation.
    fn nullable(&self) -> (r: Regex)
        ensures
            r == (if is_nullable(*self) {
                Regex::Empty
            } else {
                Regex::Null
            }),
    {
        if self.nullable_bool() {
            Regex::Empty
        } else {
            Regex::Null
        }
    }

    /// The Brzozowski derivative of this expression with respect to one
    /// character `c`: the expression matching exactly the suffixes `w`
    /// such that `c` followed by `w` is matched by `self`. No algebraic
    /// simplification is performed; the result is the literal rewrite.
    fn differentiate_char(&self, c: char) -> (r: Regex)
        ensures
            r == deriv(c, *self),
        decreases self,
    {
        match self {
            Regex::Empty => Regex::Null,
            Regex::Char(b) => {
                if *b == c {
                    Regex::Empty
                } else {
                    Regex::Null
                }
            }
            Regex::Null => Regex::Null,
            Regex::Concat(s, t) => Regex::Or(
                Box::new(Regex::Concat(
                    Box::new(s.differentiate_char(c)),
                    Box::new((&**t).clone()),
                )),
                Box::new(Regex::Concat(
                    Box::new(s.nullable()),
                    Box::new(t.differentiate_char(c)),
                )),
            ),
            Regex::Star(s) => Regex::Concat(
                Box::new(s.differentiate_char(c)),
                Box::new(Regex::Star(Box::new((&**s).clone()))),
            ),
            Regex::Or(s, t) => Regex::Or(
                Box::new(s.differentiate_char(c)),
                Box::new(t.differentiate_char(c)),
            ),
            Regex::And(s, t) => Regex::And(
                Box::new(s.differentiate_char(c)),
                Box::new(t.differentiate_char(c)),
            ),
            Regex::Not(s) => Regex::Not(Box::new(s.differentiate_char(c))),
        }
    }

    /// The derivative folded across the characters of `s`, strictly
    /// left to right, starting from this expression.
    fn differentiate(&self, s: &str) -> (r: Regex)
        ensures
            r == deriv_fold(*self, s@),
    {
        let n = s.unicode_len();
        let mut result = self.clone();
        let mut i: usize = 0;
        proof {
            assert(s@.subrange(0, n as int) =~= s@);
        }
        while i < n
            invariant
                i <= n,
                n == s@.len(),
                deriv_fold(result, s@.subrange(i as int, n as int)) == deriv_fold(*self, s@),
            decreases n - i,
        {
            let c = s.get_char(i);
            proof {
                let tail = s@.subrange(i as int, n as int);
                assert(tail[0] == s@[i as int]);
                assert(tail.subrange(1, tail.len() as int)
                    =~= s@.subrange(i as int + 1, n as int));
            }
            result = result.differentiate_char(c);
            i = i + 1;
        }
        proof {
            assert(s@.subrange(n as int, n as int) =~= Seq::<char>::empty());
        }
        result
    }

    /// Whole-string, both-ends-anchored matching: `true` exactly when
    /// `s` belongs to the language of this expression. Every pair of
    /// expression and string yields a boolean; there is no failure path.
    pub fn match_regex(&self, s: &str) -> (r: bool)
        ensures
            r == in_lang(*self, s@),
    {
        let d = self.differentiate(s);
        proof {
            lemma_deriv_fold_in_lang(*self, s@);
        }
        d.nullable_bool()
    }
}

} // verus!
