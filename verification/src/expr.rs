use vstd::prelude::*;

verus! {

/// A regular expression over Unicode code points, extended with
/// intersection (`And`) and complement (`Not`).
///
/// Every tree built from these variants is a well-formed expression:
/// there is no validity invariant and no constructor beyond direct
/// composition. Expressions are immutable values; every operation on
/// them builds new trees and leaves its input untouched.
#[derive(Debug)]
pub enum Regex {
    /// Matches no string at all (the empty language).
    Null,
    /// Matches exactly the empty string.
    Empty,
    /// Matches exactly the one-character string made of this character.
    Char(char),
    /// Matches a prefix matched by the first operand followed by a
    /// suffix matched by the second.
    Concat(Box<Regex>, Box<Regex>),
    /// Matches zero or more consecutive repetitions of its operand.
    Star(Box<Regex>),
    /// Matches what either operand matches (union).
    Or(Box<Regex>, Box<Regex>),
    /// Matches what both operands match (intersection).
    And(Box<Regex>, Box<Regex>),
    /// Matches every string its operand does not match (complement).
    Not(Box<Regex>),
}

impl Clone for Regex {
    /// A deep copy; the clone is, as a value, equal to the original.
    fn clone(&self) -> (r: Self)
        ensures
            r == *self,
        decreases self,
    {
        match self {
            Regex::Null => Regex::Null,
            Regex::Empty => Regex::Empty,
            Regex::Char(c) => Regex::Char(*c),
            Regex::Concat(s, t) => Regex::Concat(
                Box::new((&**s).clone()),
                Box::new((&**t).clone()),
            ),
            Regex::Star(s) => Regex::Star(Box::new((&**s).clone())),
            Regex::Or(s, t) => Regex::Or(
                Box::new((&**s).clone()),
                Box::new((&**t).clone()),
            ),
            Regex::And(s, t) => Regex::And(
                Box::new((&**s).clone()),
                Box::new((&**t).clone()),
            ),
            Regex::Not(s) => Regex::Not(Box::new((&**s).clone())),
        }
    }
}

} // verus!
