use vstd::prelude::*;
use vstd::string::StringExecFns;

use crate::expr::Regex;

verus! {

/// Relies on String::push: appends the given character to the end of
/// the string.
pub assume_specification[ String::push ](s: &mut String, ch: char)
    ensures
        final(s)@ == old(s)@.push(ch),
;

/// The canonical textual rendering of an expression, character by
/// character: a fixed literal for each leaf, and the variant's name
/// around its comma-space separated children for the rest.
pub open spec fn format_chars(e: Regex) -> Seq<char>
    decreases e,
{
    match e {
        Regex::Null => "∅"@,
        Regex::Empty => "\"\""@,
        Regex::Char(c) => "Char("@ + seq![c] + ")"@,
        Regex::Concat(s, t) => "Concat("@ + format_chars(*s) + ", "@ + format_chars(*t) + ")"@,
        Regex::Star(s) => "Star("@ + format_chars(*s) + ")"@,
        Regex::Or(s, t) => "Or("@ + format_chars(*s) + ", "@ + format_chars(*t) + ")"@,
        Regex::And(s, t) => "And("@ + format_chars(*s) + ", "@ + format_chars(*t) + ")"@,
        Regex::Not(s) => "Not("@ + format_chars(*s) + ")"@,
    }
}

impl Regex {
    /// A deterministic, purely cosmetic rendering of the expression for
    /// diagnostics and tests; matching logic never depends on it.
    pub fn format_regex(&self) -> (r: String)
        ensures
            r@ == format_chars(*self),
        decreases self,
    {
        match self {
            Regex::Null => String::from_str("∅"),
            Regex::Empty => String::from_str("\"\""),
            Regex::Char(b) => {
                let mut r = String::from_str("Char(");
                r.push(*b);
                r.append(")");
                proof {
                    assert(r@ =~= format_chars(*self));
                }
                r
            }
            Regex::Concat(s, t) => {
                let mut r = String::from_str("Concat(");
                let fs = s.format_regex();
                r.append(fs.as_str());
                r.append(", ");
                let ft = t.format_regex();
                r.append(ft.as_str());
                r.append(")");
                proof {
                    assert(r@ =~= format_chars(*self));
                }
                r
            }
            Regex::Star(s) => {
                let mut r = String::from_str("Star(");
                let fs = s.format_regex();
                r.append(fs.as_str());
                r.append(")");
                proof {
                    assert(r@ =~= format_chars(*self));
                }
                r
            }
            Regex::Or(s, t) => {
                let mut r = String::from_str("Or(");
                let fs = s.format_regex();
                r.append(fs.as_str());
                r.append(", ");
                let ft = t.format_regex();
                r.append(ft.as_str());
                r.append(")");
                proof {
                    assert(r@ =~= format_chars(*self));
                }
                r
            }
            Regex::And(s, t) => {
                let mut r = String::from_str("And(");
                let fs = s.format_regex();
                r.append(fs.as_str());
                r.append(", ");
                let ft = t.format_regex();
                r.append(ft.as_str());
                r.append(")");
                proof {
                    assert(r@ =~= format_chars(*self));
                }
                r
            }
            Regex::Not(s) => {
                let mut r = String::from_str("Not(");
                let fs = s.format_regex();
                r.append(fs.as_str());
                r.append(")");
                proof {
                    assert(r@ =~= format_chars(*self));
                }
                r
            }
        }
    }
}

} // verus!
