//! Exact string matching for an extended regular-expression language,
//! decided by Brzozowski derivatives.
//!
//! An expression tree ([`Regex`]) is built directly by the caller; the
//! matcher folds the character derivative across the input string and asks
//! whether the resulting expression accepts the empty string. The language
//! includes intersection and complement in addition to the classical
//! union, concatenation and Kleene star.
//!
//! The meaning of an expression is pinned down by the specification
//! function [`semantics::in_lang`], and `Regex::match_regex` is proved to
//! decide exactly that membership relation.

pub mod expr;
pub mod matcher;
pub mod render;
pub mod semantics;

pub use expr::Regex;
