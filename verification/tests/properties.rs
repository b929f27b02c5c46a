use brzozowski::Regex;

fn ab() -> Regex {
    Regex::Concat(Box::new(Regex::Char('a')), Box::new(Regex::Char('b')))
}

#[test]
fn null_rejects_everything() {
    assert!(!Regex::Null.match_regex(""));
    assert!(!Regex::Null.match_regex("x"));
    assert!(!Regex::Null.match_regex("some longer string"));
}

#[test]
fn empty_accepts_only_empty() {
    assert!(Regex::Empty.match_regex(""));
    assert!(!Regex::Empty.match_regex(" "));
    assert!(!Regex::Empty.match_regex("ab"));
}

#[test]
fn char_accepts_only_its_singleton() {
    let regex = Regex::Char('x');
    assert!(regex.match_regex("x"));
    assert!(!regex.match_regex(""));
    assert!(!regex.match_regex("y"));
    assert!(!regex.match_regex("xx"));
}

#[test]
fn star_of_any_expression_accepts_empty() {
    assert!(Regex::Star(Box::new(Regex::Null)).match_regex(""));
    assert!(Regex::Star(Box::new(ab())).match_regex(""));
    assert!(Regex::Star(Box::new(Regex::Not(Box::new(Regex::Empty)))).match_regex(""));
}

#[test]
fn or_agrees_with_union_of_operands() {
    let a = Regex::Star(Box::new(Regex::Char('a')));
    let b = ab();
    for s in ["", "a", "aa", "ab", "b", "ba", "abab"] {
        let both = Regex::Or(Box::new(a.clone()), Box::new(b.clone()));
        assert_eq!(both.match_regex(s), a.match_regex(s) || b.match_regex(s));
    }
}

#[test]
fn and_agrees_with_intersection_of_operands() {
    let a = Regex::Star(Box::new(Regex::Char('a')));
    let b = Regex::Not(Box::new(Regex::Empty));
    for s in ["", "a", "aa", "ab", "b"] {
        let both = Regex::And(Box::new(a.clone()), Box::new(b.clone()));
        assert_eq!(both.match_regex(s), a.match_regex(s) && b.match_regex(s));
    }
}

#[test]
fn not_agrees_with_complement_of_operand() {
    let a = Regex::Or(Box::new(Regex::Empty), Box::new(ab()));
    for s in ["", "a", "ab", "ba", "abab"] {
        let negated = Regex::Not(Box::new(a.clone()));
        assert_eq!(negated.match_regex(s), !a.match_regex(s));
    }
}

#[test]
fn concatenation_is_order_sensitive() {
    let regex = ab();
    assert!(regex.match_regex("ab"));
    assert!(!regex.match_regex("ba"));
}

#[test]
fn star_of_concatenation() {
    let regex = Regex::Star(Box::new(ab()));
    assert!(regex.match_regex(""));
    assert!(regex.match_regex("ab"));
    assert!(regex.match_regex("abab"));
    assert!(!regex.match_regex("aba"));
    assert!(!regex.match_regex("ba"));
}

#[test]
fn matches_non_ascii_characters() {
    let regex = Regex::Concat(Box::new(Regex::Char('é')), Box::new(Regex::Char('漢')));
    assert!(regex.match_regex("é漢"));
    assert!(!regex.match_regex("é"));
    assert!(!regex.match_regex("漢é"));
}

#[test]
fn format_renders_nested_expressions() {
    let regex = Regex::Or(
        Box::new(Regex::And(Box::new(Regex::Null), Box::new(Regex::Empty))),
        Box::new(Regex::Not(Box::new(Regex::Star(Box::new(Regex::Char('z')))))),
    );
    assert_eq!(regex.format_regex(), "Or(And(∅, \"\"), Not(Star(Char(z))))");
}

#[test]
fn clone_preserves_matching() {
    let regex = Regex::And(
        Box::new(Regex::Star(Box::new(Regex::Char('a')))),
        Box::new(Regex::Not(Box::new(Regex::Empty))),
    );
    let copy = regex.clone();
    for s in ["", "a", "aa", "b"] {
        assert_eq!(copy.match_regex(s), regex.match_regex(s));
    }
}
