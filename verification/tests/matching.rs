use brzozowski::Regex;

#[test]
fn match_null() {
    let regex = Regex::Null;
    assert!("∅" == regex.format_regex());
    assert!(!regex.match_regex(""));
    assert!(!regex.match_regex("a"));
}

#[test]
fn match_empty() {
    let regex = Regex::Empty;
    assert!("\"\"" == regex.format_regex());
    assert!(regex.match_regex(""));
    assert!(!regex.match_regex("a"));
}

#[test]
fn match_char() {
    let regex = Regex::Char('b');
    assert!("Char(b)" == regex.format_regex());
    assert!(!regex.match_regex(""));
    assert!(!regex.match_regex("a"));
    assert!(regex.match_regex("b"));
    assert!(!regex.match_regex("bb"));
}

#[test]
fn match_star() {
    let regex = Regex::Star(Box::new(Regex::Char('a')));
    assert!("Star(Char(a))" == regex.format_regex());
    assert!(regex.match_regex(""));
    assert!(regex.match_regex("a"));
    assert!(regex.match_regex("aa"));
    assert!(regex.match_regex("aaa"));
    assert!(!regex.match_regex("aaab"));
    assert!(!regex.match_regex("aaba"));
    assert!(!regex.match_regex("baaa"));
    assert!(!regex.match_regex("b"));
}

#[test]
fn match_concat() {
    let regex = Regex::Concat(Box::new(Regex::Char('a')), Box::new(Regex::Char('b')));
    assert!("Concat(Char(a), Char(b))" == regex.format_regex());
    assert!(!regex.match_regex(""));
    assert!(!regex.match_regex("a"));
    assert!(!regex.match_regex("aa"));
    assert!(regex.match_regex("ab"));
    assert!(!regex.match_regex("abc"));
}

#[test]
fn match_or() {
    let regex = Regex::Or(Box::new(Regex::Char('a')), Box::new(Regex::Char('b')));
    assert!("Or(Char(a), Char(b))" == regex.format_regex());
    println!("{:?}", regex);
    assert!(!regex.match_regex(""));
    assert!(regex.match_regex("a"));
    assert!(regex.match_regex("b"));
    assert!(!regex.match_regex("ab"));
}

#[test]
fn match_and() {
    let regex = Regex::And(
        Box::new(Regex::Char('a')),
        Box::new(Regex::Star(Box::new(Regex::Char('a')))),
    );
    assert!("And(Char(a), Star(Char(a)))" == regex.format_regex());
    assert!(!regex.match_regex(""));
    assert!(regex.match_regex("a"));
    assert!(!regex.match_regex("aa"));
}

#[test]
fn match_not() {
    let regex = Regex::Not(Box::new(Regex::Char('a')));
    assert!("Not(Char(a))" == regex.format_regex());
    assert!(regex.match_regex(""));
    assert!(!regex.match_regex("a"));
    assert!(regex.match_regex("b"));
    assert!(regex.match_regex("aa"));
}
