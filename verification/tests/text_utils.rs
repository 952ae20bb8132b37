use atlas_rs::services::lookup::split_commas_exec;
use atlas_rs::text::{lex_lt_exec, split_on_exec};

#[test]
fn splits_on_commas() {
    assert_eq!(split_commas_exec(""), vec![""]);
    assert_eq!(split_commas_exec("a"), vec!["a"]);
    assert_eq!(split_commas_exec("a,b,,c"), vec!["a", "b", "", "c"]);
    assert_eq!(split_commas_exec("a,"), vec!["a", ""]);
    assert_eq!(split_commas_exec(",a"), vec!["", "a"]);
}

#[test]
fn splits_on_other_separators() {
    assert_eq!(
        split_on_exec("attachment; filename=x", ';'),
        vec!["attachment", " filename=x"]
    );
}

#[test]
fn orders_names() {
    assert!(lex_lt_exec("a", "ab"));
    assert!(!lex_lt_exec("ab", "a"));
    assert!(!lex_lt_exec("a", "a"));
    assert!(lex_lt_exec("GeoIP2-City_20230101", "GeoIP2-City_20240101"));
    assert!(!lex_lt_exec("GeoIP2-City_20240101", "GeoIP2-City_20230101"));
    assert!(lex_lt_exec("", "a"));
    assert!(!lex_lt_exec("", ""));
}
