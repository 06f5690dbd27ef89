use gm_cli::args::{map_args, missing_names, resolve, ArgMap};
use gm_cli::error::CliError;
use gm_cli::path::{has_root, join_path, parse_user_id};

fn s(x: &str) -> String {
    String::from(x)
}

#[test]
fn insert_replaces_value() {
    let mut m = ArgMap::new();
    m.insert(s("a"), s("1"));
    m.insert(s("a"), s("2"));
    assert_eq!(m.get("a"), Some(&s("2")));
    assert!(m.contains_key("a"));
    assert!(!m.contains_key("b"));
    assert!(m.is_given("a"));
}

#[test]
fn empty_value_is_not_given() {
    let mut m = ArgMap::new();
    m.insert(s("a"), s(""));
    assert!(m.contains_key("a"));
    assert!(!m.is_given("a"));
}

#[test]
fn extend_prefers_other() {
    let mut m = ArgMap::new();
    m.insert(s("a"), s("1"));
    m.insert(s("b"), s("2"));
    let mut o = ArgMap::new();
    o.insert(s("b"), s("3"));
    o.insert(s("c"), s("4"));
    m.extend(&o);
    assert_eq!(m.get("a"), Some(&s("1")));
    assert_eq!(m.get("b"), Some(&s("3")));
    assert_eq!(m.get("c"), Some(&s("4")));
}

#[test]
fn map_args_only_fills_absent_names() {
    let mut m = ArgMap::new();
    m.insert(s("from"), s("x"));
    map_args(&mut m, &vec![s("from"), s("to")], &vec![s("p"), s("q"), s("r")]);
    assert_eq!(m.get("from"), Some(&s("x")));
    assert_eq!(m.get("to"), Some(&s("q")));
}

#[test]
fn missing_names_in_order() {
    let mut m = ArgMap::new();
    m.insert(s("b"), s("v"));
    m.insert(s("c"), s(""));
    assert_eq!(missing_names(&m, &vec![s("a"), s("b"), s("c")]), vec![s("a"), s("c")]);
}

#[test]
fn resolve_reports_first_missing_name() {
    let mut m = ArgMap::new();
    let names = vec![s("from"), s("to")];
    assert_eq!(resolve(&mut m, &names, &vec![s("a")]), Err(CliError::MissingArgument(s("to"))));
    assert_eq!(resolve(&mut m, &names, &vec![s("a"), s("b")]), Ok(()));
    assert_eq!(m.get("to"), Some(&s("b")));
}

#[test]
fn resolve_with_everything_given() {
    let mut m = ArgMap::new();
    m.insert(s("path"), s("/x"));
    assert_eq!(resolve(&mut m, &vec![s("path")], &vec![]), Ok(()));
}

#[test]
fn joins_paths() {
    assert_eq!(join_path("", "a.txt"), "a.txt");
    assert_eq!(join_path("/home", "a.txt"), "/home/a.txt");
    assert_eq!(join_path("/home/", "a.txt"), "/home/a.txt");
    assert_eq!(join_path("/home", "/etc/x"), "/etc/x");
    assert!(has_root("/a"));
    assert!(!has_root("a/b"));
    assert!(!has_root(""));
}

#[test]
fn parses_user_ids() {
    assert_eq!(parse_user_id("0"), Some(0));
    assert_eq!(parse_user_id("1234"), Some(1234));
    assert_eq!(parse_user_id("18446744073709551615"), Some(u64::MAX));
    assert_eq!(parse_user_id("18446744073709551616"), None);
    assert_eq!(parse_user_id(""), None);
    assert_eq!(parse_user_id("12a"), None);
    assert_eq!(parse_user_id("-1"), None);
}
