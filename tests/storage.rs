use gm_cli::args::ArgMap;
use gm_cli::error::CliError;
use gm_cli::storage::{cp, cp_outcome, decode_reply, touch, touch_outcome, Body, Reply, Request, Step};

fn s(x: &str) -> String {
    String::from(x)
}

fn map_of(pairs: &[(&str, &str)]) -> ArgMap {
    let mut m = ArgMap::new();
    for (k, v) in pairs {
        m.insert(s(k), s(v));
    }
    m
}

fn copy_inputs() -> ArgMap {
    map_of(&[("from", "a.txt"), ("to", "b.txt"), ("instance", "https://x"), ("token", "T"), ("id", "1")])
}

fn sent(step: Result<Step, CliError>) -> Request {
    match step {
        Ok(Step::Send(q)) => q,
        other => panic!("expected a request, got {:?}", other),
    }
}

#[test]
fn copy_scenario_reports_destination() {
    let mut m = copy_inputs();
    let q = sent(cp(&mut m, &vec![]));
    assert_eq!(q.url, "https://x/api/storage/v1/copy");
    assert!(!q.plain_http);
    assert_eq!(
        q.body,
        Body::FromTo { from: s("a.txt"), to: s("b.txt"), from_userid: 1, token: s("T") }
    );
    let msg = cp_outcome(Reply::Copied, "b.txt").unwrap();
    assert!(msg.contains("b.txt"));
    assert_eq!(msg, "Copied to b.txt");
}

#[test]
fn copy_scenario_server_error() {
    let mut m = copy_inputs();
    let _ = sent(cp(&mut m, &vec![]));
    let r = cp_outcome(Reply::Error { kind: s("not-found") }, "b.txt");
    match r {
        Err(CliError::Server(k)) => assert!(k.contains("not-found")),
        other => panic!("expected a server error, got {:?}", other),
    }
}

#[test]
fn copy_overwrite_endpoint_and_prefix() {
    let mut m = copy_inputs();
    m.insert(s("overwrite"), s(""));
    m.insert(s("prefix"), s("/home"));
    m.insert(s("http"), s(""));
    let q = sent(cp(&mut m, &vec![]));
    assert_eq!(q.url, "https://x/api/storage/v1/copy-overwrite");
    assert!(q.plain_http);
    assert_eq!(
        q.body,
        Body::FromTo { from: s("/home/a.txt"), to: s("/home/b.txt"), from_userid: 1, token: s("T") }
    );
}

#[test]
fn copy_prefers_user_over_id() {
    let mut m = copy_inputs();
    m.insert(s("user"), s("42"));
    let q = sent(cp(&mut m, &vec![]));
    match q.body {
        Body::FromTo { from_userid, .. } => assert_eq!(from_userid, 42),
        other => panic!("unexpected body {:?}", other),
    }
}

#[test]
fn copy_positional_arguments_fill_missing_names() {
    let mut m = map_of(&[("instance", "https://x"), ("token", "T"), ("id", "7"), ("to", "kept")]);
    let q = sent(cp(&mut m, &vec![s("/src"), s("/ignored")]));
    assert_eq!(
        q.body,
        Body::FromTo { from: s("/src"), to: s("kept"), from_userid: 7, token: s("T") }
    );
    assert_eq!(m.get("from"), Some(&s("/src")));
    assert_eq!(m.get("to"), Some(&s("kept")));
}

#[test]
fn copy_prompts_for_missing_paths() {
    let mut m = map_of(&[("instance", "https://x"), ("token", "T"), ("id", "1")]);
    assert_eq!(cp(&mut m, &vec![]), Ok(Step::Prompt { label: s("From"), name: s("from") }));
    m.insert(s("from"), s("a"));
    assert_eq!(cp(&mut m, &vec![]), Ok(Step::Prompt { label: s("To"), name: s("to") }));
}

#[test]
fn copy_not_logged_in() {
    let mut m = map_of(&[("from", "a"), ("to", "b"), ("instance", "https://x")]);
    assert_eq!(cp(&mut m, &vec![]), Err(CliError::NotLoggedIn));
    let mut m = map_of(&[("from", "a"), ("to", "b"), ("instance", "https://x"), ("token", "")]);
    assert_eq!(cp(&mut m, &vec![]), Err(CliError::NotLoggedIn));
}

#[test]
fn copy_without_user_or_id() {
    let mut m = map_of(&[("from", "a"), ("to", "b"), ("instance", "https://x"), ("token", "T")]);
    assert_eq!(cp(&mut m, &vec![]), Err(CliError::MissingArgument(s("id"))));
}

#[test]
fn copy_bad_user_id() {
    let mut m = copy_inputs();
    m.insert(s("id"), s("abc"));
    assert_eq!(cp(&mut m, &vec![]), Err(CliError::InvalidUserId(s("abc"))));
}

#[test]
fn copy_outcome_other_variants_are_unexpected() {
    assert_eq!(
        cp_outcome(Reply::FileItemCreated, "b"),
        Err(CliError::UnexpectedReply(Reply::FileItemCreated))
    );
    let other = Reply::Other { tag: s("Deleted") };
    assert_eq!(cp_outcome(other.clone(), "b"), Err(CliError::UnexpectedReply(other)));
}

#[test]
fn touch_invalid_path_scenario() {
    let mut m = map_of(&[("path", "relative/file"), ("instance", "https://x"), ("token", "T")]);
    assert_eq!(touch(&mut m, &vec![]), Err(CliError::InvalidPath(s("relative/file"))));
}

#[test]
fn touch_builds_request() {
    let mut m = map_of(&[("path", "/notes.txt"), ("instance", "https://x"), ("token", "T")]);
    let q = sent(touch(&mut m, &vec![]));
    assert_eq!(q.url, "https://x/api/storage/v1/touch");
    assert_eq!(q.body, Body::PathOnly { path: s("/notes.txt"), token: s("T") });
}

#[test]
fn touch_prefix_makes_relative_path_rooted() {
    let mut m = map_of(&[("prefix", "/docs/"), ("instance", "https://x"), ("token", "T")]);
    let q = sent(touch(&mut m, &vec![s("new.md")]));
    assert_eq!(q.body, Body::PathOnly { path: s("/docs/new.md"), token: s("T") });
}

#[test]
fn touch_prompts_and_checks_login() {
    let mut m = map_of(&[("instance", "https://x"), ("token", "T")]);
    assert_eq!(touch(&mut m, &vec![]), Ok(Step::Prompt { label: s("Path"), name: s("path") }));
    let mut m = map_of(&[("path", "/a")]);
    assert_eq!(touch(&mut m, &vec![]), Err(CliError::NotLoggedIn));
}

#[test]
fn touch_outcomes() {
    assert_eq!(touch_outcome(Reply::FileItemCreated, "/a"), Ok(s("Created /a")));
    assert_eq!(
        touch_outcome(Reply::Error { kind: s("exists") }, "/a"),
        Err(CliError::Server(s("exists")))
    );
    assert_eq!(touch_outcome(Reply::Copied, "/a"), Err(CliError::UnexpectedReply(Reply::Copied)));
}

#[test]
fn decodes_reply_tags() {
    assert_eq!(decode_reply("copied", None), Ok(Reply::Copied));
    assert_eq!(decode_reply("file-item-created", None), Ok(Reply::FileItemCreated));
    assert_eq!(
        decode_reply("error", Some(s("not-found"))),
        Ok(Reply::Error { kind: s("not-found") })
    );
    assert!(matches!(decode_reply("error", None), Err(CliError::Deserialization(_))));
    assert_eq!(decode_reply("deleted", None), Ok(Reply::Other { tag: s("deleted") }));
}

#[test]
fn request_target() {
    let mut m = copy_inputs();
    assert_eq!(sent(cp(&mut m, &vec![])).target(), "b.txt");
    let mut m = map_of(&[("path", "/p"), ("instance", "https://x"), ("token", "T")]);
    assert_eq!(sent(touch(&mut m, &vec![])).target(), "/p");
}
