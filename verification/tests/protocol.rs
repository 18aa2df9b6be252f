use field_plugins::text::{chars_of, contains, starts_with};
use field_plugins::{AliasTarget, Context, Outcome, PathKind, Request, Specifier};
use std::cell::Cell;

fn request(target: &str, kind: PathKind, base_directory: &str) -> Request {
    Request { target: target.to_string(), kind, base_directory: base_directory.to_string() }
}

#[test]
fn only_continue_lets_the_chain_go_on() {
    let r = request("a", PathKind::Normal, "/p");
    assert!(!Outcome::Continue(r.clone()).is_terminal());
    assert!(Outcome::Resolved("/p/a.js".to_string()).is_terminal());
    assert!(Outcome::ResolvedIgnored.is_terminal());
    assert!(Outcome::Failed("no".to_string(), r).is_terminal());
}

#[test]
fn and_then_feeds_the_request_to_the_next_plugin() {
    let first = Outcome::Continue(request("a", PathKind::Normal, "/p"));
    let out = first.and_then(|r| {
        Outcome::Continue(Request { target: format!("{}/index", r.target), ..r })
    });
    assert_eq!(out, Outcome::Continue(request("a/index", PathKind::Normal, "/p")));
}

#[test]
fn and_then_does_not_run_after_a_terminal_outcome() {
    let calls = Cell::new(0);
    let r = request("a", PathKind::Normal, "/p");
    for terminal in [
        Outcome::Resolved("/p/a.js".to_string()),
        Outcome::ResolvedIgnored,
        Outcome::Failed("no".to_string(), r),
    ] {
        let out = terminal.clone().and_then(|r| {
            calls.set(calls.get() + 1);
            Outcome::Continue(r)
        });
        assert_eq!(out, terminal);
    }
    assert_eq!(calls.get(), 0);
}

#[test]
fn a_chain_ends_at_its_first_terminal_outcome() {
    let calls = Cell::new(0);
    let out = Outcome::Continue(request("a", PathKind::Normal, "/p"))
        .and_then(|r| {
            calls.set(calls.get() + 1);
            Outcome::Continue(Request { target: "b".to_string(), ..r })
        })
        .and_then(|r| {
            calls.set(calls.get() + 10);
            Outcome::Failed("stop".to_string(), r)
        })
        .and_then(|r| {
            calls.set(calls.get() + 100);
            Outcome::Continue(r)
        });
    assert_eq!(out, Outcome::Failed("stop".to_string(), request("b", PathKind::Normal, "/p")));
    assert_eq!(calls.get(), 11);
}

#[test]
fn a_chain_of_passing_plugins_continues_with_the_last_request() {
    let out = Outcome::Continue(request("a", PathKind::Normal, "/p"))
        .and_then(|r| Outcome::Continue(Request { target: "b".to_string(), ..r }))
        .and_then(|r| Outcome::Continue(Request { base_directory: "/q".to_string(), ..r }));
    assert_eq!(out, Outcome::Continue(request("b", PathKind::Normal, "/q")));
}

#[test]
fn a_request_is_a_rooted_specifier() {
    let specifier = Specifier { target: "./y.js".to_string(), kind: PathKind::Relative };
    let r = Request::new("/pkg".to_string(), specifier);
    assert_eq!(r, request("./y.js", PathKind::Relative, "/pkg"));
}

#[test]
fn only_normal_requests_name_a_module() {
    assert!(request("lodash", PathKind::Normal, "/p").is_module());
    assert!(!request("./a", PathKind::Relative, "/p").is_module());
    assert!(!request("/a", PathKind::Absolute, "/p").is_module());
    assert!(!request("#a", PathKind::Internal, "/p").is_module());
}

#[test]
fn a_clone_equals_what_it_was_made_from() {
    let r = request("a", PathKind::Normal, "/p");
    assert_eq!(r.clone(), r);
    let s = Specifier { target: "a".to_string(), kind: PathKind::Internal };
    assert_eq!(s.clone(), s);
    let failed = Outcome::Failed("m".to_string(), r);
    assert_eq!(failed.clone(), failed);
    let target = AliasTarget::Target("x".to_string());
    assert_eq!(target.clone(), target);
    assert_eq!(AliasTarget::Ignored.clone(), AliasTarget::Ignored);
}

#[test]
fn a_fresh_context_is_at_depth_zero() {
    assert_eq!(Context::new(), Context { depth: 0 });
}

#[test]
fn starts_with_looks_at_the_first_character_only() {
    assert!(starts_with("#dep", '#'));
    assert!(starts_with("#", '#'));
    assert!(!starts_with("", '#'));
    assert!(!starts_with("a#", '#'));
    assert!(!starts_with("./#dep", '#'));
    assert!(starts_with("\u{e9}t\u{e9}", '\u{e9}'));
}

#[test]
fn contains_finds_a_run_of_characters() {
    assert!(contains("/a/node_modules/b", "node_modules"));
    assert!(contains("node_modules", "node_modules"));
    assert!(contains("/a/b/node_modules", "node_modules"));
    assert!(!contains("/a/node_module/b", "node_modules"));
    assert!(!contains("/a/node-modules/b", "node_modules"));
    assert!(!contains("node", "node_modules"));
    assert!(!contains("", "node_modules"));
    assert!(contains("", ""));
    assert!(contains("abc", ""));
    assert!(contains("aab", "ab"));
    assert!(contains("ababac", "abac"));
    assert!(!contains("ababab", "abac"));
    assert!(contains("na\u{ef}ve/\u{e9}t\u{e9}", "\u{e9}t\u{e9}"));
}

#[test]
fn chars_of_gives_the_characters_in_order() {
    assert_eq!(chars_of(""), Vec::<char>::new());
    assert_eq!(chars_of("#a/b"), vec!['#', 'a', '/', 'b']);
    assert_eq!(chars_of("\u{e9}t\u{e9}"), vec!['\u{e9}', 't', '\u{e9}']);
}
