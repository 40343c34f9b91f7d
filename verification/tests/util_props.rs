use am_list::aggregate::aggregate;
use am_list::engine::{resolve, FoundItem, MemberFn, ShapeNode};
use am_list::lang::Lang;
use am_list::paths::{is_hidden, is_valid};
use am_list::strutil::{join_scope, split_on};
use am_list::ExpectedAmLabel;

fn label(module: &str, function: &str) -> ExpectedAmLabel {
    ExpectedAmLabel {
        module: module.to_string(),
        function: function.to_string(),
    }
}

#[test]
fn join_scope_cases() {
    assert_eq!(join_scope("", "segment", "::"), "segment");
    assert_eq!(join_scope("outer", "inner", "::"), "outer::inner");
    assert_eq!(join_scope("a.b", "c", "."), "a.b.c");
}

#[test]
fn split_on_cases() {
    let parts = split_on("src/a/b", '/');
    assert_eq!(parts, vec!["src", "a", "b"]);

    let edges = split_on("/x/", '/');
    assert_eq!(edges, vec!["", "x", ""]);

    let empty = split_on("", '/');
    assert_eq!(empty, vec![""]);
}

#[test]
fn aggregate_dedup_first_occurrence() {
    let parts = vec![
        vec![label("m", "a"), label("m", "b")],
        vec![label("m", "b"), label("n", "c"), label("m", "a")],
    ];
    let merged = aggregate(&parts);
    assert_eq!(merged, vec![label("m", "a"), label("m", "b"), label("n", "c")]);
}

#[test]
fn aggregate_ignores_empty_parts() {
    let parts = vec![vec![], vec![label("m", "a")], vec![]];
    let merged = aggregate(&parts);
    assert_eq!(merged, vec![label("m", "a")]);
}

#[test]
fn language_from_str_cases() {
    assert_eq!(Lang::from_str("rust").unwrap(), Lang::Rust);
    assert_eq!(Lang::from_str("RUST").unwrap(), Lang::Rust);
    assert_eq!(Lang::from_str("rs").unwrap(), Lang::Rust);
    assert_eq!(Lang::from_str("Go").unwrap(), Lang::Go);
    assert_eq!(Lang::from_str("python").unwrap(), Lang::Python);
    assert_eq!(Lang::from_str("PY").unwrap(), Lang::Python);
    assert_eq!(Lang::from_str("TypeScript").unwrap(), Lang::Typescript);
    assert_eq!(Lang::from_str("ts").unwrap(), Lang::Typescript);
}

#[test]
fn language_from_str_unknown() {
    let err = Lang::from_str("klingon").unwrap_err();
    assert_eq!(err, "Unknown language: klingon");
}

#[test]
fn entry_predicates() {
    assert!(is_hidden(".git"));
    assert!(!is_hidden("lib.rs"));
    assert!(!is_hidden(""));
    assert!(is_valid("anything", true, ".rs"));
    assert!(is_valid("lib.rs", false, ".rs"));
    assert!(!is_valid(".hidden.rs", false, ".rs"));
    assert!(!is_valid("notes.txt", false, ".rs"));
}

#[test]
fn engine_resolve_concrete_model() {
    // one container under the root, holding two function nodes
    let shape = vec![
        ShapeNode { parent: None, container: false },
        ShapeNode { parent: Some(0), container: true },
        ShapeNode { parent: Some(1), container: false },
        ShapeNode { parent: Some(2), container: false },
        ShapeNode { parent: Some(2), container: false },
    ];

    // annotated mode: one marked member
    let annotated = vec![
        FoundItem::ContainerItem {
            holder: 1,
            name: "Widget".to_string(),
            body: 2,
            marked: false,
            members: vec![],
        },
        FoundItem::FnItem { node: 3, name: "marked_one".to_string() },
    ];
    let list = resolve(&shape, &annotated, 0, "", "::");
    assert_eq!(list.len(), 1);
    assert_eq!(list[0], label("Widget", "marked_one"));

    // survey mode: both members
    let survey = vec![
        FoundItem::ContainerItem {
            holder: 1,
            name: "Widget".to_string(),
            body: 2,
            marked: false,
            members: vec![],
        },
        FoundItem::FnItem { node: 3, name: "marked_one".to_string() },
        FoundItem::FnItem { node: 4, name: "plain_one".to_string() },
    ];
    let all = resolve(&shape, &survey, 0, "", "::");
    assert_eq!(all.len(), 2);
    assert_eq!(all[0], label("Widget", "marked_one"));
    assert_eq!(all[1], label("Widget", "plain_one"));

    // a container that is itself marked covers every member
    let marked_container = vec![FoundItem::ContainerItem {
        holder: 1,
        name: "Widget".to_string(),
        body: 2,
        marked: true,
        members: vec![
            MemberFn { node: 3, name: "marked_one".to_string() },
            MemberFn { node: 4, name: "plain_one".to_string() },
        ],
    }];
    let covered = resolve(&shape, &marked_container, 0, "", "::");
    assert_eq!(covered.len(), 2);
    assert_eq!(covered[0], label("Widget", "marked_one"));
    assert_eq!(covered[1], label("Widget", "plain_one"));
}
