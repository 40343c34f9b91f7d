use am_list::rust::{AllFunctionsQuery, AmQuery, Impl};
use am_list::{ExpectedAmLabel, ListAmFunctions, SourceFile};

fn label(module: &str, function: &str) -> ExpectedAmLabel {
    ExpectedAmLabel {
        module: module.to_string(),
        function: function.to_string(),
    }
}

#[test]
fn detect_single() {
    let source = r#"
        #[autometrics]
        fn main() {}
        "#;

    let list = AmQuery::try_new()
        .unwrap()
        .list_function_names("", source)
        .unwrap();

    assert_eq!(list.len(), 1);
    assert_eq!(list[0], label("", "main"));
}

#[test]
fn detect_impl_block() {
    let source = r#"
        struct Foo{};

        #[autometrics]
        impl Foo {
            fn method_a() {}
        }
        "#;

    let list = AmQuery::try_new()
        .unwrap()
        .list_function_names("", source)
        .unwrap();

    assert_eq!(list.len(), 1);
    assert_eq!(list[0], label("Foo", "method_a"));
}

#[test]
fn detect_trait_impl_block() {
    let source = r#"
        struct Foo{};

        #[autometrics]
        impl A for Foo {
            fn m_a() {}
        }
        "#;

    let list = AmQuery::try_new()
        .unwrap()
        .list_function_names("", source)
        .unwrap();

    assert_eq!(list.len(), 1);
    assert_eq!(list[0], label("Foo", "m_a"));
}

#[test]
fn dodge_wrong_impl_block() {
    let source = r#"
        struct Foo{};

        struct Bar{};

        impl Bar {
            fn method_one() {}
        }
        #[autometrics]
        impl Foo {
            fn method_two() {}
        }
        impl Bar {
            fn method_three() {}
        }
        #[autometrics]
        impl Foo {
            fn method_four() {}
        }
        "#;

    let list = AmQuery::try_new()
        .unwrap()
        .list_function_names("", source)
        .unwrap();
    let all = AllFunctionsQuery::try_new()
        .unwrap()
        .list_function_names("", source)
        .unwrap();

    let method_one = label("Bar", "method_one");
    let method_two = label("Foo", "method_two");
    let method_three = label("Bar", "method_three");
    let method_four = label("Foo", "method_four");

    assert_eq!(list.len(), 2);
    assert!(
        list.contains(&method_two),
        "Expecting the list to contain {method_two:?}\nComplete list is {list:?}"
    );
    assert!(
        list.contains(&method_four),
        "Expecting the list to contain {method_four:?}\nComplete list is {list:?}"
    );

    assert_eq!(all.len(), 4, "Complete list is {all:?}");
    assert!(
        all.contains(&method_one),
        "Expecting the list to contain {method_one:?}\nComplete list is {all:?}"
    );
    assert!(
        all.contains(&method_two),
        "Expecting the list to contain {method_two:?}\nComplete list is {all:?}"
    );
    assert!(
        all.contains(&method_three),
        "Expecting the list to contain {method_three:?}\nComplete list is {all:?}"
    );
    assert!(
        all.contains(&method_four),
        "Expecting the list to contain {method_four:?}\nComplete list is {all:?}"
    );
}

#[test]
fn detect_inner_module() {
    let source = r#"
        mod inner{
            #[autometrics]
            fn inner_function() {}
        }

        mod well{
            mod nested {
                mod stuff {
                    #[autometrics]
                    fn hidden_function() {}
                }
           }
        }
        "#;

    let list = AmQuery::try_new()
        .unwrap()
        .list_function_names("", source)
        .unwrap();
    assert_eq!(
        list.len(),
        2,
        "Expected to find 2 items, instead the list is {list:?}"
    );
    let inner_fn = label("inner", "inner_function");
    assert!(
        list.contains(&inner_fn),
        "Expecting the detected functions to contain {inner_fn:?}\nComplete list is {list:?}"
    );
    let nested_fn = label("well::nested::stuff", "hidden_function");
    assert!(
        list.contains(&nested_fn),
        "Expecting the detected functions to contain {nested_fn:?}\nComplete list is {list:?}"
    );
}

#[test]
fn detect_partially_annotated_impl_block() {
    let source = r#"
        struct Foo{};

        impl A for Foo {
            fn nothing_to_see_here() {}

            #[autometrics]
            fn m_a() {}
        }
        "#;

    let list = AmQuery::try_new()
        .unwrap()
        .list_function_names("", source)
        .unwrap();
    let all = AllFunctionsQuery::try_new()
        .unwrap()
        .list_function_names("", source)
        .unwrap();

    let m_a = label("Foo", "m_a");
    let dummy = label("Foo", "nothing_to_see_here");

    assert_eq!(list.len(), 1, "Complete list is {list:?}");
    assert!(
        list.contains(&m_a),
        "Expecting the list to contain {m_a:?}\nComplete list is {list:?}"
    );

    assert_eq!(all.len(), 2);
    assert!(
        all.contains(&m_a),
        "Expecting the list to contain {m_a:?}\nComplete list is {all:?}"
    );
    assert!(
        all.contains(&dummy),
        "Expecting the list to contain {dummy:?}\nComplete list is {all:?}"
    );
}

#[test]
fn annotated_subset_of_all() {
    let source = r#"
        #[autometrics]
        fn top() {}

        fn plain() {}

        mod inner {
            #[autometrics]
            fn deep() {}

            fn other() {}
        }

        struct Foo{};

        #[autometrics]
        impl Foo {
            fn covered() {}
        }
        "#;

    let list = AmQuery::try_new()
        .unwrap()
        .list_function_names("", source)
        .unwrap();
    let all = AllFunctionsQuery::try_new()
        .unwrap()
        .list_function_names("", source)
        .unwrap();

    assert!(!list.is_empty());
    for l in &list {
        assert!(
            all.contains(l),
            "annotated label {l:?} missing from the survey {all:?}"
        );
    }
}

fn file(path: &[&str], source: &str) -> SourceFile {
    SourceFile {
        path: path.iter().map(|c| c.to_string()).collect(),
        source: source.to_string(),
    }
}

fn project() -> Vec<SourceFile> {
    vec![
        file(
            &["src", "lib.rs"],
            "#[autometrics]\nfn shared() {}\n",
        ),
        file(
            &["src", "util.rs"],
            "#[autometrics]\nfn helper() {}\n#[autometrics]\nfn shared() {}\n",
        ),
    ]
}

#[test]
fn rust_project_aggregation() {
    let mut backend = Impl::default();
    let labels = backend.list_autometrics_functions(&project()).unwrap();

    // `shared` is defined in two modules, so both labels stay; `helper`
    // appears once.
    assert_eq!(labels.len(), 3, "complete list is {labels:?}");
    assert!(labels.contains(&label("lib", "shared")));
    assert!(labels.contains(&label("util", "shared")));
    assert!(labels.contains(&label("util", "helper")));
}

#[test]
fn rust_project_rerun_identical() {
    let mut backend = Impl::default();
    let first = backend.list_autometrics_functions(&project()).unwrap();
    let second = backend.list_autometrics_functions(&project()).unwrap();
    assert_eq!(first, second);
}

#[test]
fn rust_project_order_independent() {
    let files = project();
    let reversed: Vec<SourceFile> = project().into_iter().rev().collect();

    let mut backend = Impl::default();
    let mut a = backend.list_autometrics_functions(&files).unwrap();
    let mut b = backend.list_autometrics_functions(&reversed).unwrap();
    let key = |l: &ExpectedAmLabel| (l.module.clone(), l.function.clone());
    a.sort_by_key(key);
    b.sort_by_key(key);
    assert_eq!(a, b);
}

#[test]
fn rust_project_tolerates_bad_file() {
    let mut files = project();
    files.push(file(&["src", "broken.rs"], "fn ] ) unclosed {{{"));

    let mut backend = Impl::default();
    let labels = backend.list_autometrics_functions(&files).unwrap();
    assert_eq!(labels.len(), 3, "complete list is {labels:?}");
    assert!(labels.contains(&label("lib", "shared")));
    assert!(labels.contains(&label("util", "shared")));
    assert!(labels.contains(&label("util", "helper")));
}

#[test]
fn rust_module_name_from_path() {
    let to_path = |parts: &[&str]| -> Vec<String> { parts.iter().map(|c| c.to_string()).collect() };
    assert_eq!(
        am_list::paths::fully_qualified_module_name(&to_path(&["src", "lib.rs"])),
        "lib"
    );
    assert_eq!(
        am_list::paths::fully_qualified_module_name(&to_path(&["src", "a", "b.rs"])),
        "a::b"
    );
    assert_eq!(
        am_list::paths::fully_qualified_module_name(&to_path(&["src", "a", "mod.rs"])),
        "a"
    );
    assert_eq!(
        am_list::paths::fully_qualified_module_name(&to_path(&["main.rs"])),
        ""
    );
}

#[test]
fn empty_and_broken_sources_give_no_labels() {
    let am = AmQuery::try_new().unwrap();
    let all = AllFunctionsQuery::try_new().unwrap();

    assert_eq!(am.list_function_names("", "").unwrap(), vec![]);
    assert_eq!(all.list_function_names("", "").unwrap(), vec![]);

    let garbage = "fn ] ) unclosed {{{";
    assert_eq!(am.list_function_names("", garbage).unwrap(), vec![]);
}

#[test]
fn similarly_named_attribute_is_not_the_marker() {
    let source = r#"
        #[autometrics_extra]
        fn not_marked() {}

        #[autometrics]
        fn marked() {}

        #[autometrics(objective = "slo")]
        fn marked_with_args() {}
        "#;

    let list = AmQuery::try_new()
        .unwrap()
        .list_function_names("", source)
        .unwrap();

    assert_eq!(list.len(), 2, "complete list is {list:?}");
    assert!(list.contains(&label("", "marked")));
    assert!(list.contains(&label("", "marked_with_args")));
    assert!(!list.contains(&label("", "not_marked")));
}

#[test]
fn no_double_counting_within_a_file() {
    // the method is both individually marked and covered by its marked impl
    // block; one file still reports it once
    let source = r#"
        struct Foo{};

        #[autometrics]
        impl Foo {
            #[autometrics]
            fn twice_covered() {}
        }
        "#;

    let list = AmQuery::try_new()
        .unwrap()
        .list_function_names("", source)
        .unwrap();

    assert_eq!(list.len(), 1, "complete list is {list:?}");
    assert_eq!(list[0], label("Foo", "twice_covered"));
}
