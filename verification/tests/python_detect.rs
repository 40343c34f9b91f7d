use am_list::python::{AllFunctionsQuery, AmImportQuery, AmQuery};
use am_list::ExpectedAmLabel;

const DUMMY_MODULE: &str = "dummy";

#[test]
fn tests_detect_simple() {
    let source = r#"
        from autometrics import autometrics

        @autometrics
        def the_one():
            return 'wake up, Neo'
        "#;

    let import_query = AmImportQuery::try_new().unwrap();
    let import_name = import_query.get_decorator_name(source).unwrap();
    let query = AmQuery::try_new(import_name.as_str()).unwrap();
    let list = query.list_function_names(source, DUMMY_MODULE).unwrap();
    let all_query = AllFunctionsQuery::try_new().unwrap();
    let all_list = all_query.list_function_names(source, DUMMY_MODULE).unwrap();

    let the_one = ExpectedAmLabel {
        module: "dummy".to_string(),
        function: "the_one".to_string(),
    };

    assert_eq!(list.len(), 1);
    assert_eq!(list[0], the_one);
    assert_eq!(all_list, list);
}

#[test]
fn detect_alias() {
    let source = r#"
        from autometrics import autometrics as am

        @am
        def the_one():
            return 'wake up, Neo'
        "#;

    let import_query = AmImportQuery::try_new().unwrap();
    let import_name = import_query.get_decorator_name(source).unwrap();
    let query = AmQuery::try_new(import_name.as_str()).unwrap();
    let list = query.list_function_names(source, DUMMY_MODULE).unwrap();
    let all_query = AllFunctionsQuery::try_new().unwrap();
    let all_list = all_query.list_function_names(source, DUMMY_MODULE).unwrap();

    let the_one = ExpectedAmLabel {
        module: "dummy".to_string(),
        function: "the_one".to_string(),
    };

    assert_eq!(list.len(), 1);
    assert_eq!(list[0], the_one);
    assert_eq!(all_list, list);
}

#[test]
fn detect_nested() {
    let source = r#"
        from autometrics import autometrics

        @autometrics
        def the_one():
            @autometrics
            def the_two():
                return 'wake up, Neo'
            return the_two()
        "#;

    let import_query = AmImportQuery::try_new().unwrap();
    let import_name = import_query.get_decorator_name(source).unwrap();
    let query = AmQuery::try_new(import_name.as_str()).unwrap();
    let list = query.list_function_names(source, DUMMY_MODULE).unwrap();
    let all_query = AllFunctionsQuery::try_new().unwrap();
    let all_list = all_query.list_function_names(source, DUMMY_MODULE).unwrap();

    let the_one = ExpectedAmLabel {
        module: "dummy".to_string(),
        function: "the_one".to_string(),
    };
    let the_two = ExpectedAmLabel {
        module: "dummy.the_one.<locals>".to_string(),
        function: "the_two".to_string(),
    };

    assert_eq!(list.len(), 2);
    assert_eq!(list[0], the_one);
    assert_eq!(list[1], the_two);
    assert_eq!(all_list, list);
}

#[test]
fn detect_method_in_class() {
    let source = r#"
from autometrics import autometrics

class Calc:
    @autometrics
    def add_up(self, a, b):
        return a + b

    def ignore_me(self):
        pass
"#;

    let import_query = AmImportQuery::try_new().unwrap();
    let import_name = import_query.get_decorator_name(source).unwrap();
    let query = AmQuery::try_new(import_name.as_str()).unwrap();
    let list = query.list_function_names(source, DUMMY_MODULE).unwrap();
    let all_query = AllFunctionsQuery::try_new().unwrap();
    let all_list = all_query.list_function_names(source, DUMMY_MODULE).unwrap();

    let add_up = ExpectedAmLabel {
        module: "dummy.Calc".to_string(),
        function: "add_up".to_string(),
    };
    assert_eq!(list.len(), 1, "complete list is {list:?}");
    assert_eq!(list[0], add_up);

    assert_eq!(all_list.len(), 2, "complete list is {all_list:?}");
    assert!(all_list.contains(&add_up));
    assert!(all_list.contains(&ExpectedAmLabel {
        module: "dummy.Calc".to_string(),
        function: "ignore_me".to_string(),
    }));
}

#[test]
fn python_module_name_formula() {
    let to_path = |parts: &[&str]| -> Vec<String> { parts.iter().map(|c| c.to_string()).collect() };
    assert_eq!(
        am_list::paths::python_module_name(&to_path(&["pkg", "mod.py"])),
        "pkg.mod"
    );
    assert_eq!(
        am_list::paths::python_module_name(&to_path(&["pkg", "__init__.py"])),
        "pkg"
    );
    assert_eq!(am_list::paths::python_module_name(&to_path(&["top.py"])), "top");
}
