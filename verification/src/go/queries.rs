//! The Go queries: the package clause, functions marked by a directive
//! comment, and the all-functions survey.
//!
//! The step from captured rows to labels is a verified function with an
//! exact contract (`labels_for_package`), so everything after the pattern
//! matching is pinned; what the patterns hand over is decided by
//! tree-sitter.
use vstd::prelude::*;

use crate::aggregate::dedup_labels;
use crate::aggregate::lemma_dedup_preserves;
use crate::sitter::capture_index;
use crate::sitter::capture_node;
use crate::sitter::language_go;
use crate::sitter::new_parser;
use crate::sitter::new_query;
use crate::sitter::node_text;
use crate::sitter::parse_source;
use crate::sitter::run_query;
use crate::sitter::tree_root;
use crate::strutil::starts_with_str;
use crate::AmlError;
use crate::ExpectedAmLabel;
use crate::LabelModel;
use crate::Result;
use crate::spec_is_parse_error;
use crate::spec_is_pattern_error;

verus! {

/// Whether a comment is the instrumentation directive: it begins with
/// `//autometrics:`, whatever directive name follows.
fn is_marker_comment(text: &str) -> (r: bool)
    ensures
        r == "//autometrics:"@.is_prefix_of(text@),
{
    starts_with_str(text, "//autometrics:")
}

/// One named capture of a compiled query, or the configuration error that
/// the pattern text and this code have drifted apart.
fn capture_of(query: &tree_sitter::Query, name: &str) -> (r: Result<u32>)
    ensures
        match r {
            Ok(_) => true,
            Err(e) => e matches AmlError::MissingNamedCapture(n) && n@ == name@,
        },
{
    match capture_index(query, name) {
        Some(idx) => Ok(idx),
        None => Err(AmlError::MissingNamedCapture(name.to_owned())),
    }
}

/// One function the patterns found: whether its directive comment marks it,
/// and its name.
#[derive(Debug)]
pub struct GoFunctionRow {
    pub marked: bool,
    pub name: String,
}

/// The mathematical value of a `GoFunctionRow`.
pub struct GoRowModel {
    pub marked: bool,
    pub name: Seq<char>,
}

impl DeepView for GoFunctionRow {
    type V = GoRowModel;

    open spec fn deep_view(&self) -> GoRowModel {
        GoRowModel { marked: self.marked, name: self.name@ }
    }
}

/// The labels of one Go file: one label per marked row, all under the
/// package as their module, in row order.
pub open spec fn spec_go_labels(package: Seq<char>, rows: Seq<GoRowModel>) -> Seq<LabelModel>
    decreases rows.len(),
{
    if rows.len() == 0 {
        Seq::empty()
    } else {
        spec_go_labels(package, rows.drop_last()) + if rows.last().marked {
            seq![LabelModel { module: package, function: rows.last().name }]
        } else {
            Seq::empty()
        }
    }
}

/// Every label of `spec_go_labels` carries the package as its module.
pub proof fn lemma_go_labels_module(package: Seq<char>, rows: Seq<GoRowModel>)
    ensures
        forall|i: int|
            0 <= i < spec_go_labels(package, rows).len() ==> (#[trigger] spec_go_labels(
                package,
                rows,
            )[i]).module == package,
    decreases rows.len(),
{
    if rows.len() == 0 {
    } else {
        lemma_go_labels_module(package, rows.drop_last());
        let front = spec_go_labels(package, rows.drop_last());
        assert forall|i: int|
            0 <= i < spec_go_labels(package, rows).len() implies (#[trigger] spec_go_labels(
            package,
            rows,
        )[i]).module == package by {
            if i < front.len() {
                assert(spec_go_labels(package, rows)[i] == front[i]);
            }
        }
    }
}

/// Turns the captured rows of one file into labels: exactly the marked rows,
/// in order, all under the package module.
pub fn labels_for_package(package: &String, rows: &Vec<GoFunctionRow>) -> (r: Vec<
    ExpectedAmLabel,
>)
    ensures
        r.deep_view() == spec_go_labels(package@, rows.deep_view()),
{
    let mut out: Vec<ExpectedAmLabel> = Vec::new();
    let mut i: usize = 0;
    proof {
        assert(rows.deep_view().take(0) =~= Seq::<GoRowModel>::empty());
        assert(out.deep_view() =~= spec_go_labels(package@, rows.deep_view().take(0)));
    }
    while i < rows.len()
        invariant
            i <= rows.len(),
            out.deep_view() == spec_go_labels(package@, rows.deep_view().take(i as int)),
        decreases rows.len() - i,
    {
        proof {
            assert(rows.deep_view().take(i as int + 1).drop_last() =~= rows.deep_view().take(
                i as int,
            ));
            assert(rows.deep_view().take(i as int + 1).last() == rows.deep_view()[i as int]);
        }
        if rows[i].marked {
            let ghost old_out = out.deep_view();
            let lbl = ExpectedAmLabel { module: package.clone(), function: rows[i].name.clone() };
            out.push(lbl);
            proof {
                assert(out.deep_view() =~= old_out.push(lbl@));
            }
        }
        proof {
            assert(out.deep_view() =~= spec_go_labels(package@, rows.deep_view().take(
                i as int + 1,
            )));
        }
        i += 1;
    }
    proof {
        assert(rows.deep_view().take(rows.len() as int) =~= rows.deep_view());
    }
    out
}

/// The package name of the file, or the empty string when there is none.
fn package_name(
    query: &tree_sitter::Query,
    pack_idx: u32,
    root: tree_sitter::Node,
    source: &str,
) -> String {
    let matches = run_query(query, root, source);
    let mut i: usize = 0;
    while i < matches.len()
        decreases matches@.len() - i,
    {
        match capture_node(&matches[i], pack_idx) {
            Some(node) => {
                match node_text(&node, source) {
                    Some(text) => {
                        return text;
                    },
                    None => {},
                }
            },
            None => {},
        }
        i += 1;
    }
    String::new()
}

/// The function rows of one file: each match's name, with the directive
/// filter applied to its comment when the pattern captures one. A capture
/// whose text cannot be decoded drops only that match.
fn collect_function_rows(
    query: &tree_sitter::Query,
    func_idx: u32,
    comment_idx: Option<u32>,
    root: tree_sitter::Node,
    source: &str,
) -> Vec<GoFunctionRow> {
    let matches = run_query(query, root, source);
    let mut rows: Vec<GoFunctionRow> = Vec::new();
    let mut i: usize = 0;
    while i < matches.len()
        decreases matches@.len() - i,
    {
        let m = &matches[i];
        let marked = match comment_idx {
            Some(cidx) => {
                match capture_node(m, cidx) {
                    Some(cn) => {
                        match node_text(&cn, source) {
                            Some(text) => is_marker_comment(text.as_str()),
                            None => false,
                        }
                    },
                    None => false,
                }
            },
            None => true,
        };
        match capture_node(m, func_idx) {
            Some(fn_node) => {
                match node_text(&fn_node, source) {
                    Some(name) => {
                        rows.push(GoFunctionRow { marked, name });
                    },
                    None => {},
                }
            },
            None => {},
        }
        i += 1;
    }
    rows
}

/// The annotated-only query of the Go backend.
pub struct AmQuery {
    pack_query: tree_sitter::Query,
    pack_idx: u32,
    fn_query: tree_sitter::Query,
    comment_idx: u32,
    func_idx: u32,
}

/// The package-clause pattern, shared by both modes.
fn package_query() -> (r: Result<(tree_sitter::Query, u32)>)
    ensures
        match r {
            Ok(_) => true,
            Err(e) => spec_is_pattern_error(e),
        },
{
    let text = "(source_file (package_clause (package_identifier) @pack.name))";
    let query = match new_query(language_go(), text) {
        Ok(q) => q,
        Err(_) => {
            return Err(AmlError::CreateQuery);
        },
    };
    let pack_idx = capture_of(&query, "pack.name")?;
    Ok((query, pack_idx))
}

impl AmQuery {
    /// Compiles the annotated-mode patterns: the package clause, and a
    /// function declaration directly preceded by a comment. A failure is a
    /// setup defect: the pattern did not compile, or it lacks an expected
    /// capture.
    pub fn try_new() -> (r: Result<AmQuery>)
        ensures
            match r {
                Ok(_) => true,
                Err(e) => spec_is_pattern_error(e),
            },
    {
        let (pack_query, pack_idx) = package_query()?;
        let fn_text =
            "((comment) @comment . (function_declaration name: (identifier) @func.name))";
        let fn_query = match new_query(language_go(), fn_text) {
            Ok(q) => q,
            Err(_) => {
                return Err(AmlError::CreateQuery);
            },
        };
        let comment_idx = capture_of(&fn_query, "comment")?;
        let func_idx = capture_of(&fn_query, "func.name")?;
        Ok(AmQuery { pack_query, pack_idx, fn_query, comment_idx, func_idx })
    }

    /// Lists the marked functions of one file, deduplicated. All returned
    /// labels carry the same module — the file's package name — and a
    /// failure is one of reading the file, never a setup defect.
    pub fn list_function_names(&self, source: &str) -> (r: Result<Vec<ExpectedAmLabel>>)
        ensures
            match r {
                Ok(labels) => {
                    &&& forall|i: int, j: int|
                        0 <= i < labels.deep_view().len() && 0 <= j < labels.deep_view().len()
                            ==> (#[trigger] labels.deep_view()[i]).module == (
                        #[trigger] labels.deep_view()[j]).module
                    &&& forall|i: int, j: int|
                        0 <= i < j < labels.deep_view().len() ==> labels.deep_view()[i]
                            != labels.deep_view()[j]
                },
                Err(e) => spec_is_parse_error(e),
            },
    {
        let mut parser = match new_parser(language_go()) {
            Ok(p) => p,
            Err(_) => {
                return Err(AmlError::CreateParser);
            },
        };
        let tree = match parse_source(&mut parser, source) {
            Some(t) => t,
            None => {
                return Err(AmlError::Parsing);
            },
        };
        let root = tree_root(&tree);
        let pack = package_name(&self.pack_query, self.pack_idx, root, source);
        let rows = collect_function_rows(
            &self.fn_query,
            self.func_idx,
            Some(self.comment_idx),
            root,
            source,
        );
        let labels = labels_for_package(&pack, &rows);
        let out = dedup_labels(&labels);
        proof {
            lemma_go_labels_module(pack@, rows.deep_view());
            lemma_dedup_preserves(labels.deep_view(), |l: LabelModel| l.module == pack@);
        }
        Ok(out)
    }
}

/// The all-functions survey of the Go backend.
pub struct AllFunctionsQuery {
    pack_query: tree_sitter::Query,
    pack_idx: u32,
    fn_query: tree_sitter::Query,
    func_idx: u32,
}

impl AllFunctionsQuery {
    /// Compiles the survey patterns: the package clause, and every function
    /// declaration. A failure is a setup defect.
    pub fn try_new() -> (r: Result<AllFunctionsQuery>)
        ensures
            match r {
                Ok(_) => true,
                Err(e) => spec_is_pattern_error(e),
            },
    {
        let (pack_query, pack_idx) = package_query()?;
        let fn_text = "(function_declaration name: (identifier) @func.name)";
        let fn_query = match new_query(language_go(), fn_text) {
            Ok(q) => q,
            Err(_) => {
                return Err(AmlError::CreateQuery);
            },
        };
        let func_idx = capture_of(&fn_query, "func.name")?;
        Ok(AllFunctionsQuery { pack_query, pack_idx, fn_query, func_idx })
    }

    /// Lists every function of one file, deduplicated. All returned labels
    /// carry the same module — the file's package name — and a failure is
    /// one of reading the file, never a setup defect.
    pub fn list_function_names(&self, source: &str) -> (r: Result<Vec<ExpectedAmLabel>>)
        ensures
            match r {
                Ok(labels) => {
                    &&& forall|i: int, j: int|
                        0 <= i < labels.deep_view().len() && 0 <= j < labels.deep_view().len()
                            ==> (#[trigger] labels.deep_view()[i]).module == (
                        #[trigger] labels.deep_view()[j]).module
                    &&& forall|i: int, j: int|
                        0 <= i < j < labels.deep_view().len() ==> labels.deep_view()[i]
                            != labels.deep_view()[j]
                },
                Err(e) => spec_is_parse_error(e),
            },
    {
        let mut parser = match new_parser(language_go()) {
            Ok(p) => p,
            Err(_) => {
                return Err(AmlError::CreateParser);
            },
        };
        let tree = match parse_source(&mut parser, source) {
            Some(t) => t,
            None => {
                return Err(AmlError::Parsing);
            },
        };
        let root = tree_root(&tree);
        let pack = package_name(&self.pack_query, self.pack_idx, root, source);
        let rows = collect_function_rows(&self.fn_query, self.func_idx, None, root, source);
        let labels = labels_for_package(&pack, &rows);
        let out = dedup_labels(&labels);
        proof {
            lemma_go_labels_module(pack@, rows.deep_view());
            lemma_dedup_preserves(labels.deep_view(), |l: LabelModel| l.module == pack@);
        }
        Ok(out)
    }
}

} // verus!
