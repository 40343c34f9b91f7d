//! The Python backend: functions marked by a decorator imported from the
//! instrumentation package, qualified the way Python qualifies names — `.`
//! between scope segments, with a `<locals>` segment for every enclosing
//! function scope.
use vstd::prelude::*;
use vstd::string::StrSliceExecFns;

use crate::engine::resolve;
use crate::engine::FoundItem;
use crate::laws::lemma_resolve_result_prefixed;
use crate::sitter::build_arena;
use crate::sitter::capture_index;
use crate::sitter::capture_node;
use crate::sitter::language_python;
use crate::sitter::new_parser;
use crate::sitter::new_query;
use crate::sitter::node_id;
use crate::sitter::node_kind;
use crate::sitter::node_parent;
use crate::sitter::node_text;
use crate::sitter::parse_source;
use crate::sitter::run_query;
use crate::sitter::tree_root;
use crate::sitter::Arena;
use crate::absorb_file_failure;
use crate::aggregate::aggregate;
use crate::aggregate::dedup_labels;
use crate::aggregate::lemma_dedup_preserves;
use crate::spec_is_parse_error;
use crate::spec_is_pattern_error;
use crate::paths::is_valid;
use crate::paths::python_module_name;
use crate::strutil::concat2;
use crate::strutil::str_eq;
use crate::AmlError;
use crate::ExpectedAmLabel;
use crate::LabelModel;
use crate::ListAmFunctions;
use crate::Result;
use crate::SourceFile;

verus! {

/// The Python language backend.
#[derive(Clone, Copy, Debug, Default)]
pub struct Impl {}

impl ListAmFunctions for Impl {
    fn list_autometrics_functions(&mut self, project: &Vec<SourceFile>) -> (r: Result<
        Vec<ExpectedAmLabel>,
    >) {
        let import_query = AmImportQuery::try_new()?;
        let mut parts: Vec<Vec<ExpectedAmLabel>> = Vec::new();
        let mut i: usize = 0;
        while i < project.len()
            decreases project@.len() - i,
        {
            let f = &project[i];
            if f.path.len() > 0 {
                let file_name = &f.path[f.path.len() - 1];
                if is_valid(file_name.as_str(), false, ".py") {
                    let module = python_module_name(&f.path);
                    let per_file: Result<Vec<ExpectedAmLabel>> = match import_query
                        .get_decorator_name(f.source.as_str()) {
                        Ok(decorator) => {
                            // a pattern that fails to build is a setup
                            // defect and aborts the whole run
                            let query = AmQuery::try_new(decorator.as_str())?;
                            query.list_function_names(f.source.as_str(), module.as_str())
                        },
                        Err(e) => Err(e),
                    };
                    match absorb_file_failure(per_file) {
                        Ok(labels) => parts.push(labels),
                        Err(e) => {
                            return Err(e);
                        },
                    }
                }
            }
            i += 1;
        }
        Ok(aggregate(&parts))
    }

    fn list_all_functions(&mut self, project: &Vec<SourceFile>) -> (r: Result<
        Vec<ExpectedAmLabel>,
    >) {
        let query = AllFunctionsQuery::try_new()?;
        let mut parts: Vec<Vec<ExpectedAmLabel>> = Vec::new();
        let mut i: usize = 0;
        while i < project.len()
            decreases project@.len() - i,
        {
            let f = &project[i];
            if f.path.len() > 0 {
                let file_name = &f.path[f.path.len() - 1];
                if is_valid(file_name.as_str(), false, ".py") {
                    let module = python_module_name(&f.path);
                    let per_file = absorb_file_failure(
                        query.list_function_names(f.source.as_str(), module.as_str()),
                    );
                    match per_file {
                        Ok(labels) => parts.push(labels),
                        Err(e) => {
                            return Err(e);
                        },
                    }
                }
            }
            i += 1;
        }
        Ok(aggregate(&parts))
    }
}

/// The scoping constructs of the Python grammar.
fn container_kinds() -> Vec<String> {
    let mut kinds: Vec<String> = Vec::new();
    kinds.push(String::from_str("function_definition"));
    kinds.push(String::from_str("class_definition"));
    kinds
}

/// One named capture of a compiled query, or the configuration error that
/// the pattern text and this code have drifted apart.
fn capture_of(query: &tree_sitter::Query, name: &str) -> (r: Result<u32>)
    ensures
        match r {
            Ok(_) => true,
            Err(e) => e matches AmlError::MissingNamedCapture(n) && n@ == name@,
        },
{
    match capture_index(query, name) {
        Some(idx) => Ok(idx),
        None => Err(AmlError::MissingNamedCapture(name.to_owned())),
    }
}

/// The item holding a definition: the `decorated_definition` wrapper when
/// the definition carries decorators, the definition node itself otherwise.
fn holder_of_definition(arena: &Arena, def_node: &tree_sitter::Node) -> Option<usize> {
    match node_parent(def_node) {
        Some(p) => {
            let k = node_kind(&p);
            if str_eq(k.as_str(), "decorated_definition") {
                arena.index_of(node_id(&p))
            } else {
                arena.index_of(node_id(def_node))
            }
        },
        None => arena.index_of(node_id(def_node)),
    }
}

/// Pushes the container items of one file: every function scope, whose name
/// segment gets the `<locals>` suffix, and every class, under its bare name.
fn push_python_containers(
    items: &mut Vec<FoundItem>,
    arena: &Arena,
    query: &tree_sitter::Query,
    fn_name_idx: u32,
    fn_body_idx: u32,
    class_name_idx: u32,
    class_body_idx: u32,
    root: tree_sitter::Node,
    source: &str,
) {
    let matches = run_query(query, root, source);
    let mut i: usize = 0;
    while i < matches.len()
        decreases matches@.len() - i,
    {
        let m = &matches[i];
        let fn_pair = (capture_node(m, fn_name_idx), capture_node(m, fn_body_idx));
        match fn_pair {
            (Some(name_node), Some(body_node)) => {
                match (node_text(&name_node, source), node_parent(&name_node)) {
                    (Some(name), Some(def_node)) => {
                        let holder = holder_of_definition(arena, &def_node);
                        let body = arena.index_of(node_id(&body_node));
                        match (holder, body) {
                            (Some(h), Some(b)) => {
                                let segment = concat2(name.as_str(), ".<locals>");
                                items.push(
                                    FoundItem::ContainerItem {
                                        holder: h,
                                        name: segment,
                                        body: b,
                                        marked: false,
                                        members: Vec::new(),
                                    },
                                );
                            },
                            _ => {},
                        }
                    },
                    _ => {},
                }
            },
            _ => {
                let class_pair = (capture_node(m, class_name_idx), capture_node(m, class_body_idx));
                match class_pair {
                    (Some(name_node), Some(body_node)) => {
                        match (node_text(&name_node, source), node_parent(&name_node)) {
                            (Some(name), Some(def_node)) => {
                                let holder = holder_of_definition(arena, &def_node);
                                let body = arena.index_of(node_id(&body_node));
                                match (holder, body) {
                                    (Some(h), Some(b)) => {
                                        items.push(
                                            FoundItem::ContainerItem {
                                                holder: h,
                                                name,
                                                body: b,
                                                marked: false,
                                                members: Vec::new(),
                                            },
                                        );
                                    },
                                    _ => {},
                                }
                            },
                            _ => {},
                        }
                    },
                    _ => {},
                }
            },
        }
        i += 1;
    }
}

/// The container patterns, shared by both modes.
fn container_query() -> (r: Result<tree_sitter::Query>)
    ensures
        match r {
            Ok(_) => true,
            Err(e) => spec_is_pattern_error(e),
        },
{
    let text =
        "(function_definition name: (identifier) @container.name body: (block) @container.body) (class_definition name: (identifier) @class.name body: (block) @class.body)";
    match new_query(language_python(), text) {
        Ok(q) => Ok(q),
        Err(_) => Err(AmlError::CreateQuery),
    }
}

/// One captured `from _ import _` statement: the source module, the
/// imported name, and the alias when one is given.
#[derive(Debug)]
pub struct PyImportRow {
    pub module: String,
    pub name: String,
    pub alias: Option<String>,
}

/// The mathematical value of a `PyImportRow`.
pub struct PyImportModel {
    pub module: Seq<char>,
    pub name: Seq<char>,
    pub alias: Option<Seq<char>>,
}

impl DeepView for PyImportRow {
    type V = PyImportModel;

    open spec fn deep_view(&self) -> PyImportModel {
        PyImportModel {
            module: self.module@,
            name: self.name@,
            alias: match &self.alias {
                Some(a) => Some(a@),
                None => None,
            },
        }
    }
}

/// Whether an import row brings in the instrumentation decorator.
pub open spec fn spec_is_marker_import(row: PyImportModel) -> bool {
    row.module == "autometrics"@ && row.name == "autometrics"@
}

/// The local name of the instrumentation decorator, given the file's import
/// rows: the alias of the first marker import — its exported name when it
/// has no alias — and that exported name as the fallback when the file does
/// not import the decorator at all.
pub open spec fn spec_decorator_name(rows: Seq<PyImportModel>) -> Seq<char>
    decreases rows.len(),
{
    if rows.len() == 0 {
        "autometrics"@
    } else if spec_is_marker_import(rows[0]) {
        match rows[0].alias {
            Some(a) => a,
            None => rows[0].name,
        }
    } else {
        spec_decorator_name(rows.drop_first())
    }
}

proof fn lemma_decorator_name_skip(rows: Seq<PyImportModel>, i: int)
    requires
        0 <= i <= rows.len(),
        forall|j: int| 0 <= j < i ==> !spec_is_marker_import(#[trigger] rows[j]),
    ensures
        spec_decorator_name(rows) == spec_decorator_name(rows.skip(i)),
    decreases i,
{
    if i > 0 {
        assert(rows.len() > 0);
        assert(!spec_is_marker_import(rows[0]));
        lemma_decorator_name_skip(rows.drop_first(), i - 1);
        assert(rows.drop_first().skip(i - 1) =~= rows.skip(i));
    } else {
        assert(rows.skip(0) =~= rows);
    }
}

/// The local decorator name the captured import rows determine: see
/// `spec_decorator_name`.
pub fn decorator_name_of(rows: &Vec<PyImportRow>) -> (r: String)
    ensures
        r@ == spec_decorator_name(rows.deep_view()),
{
    let mut i: usize = 0;
    while i < rows.len()
        invariant
            i <= rows.len(),
            forall|j: int| 0 <= j < i ==> !spec_is_marker_import(#[trigger] rows.deep_view()[j]),
        decreases rows.len() - i,
    {
        let row = &rows[i];
        if str_eq(row.module.as_str(), "autometrics") && str_eq(
            row.name.as_str(),
            "autometrics",
        ) {
            proof {
                lemma_decorator_name_skip(rows.deep_view(), i as int);
                assert(rows.deep_view().skip(i as int)[0] == rows.deep_view()[i as int]);
            }
            match &row.alias {
                Some(a) => {
                    return a.clone();
                },
                None => {
                    return row.name.clone();
                },
            }
        }
        i += 1;
    }
    proof {
        lemma_decorator_name_skip(rows.deep_view(), rows.len() as int);
        assert(rows.deep_view().skip(rows.len() as int) =~= Seq::<PyImportModel>::empty());
    }
    String::from_str("autometrics")
}

/// The query that reads which local name the instrumentation decorator was
/// imported under.
pub struct AmImportQuery {
    query: tree_sitter::Query,
    mod_idx: u32,
    name_idx: u32,
    alias_mod_idx: u32,
    alias_name_idx: u32,
    alias_idx: u32,
}

impl AmImportQuery {
    /// Compiles the import patterns: a plain `from _ import _` and an
    /// aliased one. A failure is a setup defect.
    pub fn try_new() -> (r: Result<AmImportQuery>)
        ensures
            match r {
                Ok(_) => true,
                Err(e) => spec_is_pattern_error(e),
            },
    {
        let text =
            "(import_from_statement module_name: (dotted_name) @mod name: (dotted_name) @name) (import_from_statement module_name: (dotted_name) @alias.mod name: (aliased_import name: (dotted_name) @alias.name alias: (identifier) @alias))";
        let query = match new_query(language_python(), text) {
            Ok(q) => q,
            Err(_) => {
                return Err(AmlError::CreateQuery);
            },
        };
        let mod_idx = capture_of(&query, "mod")?;
        let name_idx = capture_of(&query, "name")?;
        let alias_mod_idx = capture_of(&query, "alias.mod")?;
        let alias_name_idx = capture_of(&query, "alias.name")?;
        let alias_idx = capture_of(&query, "alias")?;
        Ok(AmImportQuery { query, mod_idx, name_idx, alias_mod_idx, alias_name_idx, alias_idx })
    }

    /// The captured import rows of one file, in order. A capture whose text
    /// cannot be decoded drops only that match.
    pub fn list_import_rows(&self, source: &str) -> (r: Result<Vec<PyImportRow>>)
        ensures
            match r {
                Ok(_) => true,
                Err(e) => spec_is_parse_error(e),
            },
    {
        let mut parser = match new_parser(language_python()) {
            Ok(p) => p,
            Err(_) => {
                return Err(AmlError::CreateParser);
            },
        };
        let tree = match parse_source(&mut parser, source) {
            Some(t) => t,
            None => {
                return Err(AmlError::Parsing);
            },
        };
        let root = tree_root(&tree);
        let matches = run_query(&self.query, root, source);
        let mut rows: Vec<PyImportRow> = Vec::new();
        let mut i: usize = 0;
        while i < matches.len()
            decreases matches@.len() - i,
        {
            let m = &matches[i];
            let plain = (capture_node(m, self.mod_idx), capture_node(m, self.name_idx));
            match plain {
                (Some(mod_node), Some(name_node)) => {
                    match (node_text(&mod_node, source), node_text(&name_node, source)) {
                        (Some(mod_text), Some(name_text)) => {
                            rows.push(
                                PyImportRow { module: mod_text, name: name_text, alias: None },
                            );
                        },
                        _ => {},
                    }
                },
                _ => {
                    let aliased = (
                        capture_node(m, self.alias_mod_idx),
                        capture_node(m, self.alias_name_idx),
                        capture_node(m, self.alias_idx),
                    );
                    match aliased {
                        (Some(mod_node), Some(name_node), Some(alias_node)) => {
                            let texts = (
                                node_text(&mod_node, source),
                                node_text(&name_node, source),
                                node_text(&alias_node, source),
                            );
                            match texts {
                                (Some(mod_text), Some(name_text), Some(alias_text)) => {
                                    rows.push(
                                        PyImportRow {
                                            module: mod_text,
                                            name: name_text,
                                            alias: Some(alias_text),
                                        },
                                    );
                                },
                                _ => {},
                            }
                        },
                        _ => {},
                    }
                },
            }
            i += 1;
        }
        Ok(rows)
    }

    /// The local name under which the file imports the instrumentation
    /// decorator: `spec_decorator_name` of the file's captured import rows.
    /// A failure is one of reading the file, never a setup defect.
    pub fn get_decorator_name(&self, source: &str) -> (r: Result<String>)
        ensures
            match r {
                Ok(name) => exists|rows: Seq<PyImportModel>|
                    name@ == #[trigger] spec_decorator_name(rows),
                Err(e) => spec_is_parse_error(e),
            },
    {
        let rows = self.list_import_rows(source)?;
        let name = decorator_name_of(&rows);
        proof {
            assert(name@ == spec_decorator_name(rows.deep_view()));
        }
        Ok(name)
    }
}

/// The annotated-only query of the Python backend.
pub struct AmQuery {
    dec_query: tree_sitter::Query,
    dec_idx: u32,
    func_idx: u32,
    container_query: tree_sitter::Query,
    fn_name_idx: u32,
    fn_body_idx: u32,
    class_name_idx: u32,
    class_body_idx: u32,
    /// The decorator text to look for, `@` included.
    marker: String,
}

impl AmQuery {
    /// Compiles the annotated-mode patterns for the given decorator name:
    /// decorated function definitions, and the shared container patterns. A
    /// failure is a setup defect.
    pub fn try_new(decorator_name: &str) -> (r: Result<AmQuery>)
        ensures
            match r {
                Ok(_) => true,
                Err(e) => spec_is_pattern_error(e),
            },
    {
        let text =
            "(decorated_definition (decorator) @dec definition: (function_definition name: (identifier) @func.name))";
        let dec_query = match new_query(language_python(), text) {
            Ok(q) => q,
            Err(_) => {
                return Err(AmlError::CreateQuery);
            },
        };
        let container_q = container_query()?;
        let dec_idx = capture_of(&dec_query, "dec")?;
        let func_idx = capture_of(&dec_query, "func.name")?;
        let fn_name_idx = capture_of(&container_q, "container.name")?;
        let fn_body_idx = capture_of(&container_q, "container.body")?;
        let class_name_idx = capture_of(&container_q, "class.name")?;
        let class_body_idx = capture_of(&container_q, "class.body")?;
        let marker = concat2("@", decorator_name);
        Ok(
            AmQuery {
                dec_query,
                dec_idx,
                func_idx,
                container_query: container_q,
                fn_name_idx,
                fn_body_idx,
                class_name_idx,
                class_body_idx,
                marker,
            },
        )
    }

    /// Lists the decorated functions of one file under their qualified
    /// scope, deduplicated. Every returned label's module begins with the
    /// given module prefix, no label is repeated, and a failure is one of
    /// reading the file, never a setup defect.
    pub fn list_function_names(&self, source: &str, module: &str) -> (r: Result<
        Vec<ExpectedAmLabel>,
    >)
        ensures
            match r {
                Ok(labels) => {
                    &&& forall|i: int|
                        0 <= i < labels.deep_view().len() ==> module@.is_prefix_of(
                            (#[trigger] labels.deep_view()[i]).module,
                        )
                    &&& forall|i: int, j: int|
                        0 <= i < j < labels.deep_view().len() ==> labels.deep_view()[i]
                            != labels.deep_view()[j]
                },
                Err(e) => spec_is_parse_error(e),
            },
    {
        let mut parser = match new_parser(language_python()) {
            Ok(p) => p,
            Err(_) => {
                return Err(AmlError::CreateParser);
            },
        };
        let tree = match parse_source(&mut parser, source) {
            Some(t) => t,
            None => {
                return Err(AmlError::Parsing);
            },
        };
        let kinds = container_kinds();
        let arena = build_arena(&tree, &kinds);
        let root = tree_root(&tree);
        let mut items: Vec<FoundItem> = Vec::new();

        let matches = run_query(&self.dec_query, root, source);
        let mut i: usize = 0;
        while i < matches.len()
            decreases matches@.len() - i,
        {
            let m = &matches[i];
            let pair = (capture_node(m, self.dec_idx), capture_node(m, self.func_idx));
            match pair {
                (Some(dec_node), Some(name_node)) => {
                    match (node_text(&dec_node, source), node_text(&name_node, source)) {
                        (Some(dec_text), Some(name)) => {
                            if str_eq(dec_text.as_str(), self.marker.as_str()) {
                                match node_parent(&name_node) {
                                    Some(def_node) => {
                                        match arena.index_of(node_id(&def_node)) {
                                            Some(node) => {
                                                items.push(FoundItem::FnItem { node, name });
                                            },
                                            None => {},
                                        }
                                    },
                                    None => {},
                                }
                            }
                        },
                        _ => {},
                    }
                },
                _ => {},
            }
            i += 1;
        }

        push_python_containers(
            &mut items,
            &arena,
            &self.container_query,
            self.fn_name_idx,
            self.fn_body_idx,
            self.class_name_idx,
            self.class_body_idx,
            root,
            source,
        );

        let labels = resolve(&arena.shape, &items, 0, module, ".");
        let out = dedup_labels(&labels);
        proof {
            lemma_resolve_result_prefixed(
                arena.shape@,
                items.deep_view(),
                0,
                module@,
                "."@,
                labels.deep_view(),
            );
            lemma_dedup_preserves(
                labels.deep_view(),
                |l: LabelModel| module@.is_prefix_of(l.module),
            );
        }
        Ok(out)
    }
}

/// The all-functions survey of the Python backend.
pub struct AllFunctionsQuery {
    fn_query: tree_sitter::Query,
    func_idx: u32,
    container_query: tree_sitter::Query,
    fn_name_idx: u32,
    fn_body_idx: u32,
    class_name_idx: u32,
    class_body_idx: u32,
}

impl AllFunctionsQuery {
    /// Compiles the survey patterns: every function definition, and the
    /// shared container patterns. A failure is a setup defect.
    pub fn try_new() -> (r: Result<AllFunctionsQuery>)
        ensures
            match r {
                Ok(_) => true,
                Err(e) => spec_is_pattern_error(e),
            },
    {
        let text = "(function_definition name: (identifier) @func.name)";
        let fn_query = match new_query(language_python(), text) {
            Ok(q) => q,
            Err(_) => {
                return Err(AmlError::CreateQuery);
            },
        };
        let container_q = container_query()?;
        let func_idx = capture_of(&fn_query, "func.name")?;
        let fn_name_idx = capture_of(&container_q, "container.name")?;
        let fn_body_idx = capture_of(&container_q, "container.body")?;
        let class_name_idx = capture_of(&container_q, "class.name")?;
        let class_body_idx = capture_of(&container_q, "class.body")?;
        Ok(
            AllFunctionsQuery {
                fn_query,
                func_idx,
                container_query: container_q,
                fn_name_idx,
                fn_body_idx,
                class_name_idx,
                class_body_idx,
            },
        )
    }

    /// Lists every function of one file under its qualified scope,
    /// deduplicated. Every returned label's module begins with the given
    /// module prefix, no label is repeated, and a failure is one of reading
    /// the file, never a setup defect.
    pub fn list_function_names(&self, source: &str, module: &str) -> (r: Result<
        Vec<ExpectedAmLabel>,
    >)
        ensures
            match r {
                Ok(labels) => {
                    &&& forall|i: int|
                        0 <= i < labels.deep_view().len() ==> module@.is_prefix_of(
                            (#[trigger] labels.deep_view()[i]).module,
                        )
                    &&& forall|i: int, j: int|
                        0 <= i < j < labels.deep_view().len() ==> labels.deep_view()[i]
                            != labels.deep_view()[j]
                },
                Err(e) => spec_is_parse_error(e),
            },
    {
        let mut parser = match new_parser(language_python()) {
            Ok(p) => p,
            Err(_) => {
                return Err(AmlError::CreateParser);
            },
        };
        let tree = match parse_source(&mut parser, source) {
            Some(t) => t,
            None => {
                return Err(AmlError::Parsing);
            },
        };
        let kinds = container_kinds();
        let arena = build_arena(&tree, &kinds);
        let root = tree_root(&tree);
        let mut items: Vec<FoundItem> = Vec::new();

        let matches = run_query(&self.fn_query, root, source);
        let mut i: usize = 0;
        while i < matches.len()
            decreases matches@.len() - i,
        {
            let m = &matches[i];
            match capture_node(m, self.func_idx) {
                Some(name_node) => {
                    match node_text(&name_node, source) {
                        Some(name) => {
                            match node_parent(&name_node) {
                                Some(def_node) => {
                                    match arena.index_of(node_id(&def_node)) {
                                        Some(node) => {
                                            items.push(FoundItem::FnItem { node, name });
                                        },
                                        None => {},
                                    }
                                },
                                None => {},
                            }
                        },
                        None => {},
                    }
                },
                None => {},
            }
            i += 1;
        }

        push_python_containers(
            &mut items,
            &arena,
            &self.container_query,
            self.fn_name_idx,
            self.fn_body_idx,
            self.class_name_idx,
            self.class_body_idx,
            root,
            source,
        );

        let labels = resolve(&arena.shape, &items, 0, module, ".");
        let out = dedup_labels(&labels);
        proof {
            lemma_resolve_result_prefixed(
                arena.shape@,
                items.deep_view(),
                0,
                module@,
                "."@,
                labels.deep_view(),
            );
            lemma_dedup_preserves(
                labels.deep_view(),
                |l: LabelModel| module@.is_prefix_of(l.module),
            );
        }
        Ok(out)
    }
}

} // verus!
