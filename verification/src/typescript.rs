//! The TypeScript backend. Instrumentation is expressed two ways: a wrapper
//! call that receives the function value — resolved through the file's
//! import map — and a class decorator that covers every method of the class.
//! Class names qualify their methods' scope, joined with `.`.
pub mod imports;
pub mod queries;

use vstd::prelude::*;
use vstd::string::StringExecFns;

use crate::engine::resolve;
use crate::engine::FoundItem;
use crate::engine::MemberFn;
use crate::laws::lemma_resolve_result_prefixed;
use crate::sitter::build_arena;
use crate::sitter::capture_node;
use crate::sitter::language_typescript;
use crate::sitter::new_parser;
use crate::sitter::new_query;
use crate::sitter::node_id;
use crate::sitter::node_parent;
use crate::sitter::node_text;
use crate::sitter::parse_source;
use crate::sitter::run_query;
use crate::sitter::tree_root;
use crate::sitter::Arena;
use crate::sitter::RawMatch;
use crate::absorb_file_failure;
use crate::aggregate::aggregate;
use crate::aggregate::dedup_labels;
use crate::aggregate::lemma_dedup_preserves;
use crate::spec_is_parse_error;
use crate::spec_is_pattern_error;
use crate::paths::directory_of;
use crate::paths::is_valid;
use crate::strutil::str_eq;
use crate::AmlError;
use crate::ExpectedAmLabel;
use crate::LabelModel;
use crate::ListAmFunctions;
use crate::Result;
use crate::SourceFile;
use imports::resolve_all_wrapped;
use imports::ImportsMap;
use queries::capture_of;
use queries::ImportsMapQuery;
use queries::WrapperQuery;

verus! {

/// The TypeScript language backend.
#[derive(Clone, Copy, Debug, Default)]
pub struct Impl {}

impl ListAmFunctions for Impl {
    fn list_autometrics_functions(&mut self, project: &Vec<SourceFile>) -> (r: Result<
        Vec<ExpectedAmLabel>,
    >) {
        let query = AmQuery::try_new()?;
        let mut parts: Vec<Vec<ExpectedAmLabel>> = Vec::new();
        let mut i: usize = 0;
        while i < project.len()
            decreases project@.len() - i,
        {
            let f = &project[i];
            if f.path.len() > 0 {
                let file_name = &f.path[f.path.len() - 1];
                if is_valid(file_name.as_str(), false, ".ts") {
                    let dir = directory_of(&f.path);
                    let per_file = absorb_file_failure(
                        query.list_function_names("", f.source.as_str(), Some(dir.as_str())),
                    );
                    match per_file {
                        Ok(labels) => parts.push(labels),
                        Err(e) => {
                            return Err(e);
                        },
                    }
                }
            }
            i += 1;
        }
        Ok(aggregate(&parts))
    }

    fn list_all_functions(&mut self, project: &Vec<SourceFile>) -> (r: Result<
        Vec<ExpectedAmLabel>,
    >) {
        let query = AllFunctionsQuery::try_new()?;
        let mut parts: Vec<Vec<ExpectedAmLabel>> = Vec::new();
        let mut i: usize = 0;
        while i < project.len()
            decreases project@.len() - i,
        {
            let f = &project[i];
            if f.path.len() > 0 {
                let file_name = &f.path[f.path.len() - 1];
                if is_valid(file_name.as_str(), false, ".ts") {
                    let per_file = absorb_file_failure(
                        query.list_function_names("", f.source.as_str()),
                    );
                    match per_file {
                        Ok(labels) => parts.push(labels),
                        Err(e) => {
                            return Err(e);
                        },
                    }
                }
            }
            i += 1;
        }
        Ok(aggregate(&parts))
    }
}

/// The scoping constructs of the TypeScript grammar.
fn container_kinds() -> Vec<String> {
    let mut kinds: Vec<String> = Vec::new();
    kinds.push(String::from_str("class_declaration"));
    kinds
}

/// Whether the list holds the given value.
fn contains_usize(v: &Vec<usize>, x: usize) -> (r: bool)
    ensures
        r == v@.contains(x),
{
    let mut i: usize = 0;
    while i < v.len()
        invariant
            i <= v@.len(),
            forall|j: int| 0 <= j < i ==> v@[j] != x,
        decreases v@.len() - i,
    {
        if v[i] == x {
            assert(v@[i as int] == x);
            return true;
        }
        i += 1;
    }
    false
}

/// The patterns that find every class, shared by both modes.
fn class_query() -> (r: Result<(tree_sitter::Query, u32, u32)>)
    ensures
        match r {
            Ok(_) => true,
            Err(e) => spec_is_pattern_error(e),
        },
{
    let text = "(class_declaration name: (type_identifier) @class.name body: (class_body) @class.body)";
    let query = match new_query(language_typescript(), text) {
        Ok(q) => q,
        Err(_) => {
            return Err(AmlError::CreateQuery);
        },
    };
    let name_idx = capture_of(&query, "class.name")?;
    let body_idx = capture_of(&query, "class.body")?;
    Ok((query, name_idx, body_idx))
}

/// Pushes one unmarked container per class match, skipping the bodies
/// already present as marked containers.
fn push_class_containers(
    items: &mut Vec<FoundItem>,
    arena: &Arena,
    matches: &Vec<RawMatch>,
    source: &str,
    name_idx: u32,
    body_idx: u32,
    skip_bodies: &Vec<usize>,
) {
    let mut i: usize = 0;
    while i < matches.len()
        decreases matches@.len() - i,
    {
        let m = &matches[i];
        let pair = (capture_node(m, name_idx), capture_node(m, body_idx));
        match pair {
            (Some(name_node), Some(body_node)) => {
                match (node_text(&name_node, source), node_parent(&name_node)) {
                    (Some(name), Some(holder_node)) => {
                        let holder = arena.index_of(node_id(&holder_node));
                        let body = arena.index_of(node_id(&body_node));
                        match (holder, body) {
                            (Some(h), Some(b)) => {
                                if !contains_usize(skip_bodies, b) {
                                    items.push(
                                        FoundItem::ContainerItem {
                                            holder: h,
                                            name,
                                            body: b,
                                            marked: false,
                                            members: Vec::new(),
                                        },
                                    );
                                }
                            },
                            _ => {},
                        }
                    },
                    _ => {},
                }
            },
            _ => {},
        }
        i += 1;
    }
}

/// The annotated-only analysis of the TypeScript backend.
pub struct AmQuery {
    imports_query: ImportsMapQuery,
    wrapper_query: WrapperQuery,
    dec_query: tree_sitter::Query,
    dec_idx: u32,
    dec_name_idx: u32,
    dec_body_idx: u32,
    dec_method_idx: u32,
    class_query: tree_sitter::Query,
    class_name_idx: u32,
    class_body_idx: u32,
}

impl AmQuery {
    /// Compiles the annotated-mode patterns: imports, wrapper calls, and
    /// decorated classes with their methods. A failure is a setup defect.
    pub fn try_new() -> (r: Result<AmQuery>)
        ensures
            match r {
                Ok(_) => true,
                Err(e) => spec_is_pattern_error(e),
            },
    {
        let imports_query = ImportsMapQuery::try_new()?;
        let wrapper_query = WrapperQuery::try_new()?;
        let dec_text =
            "(class_declaration decorator: (decorator) @dec name: (type_identifier) @class.name body: (class_body (method_definition name: (property_identifier) @method.name)) @class.body)";
        let dec_query = match new_query(language_typescript(), dec_text) {
            Ok(q) => q,
            Err(_) => {
                return Err(AmlError::CreateQuery);
            },
        };
        let dec_idx = capture_of(&dec_query, "dec")?;
        let dec_name_idx = capture_of(&dec_query, "class.name")?;
        let dec_body_idx = capture_of(&dec_query, "class.body")?;
        let dec_method_idx = capture_of(&dec_query, "method.name")?;
        let (class_q, class_name_idx, class_body_idx) = class_query()?;
        Ok(
            AmQuery {
                imports_query,
                wrapper_query,
                dec_query,
                dec_idx,
                dec_name_idx,
                dec_body_idx,
                dec_method_idx,
                class_query: class_q,
                class_name_idx,
                class_body_idx,
            },
        )
    }

    /// Lists the instrumented functions of one file, deduplicated: wrapper
    /// calls traced through the import map — built against `project_path`,
    /// the importing file's directory relative to the project root — and
    /// every method of a class decorated with the marker. A capture whose
    /// text cannot be decoded drops only its own match. No label is
    /// repeated, and a failure is one of reading the file, never a setup
    /// defect.
    pub fn list_function_names(
        &self,
        module: &str,
        source: &str,
        project_path: Option<&str>,
    ) -> (r: Result<Vec<ExpectedAmLabel>>)
        ensures
            match r {
                Ok(labels) => forall|i: int, j: int|
                    0 <= i < j < labels.deep_view().len() ==> labels.deep_view()[i]
                        != labels.deep_view()[j],
                Err(e) => spec_is_parse_error(e),
            },
    {
        let mut parser = match new_parser(language_typescript()) {
            Ok(p) => p,
            Err(_) => {
                return Err(AmlError::CreateParser);
            },
        };
        let tree = match parse_source(&mut parser, source) {
            Some(t) => t,
            None => {
                return Err(AmlError::Parsing);
            },
        };
        let kinds = container_kinds();
        let arena = build_arena(&tree, &kinds);
        let root = tree_root(&tree);
        let map: ImportsMap = self.imports_query.list_imports(project_path, source)?;

        // wrapper calls, resolved against the map by the verified analyzer
        let calls = self.wrapper_query.list_wrapper_calls(root, source);
        let mut out = resolve_all_wrapped(&map, &calls, module);

        // decorated classes: every method of a marked class, grouped per
        // class body
        let dec_matches = run_query(&self.dec_query, root, source);
        let mut row_holder: Vec<usize> = Vec::new();
        let mut row_body: Vec<usize> = Vec::new();
        let mut row_name: Vec<String> = Vec::new();
        let mut row_members: Vec<MemberFn> = Vec::new();
        let mut j: usize = 0;
        while j < dec_matches.len()
            invariant
                row_holder@.len() == row_body@.len(),
                row_body@.len() == row_name@.len(),
                row_name@.len() == row_members@.len(),
            decreases dec_matches@.len() - j,
        {
            let m = &dec_matches[j];
            let dec_node = capture_node(m, self.dec_idx);
            let name_node = capture_node(m, self.dec_name_idx);
            let body_node = capture_node(m, self.dec_body_idx);
            let method_node = capture_node(m, self.dec_method_idx);
            match (dec_node, name_node, body_node, method_node) {
                (Some(dn), Some(nn), Some(bn), Some(mn)) => {
                    let texts = (
                        node_text(&dn, source),
                        node_text(&nn, source),
                        node_text(&mn, source),
                    );
                    match texts {
                        (Some(dec_text), Some(class_name), Some(method_name)) => {
                            if str_eq(dec_text.as_str(), "@Autometrics") || str_eq(
                                dec_text.as_str(),
                                "@Autometrics()",
                            ) {
                                let holder = match node_parent(&nn) {
                                    Some(hn) => arena.index_of(node_id(&hn)),
                                    None => None,
                                };
                                let body = arena.index_of(node_id(&bn));
                                let member_idx = arena.index_of(node_id(&mn));
                                match (holder, body, member_idx) {
                                    (Some(h), Some(b), Some(mi)) => {
                                        row_holder.push(h);
                                        row_body.push(b);
                                        row_name.push(class_name);
                                        row_members.push(
                                            MemberFn { node: mi, name: method_name },
                                        );
                                    },
                                    _ => {},
                                }
                            }
                        },
                        _ => {},
                    }
                },
                _ => {},
            }
            j += 1;
        }
        let mut items: Vec<FoundItem> = Vec::new();
        let mut marked_bodies: Vec<usize> = Vec::new();
        let mut k: usize = 0;
        while k < row_body.len()
            invariant
                row_holder@.len() == row_body@.len(),
                row_body@.len() == row_name@.len(),
                row_name@.len() == row_members@.len(),
            decreases row_body@.len() - k,
        {
            if k == 0 || row_body[k] != row_body[k - 1] {
                let mut members: Vec<MemberFn> = Vec::new();
                let mut t: usize = k;
                while t < row_body.len() && row_body[t] == row_body[k]
                    invariant
                        k < row_body@.len(),
                        k <= t,
                        row_body@.len() == row_members@.len(),
                        row_body@.len() == row_name@.len(),
                        row_holder@.len() == row_body@.len(),
                    decreases row_body@.len() - t,
                {
                    members.push(
                        MemberFn { node: row_members[t].node, name: row_members[t].name.clone() },
                    );
                    t += 1;
                }
                marked_bodies.push(row_body[k]);
                items.push(
                    FoundItem::ContainerItem {
                        holder: row_holder[k],
                        name: row_name[k].clone(),
                        body: row_body[k],
                        marked: true,
                        members,
                    },
                );
            }
            k += 1;
        }

        let class_matches = run_query(&self.class_query, root, source);
        push_class_containers(
            &mut items,
            &arena,
            &class_matches,
            source,
            self.class_name_idx,
            self.class_body_idx,
            &marked_bodies,
        );

        let engine_labels = resolve(&arena.shape, &items, 0, module, ".");
        let mut e: usize = 0;
        while e < engine_labels.len()
            decreases engine_labels@.len() - e,
        {
            out.push(engine_labels[e].clone_label());
            e += 1;
        }
        Ok(dedup_labels(&out))
    }
}

/// The all-functions survey of the TypeScript backend: function
/// declarations, named function expressions, class methods, and
/// arrow-function bindings — the declarations that physically exist in the
/// file. A wrapped external symbol never appears here: nothing is declared
/// for it in the file.
pub struct AllFunctionsQuery {
    fn_query: tree_sitter::Query,
    func_idx: u32,
    class_query: tree_sitter::Query,
    class_name_idx: u32,
    class_body_idx: u32,
}

impl AllFunctionsQuery {
    /// Compiles the survey patterns. A failure is a setup defect.
    pub fn try_new() -> (r: Result<AllFunctionsQuery>)
        ensures
            match r {
                Ok(_) => true,
                Err(e) => spec_is_pattern_error(e),
            },
    {
        let text =
            "(function_declaration name: (identifier) @func.name) (function_expression name: (identifier) @func.name) (method_definition name: (property_identifier) @func.name) (variable_declarator name: (identifier) @func.name value: (arrow_function))";
        let fn_query = match new_query(language_typescript(), text) {
            Ok(q) => q,
            Err(_) => {
                return Err(AmlError::CreateQuery);
            },
        };
        let func_idx = capture_of(&fn_query, "func.name")?;
        let (class_q, class_name_idx, class_body_idx) = class_query()?;
        Ok(
            AllFunctionsQuery {
                fn_query,
                func_idx,
                class_query: class_q,
                class_name_idx,
                class_body_idx,
            },
        )
    }

    /// Lists every declared function of one file under its qualified scope,
    /// deduplicated. Every returned label's module begins with the given
    /// module prefix, no label is repeated, and a failure is one of reading
    /// the file, never a setup defect.
    pub fn list_function_names(&self, module: &str, source: &str) -> (r: Result<
        Vec<ExpectedAmLabel>,
    >)
        ensures
            match r {
                Ok(labels) => {
                    &&& forall|i: int|
                        0 <= i < labels.deep_view().len() ==> module@.is_prefix_of(
                            (#[trigger] labels.deep_view()[i]).module,
                        )
                    &&& forall|i: int, j: int|
                        0 <= i < j < labels.deep_view().len() ==> labels.deep_view()[i]
                            != labels.deep_view()[j]
                },
                Err(e) => spec_is_parse_error(e),
            },
    {
        let mut parser = match new_parser(language_typescript()) {
            Ok(p) => p,
            Err(_) => {
                return Err(AmlError::CreateParser);
            },
        };
        let tree = match parse_source(&mut parser, source) {
            Some(t) => t,
            None => {
                return Err(AmlError::Parsing);
            },
        };
        let kinds = container_kinds();
        let arena = build_arena(&tree, &kinds);
        let root = tree_root(&tree);
        let mut items: Vec<FoundItem> = Vec::new();

        let matches = run_query(&self.fn_query, root, source);
        let mut i: usize = 0;
        while i < matches.len()
            decreases matches@.len() - i,
        {
            let m = &matches[i];
            match capture_node(m, self.func_idx) {
                Some(name_node) => {
                    match (node_text(&name_node, source), arena.index_of(node_id(&name_node))) {
                        (Some(name), Some(node)) => {
                            items.push(FoundItem::FnItem { node, name });
                        },
                        _ => {},
                    }
                },
                None => {},
            }
            i += 1;
        }

        let class_matches = run_query(&self.class_query, root, source);
        let skip: Vec<usize> = Vec::new();
        push_class_containers(
            &mut items,
            &arena,
            &class_matches,
            source,
            self.class_name_idx,
            self.class_body_idx,
            &skip,
        );

        let labels = resolve(&arena.shape, &items, 0, module, ".");
        let out = dedup_labels(&labels);
        proof {
            lemma_resolve_result_prefixed(
                arena.shape@,
                items.deep_view(),
                0,
                module@,
                "."@,
                labels.deep_view(),
            );
            lemma_dedup_preserves(
                labels.deep_view(),
                |l: LabelModel| module@.is_prefix_of(l.module),
            );
        }
        Ok(out)
    }
}

} // verus!
