//! The Rust backend: functions marked with an `#[autometrics]` attribute,
//! impl blocks carrying the attribute as a whole, and scope qualification
//! through nested `mod` and impl blocks, joined with `::`.
use vstd::prelude::*;
use vstd::string::StringExecFns;

use crate::engine::resolve;
use crate::engine::FoundItem;
use crate::engine::MemberFn;
use crate::laws::lemma_resolve_result_prefixed;
use crate::sitter::build_arena;
use crate::sitter::capture_index;
use crate::sitter::capture_node;
use crate::sitter::language_rust;
use crate::sitter::new_parser;
use crate::sitter::new_query;
use crate::sitter::node_id;
use crate::sitter::node_parent;
use crate::sitter::node_text;
use crate::sitter::parse_source;
use crate::sitter::run_query;
use crate::sitter::tree_root;
use crate::sitter::Arena;
use crate::sitter::RawMatch;
use crate::absorb_file_failure;
use crate::aggregate::aggregate;
use crate::aggregate::dedup_labels;
use crate::aggregate::lemma_dedup_preserves;
use crate::spec_is_parse_error;
use crate::spec_is_pattern_error;
use crate::paths::fully_qualified_module_name;
use crate::paths::is_valid;
use crate::strutil::starts_with_str;
use crate::AmlError;
use crate::ExpectedAmLabel;
use crate::LabelModel;
use crate::ListAmFunctions;
use crate::Result;
use crate::SourceFile;

verus! {

/// The Rust language backend.
#[derive(Clone, Copy, Debug, Default)]
pub struct Impl {}

/// The scoping constructs of the Rust grammar.
fn container_kinds() -> Vec<String> {
    let mut kinds: Vec<String> = Vec::new();
    kinds.push(String::from_str("mod_item"));
    kinds.push(String::from_str("impl_item"));
    kinds
}

/// Whether the text of an attribute is the instrumentation marker: the bare
/// attribute, one with arguments, or one named through a path — but not an
/// attribute whose name merely begins with the marker's.
fn is_marker_attribute(text: &str) -> (r: bool)
    ensures
        r == ("#[autometrics]"@.is_prefix_of(text@) || "#[autometrics("@.is_prefix_of(text@)
            || "#[autometrics::"@.is_prefix_of(text@)),
{
    starts_with_str(text, "#[autometrics]") || starts_with_str(text, "#[autometrics(")
        || starts_with_str(text, "#[autometrics::")
}

/// Container items found by the shared container patterns: modules by name
/// and body, impl blocks by self type and body. An impl block whose body is
/// among `skip_bodies` is left out, so that a marked container is not
/// duplicated by its unmarked general form.
fn push_container_items(
    items: &mut Vec<FoundItem>,
    arena: &Arena,
    matches: &Vec<RawMatch>,
    source: &str,
    mod_name_idx: u32,
    mod_contents_idx: u32,
    impl_type_idx: u32,
    impl_contents_idx: u32,
    skip_bodies: &Vec<usize>,
) {
    let mut i: usize = 0;
    while i < matches.len()
        decreases matches@.len() - i,
    {
        let m = &matches[i];
        let mod_pair = (capture_node(m, mod_name_idx), capture_node(m, mod_contents_idx));
        match mod_pair {
            (Some(name_node), Some(contents_node)) => {
                match (node_text(&name_node, source), node_parent(&name_node)) {
                    (Some(name), Some(holder_node)) => {
                        let holder = arena.index_of(node_id(&holder_node));
                        let body = arena.index_of(node_id(&contents_node));
                        match (holder, body) {
                            (Some(h), Some(b)) => {
                                items.push(
                                    FoundItem::ContainerItem {
                                        holder: h,
                                        name,
                                        body: b,
                                        marked: false,
                                        members: Vec::new(),
                                    },
                                );
                            },
                            _ => {},
                        }
                    },
                    _ => {},
                }
            },
            _ => {
                let impl_pair = (
                    capture_node(m, impl_type_idx),
                    capture_node(m, impl_contents_idx),
                );
                match impl_pair {
                    (Some(type_node), Some(contents_node)) => {
                        match (node_text(&type_node, source), node_parent(&type_node)) {
                            (Some(name), Some(holder_node)) => {
                                let holder = arena.index_of(node_id(&holder_node));
                                let body = arena.index_of(node_id(&contents_node));
                                match (holder, body) {
                                    (Some(h), Some(b)) => {
                                        if !contains_usize(skip_bodies, b) {
                                            items.push(
                                                FoundItem::ContainerItem {
                                                    holder: h,
                                                    name,
                                                    body: b,
                                                    marked: false,
                                                    members: Vec::new(),
                                                },
                                            );
                                        }
                                    },
                                    _ => {},
                                }
                            },
                            _ => {},
                        }
                    },
                    _ => {},
                }
            },
        }
        i += 1;
    }
}

/// Whether the list holds the given value.
fn contains_usize(v: &Vec<usize>, x: usize) -> (r: bool)
    ensures
        r == v@.contains(x),
{
    let mut i: usize = 0;
    while i < v.len()
        invariant
            i <= v@.len(),
            forall|j: int| 0 <= j < i ==> v@[j] != x,
        decreases v@.len() - i,
    {
        if v[i] == x {
            assert(v@[i as int] == x);
            return true;
        }
        i += 1;
    }
    false
}

/// The query pair of the annotated-only mode.
pub struct AmQuery {
    fn_query: tree_sitter::Query,
    fn_attr_idx: u32,
    fn_name_idx: u32,
    impl_query: tree_sitter::Query,
    impl_attr_idx: u32,
    impl_type_idx: u32,
    impl_member_idx: u32,
    impl_contents_idx: u32,
    container_query: tree_sitter::Query,
    mod_name_idx: u32,
    mod_contents_idx: u32,
    c_impl_type_idx: u32,
    c_impl_contents_idx: u32,
}

/// One named capture of a compiled query, or the configuration error that
/// the pattern text and this code have drifted apart.
fn capture_of(query: &tree_sitter::Query, name: &str) -> (r: Result<u32>)
    ensures
        match r {
            Ok(_) => true,
            Err(e) => e matches AmlError::MissingNamedCapture(n) && n@ == name@,
        },
{
    match capture_index(query, name) {
        Some(idx) => Ok(idx),
        None => Err(AmlError::MissingNamedCapture(name.to_owned())),
    }
}

/// The patterns that find every module and impl block, shared by both modes.
fn container_query() -> (r: Result<tree_sitter::Query>)
    ensures
        match r {
            Ok(_) => true,
            Err(e) => spec_is_pattern_error(e),
        },
{
    let text =
        "(mod_item name: (identifier) @mod.name body: (declaration_list) @mod.contents) (impl_item type: (type_identifier) @impl.type body: (declaration_list) @impl.contents)";
    match new_query(language_rust(), text) {
        Ok(q) => Ok(q),
        Err(_) => Err(AmlError::CreateQuery),
    }
}

impl AmQuery {
    /// Compiles the annotated-mode patterns: attribute-marked functions,
    /// attribute-marked impl blocks with their methods, and the shared
    /// container patterns. A failure is a setup defect: the pattern did not
    /// compile, or it lacks an expected capture.
    pub fn try_new() -> (r: Result<AmQuery>)
        ensures
            match r {
                Ok(_) => true,
                Err(e) => spec_is_pattern_error(e),
            },
    {
        let fn_text = "((attribute_item) @attr . (function_item name: (identifier) @func.name))";
        let fn_query = match new_query(language_rust(), fn_text) {
            Ok(q) => q,
            Err(_) => {
                return Err(AmlError::CreateQuery);
            },
        };
        let impl_text =
            "((attribute_item) @attr . (impl_item type: (type_identifier) @type.impl body: (declaration_list (function_item name: (identifier) @inner.func.name)) @impl.contents))";
        let impl_query = match new_query(language_rust(), impl_text) {
            Ok(q) => q,
            Err(_) => {
                return Err(AmlError::CreateQuery);
            },
        };
        let container_q = container_query()?;
        let fn_attr_idx = capture_of(&fn_query, "attr")?;
        let fn_name_idx = capture_of(&fn_query, "func.name")?;
        let impl_attr_idx = capture_of(&impl_query, "attr")?;
        let impl_type_idx = capture_of(&impl_query, "type.impl")?;
        let impl_member_idx = capture_of(&impl_query, "inner.func.name")?;
        let impl_contents_idx = capture_of(&impl_query, "impl.contents")?;
        let mod_name_idx = capture_of(&container_q, "mod.name")?;
        let mod_contents_idx = capture_of(&container_q, "mod.contents")?;
        let c_impl_type_idx = capture_of(&container_q, "impl.type")?;
        let c_impl_contents_idx = capture_of(&container_q, "impl.contents")?;
        Ok(
            AmQuery {
                fn_query,
                fn_attr_idx,
                fn_name_idx,
                impl_query,
                impl_attr_idx,
                impl_type_idx,
                impl_member_idx,
                impl_contents_idx,
                container_query: container_q,
                mod_name_idx,
                mod_contents_idx,
                c_impl_type_idx,
                c_impl_contents_idx,
            },
        )
    }

    /// Lists the marked functions of one file, deduplicated: directly marked
    /// ones under their qualified scope, and every method of a marked impl
    /// block under the block's type name. A capture whose text cannot be
    /// decoded drops only its own match. Every returned label's module
    /// begins with the given module prefix, no label is repeated, and a
    /// failure is one of reading the file, never a setup defect.
    pub fn list_function_names(&self, module: &str, source: &str) -> (r: Result<
        Vec<ExpectedAmLabel>,
    >)
        ensures
            match r {
                Ok(labels) => {
                    &&& forall|i: int|
                        0 <= i < labels.deep_view().len() ==> module@.is_prefix_of(
                            (#[trigger] labels.deep_view()[i]).module,
                        )
                    &&& forall|i: int, j: int|
                        0 <= i < j < labels.deep_view().len() ==> labels.deep_view()[i]
                            != labels.deep_view()[j]
                },
                Err(e) => spec_is_parse_error(e),
            },
    {
        let lang = language_rust();
        let mut parser = match new_parser(lang) {
            Ok(p) => p,
            Err(_) => {
                return Err(AmlError::CreateParser);
            },
        };
        let tree = match parse_source(&mut parser, source) {
            Some(t) => t,
            None => {
                return Err(AmlError::Parsing);
            },
        };
        let kinds = container_kinds();
        let arena = build_arena(&tree, &kinds);
        let root = tree_root(&tree);
        let mut items: Vec<FoundItem> = Vec::new();

        // directly marked functions
        let fn_matches = run_query(&self.fn_query, root, source);
        let mut i: usize = 0;
        while i < fn_matches.len()
            decreases fn_matches@.len() - i,
        {
            let m = &fn_matches[i];
            let pair = (capture_node(m, self.fn_attr_idx), capture_node(m, self.fn_name_idx));
            match pair {
                (Some(attr_node), Some(name_node)) => {
                    match (node_text(&attr_node, source), node_text(&name_node, source)) {
                        (Some(attr_text), Some(name)) => {
                            if is_marker_attribute(attr_text.as_str()) {
                                match arena.index_of(node_id(&name_node)) {
                                    Some(node) => {
                                        items.push(FoundItem::FnItem { node, name });
                                    },
                                    None => {},
                                }
                            }
                        },
                        _ => {},
                    }
                },
                _ => {},
            }
            i += 1;
        }

        // methods of marked impl blocks, one match per method, grouped by
        // the block's body node
        let impl_matches = run_query(&self.impl_query, root, source);
        let mut row_holder: Vec<usize> = Vec::new();
        let mut row_body: Vec<usize> = Vec::new();
        let mut row_name: Vec<String> = Vec::new();
        let mut row_members: Vec<MemberFn> = Vec::new();
        let mut j: usize = 0;
        while j < impl_matches.len()
            invariant
                row_holder@.len() == row_body@.len(),
                row_body@.len() == row_name@.len(),
                row_name@.len() == row_members@.len(),
            decreases impl_matches@.len() - j,
        {
            let m = &impl_matches[j];
            let attr = capture_node(m, self.impl_attr_idx);
            let type_node = capture_node(m, self.impl_type_idx);
            let member_node = capture_node(m, self.impl_member_idx);
            let contents_node = capture_node(m, self.impl_contents_idx);
            match (attr, type_node, member_node, contents_node) {
                (Some(attr_node), Some(tn), Some(mn), Some(cn)) => {
                    let attr_text = node_text(&attr_node, source);
                    let type_text = node_text(&tn, source);
                    let member_text = node_text(&mn, source);
                    match (attr_text, type_text, member_text) {
                        (Some(at), Some(tt), Some(mt)) => {
                            if is_marker_attribute(at.as_str()) {
                                let holder = match node_parent(&tn) {
                                    Some(hn) => arena.index_of(node_id(&hn)),
                                    None => None,
                                };
                                let body = arena.index_of(node_id(&cn));
                                let member_idx = arena.index_of(node_id(&mn));
                                match (holder, body, member_idx) {
                                    (Some(h), Some(b), Some(mi)) => {
                                        row_holder.push(h);
                                        row_body.push(b);
                                        row_name.push(tt);
                                        row_members.push(MemberFn { node: mi, name: mt });
                                    },
                                    _ => {},
                                }
                            }
                        },
                        _ => {},
                    }
                },
                _ => {},
            }
            j += 1;
        }
        // group consecutive rows of one body into one marked container
        let mut marked_bodies: Vec<usize> = Vec::new();
        let mut k: usize = 0;
        while k < row_body.len()
            invariant
                row_holder@.len() == row_body@.len(),
                row_body@.len() == row_name@.len(),
                row_name@.len() == row_members@.len(),
            decreases row_body@.len() - k,
        {
            if k == 0 || row_body[k] != row_body[k - 1] {
                let mut members: Vec<MemberFn> = Vec::new();
                let mut t: usize = k;
                while t < row_body.len() && row_body[t] == row_body[k]
                    invariant
                        k < row_body@.len(),
                        k <= t,
                        row_body@.len() == row_members@.len(),
                        row_body@.len() == row_name@.len(),
                        row_holder@.len() == row_body@.len(),
                    decreases row_body@.len() - t,
                {
                    members.push(
                        MemberFn { node: row_members[t].node, name: row_members[t].name.clone() },
                    );
                    t += 1;
                }
                marked_bodies.push(row_body[k]);
                items.push(
                    FoundItem::ContainerItem {
                        holder: row_holder[k],
                        name: row_name[k].clone(),
                        body: row_body[k],
                        marked: true,
                        members,
                    },
                );
            }
            k += 1;
        }

        // every module, and every impl block not already present as marked
        let container_matches = run_query(&self.container_query, root, source);
        push_container_items(
            &mut items,
            &arena,
            &container_matches,
            source,
            self.mod_name_idx,
            self.mod_contents_idx,
            self.c_impl_type_idx,
            self.c_impl_contents_idx,
            &marked_bodies,
        );

        let labels = resolve(&arena.shape, &items, 0, module, "::");
        let out = dedup_labels(&labels);
        proof {
            lemma_resolve_result_prefixed(
                arena.shape@,
                items.deep_view(),
                0,
                module@,
                "::"@,
                labels.deep_view(),
            );
            lemma_dedup_preserves(
                labels.deep_view(),
                |l: LabelModel| module@.is_prefix_of(l.module),
            );
        }
        Ok(out)
    }
}

/// The query pair of the all-functions survey.
pub struct AllFunctionsQuery {
    fn_query: tree_sitter::Query,
    fn_name_idx: u32,
    container_query: tree_sitter::Query,
    mod_name_idx: u32,
    mod_contents_idx: u32,
    c_impl_type_idx: u32,
    c_impl_contents_idx: u32,
}

impl AllFunctionsQuery {
    /// Compiles the survey patterns: every function item, and the shared
    /// container patterns. A failure is a setup defect.
    pub fn try_new() -> (r: Result<AllFunctionsQuery>)
        ensures
            match r {
                Ok(_) => true,
                Err(e) => spec_is_pattern_error(e),
            },
    {
        let fn_text = "(function_item name: (identifier) @func.name)";
        let fn_query = match new_query(language_rust(), fn_text) {
            Ok(q) => q,
            Err(_) => {
                return Err(AmlError::CreateQuery);
            },
        };
        let container_q = container_query()?;
        let fn_name_idx = capture_of(&fn_query, "func.name")?;
        let mod_name_idx = capture_of(&container_q, "mod.name")?;
        let mod_contents_idx = capture_of(&container_q, "mod.contents")?;
        let c_impl_type_idx = capture_of(&container_q, "impl.type")?;
        let c_impl_contents_idx = capture_of(&container_q, "impl.contents")?;
        Ok(
            AllFunctionsQuery {
                fn_query,
                fn_name_idx,
                container_query: container_q,
                mod_name_idx,
                mod_contents_idx,
                c_impl_type_idx,
                c_impl_contents_idx,
            },
        )
    }

    /// Lists every function of one file under its qualified scope,
    /// deduplicated. Every returned label's module begins with the given
    /// module prefix, no label is repeated, and a failure is one of reading
    /// the file, never a setup defect.
    pub fn list_function_names(&self, module: &str, source: &str) -> (r: Result<
        Vec<ExpectedAmLabel>,
    >)
        ensures
            match r {
                Ok(labels) => {
                    &&& forall|i: int|
                        0 <= i < labels.deep_view().len() ==> module@.is_prefix_of(
                            (#[trigger] labels.deep_view()[i]).module,
                        )
                    &&& forall|i: int, j: int|
                        0 <= i < j < labels.deep_view().len() ==> labels.deep_view()[i]
                            != labels.deep_view()[j]
                },
                Err(e) => spec_is_parse_error(e),
            },
    {
        let lang = language_rust();
        let mut parser = match new_parser(lang) {
            Ok(p) => p,
            Err(_) => {
                return Err(AmlError::CreateParser);
            },
        };
        let tree = match parse_source(&mut parser, source) {
            Some(t) => t,
            None => {
                return Err(AmlError::Parsing);
            },
        };
        let kinds = container_kinds();
        let arena = build_arena(&tree, &kinds);
        let root = tree_root(&tree);
        let mut items: Vec<FoundItem> = Vec::new();

        let fn_matches = run_query(&self.fn_query, root, source);
        let mut i: usize = 0;
        while i < fn_matches.len()
            decreases fn_matches@.len() - i,
        {
            let m = &fn_matches[i];
            match capture_node(m, self.fn_name_idx) {
                Some(name_node) => {
                    match (node_text(&name_node, source), arena.index_of(node_id(&name_node))) {
                        (Some(name), Some(node)) => {
                            items.push(FoundItem::FnItem { node, name });
                        },
                        _ => {},
                    }
                },
                None => {},
            }
            i += 1;
        }

        let container_matches = run_query(&self.container_query, root, source);
        let skip: Vec<usize> = Vec::new();
        push_container_items(
            &mut items,
            &arena,
            &container_matches,
            source,
            self.mod_name_idx,
            self.mod_contents_idx,
            self.c_impl_type_idx,
            self.c_impl_contents_idx,
            &skip,
        );

        let labels = resolve(&arena.shape, &items, 0, module, "::");
        let out = dedup_labels(&labels);
        proof {
            lemma_resolve_result_prefixed(
                arena.shape@,
                items.deep_view(),
                0,
                module@,
                "::"@,
                labels.deep_view(),
            );
            lemma_dedup_preserves(
                labels.deep_view(),
                |l: LabelModel| module@.is_prefix_of(l.module),
            );
        }
        Ok(out)
    }
}

impl ListAmFunctions for Impl {
    fn list_autometrics_functions(&mut self, project: &Vec<SourceFile>) -> (r: Result<
        Vec<ExpectedAmLabel>,
    >) {
        let query = AmQuery::try_new()?;
        let mut parts: Vec<Vec<ExpectedAmLabel>> = Vec::new();
        let mut i: usize = 0;
        while i < project.len()
            decreases project@.len() - i,
        {
            let f = &project[i];
            if f.path.len() > 0 {
                let file_name = &f.path[f.path.len() - 1];
                if is_valid(file_name.as_str(), false, ".rs") {
                    let module = fully_qualified_module_name(&f.path);
                    let per_file = absorb_file_failure(
                        query.list_function_names(module.as_str(), f.source.as_str()),
                    );
                    match per_file {
                        Ok(labels) => parts.push(labels),
                        Err(e) => {
                            return Err(e);
                        },
                    }
                }
            }
            i += 1;
        }
        Ok(aggregate(&parts))
    }

    fn list_all_functions(&mut self, project: &Vec<SourceFile>) -> (r: Result<
        Vec<ExpectedAmLabel>,
    >) {
        let query = AllFunctionsQuery::try_new()?;
        let mut parts: Vec<Vec<ExpectedAmLabel>> = Vec::new();
        let mut i: usize = 0;
        while i < project.len()
            decreases project@.len() - i,
        {
            let f = &project[i];
            if f.path.len() > 0 {
                let file_name = &f.path[f.path.len() - 1];
                if is_valid(file_name.as_str(), false, ".rs") {
                    let module = fully_qualified_module_name(&f.path);
                    let per_file = absorb_file_failure(
                        query.list_function_names(module.as_str(), f.source.as_str()),
                    );
                    match per_file {
                        Ok(labels) => parts.push(labels),
                        Err(e) => {
                            return Err(e);
                        },
                    }
                }
            }
            i += 1;
        }
        Ok(aggregate(&parts))
    }
}

} // verus!
