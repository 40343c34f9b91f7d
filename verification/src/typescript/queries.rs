//! The TypeScript queries: import statements, wrapper calls, decorated
//! classes, and the all-functions survey patterns.
use vstd::prelude::*;

use super::imports::build_import_map;
use super::imports::spec_dir_view;
use super::imports::spec_ident_entries;
use super::imports::spec_ns_entries;
use super::imports::ImportStmt;
use super::imports::ImportsMap;
use super::imports::StmtModel;
use super::imports::WrappedArg;
use super::imports::WrapperCall;
use crate::sitter::capture_index;
use crate::sitter::capture_node;
use crate::sitter::language_typescript;
use crate::sitter::new_parser;
use crate::sitter::new_query;
use crate::sitter::node_kind;
use crate::sitter::node_text;
use crate::sitter::parse_source;
use crate::sitter::run_query;
use crate::sitter::tree_root;
use crate::strutil::str_eq;
use crate::spec_is_parse_error;
use crate::spec_is_pattern_error;
use crate::AmlError;
use crate::Result;

verus! {

/// One named capture of a compiled query, or the configuration error that
/// the pattern text and this code have drifted apart.
pub(crate) fn capture_of(query: &tree_sitter::Query, name: &str) -> (r: Result<u32>)
    ensures
        match r {
            Ok(_) => true,
            Err(e) => e matches AmlError::MissingNamedCapture(n) && n@ == name@,
        },
{
    match capture_index(query, name) {
        Some(idx) => Ok(idx),
        None => Err(AmlError::MissingNamedCapture(name.to_owned())),
    }
}

/// The query that reads a file's import statements.
pub struct ImportsMapQuery {
    query: tree_sitter::Query,
    name_idx: u32,
    alias_idx: u32,
    default_idx: u32,
    ns_idx: u32,
    source_idx: u32,
}

impl ImportsMapQuery {
    /// Compiles the import patterns: plain, aliased, default, and namespace
    /// imports, each with its module specifier. A failure is a setup defect.
    pub fn try_new() -> (r: Result<ImportsMapQuery>)
        ensures
            match r {
                Ok(_) => true,
                Err(e) => spec_is_pattern_error(e),
            },
    {
        let text =
            "(import_statement (import_clause (named_imports (import_specifier !alias name: (identifier) @name))) source: (string (string_fragment) @source)) (import_statement (import_clause (named_imports (import_specifier name: (identifier) @name alias: (identifier) @alias))) source: (string (string_fragment) @source)) (import_statement (import_clause (identifier) @default.name) source: (string (string_fragment) @source)) (import_statement (import_clause (namespace_import (identifier) @ns.alias)) source: (string (string_fragment) @source))";
        let query = match new_query(language_typescript(), text) {
            Ok(q) => q,
            Err(_) => {
                return Err(AmlError::CreateQuery);
            },
        };
        let name_idx = capture_of(&query, "name")?;
        let alias_idx = capture_of(&query, "alias")?;
        let default_idx = capture_of(&query, "default.name")?;
        let ns_idx = capture_of(&query, "ns.alias")?;
        let source_idx = capture_of(&query, "source")?;
        Ok(ImportsMapQuery { query, name_idx, alias_idx, default_idx, ns_idx, source_idx })
    }

    /// The captured import statements of one file, in order. A failure is
    /// one of reading the file, never a setup defect.
    pub fn list_import_statements(&self, source: &str) -> (r: Result<Vec<ImportStmt>>)
        ensures
            match r {
                Ok(_) => true,
                Err(e) => spec_is_parse_error(e),
            },
    {
        let mut parser = match new_parser(language_typescript()) {
            Ok(p) => p,
            Err(_) => {
                return Err(AmlError::CreateParser);
            },
        };
        let tree = match parse_source(&mut parser, source) {
            Some(t) => t,
            None => {
                return Err(AmlError::Parsing);
            },
        };
        let root = tree_root(&tree);
        let matches = run_query(&self.query, root, source);
        let mut stmts: Vec<ImportStmt> = Vec::new();
        let mut i: usize = 0;
        while i < matches.len()
            decreases matches@.len() - i,
        {
            let m = &matches[i];
            let source_node = capture_node(m, self.source_idx);
            let specifier = match source_node {
                Some(n) => node_text(&n, source),
                None => None,
            };
            match specifier {
                Some(sp) => {
                    let ns = capture_node(m, self.ns_idx);
                    let def = capture_node(m, self.default_idx);
                    let name = capture_node(m, self.name_idx);
                    let alias = capture_node(m, self.alias_idx);
                    match ns {
                        Some(ns_node) => {
                            match node_text(&ns_node, source) {
                                Some(alias_text) => {
                                    stmts.push(
                                        ImportStmt::Namespace {
                                            alias: alias_text,
                                            specifier: sp,
                                        },
                                    );
                                },
                                None => {},
                            }
                        },
                        None => {
                            match def {
                                Some(def_node) => {
                                    match node_text(&def_node, source) {
                                        Some(name_text) => {
                                            stmts.push(
                                                ImportStmt::DefaultImport {
                                                    name: name_text,
                                                    specifier: sp,
                                                },
                                            );
                                        },
                                        None => {},
                                    }
                                },
                                None => {
                                    match (name, alias) {
                                        (Some(name_node), Some(alias_node)) => {
                                            let texts = (
                                                node_text(&name_node, source),
                                                node_text(&alias_node, source),
                                            );
                                            match texts {
                                                (Some(name_text), Some(alias_text)) => {
                                                    stmts.push(
                                                        ImportStmt::Aliased {
                                                            name: name_text,
                                                            alias: alias_text,
                                                            specifier: sp,
                                                        },
                                                    );
                                                },
                                                _ => {},
                                            }
                                        },
                                        (Some(name_node), None) => {
                                            match node_text(&name_node, source) {
                                                Some(name_text) => {
                                                    stmts.push(
                                                        ImportStmt::Plain {
                                                            name: name_text,
                                                            specifier: sp,
                                                        },
                                                    );
                                                },
                                                None => {},
                                            }
                                        },
                                        _ => {},
                                    }
                                },
                            }
                        },
                    }
                },
                None => {},
            }
            i += 1;
        }
        Ok(stmts)
    }

    /// Builds the per-file import map: every specifier is classified against
    /// the importing file's directory, given relative to the project root.
    /// The map is the image, under `spec_ident_entries`/`spec_ns_entries`, of
    /// the import statements captured from the file; a failure is one of
    /// reading the file, never a setup defect.
    pub fn list_imports(&self, current_dir: Option<&str>, source: &str) -> (r: Result<ImportsMap>)
        ensures
            match r {
                Ok(map) => exists|stmts: Seq<StmtModel>|
                    map.identifiers.deep_view() == #[trigger] spec_ident_entries(
                        spec_dir_view(current_dir),
                        stmts,
                    ) && map.namespaces.deep_view() == spec_ns_entries(
                        spec_dir_view(current_dir),
                        stmts,
                    ),
                Err(e) => spec_is_parse_error(e),
            },
    {
        let stmts = self.list_import_statements(source)?;
        let map = build_import_map(current_dir, &stmts);
        proof {
            assert(map.identifiers.deep_view() == spec_ident_entries(
                spec_dir_view(current_dir),
                stmts.deep_view(),
            ));
        }
        Ok(map)
    }
}

/// The patterns that find wrapper calls: a call of a bare identifier on a
/// single identifier, member access, or named function expression, and the
/// two-argument form with an options object.
pub(crate) struct WrapperQuery {
    query: tree_sitter::Query,
    wrapper_idx: u32,
    arg_idx: u32,
    ns_obj_idx: u32,
    ns_prop_idx: u32,
    fnexpr_idx: u32,
    options_idx: u32,
    wrapped_idx: u32,
    member_query: tree_sitter::Query,
    m_obj_idx: u32,
    m_prop_idx: u32,
    named_fn_query: tree_sitter::Query,
    named_fn_idx: u32,
    pair_query: tree_sitter::Query,
    key_idx: u32,
    val_idx: u32,
}

impl WrapperQuery {
    /// Compiles the wrapper-call patterns. A failure is a setup defect.
    pub(crate) fn try_new() -> (r: Result<WrapperQuery>)
        ensures
            match r {
                Ok(_) => true,
                Err(e) => spec_is_pattern_error(e),
            },
    {
        let text =
            "(call_expression function: (identifier) @wrapper arguments: (arguments . (identifier) @arg .)) (call_expression function: (identifier) @wrapper arguments: (arguments . (member_expression object: (identifier) @ns.obj property: (property_identifier) @ns.prop) .)) (call_expression function: (identifier) @wrapper arguments: (arguments . (function_expression name: (identifier) @fnexpr) .)) (call_expression function: (identifier) @wrapper arguments: (arguments . (object) @options (_) @wrapped .))";
        let query = match new_query(language_typescript(), text) {
            Ok(q) => q,
            Err(_) => {
                return Err(AmlError::CreateQuery);
            },
        };
        let member_text = "(member_expression object: (identifier) @obj property: (property_identifier) @prop)";
        let member_query = match new_query(language_typescript(), member_text) {
            Ok(q) => q,
            Err(_) => {
                return Err(AmlError::CreateQuery);
            },
        };
        let named_fn_text = "(function_expression name: (identifier) @fn.name)";
        let named_fn_query = match new_query(language_typescript(), named_fn_text) {
            Ok(q) => q,
            Err(_) => {
                return Err(AmlError::CreateQuery);
            },
        };
        let pair_text =
            "(pair key: (property_identifier) @key value: (string (string_fragment) @val))";
        let pair_query = match new_query(language_typescript(), pair_text) {
            Ok(q) => q,
            Err(_) => {
                return Err(AmlError::CreateQuery);
            },
        };
        let wrapper_idx = capture_of(&query, "wrapper")?;
        let arg_idx = capture_of(&query, "arg")?;
        let ns_obj_idx = capture_of(&query, "ns.obj")?;
        let ns_prop_idx = capture_of(&query, "ns.prop")?;
        let fnexpr_idx = capture_of(&query, "fnexpr")?;
        let options_idx = capture_of(&query, "options")?;
        let wrapped_idx = capture_of(&query, "wrapped")?;
        let m_obj_idx = capture_of(&member_query, "obj")?;
        let m_prop_idx = capture_of(&member_query, "prop")?;
        let named_fn_idx = capture_of(&named_fn_query, "fn.name")?;
        let key_idx = capture_of(&pair_query, "key")?;
        let val_idx = capture_of(&pair_query, "val")?;
        Ok(
            WrapperQuery {
                query,
                wrapper_idx,
                arg_idx,
                ns_obj_idx,
                ns_prop_idx,
                fnexpr_idx,
                options_idx,
                wrapped_idx,
                member_query,
                m_obj_idx,
                m_prop_idx,
                named_fn_query,
                named_fn_idx,
                pair_query,
                key_idx,
                val_idx,
            },
        )
    }

    /// What a wrapped expression node stands for, by its grammar symbol.
    fn classify_wrapped(&self, node: tree_sitter::Node, source: &str) -> WrappedArg {
        let kind = node_kind(&node);
        if str_eq(kind.as_str(), "identifier") {
            match node_text(&node, source) {
                Some(name) => WrappedArg::Ident(name),
                None => WrappedArg::Anonymous,
            }
        } else if str_eq(kind.as_str(), "member_expression") {
            let ms = run_query(&self.member_query, node, source);
            if ms.len() > 0 {
                let pair = (
                    capture_node(&ms[0], self.m_obj_idx),
                    capture_node(&ms[0], self.m_prop_idx),
                );
                match pair {
                    (Some(obj), Some(prop)) => {
                        match (node_text(&obj, source), node_text(&prop, source)) {
                            (Some(namespace), Some(member)) => WrappedArg::Member {
                                namespace,
                                member,
                            },
                            _ => WrappedArg::Anonymous,
                        }
                    },
                    _ => WrappedArg::Anonymous,
                }
            } else {
                WrappedArg::Anonymous
            }
        } else if str_eq(kind.as_str(), "function_expression") {
            let ms = run_query(&self.named_fn_query, node, source);
            if ms.len() > 0 {
                match capture_node(&ms[0], self.named_fn_idx) {
                    Some(name_node) => {
                        match node_text(&name_node, source) {
                            Some(name) => WrappedArg::NamedFn(name),
                            None => WrappedArg::Anonymous,
                        }
                    },
                    None => WrappedArg::Anonymous,
                }
            } else {
                WrappedArg::Anonymous
            }
        } else {
            WrappedArg::Anonymous
        }
    }

    /// The explicit name overrides of an options object: its
    /// `functionName` and `moduleName` string fields, when present.
    fn read_overrides(&self, options: tree_sitter::Node, source: &str) -> (
        Option<String>,
        Option<String>,
    ) {
        let mut fn_override: Option<String> = None;
        let mut module_override: Option<String> = None;
        let ms = run_query(&self.pair_query, options, source);
        let mut i: usize = 0;
        while i < ms.len()
            decreases ms@.len() - i,
        {
            let pair = (capture_node(&ms[i], self.key_idx), capture_node(&ms[i], self.val_idx));
            match pair {
                (Some(key_node), Some(val_node)) => {
                    match (node_text(&key_node, source), node_text(&val_node, source)) {
                        (Some(key), Some(val)) => {
                            if str_eq(key.as_str(), "functionName") {
                                fn_override = Some(val);
                            } else if str_eq(key.as_str(), "moduleName") {
                                module_override = Some(val);
                            }
                        },
                        _ => {},
                    }
                },
                _ => {},
            }
            i += 1;
        }
        (fn_override, module_override)
    }

    /// Every wrapper-call candidate of one file, in match order; which of
    /// them use the real instrumentation marker is decided by the verified
    /// resolution against the import map.
    pub(crate) fn list_wrapper_calls(
        &self,
        root: tree_sitter::Node,
        source: &str,
    ) -> Vec<WrapperCall> {
        let matches = run_query(&self.query, root, source);
        let mut calls: Vec<WrapperCall> = Vec::new();
        let mut i: usize = 0;
        while i < matches.len()
            decreases matches@.len() - i,
        {
            let m = &matches[i];
            let callee = match capture_node(m, self.wrapper_idx) {
                Some(n) => node_text(&n, source),
                None => None,
            };
            match callee {
                Some(callee_text) => {
                    let options_node = capture_node(m, self.options_idx);
                    match options_node {
                        Some(options) => {
                            let overrides = self.read_overrides(options, source);
                            let arg = match capture_node(m, self.wrapped_idx) {
                                Some(wrapped) => self.classify_wrapped(wrapped, source),
                                None => WrappedArg::Anonymous,
                            };
                            calls.push(
                                WrapperCall {
                                    callee: callee_text,
                                    fn_override: overrides.0,
                                    module_override: overrides.1,
                                    arg,
                                },
                            );
                        },
                        None => {
                            let arg = match capture_node(m, self.arg_idx) {
                                Some(arg_node) => {
                                    match node_text(&arg_node, source) {
                                        Some(name) => WrappedArg::Ident(name),
                                        None => WrappedArg::Anonymous,
                                    }
                                },
                                None => {
                                    let ns_pair = (
                                        capture_node(m, self.ns_obj_idx),
                                        capture_node(m, self.ns_prop_idx),
                                    );
                                    match ns_pair {
                                        (Some(obj), Some(prop)) => {
                                            let texts = (
                                                node_text(&obj, source),
                                                node_text(&prop, source),
                                            );
                                            match texts {
                                                (Some(namespace), Some(member)) => {
                                                    WrappedArg::Member { namespace, member }
                                                },
                                                _ => WrappedArg::Anonymous,
                                            }
                                        },
                                        _ => {
                                            match capture_node(m, self.fnexpr_idx) {
                                                Some(name_node) => {
                                                    match node_text(&name_node, source) {
                                                        Some(name) => WrappedArg::NamedFn(name),
                                                        None => WrappedArg::Anonymous,
                                                    }
                                                },
                                                None => WrappedArg::Anonymous,
                                            }
                                        },
                                    }
                                },
                            };
                            calls.push(
                                WrapperCall {
                                    callee: callee_text,
                                    fn_override: None,
                                    module_override: None,
                                    arg,
                                },
                            );
                        },
                    }
                },
                None => {},
            }
            i += 1;
        }
        calls
    }
}

} // verus!
