//! The boundary to the tree-sitter parsing machinery.
//!
//! Everything below either declares a tree-sitter type so that verified code
//! can carry its values around, or wraps one call of the tree-sitter API.
//! The syntax tree itself stays opaque: the verified model of a file — the
//! arena of `ShapeNode`s — is built by `build_arena`, which drives the
//! opaque cursor but derives every parent link from its own stack, so the
//! model is well-formed whatever the cursor does.
use vstd::prelude::*;

use crate::engine::shape_wf;
use crate::engine::ShapeNode;
use crate::strutil::str_eq;

verus! {

#[verifier::external_type_specification]
#[verifier::external_body]
pub struct ExLanguage(tree_sitter::Language);

#[verifier::external_type_specification]
#[verifier::external_body]
pub struct ExParser(tree_sitter::Parser);

#[verifier::external_type_specification]
#[verifier::external_body]
pub struct ExTree(tree_sitter::Tree);

#[verifier::external_type_specification]
#[verifier::external_body]
pub struct ExNode<'a>(tree_sitter::Node<'a>);

#[verifier::external_type_specification]
#[verifier::external_body]
pub struct ExTreeCursor<'a>(tree_sitter::TreeCursor<'a>);

#[verifier::external_type_specification]
#[verifier::external_body]
pub struct ExQuery(tree_sitter::Query);

#[verifier::external_type_specification]
#[verifier::external_body]
pub struct ExLanguageError(tree_sitter::LanguageError);

#[verifier::external_type_specification]
#[verifier::external_body]
pub struct ExQueryError(tree_sitter::QueryError);

/// Relies on tree_sitter_rust::language: the grammar of the Rust backend.
#[verifier::external_body]
pub(crate) fn language_rust() -> tree_sitter::Language {
    tree_sitter_rust::language()
}

/// Relies on tree_sitter_go::language: the grammar of the Go backend.
#[verifier::external_body]
pub(crate) fn language_go() -> tree_sitter::Language {
    tree_sitter_go::language()
}

/// Relies on tree_sitter_python::language: the grammar of the Python
/// backend.
#[verifier::external_body]
pub(crate) fn language_python() -> tree_sitter::Language {
    tree_sitter_python::language()
}

/// Relies on tree_sitter_typescript::language_typescript: the grammar of the
/// TypeScript backend.
#[verifier::external_body]
pub(crate) fn language_typescript() -> tree_sitter::Language {
    tree_sitter_typescript::language_typescript()
}

/// Relies on tree_sitter::Parser::new and Parser::set_language: a parser for
/// the given grammar, or the library's error when the grammar's version does
/// not match.
#[verifier::external_body]
pub(crate) fn new_parser(language: tree_sitter::Language) -> Result<
    tree_sitter::Parser,
    tree_sitter::LanguageError,
> {
    let mut parser = tree_sitter::Parser::new();
    parser.set_language(language)?;
    Ok(parser)
}

/// Relies on tree_sitter::Parser::parse: the syntax tree of the source text,
/// or nothing when parsing fails or is cancelled.
#[verifier::external_body]
pub(crate) fn parse_source(parser: &mut tree_sitter::Parser, source: &str) -> Option<
    tree_sitter::Tree,
> {
    parser.parse(source, None)
}

/// Relies on tree_sitter::Tree::root_node.
#[verifier::external_body]
pub(crate) fn tree_root<'t>(tree: &'t tree_sitter::Tree) -> tree_sitter::Node<'t> {
    tree.root_node()
}

/// Relies on tree_sitter::Tree::walk: a cursor starting at the root.
#[verifier::external_body]
pub(crate) fn walk_tree<'t>(tree: &'t tree_sitter::Tree) -> tree_sitter::TreeCursor<'t> {
    tree.walk()
}

/// Relies on tree_sitter::TreeCursor::node: the node the cursor stands on.
#[verifier::external_body]
pub(crate) fn cursor_node<'t>(cursor: &tree_sitter::TreeCursor<'t>) -> tree_sitter::Node<'t> {
    cursor.node()
}

/// Relies on tree_sitter::TreeCursor::goto_first_child.
#[verifier::external_body]
pub(crate) fn cursor_first_child(cursor: &mut tree_sitter::TreeCursor) -> bool {
    cursor.goto_first_child()
}

/// Relies on tree_sitter::TreeCursor::goto_next_sibling.
#[verifier::external_body]
pub(crate) fn cursor_next_sibling(cursor: &mut tree_sitter::TreeCursor) -> bool {
    cursor.goto_next_sibling()
}

/// Relies on tree_sitter::TreeCursor::goto_parent.
#[verifier::external_body]
pub(crate) fn cursor_goto_parent(cursor: &mut tree_sitter::TreeCursor) -> bool {
    cursor.goto_parent()
}

/// Relies on tree_sitter::Node::id: an identifier of the node, unique within
/// its tree and stable for the tree's lifetime.
#[verifier::external_body]
pub(crate) fn node_id(node: &tree_sitter::Node) -> usize {
    node.id()
}

/// Relies on tree_sitter::Node::kind: the name of the node's grammar symbol.
#[verifier::external_body]
pub(crate) fn node_kind(node: &tree_sitter::Node) -> String {
    node.kind().to_string()
}

/// Relies on tree_sitter::Node::parent.
#[verifier::external_body]
pub(crate) fn node_parent<'t>(node: &tree_sitter::Node<'t>) -> Option<tree_sitter::Node<'t>> {
    node.parent()
}

/// Relies on tree_sitter::Node::utf8_text: the extract of the source that
/// the node spans, or nothing when it is not valid text. A node paired with
/// a source shorter than its span yields nothing instead of slicing out of
/// bounds.
#[verifier::external_body]
pub(crate) fn node_text(node: &tree_sitter::Node, source: &str) -> Option<String> {
    if node.end_byte() > source.len() {
        return None;
    }
    match node.utf8_text(source.as_bytes()) {
        Ok(text) => Some(text.to_string()),
        Err(_) => None,
    }
}

/// Relies on tree_sitter::Query::new: compiles a pattern list against a
/// grammar, or returns the library's error.
#[verifier::external_body]
pub(crate) fn new_query(language: tree_sitter::Language, source: &str) -> Result<
    tree_sitter::Query,
    tree_sitter::QueryError,
> {
    tree_sitter::Query::new(language, source)
}

/// Relies on tree_sitter::Query::capture_index_for_name.
#[verifier::external_body]
pub(crate) fn capture_index(query: &tree_sitter::Query, name: &str) -> Option<u32> {
    query.capture_index_for_name(name)
}

/// One match of a query: the index of the pattern that matched, and the
/// captured nodes with their capture indices.
pub struct RawMatch<'t> {
    pub pattern: usize,
    pub captures: Vec<(u32, tree_sitter::Node<'t>)>,
}

/// Relies on tree_sitter::QueryCursor::matches: every match of the query in
/// the subtree of the given node, in the order the cursor reports them. A
/// node paired with a source shorter than its span yields no matches: the
/// cursor's text provider would otherwise slice out of bounds when the query
/// holds a text predicate.
#[verifier::external_body]
pub(crate) fn run_query<'t>(
    query: &tree_sitter::Query,
    node: tree_sitter::Node<'t>,
    source: &str,
) -> Vec<RawMatch<'t>> {
    if node.end_byte() > source.len() {
        return Vec::new();
    }
    let mut cursor = tree_sitter::QueryCursor::new();
    cursor.matches(query, node, source.as_bytes()).map(
        |m| RawMatch {
            pattern: m.pattern_index,
            captures: m.captures.iter().map(|c| (c.index, c.node)).collect(),
        },
    ).collect()
}

/// The first node a match captured under the given capture index.
pub fn capture_node<'t>(m: &RawMatch<'t>, idx: u32) -> Option<tree_sitter::Node<'t>> {
    let mut i: usize = 0;
    while i < m.captures.len()
        decreases m.captures@.len() - i,
    {
        if m.captures[i].0 == idx {
            return Some(m.captures[i].1);
        }
        i += 1;
    }
    None
}

/// Whether the node's grammar symbol is one of the given kind names.
pub fn kind_among(node: &tree_sitter::Node, kinds: &Vec<String>) -> bool {
    let k = node_kind(node);
    let mut i: usize = 0;
    while i < kinds.len()
        decreases kinds@.len() - i,
    {
        if str_eq(k.as_str(), kinds[i].as_str()) {
            return true;
        }
        i += 1;
    }
    false
}

/// The arena model of one parsed file: the shape the engine works on, and,
/// for each shape node, the identifier of the tree-sitter node it stands
/// for, at the same position.
pub struct Arena {
    pub shape: Vec<ShapeNode>,
    pub ids: Vec<usize>,
}

impl Arena {
    /// The position of the tree-sitter node with the given identifier.
    pub fn index_of(&self, id: usize) -> (r: Option<usize>)
        ensures
            match r {
                Some(i) => i < self.ids@.len() && self.ids@[i as int] == id,
                None => !self.ids@.contains(id),
            },
    {
        let mut i: usize = 0;
        while i < self.ids.len()
            invariant
                i <= self.ids@.len(),
                forall|j: int| 0 <= j < i ==> self.ids@[j] != id,
            decreases self.ids@.len() - i,
        {
            if self.ids[i] == id {
                return Some(i);
            }
            i += 1;
        }
        None
    }
}

/// Builds the arena of a parsed file by a preorder walk of the opaque
/// cursor. Every parent link comes from the walk's own stack, so the
/// resulting shape is well-formed — every parent stands strictly before its
/// children — whatever the cursor does; a node is flagged as a container
/// when its grammar symbol is among the given kind names.
pub fn build_arena(tree: &tree_sitter::Tree, container_kinds: &Vec<String>) -> (r: Arena)
    ensures
        shape_wf(r.shape@),
        r.shape@.len() == r.ids@.len(),
        r.shape@.len() >= 1,
{
    let mut cursor = walk_tree(tree);
    let mut shape: Vec<ShapeNode> = Vec::new();
    let mut ids: Vec<usize> = Vec::new();
    let mut stack: Vec<usize> = Vec::new();

    let root = cursor_node(&cursor);
    shape.push(ShapeNode { parent: None, container: kind_among(&root, container_kinds) });
    ids.push(node_id(&root));
    stack.push(0);

    let mut climbing = false;
    let mut done = false;
    let mut fuel: usize = 0x40000000;
    while !done && fuel > 0
        invariant
            shape_wf(shape@),
            shape@.len() == ids@.len(),
            shape@.len() >= 1,
            forall|k: int| 0 <= k < stack@.len() ==> (#[trigger] stack@[k]) < shape@.len(),
        decreases fuel,
    {
        fuel = fuel - 1;
        let descended = if !climbing && stack.len() > 0 {
            cursor_first_child(&mut cursor)
        } else {
            false
        };
        if descended {
            let n = cursor_node(&cursor);
            let parent_idx = stack[stack.len() - 1];
            stack.push(shape.len());
            shape.push(
                ShapeNode {
                    parent: Some(parent_idx),
                    container: kind_among(&n, container_kinds),
                },
            );
            ids.push(node_id(&n));
        } else if cursor_next_sibling(&mut cursor) {
            climbing = false;
            if stack.len() >= 2 {
                let n = cursor_node(&cursor);
                let parent_idx = stack[stack.len() - 2];
                stack.pop();
                stack.push(shape.len());
                shape.push(
                    ShapeNode {
                        parent: Some(parent_idx),
                        container: kind_among(&n, container_kinds),
                    },
                );
                ids.push(node_id(&n));
            } else {
                done = true;
            }
        } else if cursor_goto_parent(&mut cursor) {
            climbing = true;
            if stack.len() > 0 {
                stack.pop();
            }
            if stack.len() == 0 {
                done = true;
            }
        } else {
            done = true;
        }
    }
    Arena { shape, ids }
}

} // verus!
