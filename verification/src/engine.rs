//! The scope-qualification engine.
//!
//! A parsed file is reduced to a *shape* — an arena of nodes, each with its
//! parent index and a flag saying whether the node opens a naming scope — and
//! a list of *found items*: functions, and containers (modules, impl blocks,
//! classes, nested function scopes) with a name segment, a body node, and an
//! optional marker with the member functions it covers.
//!
//! `resolve` walks the shape from a frame node, emits a label for every
//! function that sits directly under the frame (no intervening container),
//! emits every member of a marked container that is a direct child of the
//! frame, and recurses into each direct-child container with the prefix
//! extended by the container's name segment.
use vstd::prelude::*;

use crate::strutil::{join_scope, spec_join};
use crate::ExpectedAmLabel;
use crate::LabelModel;

verus! {

/// One node of a parsed file, reduced to what scope attribution needs: its
/// parent link and whether it opens a naming scope.
#[derive(Clone, Copy, Debug)]
pub struct ShapeNode {
    /// Index of the parent node; `None` for a root.
    pub parent: Option<usize>,
    /// Whether this node is a container construct that qualifies names.
    pub container: bool,
}

/// A member function of a marked container.
#[derive(Clone, Debug)]
pub struct MemberFn {
    /// Node index of the member's name.
    pub node: usize,
    /// The member's bare name.
    pub name: String,
}

/// One item a language's patterns found in a file.
#[derive(Clone, Debug)]
pub enum FoundItem {
    /// A function definition; in the "annotated" pattern set, one that
    /// carries the marker, in the "all functions" set, any function.
    FnItem { node: usize, name: String },
    /// A container opening: the node that holds the whole construct, its
    /// name segment, its body node, whether the container itself carries
    /// the marker, and (only then) the member functions it covers.
    ContainerItem {
        holder: usize,
        name: String,
        body: usize,
        marked: bool,
        members: Vec<MemberFn>,
    },
}

/// The mathematical value of a `MemberFn`.
pub struct MemberModel {
    pub node: int,
    pub name: Seq<char>,
}

/// The mathematical value of a `FoundItem`.
pub enum ItemModel {
    Fn { node: int, name: Seq<char> },
    Container {
        holder: int,
        name: Seq<char>,
        body: int,
        marked: bool,
        members: Seq<MemberModel>,
    },
}

impl DeepView for MemberFn {
    type V = MemberModel;

    open spec fn deep_view(&self) -> MemberModel {
        MemberModel { node: self.node as int, name: self.name@ }
    }
}

impl DeepView for FoundItem {
    type V = ItemModel;

    open spec fn deep_view(&self) -> ItemModel {
        match self {
            FoundItem::FnItem { node, name } => ItemModel::Fn {
                node: *node as int,
                name: name@,
            },
            FoundItem::ContainerItem { holder, name, body, marked, members } => {
                ItemModel::Container {
                    holder: *holder as int,
                    name: name@,
                    body: *body as int,
                    marked: *marked,
                    members: members.deep_view(),
                }
            },
        }
    }
}

/// A well-formed shape: every parent link points strictly backwards, as the
/// preorder construction of the arena guarantees.
pub open spec fn shape_wf(s: Seq<ShapeNode>) -> bool {
    forall|i: int|
        0 <= i < s.len() ==> match (#[trigger] s[i]).parent {
            Some(p) => p < i,
            None => true,
        }
}

/// Whether walking parent links from `n` reaches `frame` without crossing a
/// container node strictly between the two.
pub open spec fn spec_clear_to(s: Seq<ShapeNode>, n: int, frame: int) -> bool
    decreases n,
{
    if n == frame {
        true
    } else if 0 <= n < s.len() {
        match s[n].parent {
            Some(p) => p < n && (p == frame || (!s[p as int].container && spec_clear_to(
                s,
                p as int,
                frame,
            ))),
            None => false,
        }
    } else {
        false
    }
}

/// Whether node `n` is a direct child of `frame`.
pub open spec fn spec_child_of(s: Seq<ShapeNode>, n: int, frame: int) -> bool {
    0 <= n < s.len() && match s[n].parent {
        Some(p) => p == frame,
        None => false,
    }
}

/// Whether the engine enters a container at the current frame: the holder is
/// a direct child of the frame, and the body is a structurally deeper node.
pub open spec fn spec_enters(s: Seq<ShapeNode>, holder: int, body: int, frame: int) -> bool {
    spec_child_of(s, holder, frame) && frame < body < s.len()
}

/// Guarded distance from `frame` to the end of the arena, the recursion
/// measure of the resolution.
pub open spec fn frames_left(s_len: int, frame: int) -> int {
    if frame <= s_len {
        s_len - frame
    } else {
        0
    }
}

/// The labels a single item contributes directly at a frame: one label for a
/// function that sits under the frame with no container in between.
pub open spec fn spec_fn_contrib(
    s: Seq<ShapeNode>,
    it: ItemModel,
    frame: int,
    prefix: Seq<char>,
) -> Seq<LabelModel> {
    match it {
        ItemModel::Fn { node, name } => if spec_clear_to(s, node, frame) {
            seq![LabelModel { module: prefix, function: name }]
        } else {
            Seq::empty()
        },
        _ => Seq::empty(),
    }
}

/// Phase one of a frame: the labels of all function items.
pub open spec fn spec_fn_labels(
    s: Seq<ShapeNode>,
    items: Seq<ItemModel>,
    frame: int,
    prefix: Seq<char>,
) -> Seq<LabelModel>
    decreases items.len(),
{
    if items.len() == 0 {
        Seq::empty()
    } else {
        spec_fn_labels(s, items.drop_last(), frame, prefix) + spec_fn_contrib(
            s,
            items.last(),
            frame,
            prefix,
        )
    }
}

/// The labels of a marked container's members, all under the same scope.
pub open spec fn spec_member_labels(members: Seq<MemberModel>, scope: Seq<char>) -> Seq<
    LabelModel,
>
    decreases members.len(),
{
    if members.len() == 0 {
        Seq::empty()
    } else {
        spec_member_labels(members.drop_last(), scope) + seq![
            LabelModel { module: scope, function: members.last().name },
        ]
    }
}

/// The member labels a single item contributes at a frame: every member of a
/// marked container that the engine enters from this frame, under the scope
/// extended by the container's name.
pub open spec fn spec_marked_contrib(
    s: Seq<ShapeNode>,
    it: ItemModel,
    frame: int,
    prefix: Seq<char>,
    sep: Seq<char>,
) -> Seq<LabelModel> {
    match it {
        ItemModel::Container { holder, name, body, marked, members } => if marked && spec_enters(
            s,
            holder,
            body,
            frame,
        ) {
            spec_member_labels(members, spec_join(prefix, name, sep))
        } else {
            Seq::empty()
        },
        _ => Seq::empty(),
    }
}

/// Phase two of a frame: the member labels of all marked containers.
pub open spec fn spec_marked_labels(
    s: Seq<ShapeNode>,
    items: Seq<ItemModel>,
    frame: int,
    prefix: Seq<char>,
    sep: Seq<char>,
) -> Seq<LabelModel>
    decreases items.len(),
{
    if items.len() == 0 {
        Seq::empty()
    } else {
        spec_marked_labels(s, items.drop_last(), frame, prefix, sep) + spec_marked_contrib(
            s,
            items.last(),
            frame,
            prefix,
            sep,
        )
    }
}

/// Phase three of a frame: the recursive results of all containers the
/// engine enters from this frame, in item order.
pub open spec fn spec_rec_labels(
    s: Seq<ShapeNode>,
    all: Seq<ItemModel>,
    rest: Seq<ItemModel>,
    frame: int,
    prefix: Seq<char>,
    sep: Seq<char>,
) -> Seq<LabelModel>
    decreases frames_left(s.len() as int, frame), 1int, rest.len(),
{
    if rest.len() == 0 {
        Seq::empty()
    } else {
        let head_part = spec_rec_labels(s, all, rest.drop_last(), frame, prefix, sep);
        let tail_part = match rest.last() {
            ItemModel::Container { holder, name, body, marked, members } => if spec_enters(
                s,
                holder,
                body,
                frame,
            ) {
                spec_resolve(s, all, body, spec_join(prefix, name, sep), sep)
            } else {
                Seq::empty()
            },
            _ => Seq::empty(),
        };
        head_part + tail_part
    }
}

/// The full result of resolving a frame: direct function labels, then member
/// labels of marked containers, then the recursive results of entered
/// containers.
pub open spec fn spec_resolve(
    s: Seq<ShapeNode>,
    items: Seq<ItemModel>,
    frame: int,
    prefix: Seq<char>,
    sep: Seq<char>,
) -> Seq<LabelModel>
    decreases frames_left(s.len() as int, frame), 2int, 0int,
{
    spec_fn_labels(s, items, frame, prefix) + spec_marked_labels(s, items, frame, prefix, sep)
        + spec_rec_labels(s, items, items, frame, prefix, sep)
}

/// Whether walking parent links from `n` reaches `frame` without crossing a
/// container strictly between the two.
pub fn clear_to(shape: &Vec<ShapeNode>, n: usize, frame: usize) -> (r: bool)
    ensures
        r == spec_clear_to(shape@, n as int, frame as int),
    decreases n,
{
    if n == frame {
        return true;
    }
    if n >= shape.len() {
        return false;
    }
    match shape[n].parent {
        Some(p) => {
            if p >= n {
                false
            } else if p == frame {
                true
            } else if shape[p].container {
                false
            } else {
                clear_to(shape, p, frame)
            }
        },
        None => false,
    }
}

/// Resolves one frame of a file: see the module documentation.
///
/// The result is pinned exactly to `spec_resolve` over the models of the
/// shape and the items.
pub fn resolve(
    shape: &Vec<ShapeNode>,
    items: &Vec<FoundItem>,
    frame: usize,
    prefix: &str,
    sep: &str,
) -> (r: Vec<ExpectedAmLabel>)
    ensures
        r.deep_view() == spec_resolve(shape@, items.deep_view(), frame as int, prefix@, sep@),
    decreases frames_left(shape@.len() as int, frame as int), 0int, 0int,
{
    let ghost s = shape@;
    let ghost its = items.deep_view();
    let mut out: Vec<ExpectedAmLabel> = Vec::new();

    let mut i: usize = 0;
    while i < items.len()
        invariant
            i <= items.len(),
            its == items.deep_view(),
            s == shape@,
            out.deep_view() =~= spec_fn_labels(s, its.take(i as int), frame as int, prefix@),
        decreases items.len() - i,
    {
        proof {
            assert(its.take(i as int + 1).drop_last() =~= its.take(i as int));
            assert(its.take(i as int + 1).last() == its[i as int]);
        }
        match &items[i] {
            FoundItem::FnItem { node, name } => {
                if clear_to(shape, *node, frame) {
                    let lbl = ExpectedAmLabel::new(prefix.to_owned(), name.clone());
                    let ghost old_out = out.deep_view();
                    out.push(lbl);
                    proof {
                        assert(out.deep_view() =~= old_out.push(lbl@));
                    }
                }
            },
            FoundItem::ContainerItem { .. } => {},
        }
        i += 1;
    }
    proof {
        assert(its.take(items.len() as int) =~= its);
    }

    let mut j: usize = 0;
    while j < items.len()
        invariant
            j <= items.len(),
            its == items.deep_view(),
            s == shape@,
            out.deep_view() =~= spec_fn_labels(s, its, frame as int, prefix@)
                + spec_marked_labels(s, its.take(j as int), frame as int, prefix@, sep@),
        decreases items.len() - j,
    {
        proof {
            assert(its.take(j as int + 1).drop_last() =~= its.take(j as int));
            assert(its.take(j as int + 1).last() == its[j as int]);
        }
        match &items[j] {
            FoundItem::ContainerItem { holder, name, body, marked, members } => {
                if *marked && child_of(shape, *holder, frame) && frame < *body && *body
                    < shape.len() {
                    let scope = join_scope(prefix, name.as_str(), sep);
                    let mut k: usize = 0;
                    while k < members.len()
                        invariant
                            k <= members.len(),
                            scope@ == spec_join(prefix@, name@, sep@),
                            out.deep_view() =~= spec_fn_labels(s, its, frame as int, prefix@)
                                + spec_marked_labels(
                                s,
                                its.take(j as int),
                                frame as int,
                                prefix@,
                                sep@,
                            ) + spec_member_labels(members.deep_view().take(k as int), scope@),
                        decreases members.len() - k,
                    {
                        proof {
                            assert(members.deep_view().take(k as int + 1).drop_last()
                                =~= members.deep_view().take(k as int));
                            assert(members.deep_view().take(k as int + 1).last()
                                == members.deep_view()[k as int]);
                        }
                        let lbl = ExpectedAmLabel::new(scope.clone(), members[k].name.clone());
                        let ghost old_out = out.deep_view();
                        out.push(lbl);
                        proof {
                            assert(out.deep_view() =~= old_out.push(lbl@));
                        }
                        k += 1;
                    }
                    proof {
                        assert(members.deep_view().take(members.len() as int)
                            =~= members.deep_view());
                    }
                }
            },
            FoundItem::FnItem { .. } => {},
        }
        j += 1;
    }
    proof {
        assert(its.take(items.len() as int) =~= its);
    }

    let mut m: usize = 0;
    while m < items.len()
        invariant
            m <= items.len(),
            its == items.deep_view(),
            s == shape@,
            out.deep_view() =~= spec_fn_labels(s, its, frame as int, prefix@)
                + spec_marked_labels(s, its, frame as int, prefix@, sep@) + spec_rec_labels(
                s,
                its,
                its.take(m as int),
                frame as int,
                prefix@,
                sep@,
            ),
        decreases items.len() - m,
    {
        proof {
            assert(its.take(m as int + 1).drop_last() =~= its.take(m as int));
            assert(its.take(m as int + 1).last() == its[m as int]);
        }
        match &items[m] {
            FoundItem::ContainerItem { holder, name, body, marked, members } => {
                if child_of(shape, *holder, frame) && frame < *body && *body < shape.len() {
                    let new_prefix = join_scope(prefix, name.as_str(), sep);
                    let inner = resolve(shape, items, *body, new_prefix.as_str(), sep);
                    let ghost old_out = out.deep_view();
                    let mut inner_v = inner;
                    let mut t: usize = 0;
                    while t < inner_v.len()
                        invariant
                            t <= inner_v.len(),
                            out.deep_view() =~= old_out + inner_v.deep_view().take(t as int),
                        decreases inner_v.len() - t,
                    {
                        let ghost before = out.deep_view();
                        let lbl = inner_v[t].clone_label();
                        out.push(lbl);
                        proof {
                            assert(out.deep_view() =~= before.push(lbl@));
                            assert(inner_v.deep_view().take(t as int + 1)
                                =~= inner_v.deep_view().take(t as int).push(
                                inner_v.deep_view()[t as int],
                            ));
                        }
                        t += 1;
                    }
                    proof {
                        assert(inner_v.deep_view().take(inner_v.len() as int)
                            =~= inner_v.deep_view());
                    }
                } else {
                }
            },
            FoundItem::FnItem { .. } => {},
        }
        m += 1;
    }
    proof {
        assert(its.take(items.len() as int) =~= its);
    }
    out
}

/// Whether node `n` is a direct child of `frame`.
pub fn child_of(shape: &Vec<ShapeNode>, n: usize, frame: usize) -> (r: bool)
    ensures
        r == spec_child_of(shape@, n as int, frame as int),
{
    if n >= shape.len() {
        return false;
    }
    match shape[n].parent {
        Some(p) => p == frame,
        None => false,
    }
}

impl ExpectedAmLabel {
    /// A copy of the label with the same mathematical value.
    pub fn clone_label(&self) -> (r: Self)
        ensures
            r@ == self@,
    {
        ExpectedAmLabel { module: self.module.clone(), function: self.function.clone() }
    }
}

} // verus!
