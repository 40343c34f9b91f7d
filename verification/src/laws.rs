//! Laws of the scope-qualification engine.
//!
//! The central one: for one file, the labels of the "annotated only" pattern
//! set are a subset of the labels of the "all functions" pattern set,
//! whenever the two item lists stand in the relation that the two pattern
//! sets of one backend produce on the same tree (`covers`).
use vstd::prelude::*;

use crate::engine::frames_left;
use crate::engine::spec_clear_to;
use crate::engine::spec_enters;
use crate::engine::spec_fn_contrib;
use crate::engine::spec_fn_labels;
use crate::engine::spec_marked_contrib;
use crate::engine::spec_marked_labels;
use crate::engine::spec_member_labels;
use crate::engine::spec_rec_labels;
use crate::engine::spec_resolve;
use crate::engine::ItemModel;
use crate::engine::MemberModel;
use crate::engine::ShapeNode;
use crate::strutil::spec_join;
use crate::LabelModel;

verus! {

/// Whether the item is a container opening.
pub open spec fn is_container(it: ItemModel) -> bool {
    match it {
        ItemModel::Container { .. } => true,
        _ => false,
    }
}

/// The holder node of a container item.
pub open spec fn cont_holder(it: ItemModel) -> int {
    match it {
        ItemModel::Container { holder, .. } => holder,
        _ => -1,
    }
}

/// The name segment of a container item.
pub open spec fn cont_name(it: ItemModel) -> Seq<char> {
    match it {
        ItemModel::Container { name, .. } => name,
        _ => Seq::empty(),
    }
}

/// The body node of a container item.
pub open spec fn cont_body(it: ItemModel) -> int {
    match it {
        ItemModel::Container { body, .. } => body,
        _ => -1,
    }
}

/// Whether a container item carries the marker.
pub open spec fn cont_marked(it: ItemModel) -> bool {
    match it {
        ItemModel::Container { marked, .. } => marked,
        _ => false,
    }
}

/// The members a marked container covers.
pub open spec fn cont_members(it: ItemModel) -> Seq<MemberModel> {
    match it {
        ItemModel::Container { members, .. } => members,
        _ => Seq::empty(),
    }
}

/// Membership of a label in the concatenation of two label sequences.
proof fn lemma_concat2_contains(a: Seq<LabelModel>, b: Seq<LabelModel>, x: LabelModel)
    ensures
        (a + b).contains(x) <==> a.contains(x) || b.contains(x),
{
    if a.contains(x) {
        let i = choose|i: int| 0 <= i < a.len() && a[i] == x;
        assert((a + b)[i] == x);
    }
    if b.contains(x) {
        let i = choose|i: int| 0 <= i < b.len() && b[i] == x;
        assert((a + b)[a.len() + i] == x);
    }
    if (a + b).contains(x) {
        let i = choose|i: int| 0 <= i < (a + b).len() && (a + b)[i] == x;
        if i < a.len() {
            assert(a[i] == x);
        } else {
            assert(b[i - a.len()] == x);
        }
    }
}

/// The relation between the item lists that the two pattern sets of one
/// backend produce on the same tree:
/// - every function the annotated set finds, the all-functions survey finds
///   at the same node under the same name;
/// - every container the annotated set finds, the survey finds with the
///   same holder, name segment, and body;
/// - every member a marked container covers is, in the survey, a function
///   sitting in that container's body with no further container in between.
pub open spec fn covers(s: Seq<ShapeNode>, ann: Seq<ItemModel>, all: Seq<ItemModel>) -> bool {
    &&& forall|i: int|
        0 <= i < ann.len() && !is_container(#[trigger] ann[i]) ==> all.contains(ann[i])
    &&& forall|i: int|
        0 <= i < ann.len() && is_container(#[trigger] ann[i]) ==> exists|j: int|
            0 <= j < all.len() && is_container(#[trigger] all[j]) && cont_holder(all[j])
                == cont_holder(ann[i]) && cont_name(all[j]) == cont_name(ann[i]) && cont_body(
                all[j],
            ) == cont_body(ann[i])
    &&& forall|i: int, k: int|
        0 <= i < ann.len() && is_container(#[trigger] ann[i]) && cont_marked(ann[i]) && 0 <= k
            < cont_members(ann[i]).len() ==> all.contains(
            ItemModel::Fn {
                node: (#[trigger] cont_members(ann[i])[k]).node,
                name: cont_members(ann[i])[k].name,
            },
        ) && spec_clear_to(s, cont_members(ann[i])[k].node, cont_body(ann[i]))
}

/// A function item that sits clear under the frame puts its label into the
/// frame's function labels.
proof fn lemma_fn_labels_intro(
    s: Seq<ShapeNode>,
    items: Seq<ItemModel>,
    frame: int,
    prefix: Seq<char>,
    node: int,
    name: Seq<char>,
)
    requires
        items.contains(ItemModel::Fn { node, name }),
        spec_clear_to(s, node, frame),
    ensures
        spec_fn_labels(s, items, frame, prefix).contains(
            LabelModel { module: prefix, function: name },
        ),
    decreases items.len(),
{
    let x = LabelModel { module: prefix, function: name };
    let front = spec_fn_labels(s, items.drop_last(), frame, prefix);
    let last_part = spec_fn_contrib(s, items.last(), frame, prefix);
    if items.last() == (ItemModel::Fn { node, name }) {
        assert(last_part == seq![x]);
        assert(last_part.contains(x)) by {
            assert(last_part[0] == x);
        }
        lemma_concat2_contains(front, last_part, x);
    } else {
        let i = choose|i: int| 0 <= i < items.len() && items[i] == (ItemModel::Fn { node, name });
        assert(items.drop_last()[i] == items[i]);
        assert(items.drop_last().contains(ItemModel::Fn { node, name }));
        lemma_fn_labels_intro(s, items.drop_last(), frame, prefix, node, name);
        lemma_concat2_contains(front, last_part, x);
    }
}

/// Every label in the frame's function labels comes from a function item
/// that sits clear under the frame.
proof fn lemma_fn_labels_elim(
    s: Seq<ShapeNode>,
    items: Seq<ItemModel>,
    frame: int,
    prefix: Seq<char>,
    x: LabelModel,
)
    requires
        spec_fn_labels(s, items, frame, prefix).contains(x),
    ensures
        exists|i: int|
            0 <= i < items.len() && (#[trigger] items[i]) == (ItemModel::Fn {
                node: fn_node(items[i]),
                name: x.function,
            }) && spec_clear_to(s, fn_node(items[i]), frame) && x.module == prefix,
    decreases items.len(),
{
    let front = spec_fn_labels(s, items.drop_last(), frame, prefix);
    let last_part = spec_fn_contrib(s, items.last(), frame, prefix);
    lemma_concat2_contains(front, last_part, x);
    if front.contains(x) {
        lemma_fn_labels_elim(s, items.drop_last(), frame, prefix, x);
        let i = choose|i: int|
            0 <= i < items.drop_last().len() && (#[trigger] items.drop_last()[i])
                == (ItemModel::Fn { node: fn_node(items.drop_last()[i]), name: x.function })
                && spec_clear_to(s, fn_node(items.drop_last()[i]), frame) && x.module == prefix;
        assert(items[i] == items.drop_last()[i]);
    } else {
        assert(last_part.contains(x));
        match items.last() {
            ItemModel::Fn { node, name } => {
                assert(last_part[0] == x);
                let i = items.len() - 1;
                assert(items[i] == items.last());
            },
            _ => {
                assert(false);
            },
        }
    }
}

/// The node of a function item.
pub open spec fn fn_node(it: ItemModel) -> int {
    match it {
        ItemModel::Fn { node, .. } => node,
        _ => -1,
    }
}

/// A member of a marked container appears among the member labels under the
/// container's scope.
proof fn lemma_member_labels_intro(members: Seq<MemberModel>, scope: Seq<char>, k: int)
    requires
        0 <= k < members.len(),
    ensures
        spec_member_labels(members, scope).contains(
            LabelModel { module: scope, function: members[k].name },
        ),
    decreases members.len(),
{
    let x = LabelModel { module: scope, function: members[k].name };
    let front = spec_member_labels(members.drop_last(), scope);
    let last_part = seq![LabelModel { module: scope, function: members.last().name }];
    if k == members.len() - 1 {
        assert(last_part[0] == x);
        lemma_concat2_contains(front, last_part, x);
    } else {
        assert(members.drop_last()[k] == members[k]);
        lemma_member_labels_intro(members.drop_last(), scope, k);
        lemma_concat2_contains(front, last_part, x);
    }
}

/// Every member label names some member, under the given scope.
proof fn lemma_member_labels_elim(members: Seq<MemberModel>, scope: Seq<char>, x: LabelModel)
    requires
        spec_member_labels(members, scope).contains(x),
    ensures
        x.module == scope,
        exists|k: int| 0 <= k < members.len() && (#[trigger] members[k]).name == x.function,
    decreases members.len(),
{
    let front = spec_member_labels(members.drop_last(), scope);
    let last_part = seq![LabelModel { module: scope, function: members.last().name }];
    lemma_concat2_contains(front, last_part, x);
    if front.contains(x) {
        lemma_member_labels_elim(members.drop_last(), scope, x);
        let k = choose|k: int|
            0 <= k < members.drop_last().len() && (#[trigger] members.drop_last()[k]).name
                == x.function;
        assert(members[k] == members.drop_last()[k]);
        assert(members[k].name == x.function);
    } else {
        assert(last_part[0] == x);
        let k = members.len() - 1;
        assert(members[k].name == x.function);
    }
}

/// Every marked-member label at a frame comes from a marked container the
/// engine enters there.
proof fn lemma_marked_labels_elim(
    s: Seq<ShapeNode>,
    items: Seq<ItemModel>,
    frame: int,
    prefix: Seq<char>,
    sep: Seq<char>,
    x: LabelModel,
)
    requires
        spec_marked_labels(s, items, frame, prefix, sep).contains(x),
    ensures
        exists|i: int|
            0 <= i < items.len() && is_container(#[trigger] items[i]) && cont_marked(items[i])
                && spec_enters(s, cont_holder(items[i]), cont_body(items[i]), frame)
                && spec_member_labels(
                cont_members(items[i]),
                spec_join(prefix, cont_name(items[i]), sep),
            ).contains(x),
    decreases items.len(),
{
    let front = spec_marked_labels(s, items.drop_last(), frame, prefix, sep);
    let last_part = spec_marked_contrib(s, items.last(), frame, prefix, sep);
    lemma_concat2_contains(front, last_part, x);
    if front.contains(x) {
        lemma_marked_labels_elim(s, items.drop_last(), frame, prefix, sep, x);
        let i = choose|i: int|
            0 <= i < items.drop_last().len() && is_container(#[trigger] items.drop_last()[i])
                && cont_marked(items.drop_last()[i]) && spec_enters(
                s,
                cont_holder(items.drop_last()[i]),
                cont_body(items.drop_last()[i]),
                frame,
            ) && spec_member_labels(
                cont_members(items.drop_last()[i]),
                spec_join(prefix, cont_name(items.drop_last()[i]), sep),
            ).contains(x);
        assert(items[i] == items.drop_last()[i]);
    } else {
        let i = items.len() - 1;
        assert(items[i] == items.last());
    }
}

/// A container the engine enters carries everything its body resolves to
/// into the frame's recursive labels.
proof fn lemma_rec_labels_intro(
    s: Seq<ShapeNode>,
    all: Seq<ItemModel>,
    rest: Seq<ItemModel>,
    frame: int,
    prefix: Seq<char>,
    sep: Seq<char>,
    j: int,
    x: LabelModel,
)
    requires
        0 <= j < rest.len(),
        is_container(rest[j]),
        spec_enters(s, cont_holder(rest[j]), cont_body(rest[j]), frame),
        spec_resolve(s, all, cont_body(rest[j]), spec_join(prefix, cont_name(rest[j]), sep),
            sep).contains(x),
    ensures
        spec_rec_labels(s, all, rest, frame, prefix, sep).contains(x),
    decreases rest.len(),
{
    let front = spec_rec_labels(s, all, rest.drop_last(), frame, prefix, sep);
    let inner = spec_resolve(s, all, cont_body(rest[j]), spec_join(prefix, cont_name(rest[j]),
        sep), sep);
    if j == rest.len() - 1 {
        match rest.last() {
            ItemModel::Container { holder, name, body, marked, members } => {
                lemma_concat2_contains(front, inner, x);
            },
            _ => {
                assert(false);
            },
        }
    } else {
        assert(rest.drop_last()[j] == rest[j]);
        lemma_rec_labels_intro(s, all, rest.drop_last(), frame, prefix, sep, j, x);
        let tail_part = match rest.last() {
            ItemModel::Container { holder, name, body, marked, members } => if spec_enters(
                s,
                holder,
                body,
                frame,
            ) {
                spec_resolve(s, all, body, spec_join(prefix, name, sep), sep)
            } else {
                Seq::<LabelModel>::empty()
            },
            _ => Seq::<LabelModel>::empty(),
        };
        lemma_concat2_contains(front, tail_part, x);
    }
}

/// Every recursive label at a frame comes from some container the engine
/// enters there.
proof fn lemma_rec_labels_elim(
    s: Seq<ShapeNode>,
    all: Seq<ItemModel>,
    rest: Seq<ItemModel>,
    frame: int,
    prefix: Seq<char>,
    sep: Seq<char>,
    x: LabelModel,
)
    requires
        spec_rec_labels(s, all, rest, frame, prefix, sep).contains(x),
    ensures
        exists|j: int|
            0 <= j < rest.len() && is_container(#[trigger] rest[j]) && spec_enters(
                s,
                cont_holder(rest[j]),
                cont_body(rest[j]),
                frame,
            ) && spec_resolve(
                s,
                all,
                cont_body(rest[j]),
                spec_join(prefix, cont_name(rest[j]), sep),
                sep,
            ).contains(x),
    decreases rest.len(),
{
    let front = spec_rec_labels(s, all, rest.drop_last(), frame, prefix, sep);
    let tail_part = match rest.last() {
        ItemModel::Container { holder, name, body, marked, members } => if spec_enters(
            s,
            holder,
            body,
            frame,
        ) {
            spec_resolve(s, all, body, spec_join(prefix, name, sep), sep)
        } else {
            Seq::<LabelModel>::empty()
        },
        _ => Seq::<LabelModel>::empty(),
    };
    lemma_concat2_contains(front, tail_part, x);
    if front.contains(x) {
        lemma_rec_labels_elim(s, all, rest.drop_last(), frame, prefix, sep, x);
        let j = choose|j: int|
            0 <= j < rest.drop_last().len() && is_container(#[trigger] rest.drop_last()[j])
                && spec_enters(
                s,
                cont_holder(rest.drop_last()[j]),
                cont_body(rest.drop_last()[j]),
                frame,
            ) && spec_resolve(
                s,
                all,
                cont_body(rest.drop_last()[j]),
                spec_join(prefix, cont_name(rest.drop_last()[j]), sep),
                sep,
            ).contains(x);
        assert(rest[j] == rest.drop_last()[j]);
    } else {
        assert(tail_part.contains(x));
        let j = rest.len() - 1;
        assert(rest[j] == rest.last());
        match rest.last() {
            ItemModel::Container { holder, name, body, marked, members } => {},
            _ => {
                assert(false);
            },
        }
    }
}

/// Superset property, pointwise: under `covers`, every label the annotated
/// pattern set resolves to at a frame is also resolved by the all-functions
/// survey at the same frame.
proof fn lemma_superset_pointwise(
    s: Seq<ShapeNode>,
    ann: Seq<ItemModel>,
    all: Seq<ItemModel>,
    frame: int,
    prefix: Seq<char>,
    sep: Seq<char>,
    x: LabelModel,
)
    requires
        covers(s, ann, all),
        spec_resolve(s, ann, frame, prefix, sep).contains(x),
    ensures
        spec_resolve(s, all, frame, prefix, sep).contains(x),
    decreases frames_left(s.len() as int, frame),
{
    let fl_ann = spec_fn_labels(s, ann, frame, prefix);
    let ml_ann = spec_marked_labels(s, ann, frame, prefix, sep);
    let rl_ann = spec_rec_labels(s, ann, ann, frame, prefix, sep);
    lemma_concat2_contains(fl_ann + ml_ann, rl_ann, x);
    lemma_concat2_contains(fl_ann, ml_ann, x);

    let fl_all = spec_fn_labels(s, all, frame, prefix);
    let ml_all = spec_marked_labels(s, all, frame, prefix, sep);
    let rl_all = spec_rec_labels(s, all, all, frame, prefix, sep);

    if fl_ann.contains(x) {
        lemma_fn_labels_elim(s, ann, frame, prefix, x);
        let i = choose|i: int|
            0 <= i < ann.len() && (#[trigger] ann[i]) == (ItemModel::Fn {
                node: fn_node(ann[i]),
                name: x.function,
            }) && spec_clear_to(s, fn_node(ann[i]), frame) && x.module == prefix;
        assert(!is_container(ann[i]));
        assert(all.contains(ann[i]));
        lemma_fn_labels_intro(s, all, frame, prefix, fn_node(ann[i]), x.function);
        assert(fl_all.contains(x));
        lemma_concat2_contains(fl_all, ml_all, x);
        lemma_concat2_contains(fl_all + ml_all, rl_all, x);
    } else if ml_ann.contains(x) {
        lemma_marked_labels_elim(s, ann, frame, prefix, sep, x);
        let i = choose|i: int|
            0 <= i < ann.len() && is_container(#[trigger] ann[i]) && cont_marked(ann[i])
                && spec_enters(s, cont_holder(ann[i]), cont_body(ann[i]), frame)
                && spec_member_labels(
                cont_members(ann[i]),
                spec_join(prefix, cont_name(ann[i]), sep),
            ).contains(x);
        let scope = spec_join(prefix, cont_name(ann[i]), sep);
        lemma_member_labels_elim(cont_members(ann[i]), scope, x);
        let k = choose|k: int|
            0 <= k < cont_members(ann[i]).len() && (#[trigger] cont_members(ann[i])[k]).name
                == x.function;
        // the survey holds the member as a function clear under the body
        assert(all.contains(
            ItemModel::Fn {
                node: cont_members(ann[i])[k].node,
                name: cont_members(ann[i])[k].name,
            },
        ));
        assert(spec_clear_to(s, cont_members(ann[i])[k].node, cont_body(ann[i])));
        // the survey holds the container and enters it from this frame
        let j = choose|j: int|
            0 <= j < all.len() && is_container(#[trigger] all[j]) && cont_holder(all[j])
                == cont_holder(ann[i]) && cont_name(all[j]) == cont_name(ann[i]) && cont_body(
                all[j],
            ) == cont_body(ann[i]);
        lemma_fn_labels_intro(
            s,
            all,
            cont_body(ann[i]),
            scope,
            cont_members(ann[i])[k].node,
            x.function,
        );
        let inner = spec_resolve(s, all, cont_body(ann[i]), scope, sep);
        assert(inner.contains(x)) by {
            let fl_inner = spec_fn_labels(s, all, cont_body(ann[i]), scope);
            let ml_inner = spec_marked_labels(s, all, cont_body(ann[i]), scope, sep);
            let rl_inner = spec_rec_labels(s, all, all, cont_body(ann[i]), scope, sep);
            assert(x.module == scope);
            assert(x == LabelModel { module: scope, function: x.function });
            assert(fl_inner.contains(x));
            lemma_concat2_contains(fl_inner, ml_inner, x);
            lemma_concat2_contains(fl_inner + ml_inner, rl_inner, x);
        }
        lemma_rec_labels_intro(s, all, all, frame, prefix, sep, j, x);
        lemma_concat2_contains(fl_all, ml_all, x);
        lemma_concat2_contains(fl_all + ml_all, rl_all, x);
    } else {
        assert(rl_ann.contains(x));
        lemma_rec_labels_elim(s, ann, ann, frame, prefix, sep, x);
        let i = choose|i: int|
            0 <= i < ann.len() && is_container(#[trigger] ann[i]) && spec_enters(
                s,
                cont_holder(ann[i]),
                cont_body(ann[i]),
                frame,
            ) && spec_resolve(
                s,
                ann,
                cont_body(ann[i]),
                spec_join(prefix, cont_name(ann[i]), sep),
                sep,
            ).contains(x);
        lemma_superset_pointwise(
            s,
            ann,
            all,
            cont_body(ann[i]),
            spec_join(prefix, cont_name(ann[i]), sep),
            sep,
            x,
        );
        let j = choose|j: int|
            0 <= j < all.len() && is_container(#[trigger] all[j]) && cont_holder(all[j])
                == cont_holder(ann[i]) && cont_name(all[j]) == cont_name(ann[i]) && cont_body(
                all[j],
            ) == cont_body(ann[i]);
        lemma_rec_labels_intro(s, all, all, frame, prefix, sep, j, x);
        lemma_concat2_contains(fl_all, ml_all, x);
        lemma_concat2_contains(fl_all + ml_all, rl_all, x);
    }
}

/// Superset property: for one file and one backend offering both modes, the
/// labels of the annotated pattern set are a subset of the labels of the
/// all-functions survey, at every frame and prefix.
pub proof fn lemma_superset_property(
    s: Seq<ShapeNode>,
    ann: Seq<ItemModel>,
    all: Seq<ItemModel>,
    frame: int,
    prefix: Seq<char>,
    sep: Seq<char>,
)
    requires
        covers(s, ann, all),
    ensures
        spec_resolve(s, ann, frame, prefix, sep).to_set().subset_of(
            spec_resolve(s, all, frame, prefix, sep).to_set(),
        ),
{
    assert forall|x: LabelModel|
        spec_resolve(s, ann, frame, prefix, sep).to_set().contains(x) implies spec_resolve(
        s,
        all,
        frame,
        prefix,
        sep,
    ).to_set().contains(x) by {
        lemma_superset_pointwise(s, ann, all, frame, prefix, sep, x);
    }
}

/// Scope prefixes are stable: every label a resolution emits has the passed
/// prefix at the start of its module, since recursion only ever extends the
/// prefix on the right.
pub proof fn lemma_resolve_scope_prefix(
    s: Seq<ShapeNode>,
    items: Seq<ItemModel>,
    frame: int,
    prefix: Seq<char>,
    sep: Seq<char>,
    x: LabelModel,
)
    requires
        spec_resolve(s, items, frame, prefix, sep).contains(x),
    ensures
        prefix.is_prefix_of(x.module),
    decreases frames_left(s.len() as int, frame),
{
    let fl = spec_fn_labels(s, items, frame, prefix);
    let ml = spec_marked_labels(s, items, frame, prefix, sep);
    let rl = spec_rec_labels(s, items, items, frame, prefix, sep);
    lemma_concat2_contains(fl + ml, rl, x);
    lemma_concat2_contains(fl, ml, x);
    if fl.contains(x) {
        lemma_fn_labels_elim(s, items, frame, prefix, x);
        assert(prefix.is_prefix_of(x.module)) by {
            assert(x.module == prefix);
            assert(prefix.is_prefix_of(prefix));
        }
    } else if ml.contains(x) {
        lemma_marked_labels_elim(s, items, frame, prefix, sep, x);
        let i = choose|i: int|
            0 <= i < items.len() && is_container(#[trigger] items[i]) && cont_marked(items[i])
                && spec_enters(s, cont_holder(items[i]), cont_body(items[i]), frame)
                && spec_member_labels(
                cont_members(items[i]),
                spec_join(prefix, cont_name(items[i]), sep),
            ).contains(x);
        lemma_member_labels_elim(
            cont_members(items[i]),
            spec_join(prefix, cont_name(items[i]), sep),
            x,
        );
        assert(prefix.is_prefix_of(spec_join(prefix, cont_name(items[i]), sep))) by {
            if prefix.len() > 0 {
                assert((prefix + sep + cont_name(items[i])).subrange(0, prefix.len() as int)
                    =~= prefix);
            } else {
                assert(prefix =~= spec_join(prefix, cont_name(items[i]), sep).subrange(0, 0));
            }
        }
    } else {
        lemma_rec_labels_elim(s, items, items, frame, prefix, sep, x);
        let i = choose|i: int|
            0 <= i < items.len() && is_container(#[trigger] items[i]) && spec_enters(
                s,
                cont_holder(items[i]),
                cont_body(items[i]),
                frame,
            ) && spec_resolve(
                s,
                items,
                cont_body(items[i]),
                spec_join(prefix, cont_name(items[i]), sep),
                sep,
            ).contains(x);
        let inner_prefix = spec_join(prefix, cont_name(items[i]), sep);
        lemma_resolve_scope_prefix(s, items, cont_body(items[i]), inner_prefix, sep, x);
        assert(prefix.is_prefix_of(inner_prefix)) by {
            if prefix.len() > 0 {
                assert((prefix + sep + cont_name(items[i])).subrange(0, prefix.len() as int)
                    =~= prefix);
            } else {
                assert(prefix =~= inner_prefix.subrange(0, 0));
            }
        }
        assert(prefix.is_prefix_of(x.module)) by {
            assert(inner_prefix.is_prefix_of(x.module));
            assert(x.module.subrange(0, prefix.len() as int) =~= prefix);
        }
    }
}

/// `lemma_resolve_scope_prefix`, for every label of an executable result.
pub proof fn lemma_resolve_result_prefixed(
    s: Seq<ShapeNode>,
    items: Seq<ItemModel>,
    frame: int,
    prefix: Seq<char>,
    sep: Seq<char>,
    out: Seq<LabelModel>,
)
    requires
        out == spec_resolve(s, items, frame, prefix, sep),
    ensures
        forall|i: int| 0 <= i < out.len() ==> prefix.is_prefix_of((#[trigger] out[i]).module),
{
    assert forall|i: int| 0 <= i < out.len() implies prefix.is_prefix_of(
        (#[trigger] out[i]).module,
    ) by {
        assert(out.contains(out[i]));
        lemma_resolve_scope_prefix(s, items, frame, prefix, sep, out[i]);
    }
}

/// The shape of a file with one container holding two functions: a root, the
/// container's holder and body, and the two function nodes in the body.
pub open spec fn shape_one_container() -> Seq<ShapeNode> {
    seq![
        ShapeNode { parent: None, container: false },
        ShapeNode { parent: Some(0usize), container: true },
        ShapeNode { parent: Some(1usize), container: false },
        ShapeNode { parent: Some(2usize), container: false },
        ShapeNode { parent: Some(2usize), container: false },
    ]
}

/// The container item of `shape_one_container`, unmarked.
pub open spec fn one_container_item(cname: Seq<char>) -> ItemModel {
    ItemModel::Container {
        holder: 1,
        name: cname,
        body: 2,
        marked: false,
        members: Seq::empty(),
    }
}

/// Partial-container annotation: a container with one marked member and one
/// unmarked member yields exactly one label in annotated mode and exactly two
/// in survey mode, all under the container's name as their scope.
pub proof fn lemma_partial_container_annotation(
    cname: Seq<char>,
    m1: Seq<char>,
    m2: Seq<char>,
    sep: Seq<char>,
)
    ensures
        spec_resolve(
            shape_one_container(),
            seq![one_container_item(cname), ItemModel::Fn { node: 3, name: m1 }],
            0,
            Seq::empty(),
            sep,
        ) == seq![LabelModel { module: cname, function: m1 }],
        spec_resolve(
            shape_one_container(),
            seq![
                one_container_item(cname),
                ItemModel::Fn { node: 3, name: m1 },
                ItemModel::Fn { node: 4, name: m2 },
            ],
            0,
            Seq::empty(),
            sep,
        ) == seq![
            LabelModel { module: cname, function: m1 },
            LabelModel { module: cname, function: m2 },
        ],
{
    let s = shape_one_container();
    let cont = one_container_item(cname);
    let f1 = ItemModel::Fn { node: 3, name: m1 };
    let f2 = ItemModel::Fn { node: 4, name: m2 };
    let ann = seq![cont, f1];
    let all = seq![cont, f1, f2];
    let x1 = LabelModel { module: cname, function: m1 };
    let x2 = LabelModel { module: cname, function: m2 };

    assert(spec_join(Seq::empty(), cname, sep) == cname);

    assert(!spec_clear_to(s, 3, 0) && !spec_clear_to(s, 4, 0)) by {
        reveal_with_fuel(spec_clear_to, 5);
    }
    assert(spec_clear_to(s, 3, 2) && spec_clear_to(s, 4, 2)) by {
        reveal_with_fuel(spec_clear_to, 5);
    }
    assert(spec_enters(s, 1, 2, 0));
    assert(!spec_enters(s, 1, 2, 2));

    // the annotated run
    assert(spec_fn_labels(s, ann, 2, cname) =~= seq![x1]) by {
        reveal_with_fuel(spec_fn_labels, 4);
        assert(ann.drop_last() =~= seq![cont]);
        assert(seq![cont].drop_last() =~= Seq::<ItemModel>::empty());
        assert(Seq::<LabelModel>::empty() + Seq::<LabelModel>::empty() + seq![x1] =~= seq![x1]);
    }
    assert(spec_marked_labels(s, ann, 2, cname, sep) =~= Seq::<LabelModel>::empty()) by {
        reveal_with_fuel(spec_marked_labels, 4);
        assert(ann.drop_last() =~= seq![cont]);
        assert(seq![cont].drop_last() =~= Seq::<ItemModel>::empty());
    }
    assert(spec_rec_labels(s, ann, ann, 2, cname, sep) =~= Seq::<LabelModel>::empty()) by {
        reveal_with_fuel(spec_rec_labels, 4);
        assert(ann.drop_last() =~= seq![cont]);
        assert(seq![cont].drop_last() =~= Seq::<ItemModel>::empty());
    }
    assert(spec_resolve(s, ann, 2, cname, sep) =~= seq![x1]);

    assert(spec_fn_labels(s, ann, 0, Seq::empty()) =~= Seq::<LabelModel>::empty()) by {
        reveal_with_fuel(spec_fn_labels, 4);
        assert(ann.drop_last() =~= seq![cont]);
        assert(seq![cont].drop_last() =~= Seq::<ItemModel>::empty());
    }
    assert(spec_marked_labels(s, ann, 0, Seq::empty(), sep) =~= Seq::<LabelModel>::empty()) by {
        reveal_with_fuel(spec_marked_labels, 4);
        assert(ann.drop_last() =~= seq![cont]);
        assert(seq![cont].drop_last() =~= Seq::<ItemModel>::empty());
    }
    assert(spec_rec_labels(s, ann, ann, 0, Seq::empty(), sep) =~= seq![x1]) by {
        reveal_with_fuel(spec_rec_labels, 4);
        assert(ann.drop_last() =~= seq![cont]);
        assert(seq![cont].drop_last() =~= Seq::<ItemModel>::empty());
        assert(Seq::<LabelModel>::empty() + spec_resolve(s, ann, 2, cname, sep) =~= seq![x1]);
        assert(seq![x1] + Seq::<LabelModel>::empty() =~= seq![x1]);
    }
    assert(spec_resolve(s, ann, 0, Seq::empty(), sep) =~= seq![x1]);

    // the survey run
    assert(spec_fn_labels(s, all, 2, cname) =~= seq![x1, x2]) by {
        reveal_with_fuel(spec_fn_labels, 5);
        assert(all.drop_last() =~= seq![cont, f1]);
        assert(seq![cont, f1].drop_last() =~= seq![cont]);
        assert(seq![cont].drop_last() =~= Seq::<ItemModel>::empty());
        assert(Seq::<LabelModel>::empty() + Seq::<LabelModel>::empty() + seq![x1] + seq![x2]
            =~= seq![x1, x2]);
    }
    assert(spec_marked_labels(s, all, 2, cname, sep) =~= Seq::<LabelModel>::empty()) by {
        reveal_with_fuel(spec_marked_labels, 5);
        assert(all.drop_last() =~= seq![cont, f1]);
        assert(seq![cont, f1].drop_last() =~= seq![cont]);
        assert(seq![cont].drop_last() =~= Seq::<ItemModel>::empty());
    }
    assert(spec_rec_labels(s, all, all, 2, cname, sep) =~= Seq::<LabelModel>::empty()) by {
        reveal_with_fuel(spec_rec_labels, 5);
        assert(all.drop_last() =~= seq![cont, f1]);
        assert(seq![cont, f1].drop_last() =~= seq![cont]);
        assert(seq![cont].drop_last() =~= Seq::<ItemModel>::empty());
    }
    assert(spec_resolve(s, all, 2, cname, sep) =~= seq![x1, x2]);

    assert(spec_fn_labels(s, all, 0, Seq::empty()) =~= Seq::<LabelModel>::empty()) by {
        reveal_with_fuel(spec_fn_labels, 5);
        assert(all.drop_last() =~= seq![cont, f1]);
        assert(seq![cont, f1].drop_last() =~= seq![cont]);
        assert(seq![cont].drop_last() =~= Seq::<ItemModel>::empty());
    }
    assert(spec_marked_labels(s, all, 0, Seq::empty(), sep) =~= Seq::<LabelModel>::empty()) by {
        reveal_with_fuel(spec_marked_labels, 5);
        assert(all.drop_last() =~= seq![cont, f1]);
        assert(seq![cont, f1].drop_last() =~= seq![cont]);
        assert(seq![cont].drop_last() =~= Seq::<ItemModel>::empty());
    }
    assert(spec_rec_labels(s, all, all, 0, Seq::empty(), sep) =~= seq![x1, x2]) by {
        reveal_with_fuel(spec_rec_labels, 5);
        assert(all.drop_last() =~= seq![cont, f1]);
        assert(seq![cont, f1].drop_last() =~= seq![cont]);
        assert(seq![cont].drop_last() =~= Seq::<ItemModel>::empty());
        assert(Seq::<LabelModel>::empty() + spec_resolve(s, all, 2, cname, sep) =~= seq![
            x1,
            x2,
        ]);
        assert(seq![x1, x2] + Seq::<LabelModel>::empty() =~= seq![x1, x2]);
    }
    assert(spec_resolve(s, all, 0, Seq::empty(), sep) =~= seq![x1, x2]);
}

/// The shape of a file with two sibling containers, each holding two
/// functions.
pub open spec fn shape_two_containers() -> Seq<ShapeNode> {
    seq![
        ShapeNode { parent: None, container: false },
        ShapeNode { parent: Some(0usize), container: true },
        ShapeNode { parent: Some(1usize), container: false },
        ShapeNode { parent: Some(2usize), container: false },
        ShapeNode { parent: Some(2usize), container: false },
        ShapeNode { parent: Some(0usize), container: true },
        ShapeNode { parent: Some(5usize), container: false },
        ShapeNode { parent: Some(6usize), container: false },
        ShapeNode { parent: Some(6usize), container: false },
    ]
}

/// Container-level annotation propagation: when the first of two containers
/// is itself marked, every member of the marked one — and nothing else —
/// appears in annotated mode, under the container's name; the survey holds
/// every member of both containers.
pub proof fn lemma_container_annotation_propagation(
    foo: Seq<char>,
    bar: Seq<char>,
    fa: Seq<char>,
    fb: Seq<char>,
    ba: Seq<char>,
    bb: Seq<char>,
    sep: Seq<char>,
)
    ensures
        spec_resolve(
            shape_two_containers(),
            seq![
                ItemModel::Container {
                    holder: 1,
                    name: foo,
                    body: 2,
                    marked: true,
                    members: seq![
                        MemberModel { node: 3, name: fa },
                        MemberModel { node: 4, name: fb },
                    ],
                },
                ItemModel::Container {
                    holder: 5,
                    name: bar,
                    body: 6,
                    marked: false,
                    members: Seq::empty(),
                },
            ],
            0,
            Seq::empty(),
            sep,
        ) == seq![
            LabelModel { module: foo, function: fa },
            LabelModel { module: foo, function: fb },
        ],
        spec_resolve(
            shape_two_containers(),
            seq![
                ItemModel::Container {
                    holder: 1,
                    name: foo,
                    body: 2,
                    marked: false,
                    members: Seq::empty(),
                },
                ItemModel::Fn { node: 3, name: fa },
                ItemModel::Fn { node: 4, name: fb },
                ItemModel::Container {
                    holder: 5,
                    name: bar,
                    body: 6,
                    marked: false,
                    members: Seq::empty(),
                },
                ItemModel::Fn { node: 7, name: ba },
                ItemModel::Fn { node: 8, name: bb },
            ],
            0,
            Seq::empty(),
            sep,
        ) == seq![
            LabelModel { module: foo, function: fa },
            LabelModel { module: foo, function: fb },
            LabelModel { module: bar, function: ba },
            LabelModel { module: bar, function: bb },
        ],
{
    reveal_with_fuel(spec_clear_to, 6);
    reveal_with_fuel(spec_fn_labels, 8);
    reveal_with_fuel(spec_marked_labels, 8);
    reveal_with_fuel(spec_rec_labels, 8);
    reveal_with_fuel(spec_member_labels, 4);
    let s = shape_two_containers();
    let c_foo_marked = ItemModel::Container {
        holder: 1,
        name: foo,
        body: 2,
        marked: true,
        members: seq![MemberModel { node: 3, name: fa }, MemberModel { node: 4, name: fb }],
    };
    let c_foo = ItemModel::Container {
        holder: 1,
        name: foo,
        body: 2,
        marked: false,
        members: Seq::empty(),
    };
    let c_bar = ItemModel::Container {
        holder: 5,
        name: bar,
        body: 6,
        marked: false,
        members: Seq::empty(),
    };
    let f3 = ItemModel::Fn { node: 3, name: fa };
    let f4 = ItemModel::Fn { node: 4, name: fb };
    let f7 = ItemModel::Fn { node: 7, name: ba };
    let f8 = ItemModel::Fn { node: 8, name: bb };
    let ann = seq![c_foo_marked, c_bar];
    let all = seq![c_foo, f3, f4, c_bar, f7, f8];
    let xfa = LabelModel { module: foo, function: fa };
    let xfb = LabelModel { module: foo, function: fb };
    let xba = LabelModel { module: bar, function: ba };
    let xbb = LabelModel { module: bar, function: bb };

    assert(spec_join(Seq::empty(), foo, sep) == foo);
    assert(spec_join(Seq::empty(), bar, sep) == bar);
    assert(ann.drop_last() =~= seq![c_foo_marked]);
    assert(seq![c_foo_marked].drop_last() =~= Seq::<ItemModel>::empty());
    assert(all.drop_last() =~= seq![c_foo, f3, f4, c_bar, f7]);
    assert(seq![c_foo, f3, f4, c_bar, f7].drop_last() =~= seq![c_foo, f3, f4, c_bar]);
    assert(seq![c_foo, f3, f4, c_bar].drop_last() =~= seq![c_foo, f3, f4]);
    assert(seq![c_foo, f3, f4].drop_last() =~= seq![c_foo, f3]);
    assert(seq![c_foo, f3].drop_last() =~= seq![c_foo]);
    assert(seq![c_foo].drop_last() =~= Seq::<ItemModel>::empty());
    assert(seq![MemberModel { node: 3, name: fa }, MemberModel { node: 4, name: fb }].drop_last()
        =~= seq![MemberModel { node: 3, name: fa }]);
    assert(seq![MemberModel { node: 3, name: fa }].drop_last() =~= Seq::<MemberModel>::empty());

    // the annotated run
    assert(spec_member_labels(
        seq![MemberModel { node: 3, name: fa }, MemberModel { node: 4, name: fb }],
        foo,
    ) =~= seq![xfa, xfb]) by {
        assert(Seq::<LabelModel>::empty() + seq![xfa] + seq![xfb] =~= seq![xfa, xfb]);
    }
    assert(spec_fn_labels(s, ann, 0, Seq::empty()) =~= Seq::<LabelModel>::empty());
    assert(spec_marked_labels(s, ann, 0, Seq::empty(), sep) =~= seq![xfa, xfb]) by {
        assert(spec_enters(s, 1, 2, 0));
        assert(Seq::<LabelModel>::empty() + seq![xfa, xfb] + Seq::<LabelModel>::empty() =~= seq![
            xfa,
            xfb,
        ]);
    }
    assert(spec_resolve(s, ann, 2, foo, sep) =~= Seq::<LabelModel>::empty()) by {
        assert(!spec_enters(s, 1, 2, 2));
        assert(!spec_enters(s, 5, 6, 2));
        assert(spec_fn_labels(s, ann, 2, foo) =~= Seq::<LabelModel>::empty());
        assert(spec_marked_labels(s, ann, 2, foo, sep) =~= Seq::<LabelModel>::empty());
        assert(spec_rec_labels(s, ann, ann, 2, foo, sep) =~= Seq::<LabelModel>::empty());
        assert(Seq::<LabelModel>::empty() + Seq::<LabelModel>::empty() + Seq::<
            LabelModel,
        >::empty() =~= Seq::<LabelModel>::empty());
    }
    assert(spec_resolve(s, ann, 6, bar, sep) =~= Seq::<LabelModel>::empty()) by {
        assert(!spec_enters(s, 1, 2, 6));
        assert(!spec_enters(s, 5, 6, 6));
        assert(spec_fn_labels(s, ann, 6, bar) =~= Seq::<LabelModel>::empty());
        assert(spec_marked_labels(s, ann, 6, bar, sep) =~= Seq::<LabelModel>::empty());
        assert(spec_rec_labels(s, ann, ann, 6, bar, sep) =~= Seq::<LabelModel>::empty());
        assert(Seq::<LabelModel>::empty() + Seq::<LabelModel>::empty() + Seq::<
            LabelModel,
        >::empty() =~= Seq::<LabelModel>::empty());
    }
    assert(spec_rec_labels(s, ann, ann, 0, Seq::empty(), sep) =~= Seq::<LabelModel>::empty()) by {
        assert(spec_enters(s, 1, 2, 0));
        assert(spec_enters(s, 5, 6, 0));
    }
    assert(spec_resolve(s, ann, 0, Seq::empty(), sep) =~= seq![xfa, xfb]);

    // the survey run
    assert(!spec_clear_to(s, 3, 0) && !spec_clear_to(s, 4, 0) && !spec_clear_to(s, 7, 0)
        && !spec_clear_to(s, 8, 0));
    assert(spec_clear_to(s, 3, 2) && spec_clear_to(s, 4, 2) && !spec_clear_to(s, 7, 2)
        && !spec_clear_to(s, 8, 2));
    assert(!spec_clear_to(s, 3, 6) && !spec_clear_to(s, 4, 6) && spec_clear_to(s, 7, 6)
        && spec_clear_to(s, 8, 6));
    assert(spec_fn_labels(s, all, 0, Seq::empty()) =~= Seq::<LabelModel>::empty());
    assert(spec_marked_labels(s, all, 0, Seq::empty(), sep) =~= Seq::<LabelModel>::empty());
    assert(spec_fn_labels(s, all, 2, foo) =~= seq![xfa, xfb]) by {
        assert(Seq::<LabelModel>::empty() + seq![xfa] + seq![xfb] + Seq::<LabelModel>::empty()
            + Seq::<LabelModel>::empty() + Seq::<LabelModel>::empty() =~= seq![xfa, xfb]);
    }
    assert(spec_marked_labels(s, all, 2, foo, sep) =~= Seq::<LabelModel>::empty());
    assert(spec_rec_labels(s, all, all, 2, foo, sep) =~= Seq::<LabelModel>::empty()) by {
        assert(!spec_enters(s, 1, 2, 2));
        assert(!spec_enters(s, 5, 6, 2));
    }
    assert(spec_resolve(s, all, 2, foo, sep) =~= seq![xfa, xfb]);
    assert(spec_fn_labels(s, all, 6, bar) =~= seq![xba, xbb]) by {
        assert(Seq::<LabelModel>::empty() + Seq::<LabelModel>::empty() + Seq::<
            LabelModel,
        >::empty() + Seq::<LabelModel>::empty() + seq![xba] + seq![xbb] =~= seq![xba, xbb]);
    }
    assert(spec_marked_labels(s, all, 6, bar, sep) =~= Seq::<LabelModel>::empty());
    assert(spec_rec_labels(s, all, all, 6, bar, sep) =~= Seq::<LabelModel>::empty()) by {
        assert(!spec_enters(s, 1, 2, 6));
        assert(!spec_enters(s, 5, 6, 6));
    }
    assert(spec_resolve(s, all, 6, bar, sep) =~= seq![xba, xbb]);
    assert(spec_rec_labels(s, all, all, 0, Seq::empty(), sep) =~= seq![xfa, xfb, xba, xbb]) by {
        assert(spec_enters(s, 1, 2, 0));
        assert(spec_enters(s, 5, 6, 0));
        assert(Seq::<LabelModel>::empty() + seq![xfa, xfb] =~= seq![xfa, xfb]);
        assert(seq![xfa, xfb] + Seq::<LabelModel>::empty() =~= seq![xfa, xfb]);
        assert(seq![xfa, xfb] + seq![xba, xbb] =~= seq![xfa, xfb, xba, xbb]);
        assert(seq![xfa, xfb, xba, xbb] + Seq::<LabelModel>::empty() =~= seq![
            xfa,
            xfb,
            xba,
            xbb,
        ]);
    }
    assert(spec_resolve(s, all, 0, Seq::empty(), sep) =~= seq![xfa, xfb, xba, xbb]);
}

/// The shape of a file with three containers nested inside one another and a
/// function at the innermost level: root, then holder and body of the outer,
/// middle, and inner containers, then the function's node.
pub open spec fn shape_three_nested() -> Seq<ShapeNode> {
    seq![
        ShapeNode { parent: None, container: false },
        ShapeNode { parent: Some(0usize), container: true },
        ShapeNode { parent: Some(1usize), container: false },
        ShapeNode { parent: Some(2usize), container: true },
        ShapeNode { parent: Some(3usize), container: false },
        ShapeNode { parent: Some(4usize), container: true },
        ShapeNode { parent: Some(5usize), container: false },
        ShapeNode { parent: Some(6usize), container: false },
    ]
}

/// Nesting qualification: a function marked inside container `a` nested
/// inside container `b` nested inside container `c` yields exactly one
/// label, whose scope is the prefix joined with `c`, `b`, and `a` in turn.
pub proof fn lemma_nesting_qualification(
    c: Seq<char>,
    b: Seq<char>,
    a: Seq<char>,
    f: Seq<char>,
    sep: Seq<char>,
)
    ensures
        spec_resolve(
            shape_three_nested(),
            seq![
                ItemModel::Container {
                    holder: 1,
                    name: c,
                    body: 2,
                    marked: false,
                    members: Seq::empty(),
                },
                ItemModel::Container {
                    holder: 3,
                    name: b,
                    body: 4,
                    marked: false,
                    members: Seq::empty(),
                },
                ItemModel::Container {
                    holder: 5,
                    name: a,
                    body: 6,
                    marked: false,
                    members: Seq::empty(),
                },
                ItemModel::Fn { node: 7, name: f },
            ],
            0,
            Seq::empty(),
            sep,
        ) == seq![
            LabelModel {
                module: spec_join(spec_join(spec_join(Seq::empty(), c, sep), b, sep), a, sep),
                function: f,
            },
        ],
{
    reveal_with_fuel(spec_clear_to, 9);
    reveal_with_fuel(spec_fn_labels, 6);
    reveal_with_fuel(spec_marked_labels, 6);
    reveal_with_fuel(spec_rec_labels, 6);
    let s = shape_three_nested();
    let c1 = ItemModel::Container {
        holder: 1,
        name: c,
        body: 2,
        marked: false,
        members: Seq::empty(),
    };
    let c2 = ItemModel::Container {
        holder: 3,
        name: b,
        body: 4,
        marked: false,
        members: Seq::empty(),
    };
    let c3 = ItemModel::Container {
        holder: 5,
        name: a,
        body: 6,
        marked: false,
        members: Seq::empty(),
    };
    let ff = ItemModel::Fn { node: 7, name: f };
    let items = seq![c1, c2, c3, ff];
    let p0 = Seq::<char>::empty();
    let p1 = spec_join(p0, c, sep);
    let p2 = spec_join(p1, b, sep);
    let p3 = spec_join(p2, a, sep);
    let x = LabelModel { module: p3, function: f };

    assert(items.drop_last() =~= seq![c1, c2, c3]);
    assert(seq![c1, c2, c3].drop_last() =~= seq![c1, c2]);
    assert(seq![c1, c2].drop_last() =~= seq![c1]);
    assert(seq![c1].drop_last() =~= Seq::<ItemModel>::empty());

    assert(!spec_clear_to(s, 7, 0) && !spec_clear_to(s, 7, 2) && !spec_clear_to(s, 7, 4));
    assert(spec_clear_to(s, 7, 6));
    assert(spec_enters(s, 1, 2, 0) && !spec_enters(s, 3, 4, 0) && !spec_enters(s, 5, 6, 0));
    assert(!spec_enters(s, 1, 2, 2) && spec_enters(s, 3, 4, 2) && !spec_enters(s, 5, 6, 2));
    assert(!spec_enters(s, 1, 2, 4) && !spec_enters(s, 3, 4, 4) && spec_enters(s, 5, 6, 4));
    assert(!spec_enters(s, 1, 2, 6) && !spec_enters(s, 3, 4, 6) && !spec_enters(s, 5, 6, 6));

    assert(spec_marked_labels(s, items, 0, p0, sep) =~= Seq::<LabelModel>::empty());
    assert(spec_marked_labels(s, items, 2, p1, sep) =~= Seq::<LabelModel>::empty());
    assert(spec_marked_labels(s, items, 4, p2, sep) =~= Seq::<LabelModel>::empty());
    assert(spec_marked_labels(s, items, 6, p3, sep) =~= Seq::<LabelModel>::empty());

    assert(spec_fn_labels(s, items, 0, p0) =~= Seq::<LabelModel>::empty());
    assert(spec_fn_labels(s, items, 2, p1) =~= Seq::<LabelModel>::empty());
    assert(spec_fn_labels(s, items, 4, p2) =~= Seq::<LabelModel>::empty());
    assert(spec_fn_labels(s, items, 6, p3) =~= seq![x]) by {
        assert(Seq::<LabelModel>::empty() + Seq::<LabelModel>::empty() + Seq::<
            LabelModel,
        >::empty() + Seq::<LabelModel>::empty() + seq![x] =~= seq![x]);
    }

    assert(spec_rec_labels(s, items, items, 6, p3, sep) =~= Seq::<LabelModel>::empty());
    assert(spec_resolve(s, items, 6, p3, sep) =~= seq![x]);
    assert(spec_rec_labels(s, items, items, 4, p2, sep) =~= seq![x]) by {
        assert(Seq::<LabelModel>::empty() + spec_resolve(s, items, 6, p3, sep) =~= seq![x]);
        assert(seq![x] + Seq::<LabelModel>::empty() =~= seq![x]);
    }
    assert(spec_resolve(s, items, 4, p2, sep) =~= seq![x]);
    assert(spec_rec_labels(s, items, items, 2, p1, sep) =~= seq![x]) by {
        assert(Seq::<LabelModel>::empty() + spec_resolve(s, items, 4, p2, sep) =~= seq![x]);
        assert(seq![x] + Seq::<LabelModel>::empty() =~= seq![x]);
    }
    assert(spec_resolve(s, items, 2, p1, sep) =~= seq![x]);
    assert(spec_rec_labels(s, items, items, 0, p0, sep) =~= seq![x]) by {
        assert(Seq::<LabelModel>::empty() + spec_resolve(s, items, 2, p1, sep) =~= seq![x]);
        assert(seq![x] + Seq::<LabelModel>::empty() =~= seq![x]);
    }
    assert(spec_resolve(s, items, 0, p0, sep) =~= seq![x]);
}

} // verus!
