//! What reading a field, a map of values or a list of values does to the
//! graph, step by step: the graphs before, between and after the entries or
//! items, and exactly what each step added.
use vstd::prelude::*;

use crate::ast::{added_error, Ast, AstRelation, ErrorView};
use crate::grammar::parse::{refusal, value_outcome};
use crate::grammar::{relation_view_for, RelKey, RelKind, ValueKind};
use crate::models::RelationView;
use crate::yaml::{yaml_list, yaml_map, yaml_str};

verus! {

/// `new` is `old` with one edge added and nothing else: a link from `root`
/// to `h` by a relation whose view is `rv`.
pub open spec fn one_link_added(old: Ast, new: Ast, root: int, h: int, rv: RelationView) -> bool {
    &&& new.nodes() == old.nodes()
    &&& new.edges().len() == old.edges().len() + 1
    &&& new.edges().drop_last() == old.edges()
    &&& new.edges().last().0 == root
    &&& new.edges().last().1 == h
    &&& new.edges().last().2 matches AstRelation::Tosca(x) && x@ == rv
}

/// Reading the value at node `n` as `vk` took `old` to `new` with the
/// result `r`: as `value_outcome` says; a definition that is refused adds
/// its one error.
pub open spec fn value_step(vk: ValueKind, old: Ast, new: Ast, n: int, r: Option<usize>) -> bool {
    &&& new.extends(&old)
    &&& value_outcome(vk, old, new, n, r)
    &&& (vk matches ValueKind::Def(k) ==> (r is None ==> added_error(
        old,
        new,
        refusal(k, old.nodes(), n).0,
        refusal(k, old.nodes(), n).1,
    )))
}

/// Reading the field at node `n` took `old` to `new`: its value was read
/// once, and where that gave a node, one link from `root` to it by the
/// relation `rv` was added; nothing else.
pub open spec fn field_step(vk: ValueKind, rv: RelationView, root: int, n: int, old: Ast, new: Ast) -> bool {
    exists|mid: Ast, r: Option<usize>|
        #[trigger] value_step(vk, old, mid, n, r) && match r {
            None => new == mid,
            Some(h) => one_link_added(mid, new, root, h as int, rv),
        }
}

/// Reading the map entry `entry` for `root` took `old` to `new`: a string
/// key's value was read as a field linked by the relation the key names; a
/// key that is not a string got one error.
pub open spec fn entry_step(vk: ValueKind, rel: RelKind, root: int, entry: (usize, usize), old: Ast, new: Ast) -> bool {
    match yaml_str(old.nodes()[entry.0 as int]) {
        Some(key) => field_step(vk, relation_view_for(rel, RelKey::Name(key)), root, entry.1 as int, old, new),
        None => added_error(old, new, entry.0 as int, ErrorView::UnexpectedType("string"@)),
    }
}

/// Entry `j` of `es` took the graph `gs[j]` to `gs[j + 1]`.
pub open spec fn entry_step_at(vk: ValueKind, rel: RelKind, root: int, es: Seq<(usize, usize)>, gs: Seq<Ast>, j: int) -> bool {
    entry_step(vk, rel, root, es[j], gs[j], gs[j + 1])
}

/// `gs` are the graphs before, between and after reading the entries `es`,
/// one after the other, in order.
pub open spec fn entry_steps(vk: ValueKind, rel: RelKind, root: int, es: Seq<(usize, usize)>, gs: Seq<Ast>) -> bool {
    &&& gs.len() == es.len() + 1
    &&& forall|j: int| 0 <= j < es.len() ==> #[trigger] entry_step_at(vk, rel, root, es, gs, j)
}

/// What reading the map of values at node `n` for `root` did: a node that
/// is not a map got one error; a map had its entries read once each, in
/// order, and nothing else was added.
pub open spec fn collection_steps(vk: ValueKind, rel: RelKind, root: int, n: int, old: Ast, new: Ast) -> bool {
    match yaml_map(old.nodes()[n]) {
        None => added_error(old, new, n, ErrorView::UnexpectedType("map"@)),
        Some(es) => exists|gs: Seq<Ast>| #[trigger] entry_steps(vk, rel, root, es, gs) && gs[0] == old && gs.last() == new,
    }
}

/// Item `i`, at node `items[i]`, of a list of values took the graph `gs[i]`
/// to `gs[i + 1]`: it was read as a field linked by the relation for its
/// position.
pub open spec fn item_step_at(vk: ValueKind, rel: RelKind, root: int, items: Seq<usize>, gs: Seq<Ast>, i: int) -> bool {
    field_step(vk, relation_view_for(rel, RelKey::Index(i as usize)), root, items[i] as int, gs[i], gs[i + 1])
}

/// `gs` are the graphs before, between and after reading the items
/// `items`, one after the other, in order.
pub open spec fn item_steps(vk: ValueKind, rel: RelKind, root: int, items: Seq<usize>, gs: Seq<Ast>) -> bool {
    &&& gs.len() == items.len() + 1
    &&& forall|i: int| 0 <= i < items.len() ==> #[trigger] item_step_at(vk, rel, root, items, gs, i)
}

/// What reading the list of values at node `n` for `root` did: a node that
/// is not a list got one error; a list had its items read once each, in
/// order, and nothing else was added.
pub open spec fn list_steps(vk: ValueKind, rel: RelKind, root: int, n: int, old: Ast, new: Ast) -> bool {
    match yaml_list(old.nodes()[n]) {
        None => added_error(old, new, n, ErrorView::UnexpectedType("list"@)),
        Some(items) => exists|gs: Seq<Ast>| #[trigger] item_steps(vk, rel, root, items, gs) && gs[0] == old && gs.last() == new,
    }
}

/// Reading the first entry `entry` of item `i` of a list of one-key maps
/// took `old` to `new`: a string key's value was read as a field linked by
/// the relation for the key and the position; a key that is not a string
/// got one error.
pub open spec fn first_key_step(vk: ValueKind, rel: RelKind, root: int, i: int, entry: (usize, usize), old: Ast, new: Ast) -> bool {
    match yaml_str(old.nodes()[entry.0 as int]) {
        Some(key) => field_step(vk, relation_view_for(rel, RelKey::Pair(key, i as usize)), root, entry.1 as int, old, new),
        None => added_error(old, new, entry.0 as int, ErrorView::UnexpectedType("string"@)),
    }
}

/// Reading item `i`, at node `item`, of the list of one-key maps at node
/// `n` took `old` to `new`: an item that is not a map got one error at the
/// list; an empty map one error at the item; otherwise its first entry was
/// read, and a map with more entries then got one error at the item.
pub open spec fn keyed_item_step(vk: ValueKind, rel: RelKind, root: int, n: int, i: int, item: int, old: Ast, new: Ast) -> bool {
    match yaml_map(old.nodes()[item]) {
        None => added_error(old, new, n, ErrorView::UnexpectedType("map"@)),
        Some(es) => if es.len() == 0 {
            added_error(old, new, item, ErrorView::Custom("expected a key"@))
        } else if es.len() == 1 {
            first_key_step(vk, rel, root, i, es[0], old, new)
        } else {
            exists|mid: Ast|
                #[trigger] first_key_step(vk, rel, root, i, es[0], old, mid) && added_error(
                    mid,
                    new,
                    item,
                    ErrorView::Custom("expected only one key"@),
                )
        },
    }
}

/// Item `i` of the list of one-key maps at node `n` took the graph `gs[i]`
/// to `gs[i + 1]`.
pub open spec fn keyed_item_step_at(vk: ValueKind, rel: RelKind, root: int, n: int, items: Seq<usize>, gs: Seq<Ast>, i: int) -> bool {
    keyed_item_step(vk, rel, root, n, i, items[i] as int, gs[i], gs[i + 1])
}

/// `gs` are the graphs before, between and after reading the items `items`
/// of the list of one-key maps at node `n`, one after the other, in order.
pub open spec fn keyed_item_steps(vk: ValueKind, rel: RelKind, root: int, n: int, items: Seq<usize>, gs: Seq<Ast>) -> bool {
    &&& gs.len() == items.len() + 1
    &&& forall|i: int| 0 <= i < items.len() ==> #[trigger] keyed_item_step_at(vk, rel, root, n, items, gs, i)
}

/// What reading the list of one-key maps at node `n` for `root` did: a
/// node that is not a list got one error; a list had its items read once
/// each, in order, and nothing else was added.
pub open spec fn keyed_list_steps(vk: ValueKind, rel: RelKind, root: int, n: int, old: Ast, new: Ast) -> bool {
    match yaml_list(old.nodes()[n]) {
        None => added_error(old, new, n, ErrorView::UnexpectedType("list"@)),
        Some(items) => exists|gs: Seq<Ast>|
            #[trigger] keyed_item_steps(vk, rel, root, n, items, gs) && gs[0] == old && gs.last() == new,
    }
}

} // verus!
