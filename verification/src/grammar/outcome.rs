//! What reading a field leaves in the graph: for each entry of a map or
//! item of a list, the link it was read into, or the error it was refused
//! with. These facts stay true as the graph grows.
use vstd::prelude::*;

use crate::ast::{
    error_at, lemma_added_error_at, lemma_error_at_extends, link_at, links_to, yaml_children_before,
    Ast, AstEntity, AstRelation, ErrorView, ParseLoc, YamlEntity,
};
use crate::grammar::field_ref::{is_reference, referenced};
use crate::grammar::parse::{accepts, activity_kind, created_at, created_entity, string_keys};
use crate::grammar::value::{is_str_or_null, status_named};
use crate::grammar::{relation_view_for, schema_rule, validation_errors, DefKind, FieldRule, RelKey, RelKind, ToscaVersion, ValueKind};
use crate::models::{
    ArtifactEntity, CapabilityEntity, DataEntity, Entity, FileEntity, LookupKind, NodeEntity,
    RelationView, RelationshipEntity, ServiceTemplateEntity,
};
use crate::yaml::{yaml_list, yaml_map, yaml_str};

verus! {

/// Whether node `n` holds a value of kind `vk`, so that reading it gives a
/// node.
pub open spec fn value_accepted(vk: ValueKind, nodes: Seq<AstEntity>, n: int) -> bool {
    match vk {
        ValueKind::Def(k) => accepts(k, nodes, n),
        ValueKind::Any => true,
        ValueKind::String => yaml_str(nodes[n]) is Some,
        ValueKind::NullableString => is_str_or_null(nodes[n]),
        ValueKind::Int => nodes[n] matches AstEntity::Yaml(YamlEntity::Int(_)),
        ValueKind::Bool => nodes[n] matches AstEntity::Yaml(YamlEntity::Bool(_)),
        ValueKind::Status => yaml_str(nodes[n]) matches Some(s) && status_named(s@) is Some,
    }
}

/// Edge `e` locates node `h` at node `at`.
pub open spec fn loc_edge(ast: Ast, e: int, h: int, at: int) -> bool {
    &&& 0 <= e < ast.edges().len()
    &&& ast.edges()[e] == (h as usize, at as usize, AstRelation::Parse(ParseLoc))
}

/// Node `h` is what reading a value of kind `vk` at node `n` gave: the node
/// itself for a plain value; the status entity that the name there stands
/// for, located there; or the entity of the definition read there, located
/// where the definition is.
pub open spec fn value_node(ast: Ast, vk: ValueKind, n: int, h: int) -> bool {
    match vk {
        ValueKind::Def(k) => {
            &&& 0 <= h < ast.nodes().len()
            &&& ast.nodes()[h] == AstEntity::Tosca(created_entity(k, ast.nodes(), n))
            &&& exists|e: int| #[trigger] loc_edge(ast, e, h, created_at(k, ast.nodes(), n))
        },
        ValueKind::Status => {
            &&& 0 <= h < ast.nodes().len()
            &&& yaml_str(ast.nodes()[n]) matches Some(s) && status_named(s@) matches Some(st)
                && ast.nodes()[h] == AstEntity::Tosca(Entity::Status(st))
            &&& exists|e: int| #[trigger] loc_edge(ast, e, h, n)
        },
        _ => h == n,
    }
}

/// Edge `e` links `root` by the relation `rv` to what reading a value of
/// kind `vk` at node `n` gave.
pub open spec fn value_link(ast: Ast, e: int, root: int, rv: RelationView, vk: ValueKind, n: int) -> bool {
    &&& link_at(ast, e, root, rv)
    &&& value_node(ast, vk, n, ast.edges()[e].1 as int)
}

/// `root` is linked by the relation `rv` to what reading a value of kind
/// `vk` at node `n` gave.
pub open spec fn links_value(ast: Ast, root: int, rv: RelationView, vk: ValueKind, n: int) -> bool {
    exists|e: int| #[trigger] value_link(ast, e, root, rv, vk, n)
}

/// Edge `e` is a reference from `root` to the name at node `target`.
pub open spec fn ref_edge(
    ast: Ast,
    e: int,
    root: int,
    target: int,
    place: Entity,
    what: Entity,
    kind: LookupKind,
    rv: RelationView,
) -> bool {
    &&& 0 <= e < ast.edges().len()
    &&& ast.edges()[e].0 == root
    &&& ast.edges()[e].1 == target
    &&& is_reference(ast.edges()[e].2, place, what, kind, rv)
}

/// `root` refers to the name at node `target`.
pub open spec fn refers(
    ast: Ast,
    root: int,
    target: int,
    place: Entity,
    what: Entity,
    kind: LookupKind,
    rv: RelationView,
) -> bool {
    exists|e: int| #[trigger] ref_edge(ast, e, root, target, place, what, kind, rv)
}

/// A reference at node `n` was read: `root` refers to the name there, or
/// the node is not a string or null and has an error.
pub open spec fn ref_read(
    ast: Ast,
    root: int,
    n: int,
    place: Entity,
    what: Entity,
    kind: LookupKind,
    rv: RelationView,
) -> bool {
    if is_str_or_null(ast.nodes()[n]) {
        refers(ast, root, n, place, what, kind, rv)
    } else {
        error_at(ast, ErrorView::UnexpectedType("string"@), n)
    }
}

/// A list of references at node `n` was read, item by item; or the node is
/// not a list and has an error.
pub open spec fn ref_list_read(
    ast: Ast,
    root: int,
    n: int,
    place: Entity,
    what: Entity,
    kind: LookupKind,
    rv: RelationView,
) -> bool {
    match yaml_list(ast.nodes()[n]) {
        None => error_at(ast, ErrorView::UnexpectedType("list"@), n),
        Some(items) => forall|i: int|
            0 <= i < items.len() ==> #[trigger] ref_read(ast, root, items[i] as int, place, what, kind, rv),
    }
}

/// The map entry `entry` was read for `root`: a string key whose value is
/// accepted links `root` by the relation named by the key; a key that is
/// not a string has an error.
pub open spec fn entry_read(ast: Ast, root: int, rel: RelKind, vk: ValueKind, entry: (usize, usize)) -> bool {
    match yaml_str(ast.nodes()[entry.0 as int]) {
        Some(key) => value_accepted(vk, ast.nodes(), entry.1 as int) ==> links_value(
            ast,
            root,
            relation_view_for(rel, RelKey::Name(key)),
            vk,
            entry.1 as int,
        ),
        None => error_at(ast, ErrorView::UnexpectedType("string"@), entry.0 as int),
    }
}

/// The map at node `n` was read entry by entry; or the node is not a map
/// and has an error.
pub open spec fn collection_read(ast: Ast, root: int, rel: RelKind, vk: ValueKind, n: int) -> bool {
    match yaml_map(ast.nodes()[n]) {
        None => error_at(ast, ErrorView::UnexpectedType("map"@), n),
        Some(es) => forall|j: int| 0 <= j < es.len() ==> #[trigger] entry_read(ast, root, rel, vk, es[j]),
    }
}

/// Item `i` of a list was read: if its value is accepted, `root` is linked
/// by the relation for position `i`.
pub open spec fn item_read(ast: Ast, root: int, rel: RelKind, vk: ValueKind, i: int, item: int) -> bool {
    value_accepted(vk, ast.nodes(), item) ==> links_value(
        ast,
        root,
        relation_view_for(rel, RelKey::Index(i as usize)),
        vk,
        item,
    )
}

/// The list at node `n` was read item by item; or the node is not a list
/// and has an error.
pub open spec fn list_read(ast: Ast, root: int, rel: RelKind, vk: ValueKind, n: int) -> bool {
    match yaml_list(ast.nodes()[n]) {
        None => error_at(ast, ErrorView::UnexpectedType("list"@), n),
        Some(items) => forall|i: int| 0 <= i < items.len() ==> #[trigger] item_read(ast, root, rel, vk, i, items[i] as int),
    }
}

/// Item `i`, at node `item`, of the list at node `n` of one-key maps was
/// read: its key and value link `root` by the relation for the key and
/// position `i`; a missing key, extra keys, a key that is not a string, or
/// an item that is not a map have errors.
pub open spec fn keyed_item_read(ast: Ast, root: int, rel: RelKind, vk: ValueKind, n: int, i: int, item: int) -> bool {
    match yaml_map(ast.nodes()[item]) {
        None => error_at(ast, ErrorView::UnexpectedType("map"@), n),
        Some(es) => if es.len() == 0 {
            error_at(ast, ErrorView::Custom("expected a key"@), item)
        } else {
            &&& match yaml_str(ast.nodes()[es[0].0 as int]) {
                Some(key) => value_accepted(vk, ast.nodes(), es[0].1 as int) ==> links_value(
                    ast,
                    root,
                    relation_view_for(rel, RelKey::Pair(key, i as usize)),
                    vk,
                    es[0].1 as int,
                ),
                None => error_at(ast, ErrorView::UnexpectedType("string"@), es[0].0 as int),
            }
            &&& es.len() > 1 ==> error_at(ast, ErrorView::Custom("expected only one key"@), item)
        },
    }
}

/// The list of one-key maps at node `n` was read item by item; or the node
/// is not a list and has an error.
pub open spec fn keyed_list_read(ast: Ast, root: int, rel: RelKind, vk: ValueKind, n: int) -> bool {
    match yaml_list(ast.nodes()[n]) {
        None => error_at(ast, ErrorView::UnexpectedType("list"@), n),
        Some(items) => forall|i: int|
            0 <= i < items.len() ==> #[trigger] keyed_item_read(ast, root, rel, vk, n, i, items[i] as int),
    }
}

/// Edge `e` locates an artifact entity at node `n`.
pub open spec fn artifact_loc(ast: Ast, e: int, n: int) -> bool {
    &&& loc_edge(ast, e, ast.edges()[e].0 as int, n)
    &&& ast.nodes()[ast.edges()[e].0 as int] == AstEntity::Tosca(Entity::Artifact(ArtifactEntity))
}

/// An artifact at node `n` was read: a map is an artifact definition, an
/// artifact entity located there; a string or null is a reference from
/// `root` to an artifact of the node; anything else has an error.
pub open spec fn artifact_read(ast: Ast, root: int, n: int, rv: RelationView) -> bool {
    if yaml_map(ast.nodes()[n]) is Some {
        exists|e: int| #[trigger] artifact_loc(ast, e, n)
    } else if is_str_or_null(ast.nodes()[n]) {
        refers(ast, root, n, Entity::Node(NodeEntity), Entity::Artifact(ArtifactEntity), LookupKind::Definition, rv)
    } else {
        error_at(ast, ErrorView::UnexpectedType("map or string"@), n)
    }
}

/// A list of artifacts at node `n` was read item by item; or the node is
/// not a list and has an error.
pub open spec fn artifact_list_read(ast: Ast, root: int, n: int, rv: RelationView) -> bool {
    match yaml_list(ast.nodes()[n]) {
        None => error_at(ast, ErrorView::UnexpectedType("list"@), n),
        Some(items) => forall|i: int| 0 <= i < items.len() ==> #[trigger] artifact_read(ast, root, items[i] as int, rv),
    }
}

/// The value at node `n` of a field of `root` was read by `rule`.
pub open spec fn rule_read(ast: Ast, rule: FieldRule, root: int, n: int) -> bool {
    match rule {
        FieldRule::Ignore => true,
        FieldRule::Field(rel, vk) => value_accepted(vk, ast.nodes(), n) ==> links_value(
            ast,
            root,
            relation_view_for(rel, RelKey::Unit),
            vk,
            n,
        ),
        FieldRule::Collection(rel, vk) => collection_read(ast, root, rel, vk, n),
        FieldRule::List(rel, vk) => list_read(ast, root, rel, vk, n),
        FieldRule::KeyedList(rel, vk) => keyed_list_read(ast, root, rel, vk, n),
        FieldRule::TypeRef(what, rel) => ref_read(
            ast,
            root,
            n,
            Entity::File(FileEntity),
            what,
            LookupKind::Type,
            relation_view_for(rel, RelKey::Unit),
        ),
        FieldRule::TypeRefList(what, rel) => ref_list_read(
            ast,
            root,
            n,
            Entity::File(FileEntity),
            what,
            LookupKind::Type,
            relation_view_for(rel, RelKey::Unit),
        ),
        FieldRule::DefRef(place, what, rel) => ref_read(
            ast,
            root,
            n,
            place,
            what,
            LookupKind::Definition,
            relation_view_for(rel, RelKey::Unit),
        ),
        FieldRule::DefRefList(place, what, rel) => ref_list_read(
            ast,
            root,
            n,
            place,
            what,
            LookupKind::Definition,
            relation_view_for(rel, RelKey::Unit),
        ),
        FieldRule::ArtifactRef(rel) => artifact_read(ast, root, n, relation_view_for(rel, RelKey::Unit)),
        FieldRule::ArtifactRefList(rel) => artifact_list_read(ast, root, n, relation_view_for(rel, RelKey::Unit)),
    }
}

/// The map entry `entry` of a definition `root` of kind `k` was read: a
/// string key is read by its rule, or has an error if the kind has no such
/// field; a key that is not a string has an error.
pub open spec fn schema_entry_read(ast: Ast, v: ToscaVersion, k: DefKind, root: int, entry: (usize, usize)) -> bool {
    match yaml_str(ast.nodes()[entry.0 as int]) {
        None => error_at(ast, ErrorView::UnexpectedType("string"@), entry.0 as int),
        Some(key) => match schema_rule(v, k, key@) {
            None => error_at(ast, ErrorView::UnknownField(key@), entry.0 as int),
            Some(rule) => rule_read(ast, rule, root, entry.1 as int),
        },
    }
}

/// The fields of the map at node `n` were read into the definition `root`
/// of kind `k`, entry by entry, and each error of the field checks of the
/// kind over the keys present is located at `n`.
pub open spec fn fields_read(ast: Ast, v: ToscaVersion, k: DefKind, root: int, n: int) -> bool {
    match yaml_map(ast.nodes()[n]) {
        Some(es) => {
            &&& forall|j: int| 0 <= j < es.len() ==> #[trigger] schema_entry_read(ast, v, k, root, es[j])
            &&& forall|t: int| 0 <= t < validation_errors(k, string_keys(ast.nodes(), es)).len() ==> error_at(
                ast,
                #[trigger] validation_errors(k, string_keys(ast.nodes(), es))[t],
                n,
            )
        },
        None => true,
    }
}

/// What the short form of a definition of kind `k` at node `n`, which is
/// not a map, gives its entity `h`: a string (or, for some kinds, null)
/// names what the definition refers to; anything else has an error.
pub open spec fn short_form_read(ast: Ast, k: DefKind, n: int, h: int) -> bool {
    let w = ast.nodes()[n];
    let text = yaml_str(w) is Some;
    let refused = error_at(ast, ErrorView::UnexpectedType("map or string"@), n);
    match k {
        DefKind::Import | DefKind::Import13 => if text {
            links_to(ast, h, n, RelationView::ImportUrl)
        } else {
            refused
        },
        DefKind::Capability => if text {
            refers(ast, h, n, Entity::File(FileEntity), Entity::Capability(CapabilityEntity), LookupKind::Type, RelationView::HasType)
        } else {
            refused
        },
        DefKind::Relationship | DefKind::RelationshipAssignment => if text {
            refers(ast, h, n, Entity::File(FileEntity), Entity::Relationship(RelationshipEntity), LookupKind::Type, RelationView::HasType)
        } else {
            refused
        },
        DefKind::RequirementAssignment => if text {
            refers(ast, h, n, Entity::ServiceTemplate(ServiceTemplateEntity), Entity::Node(NodeEntity), LookupKind::Definition, RelationView::TargetNode)
        } else {
            refused
        },
        DefKind::Implementation13 => if text {
            refers(ast, h, n, Entity::Node(NodeEntity), Entity::Artifact(ArtifactEntity), LookupKind::Definition, RelationView::PrimaryArtifact)
        } else {
            refused
        },
        DefKind::WorkflowDelegateActivity | DefKind::WorkflowInlineActivity => if text {
            links_to(ast, h, n, RelationView::Workflow)
        } else {
            refused
        },
        DefKind::WorkflowCallOperationActivity => if text {
            links_to(ast, h, n, RelationView::Operation)
        } else {
            refused
        },
        DefKind::WorkflowSetStateActivity => if text {
            links_to(ast, h, n, RelationView::Definition(Seq::empty()))
        } else {
            error_at(ast, ErrorView::UnexpectedType("string"@), n)
        },
        DefKind::Schema => is_str_or_null(w) ==> refers(
            ast,
            h,
            n,
            Entity::File(FileEntity),
            Entity::Data(DataEntity),
            LookupKind::Type,
            RelationView::HasType,
        ),
        DefKind::Implementation => is_str_or_null(w) ==> refers(
            ast,
            h,
            n,
            Entity::Node(NodeEntity),
            Entity::Artifact(ArtifactEntity),
            LookupKind::Definition,
            RelationView::PrimaryArtifact,
        ),
        DefKind::Repository => is_str_or_null(w) ==> links_to(ast, h, n, RelationView::RepositoryUrl),
        _ => true,
    }
}

/// What a definition of kind `k`, other than a workflow activity, read from
/// node `n` into entity `h` holds: a map (but for `set_state`) had its
/// fields read; the short forms are read as `short_form_read` says.
pub open spec fn plain_definition_read(ast: Ast, v: ToscaVersion, k: DefKind, n: int, h: int) -> bool {
    if k != DefKind::WorkflowSetStateActivity && yaml_map(ast.nodes()[n]) is Some {
        fields_read(ast, v, k, h, n)
    } else {
        short_form_read(ast, k, n, h)
    }
}

/// What a definition of kind `k` read from node `n` into entity `h` holds:
/// a workflow activity is the definition of the kind its one key names,
/// read from that key's value; any other kind is read as
/// `plain_definition_read` says.
pub open spec fn definition_read(ast: Ast, v: ToscaVersion, k: DefKind, n: int, h: int) -> bool {
    if k == DefKind::WorkflowActivity {
        match activity_kind(ast.nodes(), n) {
            Some(kind) => plain_definition_read(ast, v, kind, yaml_map(ast.nodes()[n])->Some_0[0].1 as int, h),
            None => true,
        }
    } else {
        plain_definition_read(ast, v, k, n, h)
    }
}

// ----------------------------------------------------------------------
// These facts stay true as the graph grows.

/// Whether a value is accepted at a node does not change as the graph
/// grows.
pub proof fn lemma_accepted_stable(vk: ValueKind, a: &Ast, b: &Ast, n: int)
    requires
        a.wf(),
        b.extends(a),
        0 <= n < a.nodes().len(),
    ensures
        value_accepted(vk, a.nodes(), n) == value_accepted(vk, b.nodes(), n),
{
    assert(b.nodes()[n] == a.nodes()[n]);
    assert(yaml_children_before(a.nodes(), n));
    if let Some(es) = yaml_map(a.nodes()[n]) {
        if es.len() > 0 {
            assert(b.nodes()[es[0].0 as int] == a.nodes()[es[0].0 as int]);
        }
    }
}

/// The entity that a definition read at a node creates, and where it is
/// located, do not change as the graph grows.
pub proof fn lemma_created_stable(k: DefKind, a: &Ast, b: &Ast, n: int)
    requires
        a.wf(),
        b.extends(a),
        0 <= n < a.nodes().len(),
    ensures
        activity_kind(a.nodes(), n) == activity_kind(b.nodes(), n),
        created_entity(k, a.nodes(), n) == created_entity(k, b.nodes(), n),
        created_at(k, a.nodes(), n) == created_at(k, b.nodes(), n),
{
    assert(b.nodes()[n] == a.nodes()[n]);
    assert(yaml_children_before(a.nodes(), n));
    if let Some(es) = yaml_map(a.nodes()[n]) {
        if es.len() > 0 {
            assert(b.nodes()[es[0].0 as int] == a.nodes()[es[0].0 as int]);
        }
    }
}

/// What reading a value gave stays so as the graph grows.
pub proof fn lemma_value_node_stable(vk: ValueKind, a: &Ast, b: &Ast, n: int, h: int)
    requires
        a.wf(),
        b.extends(a),
        0 <= n < a.nodes().len(),
        value_node(*a, vk, n, h),
    ensures
        value_node(*b, vk, n, h),
{
    assert(b.nodes()[n] == a.nodes()[n]);
    match vk {
        ValueKind::Def(k) => {
            lemma_created_stable(k, a, b, n);
            assert(b.nodes()[h] == a.nodes()[h]);
            let at = created_at(k, a.nodes(), n);
            let e = choose|e: int| loc_edge(*a, e, h, at);
            assert(b.edges()[e] == a.edges()[e]);
            assert(loc_edge(*b, e, h, at));
        },
        ValueKind::Status => {
            assert(b.nodes()[h] == a.nodes()[h]);
            let e = choose|e: int| loc_edge(*a, e, h, n);
            assert(b.edges()[e] == a.edges()[e]);
            assert(loc_edge(*b, e, h, n));
        },
        _ => {},
    }
}

/// A link to what reading a value gave stays as the graph grows.
pub proof fn lemma_links_value_extends(a: &Ast, b: &Ast, root: int, rv: RelationView, vk: ValueKind, n: int)
    requires
        a.wf(),
        b.extends(a),
        0 <= n < a.nodes().len(),
        links_value(*a, root, rv, vk, n),
    ensures
        links_value(*b, root, rv, vk, n),
{
    let e = choose|e: int| value_link(*a, e, root, rv, vk, n);
    assert(b.edges()[e] == a.edges()[e]);
    lemma_value_node_stable(vk, a, b, n, a.edges()[e].1 as int);
    assert(value_link(*b, e, root, rv, vk, n));
}

/// Reading a reference leaves it read.
pub proof fn lemma_referenced_read(
    a: &Ast,
    b: &Ast,
    root: int,
    n: int,
    place: Entity,
    what: Entity,
    kind: LookupKind,
    rv: RelationView,
)
    requires
        0 <= n < a.nodes().len(),
        referenced(*a, *b, root, n, place, what, kind, rv),
    ensures
        ref_read(*b, root, n, place, what, kind, rv),
{
    if is_str_or_null(a.nodes()[n]) {
        let e = (b.edges().len() - 1) as int;
        assert(b.edges()[e] == b.edges().last());
        assert(ref_edge(*b, e, root, n, place, what, kind, rv));
    } else {
        lemma_added_error_at(a, b, n, ErrorView::UnexpectedType("string"@));
        assert(b.nodes()[n] == a.nodes()[n]);
    }
}

/// A reference stays when the graph grows.
pub proof fn lemma_refers_extends(
    a: &Ast,
    b: &Ast,
    root: int,
    target: int,
    place: Entity,
    what: Entity,
    kind: LookupKind,
    rv: RelationView,
)
    requires
        refers(*a, root, target, place, what, kind, rv),
        b.extends(a),
    ensures
        refers(*b, root, target, place, what, kind, rv),
{
    let e = choose|e: int| ref_edge(*a, e, root, target, place, what, kind, rv);
    assert(b.edges()[e] == a.edges()[e]);
    assert(ref_edge(*b, e, root, target, place, what, kind, rv));
}

/// A read reference stays read when the graph grows.
pub proof fn lemma_ref_read_extends(
    a: &Ast,
    b: &Ast,
    root: int,
    n: int,
    place: Entity,
    what: Entity,
    kind: LookupKind,
    rv: RelationView,
)
    requires
        a.wf(),
        b.extends(a),
        0 <= n < a.nodes().len(),
        ref_read(*a, root, n, place, what, kind, rv),
    ensures
        ref_read(*b, root, n, place, what, kind, rv),
{
    assert(b.nodes()[n] == a.nodes()[n]);
    if is_str_or_null(a.nodes()[n]) {
        lemma_refers_extends(a, b, root, n, place, what, kind, rv);
    } else {
        lemma_error_at_extends(a, b, ErrorView::UnexpectedType("string"@), n);
    }
}

/// A read map entry stays read when the graph grows.
pub proof fn lemma_entry_read_extends(a: &Ast, b: &Ast, root: int, rel: RelKind, vk: ValueKind, entry: (usize, usize))
    requires
        a.wf(),
        b.extends(a),
        entry.0 < a.nodes().len(),
        entry.1 < a.nodes().len(),
        entry_read(*a, root, rel, vk, entry),
    ensures
        entry_read(*b, root, rel, vk, entry),
{
    assert(b.nodes()[entry.0 as int] == a.nodes()[entry.0 as int]);
    lemma_accepted_stable(vk, a, b, entry.1 as int);
    match yaml_str(a.nodes()[entry.0 as int]) {
        Some(key) => {
            if value_accepted(vk, a.nodes(), entry.1 as int) {
                lemma_links_value_extends(a, b, root, relation_view_for(rel, RelKey::Name(key)), vk, entry.1 as int);
            }
        },
        None => {
            lemma_error_at_extends(a, b, ErrorView::UnexpectedType("string"@), entry.0 as int);
        },
    }
}

/// A read list item stays read when the graph grows.
pub proof fn lemma_item_read_extends(a: &Ast, b: &Ast, root: int, rel: RelKind, vk: ValueKind, i: int, item: int)
    requires
        a.wf(),
        b.extends(a),
        0 <= item < a.nodes().len(),
        item_read(*a, root, rel, vk, i, item),
    ensures
        item_read(*b, root, rel, vk, i, item),
{
    lemma_accepted_stable(vk, a, b, item);
    if value_accepted(vk, a.nodes(), item) {
        lemma_links_value_extends(a, b, root, relation_view_for(rel, RelKey::Index(i as usize)), vk, item);
    }
}

/// A read one-key map stays read when the graph grows.
pub proof fn lemma_keyed_item_read_extends(a: &Ast, b: &Ast, root: int, rel: RelKind, vk: ValueKind, n: int, i: int, item: int)
    requires
        a.wf(),
        b.extends(a),
        0 <= item < a.nodes().len(),
        0 <= n < a.nodes().len(),
        keyed_item_read(*a, root, rel, vk, n, i, item),
    ensures
        keyed_item_read(*b, root, rel, vk, n, i, item),
{
    assert(b.nodes()[item] == a.nodes()[item]);
    assert(yaml_children_before(a.nodes(), item));
    match yaml_map(a.nodes()[item]) {
        None => lemma_error_at_extends(a, b, ErrorView::UnexpectedType("map"@), n),
        Some(es) => {
            if es.len() == 0 {
                lemma_error_at_extends(a, b, ErrorView::Custom("expected a key"@), item);
            } else {
                let kh = es[0].0 as int;
                let vh = es[0].1 as int;
                assert(b.nodes()[kh] == a.nodes()[kh]);
                lemma_accepted_stable(vk, a, b, vh);
                match yaml_str(a.nodes()[kh]) {
                    Some(key) => {
                        if value_accepted(vk, a.nodes(), vh) {
                            lemma_links_value_extends(a, b, root, relation_view_for(rel, RelKey::Pair(key, i as usize)), vk, vh);
                        }
                    },
                    None => lemma_error_at_extends(a, b, ErrorView::UnexpectedType("string"@), kh),
                }
                if es.len() > 1 {
                    lemma_error_at_extends(a, b, ErrorView::Custom("expected only one key"@), item);
                }
            }
        },
    }
}

/// A read artifact stays read when the graph grows.
pub proof fn lemma_artifact_read_extends(a: &Ast, b: &Ast, root: int, n: int, rv: RelationView)
    requires
        a.wf(),
        b.extends(a),
        0 <= n < a.nodes().len(),
        artifact_read(*a, root, n, rv),
    ensures
        artifact_read(*b, root, n, rv),
{
    assert(b.nodes()[n] == a.nodes()[n]);
    if yaml_map(a.nodes()[n]) is Some {
        let e = choose|e: int| artifact_loc(*a, e, n);
        assert(b.edges()[e] == a.edges()[e]);
        assert(b.nodes()[a.edges()[e].0 as int] == a.nodes()[a.edges()[e].0 as int]);
        assert(artifact_loc(*b, e, n));
    } else if is_str_or_null(a.nodes()[n]) {
        lemma_refers_extends(a, b, root, n, Entity::Node(NodeEntity), Entity::Artifact(ArtifactEntity), LookupKind::Definition, rv);
    } else {
        lemma_error_at_extends(a, b, ErrorView::UnexpectedType("map or string"@), n);
    }
}

/// A field read by its rule stays read when the graph grows.
pub proof fn lemma_rule_read_extends(a: &Ast, b: &Ast, rule: FieldRule, root: int, n: int)
    requires
        a.wf(),
        b.extends(a),
        0 <= n < a.nodes().len(),
        rule_read(*a, rule, root, n),
    ensures
        rule_read(*b, rule, root, n),
{
    assert(b.nodes()[n] == a.nodes()[n]);
    assert(yaml_children_before(a.nodes(), n));
    match rule {
        FieldRule::Ignore => {},
        FieldRule::Field(rel, vk) => {
            lemma_accepted_stable(vk, a, b, n);
            if value_accepted(vk, a.nodes(), n) {
                lemma_links_value_extends(a, b, root, relation_view_for(rel, RelKey::Unit), vk, n);
            }
        },
        FieldRule::Collection(rel, vk) => {
            match yaml_map(a.nodes()[n]) {
                None => lemma_error_at_extends(a, b, ErrorView::UnexpectedType("map"@), n),
                Some(es) => {
                    assert forall|j: int| 0 <= j < es.len() implies #[trigger] entry_read(*b, root, rel, vk, es[j]) by {
                        lemma_entry_read_extends(a, b, root, rel, vk, es[j]);
                    }
                },
            }
        },
        FieldRule::List(rel, vk) => {
            match yaml_list(a.nodes()[n]) {
                None => lemma_error_at_extends(a, b, ErrorView::UnexpectedType("list"@), n),
                Some(items) => {
                    assert forall|i: int| 0 <= i < items.len() implies #[trigger] item_read(*b, root, rel, vk, i, items[i] as int) by {
                        lemma_item_read_extends(a, b, root, rel, vk, i, items[i] as int);
                    }
                },
            }
        },
        FieldRule::KeyedList(rel, vk) => {
            match yaml_list(a.nodes()[n]) {
                None => lemma_error_at_extends(a, b, ErrorView::UnexpectedType("list"@), n),
                Some(items) => {
                    assert forall|i: int| 0 <= i < items.len() implies #[trigger] keyed_item_read(*b, root, rel, vk, n, i, items[i] as int) by {
                        lemma_keyed_item_read_extends(a, b, root, rel, vk, n, i, items[i] as int);
                    }
                },
            }
        },
        FieldRule::TypeRef(what, rel) => {
            lemma_ref_read_extends(a, b, root, n, Entity::File(FileEntity), what, LookupKind::Type, relation_view_for(rel, RelKey::Unit));
        },
        FieldRule::DefRef(place, what, rel) => {
            lemma_ref_read_extends(a, b, root, n, place, what, LookupKind::Definition, relation_view_for(rel, RelKey::Unit));
        },
        FieldRule::TypeRefList(what, rel) => {
            lemma_ref_list_read_extends(a, b, root, n, Entity::File(FileEntity), what, LookupKind::Type, relation_view_for(rel, RelKey::Unit));
        },
        FieldRule::DefRefList(place, what, rel) => {
            lemma_ref_list_read_extends(a, b, root, n, place, what, LookupKind::Definition, relation_view_for(rel, RelKey::Unit));
        },
        FieldRule::ArtifactRef(rel) => {
            lemma_artifact_read_extends(a, b, root, n, relation_view_for(rel, RelKey::Unit));
        },
        FieldRule::ArtifactRefList(rel) => {
            match yaml_list(a.nodes()[n]) {
                None => lemma_error_at_extends(a, b, ErrorView::UnexpectedType("list"@), n),
                Some(items) => {
                    assert forall|i: int| 0 <= i < items.len() implies #[trigger] artifact_read(*b, root, items[i] as int, relation_view_for(rel, RelKey::Unit)) by {
                        lemma_artifact_read_extends(a, b, root, items[i] as int, relation_view_for(rel, RelKey::Unit));
                    }
                },
            }
        },
    }
}

/// A read list of references stays read when the graph grows.
pub proof fn lemma_ref_list_read_extends(
    a: &Ast,
    b: &Ast,
    root: int,
    n: int,
    place: Entity,
    what: Entity,
    kind: LookupKind,
    rv: RelationView,
)
    requires
        a.wf(),
        b.extends(a),
        0 <= n < a.nodes().len(),
        ref_list_read(*a, root, n, place, what, kind, rv),
    ensures
        ref_list_read(*b, root, n, place, what, kind, rv),
{
    assert(b.nodes()[n] == a.nodes()[n]);
    assert(yaml_children_before(a.nodes(), n));
    match yaml_list(a.nodes()[n]) {
        None => lemma_error_at_extends(a, b, ErrorView::UnexpectedType("list"@), n),
        Some(items) => {
            assert forall|i: int| 0 <= i < items.len() implies #[trigger] ref_read(*b, root, items[i] as int, place, what, kind, rv) by {
                lemma_ref_read_extends(a, b, root, items[i] as int, place, what, kind, rv);
            }
        },
    }
}

/// A read entry of a definition stays read when the graph grows.
pub proof fn lemma_schema_entry_read_extends(a: &Ast, b: &Ast, v: ToscaVersion, k: DefKind, root: int, entry: (usize, usize))
    requires
        a.wf(),
        b.extends(a),
        entry.0 < a.nodes().len(),
        entry.1 < a.nodes().len(),
        schema_entry_read(*a, v, k, root, entry),
    ensures
        schema_entry_read(*b, v, k, root, entry),
{
    assert(b.nodes()[entry.0 as int] == a.nodes()[entry.0 as int]);
    match yaml_str(a.nodes()[entry.0 as int]) {
        None => lemma_error_at_extends(a, b, ErrorView::UnexpectedType("string"@), entry.0 as int),
        Some(key) => match schema_rule(v, k, key@) {
            None => lemma_error_at_extends(a, b, ErrorView::UnknownField(key@), entry.0 as int),
            Some(rule) => lemma_rule_read_extends(a, b, rule, root, entry.1 as int),
        },
    }
}

/// Read fields stay read when the graph grows.
pub proof fn lemma_fields_read_extends(a: &Ast, b: &Ast, v: ToscaVersion, k: DefKind, root: int, n: int)
    requires
        a.wf(),
        b.extends(a),
        0 <= n < a.nodes().len(),
        fields_read(*a, v, k, root, n),
    ensures
        fields_read(*b, v, k, root, n),
{
    assert(b.nodes()[n] == a.nodes()[n]);
    assert(yaml_children_before(a.nodes(), n));
    if let Some(es) = yaml_map(a.nodes()[n]) {
        assert forall|j: int| 0 <= j < es.len() implies #[trigger] schema_entry_read(*b, v, k, root, es[j]) by {
            lemma_schema_entry_read_extends(a, b, v, k, root, es[j]);
        }
        lemma_string_keys_stable(a.nodes(), b.nodes(), es, n);
        let errs = validation_errors(k, string_keys(a.nodes(), es));
        assert forall|t: int| 0 <= t < errs.len() implies error_at(*b, #[trigger] errs[t], n) by {
            lemma_error_at_extends(a, b, errs[t], n);
        }
    }
}

/// The string keys of a map's entries are the same in nodes that agree on
/// the nodes below the map.
pub proof fn lemma_string_keys_stable(a: Seq<AstEntity>, b: Seq<AstEntity>, es: Seq<(usize, usize)>, n: int)
    requires
        n <= a.len() <= b.len(),
        forall|i: int| 0 <= i < a.len() ==> #[trigger] b[i] == a[i],
        forall|j: int| 0 <= j < es.len() ==> (#[trigger] es[j]).0 < n,
    ensures
        string_keys(a, es) == string_keys(b, es),
    decreases es.len(),
{
    if es.len() > 0 {
        assert forall|j: int| 0 <= j < es.drop_last().len() implies (#[trigger] es.drop_last()[j]).0 < n by {
            assert(es.drop_last()[j] == es[j]);
        }
        lemma_string_keys_stable(a, b, es.drop_last(), n);
        assert(b[es.last().0 as int] == a[es.last().0 as int]);
    }
}

} // verus!
