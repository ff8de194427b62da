//! The grammar engine: reading a YAML node as a definition of a given kind,
//! field by field, by the rules of `schema_rule`.
use vstd::prelude::*;

use crate::ast::{
    added_error, is_error, lemma_added_error_at, lemma_error_at_extends, lemma_extends_refl,
    lemma_extends_trans, link_to_at, yaml_children_before, error_at, Ast,
    AstEntity, AstRelation, ErrorView, ParseError, ParseLoc, YamlEntity,
};
use crate::grammar::outcome::{
    artifact_list_read, artifact_read, collection_read, entry_read, item_read, keyed_item_read,
    keyed_list_read, lemma_accepted_stable, lemma_artifact_read_extends, lemma_entry_read_extends,
    lemma_item_read_extends, lemma_keyed_item_read_extends, lemma_ref_read_extends,
    lemma_referenced_read, lemma_schema_entry_read_extends, list_read, ref_list_read, ref_read,
    rule_read, schema_entry_read, value_accepted, fields_read, definition_read,
    plain_definition_read, ref_edge, lemma_created_stable,
    lemma_links_value_extends, lemma_value_node_stable, links_value, loc_edge, value_link,
    value_node, artifact_loc, lemma_string_keys_stable,
};
use crate::models::{FileEntity, LookupKind, RelationView};
use crate::grammar::field_ref::{DefRef, FieldRef, TypeRef};
use crate::grammar::value::{
    is_str_or_null, kind_checked, status_named, status_outcome, AnyValue, BoolValue, IntValue, NullableStringValue, StatusValue, StringValue,
};
use crate::grammar::{
    entity_of, error_views, field_names, field_rule, make_relation, relation_view_for, schema_rule,
    self_entity, slot, validate, validation_errors, DefKind, FieldRule, RelKey, RelKind,
    ToscaVersion, ValueKind,
};
use crate::models::{
    ArtifactEntity, DefinitionRelation, Entity, HasTypeRelation, NodeEntity, OperationRelation,
    Relation, RelationshipEntity, RepositoryUrlRelation, ServiceTemplateEntity, ImportUrlRelation,
    WorkflowRelation, CapabilityEntity, DataEntity,
};
use crate::grammar::steps::{
    collection_steps, entry_step, entry_step_at, entry_steps, field_step, first_key_step, item_step_at,
    item_steps, keyed_item_step, keyed_item_step_at, keyed_item_steps, keyed_list_steps, list_steps,
    one_link_added, value_step,
};
use crate::grammar::valid::{
    lemma_name_list_prefix, lemma_valid_definition_unfold, valid_definition, valid_fields, valid_name_list, valid_rule, valid_rule_in, valid_value, valid_value_in,
};
use crate::yaml::{as_list, as_map, as_string, str_eq, yaml_list, yaml_map, yaml_str};

verus! {

/// A copy of a parse error.
fn copy_error(e: &ParseError) -> (r: ParseError)
    ensures
        r@ == e@,
{
    match e {
        ParseError::UnexpectedType(s) => ParseError::UnexpectedType(s),
        ParseError::MissingField(s) => ParseError::MissingField(s),
        ParseError::UnknownField(s) => ParseError::UnknownField(s.clone()),
        ParseError::Custom(s) => ParseError::Custom(s.clone()),
    }
}

/// The texts of the keys of `entries` that are YAML strings, in order.
pub open spec fn string_keys(nodes: Seq<AstEntity>, entries: Seq<(usize, usize)>) -> Seq<Seq<char>>
    decreases entries.len(),
{
    if entries.len() == 0 {
        Seq::empty()
    } else {
        let prefix = string_keys(nodes, entries.drop_last());
        match yaml_str(nodes[entries.last().0 as int]) {
            Some(s) => prefix.push(s@),
            None => prefix,
        }
    }
}

/// The kind of workflow activity that a one-key map names by its first key.
pub open spec fn activity_kind(nodes: Seq<AstEntity>, n: int) -> Option<DefKind> {
    match yaml_map(nodes[n]) {
        Some(es) => if es.len() > 0 {
            match yaml_str(nodes[es[0].0 as int]) {
                Some(s) => if s@ == "delegate"@ {
                    Some(DefKind::WorkflowDelegateActivity)
                } else if s@ == "inline"@ {
                    Some(DefKind::WorkflowInlineActivity)
                } else if s@ == "set_state"@ {
                    Some(DefKind::WorkflowSetStateActivity)
                } else if s@ == "call_operation"@ {
                    Some(DefKind::WorkflowCallOperationActivity)
                } else {
                    None
                },
                None => None,
            }
        } else {
            None
        },
        None => None,
    }
}

/// Where, and with what error, a node that names no workflow activity is
/// refused: a node that is not a map, or an empty map, at the node; a map
/// whose first key is not a string, or names no kind of activity, at that
/// key.
pub open spec fn activity_refusal(nodes: Seq<AstEntity>, n: int) -> (int, ErrorView) {
    match yaml_map(nodes[n]) {
        None => (n, ErrorView::UnexpectedType("map"@)),
        Some(es) => if es.len() == 0 {
            (n, ErrorView::Custom("expected a key"@))
        } else if yaml_str(nodes[es[0].0 as int]) is None {
            (es[0].0 as int, ErrorView::UnexpectedType("string"@))
        } else {
            (es[0].0 as int, ErrorView::Custom("unknown activity kind"@))
        },
    }
}

/// Whether a node is a YAML map, string or null.
pub open spec fn is_map_str_or_null(w: AstEntity) -> bool {
    yaml_map(w) is Some || is_str_or_null(w)
}

/// Whether a definition of kind `k` is read from node `n` (rather than
/// refused with an error).
pub open spec fn accepts(k: DefKind, nodes: Seq<AstEntity>, n: int) -> bool {
    match k {
        DefKind::Import | DefKind::Import13 | DefKind::Capability | DefKind::Relationship
        | DefKind::RelationshipAssignment | DefKind::RequirementAssignment
        | DefKind::Implementation13 | DefKind::WorkflowDelegateActivity
        | DefKind::WorkflowInlineActivity | DefKind::WorkflowSetStateActivity
        | DefKind::WorkflowCallOperationActivity => true,
        DefKind::Schema | DefKind::Implementation | DefKind::Repository => is_map_str_or_null(nodes[n]),
        DefKind::WorkflowActivity => activity_kind(nodes, n) is Some,
        _ => yaml_map(nodes[n]) is Some,
    }
}

/// The entity that reading a definition of kind `k` from node `n` creates.
pub open spec fn created_entity(k: DefKind, nodes: Seq<AstEntity>, n: int) -> Entity {
    if k == DefKind::WorkflowActivity {
        entity_of(activity_kind(nodes, n).unwrap())
    } else {
        entity_of(k)
    }
}

/// The node that the entity created for a definition of kind `k` read from
/// node `n` is located at: the node itself, or for a workflow activity the
/// value of its key.
pub open spec fn created_at(k: DefKind, nodes: Seq<AstEntity>, n: int) -> int {
    if k == DefKind::WorkflowActivity {
        yaml_map(nodes[n]).unwrap()[0].1 as int
    } else {
        n
    }
}

/// Node `h` is the first thing added to `old`: the entity `e`, located at
/// node `at` by the first edge added.
pub open spec fn created(old: Ast, new: Ast, h: usize, e: Entity, at: int) -> bool {
    &&& h == old.nodes().len()
    &&& h < new.nodes().len()
    &&& new.nodes()[h as int] == AstEntity::Tosca(e)
    &&& old.edges().len() < new.edges().len()
    &&& new.edges()[old.edges().len() as int] == (h, at as usize, AstRelation::Parse(ParseLoc))
}

/// What reading a definition of kind `k` from node `n` gives: an entity if
/// and only if the definition is accepted there, created first and located
/// at its node.
pub open spec fn definition_outcome(k: DefKind, old: Ast, new: Ast, n: int, r: Option<usize>) -> bool {
    &&& (r is Some <==> accepts(k, old.nodes(), n))
    &&& (r matches Some(h) ==> created(old, new, h, created_entity(k, old.nodes(), n), created_at(k, old.nodes(), n)))
}

/// The last `errs.len()` nodes of `new` are the errors `errs`, in order.
pub open spec fn ends_with_errors(new: Ast, errs: Seq<ErrorView>) -> bool {
    &&& errs.len() <= new.nodes().len()
    &&& forall|t: int|
        0 <= t < errs.len() ==> is_error(#[trigger] new.nodes()[new.nodes().len() - errs.len() + t], errs[t])
}

/// What reading a value of kind `vk` from node `n` gives.
pub open spec fn value_outcome(vk: ValueKind, old: Ast, new: Ast, n: int, r: Option<usize>) -> bool {
    match vk {
        ValueKind::Def(k) => definition_outcome(k, old, new, n, r),
        ValueKind::Any => r == Some(n as usize) && new == old,
        ValueKind::String => kind_checked(old, new, n, yaml_str(old.nodes()[n]) is Some, "string"@, r),
        ValueKind::NullableString => kind_checked(old, new, n, is_str_or_null(old.nodes()[n]), "string"@, r),
        ValueKind::Int => kind_checked(
            old,
            new,
            n,
            old.nodes()[n] matches AstEntity::Yaml(YamlEntity::Int(_)),
            "integer"@,
            r,
        ),
        ValueKind::Bool => kind_checked(
            old,
            new,
            n,
            old.nodes()[n] matches AstEntity::Yaml(YamlEntity::Bool(_)),
            "bool"@,
            r,
        ),
        ValueKind::Status => status_outcome(old, new, n, r),
    }
}

/// Reading a value gives a node exactly when the value is accepted.
proof fn lemma_outcome_accepted(vk: ValueKind, old: Ast, new: Ast, n: int, r: Option<usize>)
    requires
        value_outcome(vk, old, new, n, r),
    ensures
        r is Some <==> value_accepted(vk, old.nodes(), n),
{
}

/// Reading a value that gives a node gives what `value_node` says.
proof fn lemma_outcome_node(vk: ValueKind, old: &Ast, new: &Ast, n: usize, h: usize)
    requires
        old.wf(),
        new.extends(old),
        n < old.nodes().len(),
        value_outcome(vk, *old, *new, n as int, Some(h)),
    ensures
        value_node(*new, vk, n as int, h as int),
{
    let n = n as int;
    assert(new.nodes()[n] == old.nodes()[n]);
    match vk {
        ValueKind::Def(k) => {
            lemma_created_stable(k, old, new, n);
            assert(created(*old, *new, h, created_entity(k, old.nodes(), n), created_at(k, old.nodes(), n)));
            assert(loc_edge(*new, old.edges().len() as int, h as int, created_at(k, new.nodes(), n)));
        },
        ValueKind::Status => {
            let s = yaml_str(old.nodes()[n])->Some_0;
            let st = status_named(s@)->Some_0;
            assert(new.nodes() == old.nodes().push(AstEntity::Tosca(Entity::Status(st))));
            assert(new.nodes()[h as int] == AstEntity::Tosca(Entity::Status(st)));
            assert(loc_edge(*new, old.edges().len() as int, h as int, n));
        },
        _ => {},
    }
}

/// Reads node `n` as a value of kind `vk`.
pub fn parse_value(v: ToscaVersion, vk: ValueKind, n: usize, ast: &mut Ast) -> (r: Option<usize>)
    requires
        old(ast).wf(),
        n < old(ast).nodes().len(),
    ensures
        final(ast).wf(),
        final(ast).extends(old(ast)),
        r matches Some(h) ==> h < final(ast).nodes().len(),
        value_step(vk, *old(ast), *final(ast), n as int, r),
        vk matches ValueKind::Def(k) ==> (r matches Some(h) ==> definition_read(*final(ast), v, k, n as int, h as int)),
        valid_value(v, vk, old(ast).nodes(), n as int) ==> no_new_errors(*old(ast), *final(ast)),
    decreases n, 7nat,
{
    let ghost start = *ast;
    proof {
        let s = start.nodes().take(n as int + 1);
        assert(s[n as int] == start.nodes()[n as int]);
        assert(s.take(n as int + 1) =~= s);
    }
    let r = match vk {
        ValueKind::String => StringValue::parse(n, ast),
        ValueKind::NullableString => NullableStringValue::parse(n, ast),
        ValueKind::Int => IntValue::parse(n, ast),
        ValueKind::Bool => BoolValue::parse(n, ast),
        ValueKind::Any => AnyValue::parse(n, ast),
        ValueKind::Status => StatusValue::parse(n, ast),
        ValueKind::Def(k) => parse_definition(v, k, n, ast),
    };
    proof {
        if valid_value(v, vk, start.nodes(), n as int) {
            let s = start.nodes().take(n as int + 1);
            assert(valid_value_in(v, vk, s, n as int));
            match vk {
                ValueKind::Def(k) => {
                    assert(valid_definition(v, k, start.nodes(), n as int));
                },
                ValueKind::Status => {
                    assert(value_accepted(vk, start.nodes(), n as int));
                    assert(ast.nodes()[start.nodes().len() as int] is Tosca);
                },
                _ => {
                    assert(value_accepted(vk, start.nodes(), n as int));
                },
            }
        }
    }
    r
}

/// Reads node `n`, which must be a map, as a definition of kind `k`: an
/// entity located at the node, then its fields.
pub fn parse_schema_entity(v: ToscaVersion, k: DefKind, n: usize, ast: &mut Ast) -> (r: Option<usize>)
    requires
        old(ast).wf(),
        n < old(ast).nodes().len(),
    ensures
        final(ast).wf(),
        final(ast).extends(old(ast)),
        r is Some <==> yaml_map(old(ast).nodes()[n as int]) is Some,
        r matches Some(h) ==> created(*old(ast), *final(ast), h, entity_of(k), n as int),
        r matches Some(h) ==> fields_read(*final(ast), v, k, h as int, n as int),
        r is None ==> added_error(*old(ast), *final(ast), n as int, ErrorView::UnexpectedType("map"@)),
        valid_fields(v, k, old(ast).nodes(), n as int) ==> no_new_errors(*old(ast), *final(ast)),
    decreases n, 4nat,
{
    let ghost start = *ast;
    match as_map(n, ast) {
        Some(entries) => {
            let h = ast.add_with_loc(AstEntity::Tosca(self_entity(k)), n);
            let ghost mid = *ast;
            proof {
                assert(start.nodes().take(n as int + 1) =~= mid.nodes().take(n as int + 1));
                assert(mid.nodes()[start.nodes().len() as int] is Tosca);
            }
            parse_schema(v, k, h, n, &entries, ast);
            proof {
                if valid_fields(v, k, start.nodes(), n as int) {
                    lemma_no_new_errors_trans(&start, &mid, ast);
                }
                lemma_extends_trans(&start, &mid, ast);
                assert(ast.nodes()[h as int] == mid.nodes()[h as int]);
                assert(ast.edges()[start.edges().len() as int] == mid.edges()[start.edges().len() as int]);
                assert(ast.nodes()[n as int] == start.nodes()[n as int]);
                assert(yaml_children_before(mid.nodes(), n as int));
                assert(mid.nodes()[n as int] == start.nodes()[n as int]);
                lemma_string_keys_stable(mid.nodes(), ast.nodes(), entries@, n as int);
            }
            Some(h)
        },
        None => {
            ast.add_error(ParseError::UnexpectedType("map"), n);
            None
        },
    }
}

/// Reads the fields `entries` of the map at node `n` into the definition
/// `root` of kind `k`: each string key by its rule, an unknown key as an
/// error, a key that is not a string as an error; then the field checks of
/// the kind, whose errors come last, located at `n`. Returns the keys read.
pub fn parse_schema(
    v: ToscaVersion,
    k: DefKind,
    root: usize,
    n: usize,
    entries: &Vec<(usize, usize)>,
    ast: &mut Ast,
) -> (fields: Vec<String>)
    requires
        old(ast).wf(),
        root < old(ast).nodes().len(),
        n < old(ast).nodes().len(),
        yaml_map(old(ast).nodes()[n as int]) == Some(entries@),
    ensures
        final(ast).wf(),
        final(ast).extends(old(ast)),
        field_names(fields@) == string_keys(old(ast).nodes(), entries@),
        ends_with_errors(*final(ast), validation_errors(k, string_keys(old(ast).nodes(), entries@))),
        forall|t: int| 0 <= t < validation_errors(k, string_keys(old(ast).nodes(), entries@)).len() ==> error_at(
            *final(ast),
            #[trigger] validation_errors(k, string_keys(old(ast).nodes(), entries@))[t],
            n as int,
        ),
        forall|j: int| 0 <= j < entries@.len() ==> #[trigger] schema_entry_read(*final(ast), v, k, root as int, entries@[j]),
        valid_fields(v, k, old(ast).nodes(), n as int) ==> no_new_errors(*old(ast), *final(ast)),
    decreases n, 2nat,
{
    let ghost start = *ast;
    let ghost sn = start.nodes().take(n as int + 1);
    proof {
        lemma_extends_refl(ast);
        assert(yaml_children_before(start.nodes(), n as int));
        assert(sn[n as int] == start.nodes()[n as int]);
        assert(sn.take(n as int + 1) =~= sn);
    }
    let mut fields: Vec<String> = Vec::new();
    let mut i: usize = 0;
    while i < entries.len()
        invariant
            ast.wf(),
            ast.extends(&start),
            root < start.nodes().len(),
            n < start.nodes().len(),
            i <= entries@.len(),
            forall|j: int| 0 <= j < entries@.len() ==> (#[trigger] entries@[j]).0 < n && entries@[j].1 < n,
            field_names(fields@) == string_keys(start.nodes(), entries@.subrange(0, i as int)),
            start.wf(),
            forall|j: int| 0 <= j < i ==> #[trigger] schema_entry_read(*ast, v, k, root as int, entries@[j]),
            sn == start.nodes().take(n as int + 1),
            yaml_map(sn[n as int]) == Some(entries@),
            valid_fields(v, k, start.nodes(), n as int) ==> no_new_errors(start, *ast),
        decreases entries@.len() - i,
    {
        let (kh, vh) = entries[i];
        let ghost before = *ast;
        assert(ast.nodes()[kh as int] == start.nodes()[kh as int]);
        assert(valid_fields(v, k, start.nodes(), n as int) ==> (yaml_str(start.nodes()[kh as int]) matches Some(key)
            && (schema_rule(v, k, key@) matches Some(rule) && valid_rule(v, rule, before.nodes(), vh as int)))) by {
            if valid_fields(v, k, start.nodes(), n as int) {
                assert(sn.take(n as int + 1) =~= sn);
                assert(entries@[i as int] == (kh, vh));
                assert(sn[kh as int] == start.nodes()[kh as int]);
                assert(sn.take(vh as int + 1) =~= before.nodes().take(vh as int + 1));
            }
        }
        match as_string(kh, ast) {
            Some(key) => {
                match field_rule(v, k, key.as_str()) {
                    Some(rule) => {
                        apply_rule(v, rule, root, vh, ast);
                        proof {
                            if valid_fields(v, k, start.nodes(), n as int) {
                                lemma_no_new_errors_trans(&start, &before, ast);
                            }
                        }
                    },
                    None => {
                        ast.add_error(ParseError::UnknownField(key.clone()), kh);
                        proof { lemma_added_error_at(&before, ast, kh as int, ErrorView::UnknownField(key@)); }
                    },
                }
                proof { lemma_extends_trans(&start, &before, ast); }
                fields.push(key);
            },
            None => {
                ast.add_error(ParseError::UnexpectedType("string"), kh);
                proof {
                    lemma_added_error_at(&before, ast, kh as int, ErrorView::UnexpectedType("string"@));
                    lemma_extends_trans(&start, &before, ast);
                }
            },
        }
        proof {
            assert(ast.nodes()[kh as int] == before.nodes()[kh as int]);
            assert forall|j: int| 0 <= j < i + 1 implies #[trigger] schema_entry_read(*ast, v, k, root as int, entries@[j]) by {
                if j < i {
                    lemma_schema_entry_read_extends(&before, ast, v, k, root as int, entries@[j]);
                }
            }
        }
        proof {
            assert(entries@.subrange(0, i + 1).drop_last() =~= entries@.subrange(0, i as int));
            assert(field_names(fields@) =~= string_keys(start.nodes(), entries@.subrange(0, i + 1)));
        }
        i = i + 1;
    }
    assert(entries@.subrange(0, entries@.len() as int) =~= entries@);
    let errs = validate(k, &fields);
    let ghost mid = *ast;
    proof {
        if valid_fields(v, k, start.nodes(), n as int) {
            lemma_string_keys_stable(sn, start.nodes(), entries@, n as int);
            assert(error_views(errs@).len() == errs@.len());
        }
    }
    let mut j: usize = 0;
    while j < errs.len()
        invariant
            ast.wf(),
            ast.extends(&mid),
            mid.extends(&start),
            n < start.nodes().len(),
            j <= errs@.len(),
            ast.nodes().len() == mid.nodes().len() + j,
            forall|t: int|
                0 <= t < j ==> is_error(#[trigger] ast.nodes()[mid.nodes().len() + t], error_views(errs@)[t]),
            forall|t: int| 0 <= t < j ==> error_at(*ast, #[trigger] error_views(errs@)[t], n as int),
        decreases errs@.len() - j,
    {
        let ghost before = *ast;
        let e = copy_error(&errs[j]);
        ast.add_error(e, n);
        proof {
            lemma_extends_trans(&mid, &before, ast);
            lemma_added_error_at(&before, ast, n as int, error_views(errs@)[j as int]);
            assert forall|t: int| 0 <= t < j implies error_at(*ast, #[trigger] error_views(errs@)[t], n as int) by {
                lemma_error_at_extends(&before, ast, error_views(errs@)[t], n as int);
            }
            assert forall|t: int| 0 <= t < j + 1 implies is_error(#[trigger] ast.nodes()[mid.nodes().len() + t], error_views(errs@)[t]) by {
                if t < j {
                    assert(ast.nodes()[mid.nodes().len() + t] == before.nodes()[mid.nodes().len() + t]);
                }
            }
        }
        j = j + 1;
    }
    proof {
        lemma_extends_trans(&start, &mid, ast);
        if valid_fields(v, k, start.nodes(), n as int) {
            assert(ast.nodes().len() == mid.nodes().len());
            lemma_no_new_errors_trans(&start, &mid, ast);
        }
        assert forall|j: int| 0 <= j < entries@.len() implies #[trigger] schema_entry_read(*ast, v, k, root as int, entries@[j]) by {
            lemma_schema_entry_read_extends(&mid, ast, v, k, root as int, entries@[j]);
        }
        let errv = validation_errors(k, string_keys(start.nodes(), entries@));
        assert(errv == error_views(errs@));
        assert forall|t: int| 0 <= t < errv.len() implies is_error(#[trigger] ast.nodes()[ast.nodes().len() - errv.len() + t], errv[t]) by {
            assert(ast.nodes().len() - errv.len() + t == mid.nodes().len() + t);
        }
    }
    fields
}

/// Applies the field rule `rule` to the value at node `n` of the definition
/// `root`.
pub fn apply_rule(v: ToscaVersion, rule: FieldRule, root: usize, n: usize, ast: &mut Ast)
    requires
        old(ast).wf(),
        root < old(ast).nodes().len(),
        n < old(ast).nodes().len(),
    ensures
        final(ast).wf(),
        final(ast).extends(old(ast)),
        rule == FieldRule::Ignore ==> *final(ast) == *old(ast),
        rule_read(*final(ast), rule, root as int, n as int),
        valid_rule(v, rule, old(ast).nodes(), n as int) ==> no_new_errors(*old(ast), *final(ast)),
    decreases n, 10nat,
{
    let ghost start = *ast;
    proof { lemma_extends_refl(ast); }
    match rule {
        FieldRule::Ignore => {},
        FieldRule::Field(rel, vk) => {
            Field::parse(v, rel, vk, RelKey::Unit, root, n, ast);
            proof { lemma_accepted_stable(vk, &start, ast, n as int); }
        },
        FieldRule::Collection(rel, vk) => CollectionRelator::parse(v, rel, vk, root, n, ast),
        FieldRule::List(rel, vk) => ListRelator::parse(v, rel, vk, root, n, ast),
        FieldRule::KeyedList(rel, vk) => KeyedListRelator::parse(v, rel, vk, root, n, ast),
        FieldRule::TypeRef(what, rel) => {
            TypeRef::parse(what, rel, root, n, ast);
            proof {
                lemma_referenced_read(&start, ast, root as int, n as int, Entity::File(FileEntity), what, LookupKind::Type, relation_view_for(rel, RelKey::Unit));
            }
        },
        FieldRule::TypeRefList(what, rel) => type_ref_list(what, rel, root, n, ast),
        FieldRule::DefRef(place, what, rel) => {
            DefRef::parse(place, what, rel, root, n, ast);
            proof {
                lemma_referenced_read(&start, ast, root as int, n as int, place, what, LookupKind::Definition, relation_view_for(rel, RelKey::Unit));
            }
        },
        FieldRule::DefRefList(place, what, rel) => def_ref_list(place, what, rel, root, n, ast),
        FieldRule::ArtifactRef(rel) => ArtifactRefOrDefinition::parse(v, rel, root, n, ast),
        FieldRule::ArtifactRefList(rel) => artifact_ref_list(v, rel, root, n, ast),
    }
    proof {
        if valid_rule(v, rule, start.nodes(), n as int) {
            let sn = start.nodes().take(n as int + 1);
            assert(sn[n as int] == start.nodes()[n as int]);
            assert(sn.take(n as int + 1) =~= sn);
            assert(valid_rule_in(v, rule, sn, n as int));
            match rule {
                FieldRule::TypeRefList(_, _) | FieldRule::DefRefList(_, _, _) => {
                    lemma_name_list_prefix(start.nodes(), n as int);
                },
                _ => {},
            }
        }
    }
}

/// No error node was added to `old`, giving `new`.
pub open spec fn no_new_errors(old: Ast, new: Ast) -> bool {
    forall|i: int| old.nodes().len() <= i < new.nodes().len() ==> !(#[trigger] new.nodes()[i] is Parse)
}

/// No error added, twice, is no error added.
proof fn lemma_no_new_errors_trans(a: &Ast, b: &Ast, c: &Ast)
    requires
        b.extends(a),
        c.extends(b),
        no_new_errors(*a, *b),
        no_new_errors(*b, *c),
    ensures
        no_new_errors(*a, *c),
{
    assert forall|i: int| a.nodes().len() <= i < c.nodes().len() implies !(#[trigger] c.nodes()[i] is Parse) by {
        if i < b.nodes().len() {
            assert(c.nodes()[i] == b.nodes()[i]);
        }
    }
}

/// One field: its value is read, and linked to the definition.
pub struct Field;

impl Field {
    /// Reads the value at node `n` as `vk` and, if it is read, links it to
    /// `root` by the relation of kind `rel` made with `key`.
    pub fn parse(
        v: ToscaVersion,
        rel: RelKind,
        vk: ValueKind,
        key: RelKey,
        root: usize,
        n: usize,
        ast: &mut Ast,
    ) -> (r: Option<usize>)
        requires
            old(ast).wf(),
            root < old(ast).nodes().len(),
            n < old(ast).nodes().len(),
        ensures
            final(ast).wf(),
            final(ast).extends(old(ast)),
            r is Some <==> value_accepted(vk, old(ast).nodes(), n as int),
            r matches Some(h) ==> {
                &&& final(ast).edges().last().0 == root
                &&& final(ast).edges().last().1 == h
                &&& final(ast).edges().last().2 matches AstRelation::Tosca(x)
                    && x@ == relation_view_for(rel, key)
            },
            r matches Some(h) ==> value_node(*final(ast), vk, n as int, h as int),
            r is Some ==> links_value(*final(ast), root as int, relation_view_for(rel, key), vk, n as int),
            valid_value(v, vk, old(ast).nodes(), n as int) ==> no_new_errors(*old(ast), *final(ast)),
            field_step(vk, relation_view_for(rel, key), root as int, n as int, *old(ast), *final(ast)),
        decreases n, 9nat,
    {
        let ghost start = *ast;
        let ghost keyg = key;
        let r = parse_value(v, vk, n, ast);
        let ghost mid = *ast;
        proof { lemma_outcome_accepted(vk, start, *ast, n as int, r); }
        if let Some(h) = r {
            proof { lemma_outcome_node(vk, &start, &mid, n, h); }
            let relation = make_relation(rel, &key);
            ast.add_edge(root, h, AstRelation::Tosca(relation));
            proof {
                lemma_extends_trans(&start, &mid, ast);
                lemma_value_node_stable(vk, &mid, ast, n as int, h as int);
                assert(value_link(*ast, mid.edges().len() as int, root as int, relation_view_for(rel, keyg), vk, n as int));
                assert(ast.edges().drop_last() =~= mid.edges());
                assert(one_link_added(mid, *ast, root as int, h as int, relation_view_for(rel, keyg)));
            }
        }
        proof {
            assert(value_step(vk, start, mid, n as int, r));
            assert(ast.nodes() == mid.nodes());
            if valid_value(v, vk, start.nodes(), n as int) {
                lemma_no_new_errors_trans(&start, &mid, ast);
            }
        }
        r
    }
}

/// A map of values, each linked by its key.
pub struct CollectionRelator;

impl CollectionRelator {
    pub fn parse(v: ToscaVersion, rel: RelKind, vk: ValueKind, root: usize, n: usize, ast: &mut Ast)
        requires
            old(ast).wf(),
            root < old(ast).nodes().len(),
            n < old(ast).nodes().len(),
        ensures
            final(ast).wf(),
            final(ast).extends(old(ast)),
            collection_steps(vk, rel, root as int, n as int, *old(ast), *final(ast)),
            collection_read(*final(ast), root as int, rel, vk, n as int),
            valid_rule(v, FieldRule::Collection(rel, vk), old(ast).nodes(), n as int) ==> no_new_errors(*old(ast), *final(ast)),
        decreases n, 9nat,
    {
        let ghost start = *ast;
        proof {
            lemma_extends_refl(ast);
            assert(yaml_children_before(start.nodes(), n as int));
        }
        match as_map(n, ast) {
            None => {
                ast.add_error(ParseError::UnexpectedType("map"), n);
                proof { lemma_added_error_at(&start, ast, n as int, ErrorView::UnexpectedType("map"@)); }
            },
            Some(entries) => {
                let ghost mut gs: Seq<Ast> = seq![start];
                let mut i: usize = 0;
                while i < entries.len()
                    invariant
                        ast.wf(),
                        start.wf(),
                        ast.extends(&start),
                        root < start.nodes().len(),
                        n < start.nodes().len(),
                        i <= entries@.len(),
                        forall|j: int| 0 <= j < entries@.len() ==> (#[trigger] entries@[j]).0 < n && entries@[j].1 < n,
                        forall|j: int| 0 <= j < i ==> #[trigger] entry_read(*ast, root as int, rel, vk, entries@[j]),
                        yaml_map(start.nodes()[n as int]) == Some(entries@),
                        valid_rule(v, FieldRule::Collection(rel, vk), start.nodes(), n as int) ==> no_new_errors(start, *ast),
                        gs.len() == i + 1,
                        gs[0] == start,
                        gs[i as int] == *ast,
                        forall|j: int| 0 <= j < i ==> #[trigger] entry_step_at(vk, rel, root as int, entries@, gs, j),
                    decreases entries@.len() - i,
                {
                    let (kh, vh) = entries[i];
                    let ghost before = *ast;
                    assert(ast.nodes()[kh as int] == start.nodes()[kh as int]);
                    match as_string(kh, ast) {
                        Some(key) => {
                            proof { lemma_accepted_stable(vk, &start, &before, vh as int); }
                            Field::parse(v, rel, vk, RelKey::Name(key), root, vh, ast);
                            proof {
                                lemma_accepted_stable(vk, &before, ast, vh as int);
                                if valid_rule(v, FieldRule::Collection(rel, vk), start.nodes(), n as int) {
                                    let sn = start.nodes().take(n as int + 1);
                                    assert(sn[n as int] == start.nodes()[n as int]);
                                    assert(entries@[i as int].1 < n);
                                    assert(sn.take(vh as int + 1) =~= before.nodes().take(vh as int + 1));
                                    assert(valid_value(v, vk, before.nodes(), vh as int));
                                    lemma_no_new_errors_trans(&start, &before, ast);
                                }
                            }
                        },
                        None => {
                            ast.add_error(ParseError::UnexpectedType("string"), kh);
                            proof {
                                lemma_added_error_at(&before, ast, kh as int, ErrorView::UnexpectedType("string"@));
                                let sn = start.nodes().take(n as int + 1);
                                assert(sn[n as int] == start.nodes()[n as int]);
                                assert(sn[kh as int] == start.nodes()[kh as int]);
                                assert(!valid_rule(v, FieldRule::Collection(rel, vk), start.nodes(), n as int));
                            }
                        },
                    }
                    proof {
                        lemma_extends_trans(&start, &before, ast);
                        assert(ast.nodes()[kh as int] == before.nodes()[kh as int]);
                        assert forall|j: int| 0 <= j < i + 1 implies #[trigger] entry_read(*ast, root as int, rel, vk, entries@[j]) by {
                            if j < i {
                                lemma_entry_read_extends(&before, ast, root as int, rel, vk, entries@[j]);
                            }
                        }
                        assert(before.nodes()[kh as int] == start.nodes()[kh as int]);
                        assert(entry_step(vk, rel, root as int, entries@[i as int], before, *ast));
                        let gs2 = gs.push(*ast);
                        assert forall|j: int| 0 <= j < i + 1 implies #[trigger] entry_step_at(vk, rel, root as int, entries@, gs2, j) by {
                            if j < i {
                                assert(gs2[j] == gs[j]);
                                assert(gs2[j + 1] == gs[j + 1]);
                                assert(entry_step_at(vk, rel, root as int, entries@, gs, j));
                            }
                        }
                        gs = gs2;
                    }
                    i = i + 1;
                }
                proof {
                    assert(ast.nodes()[n as int] == start.nodes()[n as int]);
                    assert(entry_steps(vk, rel, root as int, entries@, gs));
                }
            },
        }
    }
}

/// A list of values, each linked by its position.
pub struct ListRelator;

impl ListRelator {
    pub fn parse(v: ToscaVersion, rel: RelKind, vk: ValueKind, root: usize, n: usize, ast: &mut Ast)
        requires
            old(ast).wf(),
            root < old(ast).nodes().len(),
            n < old(ast).nodes().len(),
        ensures
            final(ast).wf(),
            final(ast).extends(old(ast)),
            list_steps(vk, rel, root as int, n as int, *old(ast), *final(ast)),
            list_read(*final(ast), root as int, rel, vk, n as int),
            valid_rule(v, FieldRule::List(rel, vk), old(ast).nodes(), n as int) ==> no_new_errors(*old(ast), *final(ast)),
        decreases n, 9nat,
    {
        let ghost start = *ast;
        proof {
            lemma_extends_refl(ast);
            assert(yaml_children_before(start.nodes(), n as int));
        }
        match as_list(n, ast) {
            None => {
                ast.add_error(ParseError::UnexpectedType("list"), n);
                proof { lemma_added_error_at(&start, ast, n as int, ErrorView::UnexpectedType("list"@)); }
            },
            Some(items) => {
                let ghost mut gs: Seq<Ast> = seq![start];
                let mut i: usize = 0;
                while i < items.len()
                    invariant
                        ast.wf(),
                        ast.extends(&start),
                        root < start.nodes().len(),
                        n < start.nodes().len(),
                        start.wf(),
                        i <= items@.len(),
                        forall|j: int| 0 <= j < items@.len() ==> #[trigger] items@[j] < n,
                        forall|j: int| 0 <= j < i ==> #[trigger] item_read(*ast, root as int, rel, vk, j, items@[j] as int),
                        yaml_list(start.nodes()[n as int]) == Some(items@),
                        valid_rule(v, FieldRule::List(rel, vk), start.nodes(), n as int) ==> no_new_errors(start, *ast),
                        gs.len() == i + 1,
                        gs[0] == start,
                        gs[i as int] == *ast,
                        forall|j: int| 0 <= j < i ==> #[trigger] item_step_at(vk, rel, root as int, items@, gs, j),
                    decreases items@.len() - i,
                {
                    let ghost before = *ast;
                    proof { lemma_accepted_stable(vk, &start, &before, items@[i as int] as int); }
                    Field::parse(v, rel, vk, RelKey::Index(i), root, items[i], ast);
                    proof {
                        if valid_rule(v, FieldRule::List(rel, vk), start.nodes(), n as int) {
                            let sn = start.nodes().take(n as int + 1);
                            let c = items@[i as int] as int;
                            assert(sn[n as int] == start.nodes()[n as int]);
                            assert(sn.take(c + 1) =~= before.nodes().take(c + 1));
                            assert(valid_value(v, vk, before.nodes(), c));
                            lemma_no_new_errors_trans(&start, &before, ast);
                        }
                        lemma_extends_trans(&start, &before, ast);
                        lemma_accepted_stable(vk, &before, ast, items@[i as int] as int);
                        assert forall|j: int| 0 <= j < i + 1 implies #[trigger] item_read(*ast, root as int, rel, vk, j, items@[j] as int) by {
                            if j < i {
                                lemma_item_read_extends(&before, ast, root as int, rel, vk, j, items@[j] as int);
                            }
                        }
                        let gs2 = gs.push(*ast);
                        assert forall|j: int| 0 <= j < i + 1 implies #[trigger] item_step_at(vk, rel, root as int, items@, gs2, j) by {
                            if j < i {
                                assert(gs2[j] == gs[j]);
                                assert(gs2[j + 1] == gs[j + 1]);
                                assert(item_step_at(vk, rel, root as int, items@, gs, j));
                            }
                        }
                        gs = gs2;
                    }
                    i = i + 1;
                }
                proof {
                    assert(ast.nodes()[n as int] == start.nodes()[n as int]);
                    assert(item_steps(vk, rel, root as int, items@, gs));
                }
            },
        }
    }
}

/// A list of one-key maps, each value linked by its key and position.
pub struct KeyedListRelator;

impl KeyedListRelator {
    pub fn parse(v: ToscaVersion, rel: RelKind, vk: ValueKind, root: usize, n: usize, ast: &mut Ast)
        requires
            old(ast).wf(),
            root < old(ast).nodes().len(),
            n < old(ast).nodes().len(),
        ensures
            final(ast).wf(),
            final(ast).extends(old(ast)),
            keyed_list_steps(vk, rel, root as int, n as int, *old(ast), *final(ast)),
            keyed_list_read(*final(ast), root as int, rel, vk, n as int),
            valid_rule(v, FieldRule::KeyedList(rel, vk), old(ast).nodes(), n as int) ==> no_new_errors(*old(ast), *final(ast)),
        decreases n, 9nat,
    {
        let ghost start = *ast;
        proof {
            lemma_extends_refl(ast);
            assert(yaml_children_before(start.nodes(), n as int));
        }
        match as_list(n, ast) {
            None => {
                ast.add_error(ParseError::UnexpectedType("list"), n);
                proof { lemma_added_error_at(&start, ast, n as int, ErrorView::UnexpectedType("list"@)); }
            },
            Some(items) => {
                let ghost mut gs: Seq<Ast> = seq![start];
                let mut i: usize = 0;
                while i < items.len()
                    invariant
                        ast.wf(),
                        ast.extends(&start),
                        root < start.nodes().len(),
                        n < start.nodes().len(),
                        start.wf(),
                        i <= items@.len(),
                        forall|j: int| 0 <= j < items@.len() ==> #[trigger] items@[j] < n,
                        forall|j: int| 0 <= j < i ==> #[trigger] keyed_item_read(*ast, root as int, rel, vk, n as int, j, items@[j] as int),
                        yaml_list(start.nodes()[n as int]) == Some(items@),
                        valid_rule(v, FieldRule::KeyedList(rel, vk), start.nodes(), n as int) ==> no_new_errors(start, *ast),
                        gs.len() == i + 1,
                        gs[0] == start,
                        gs[i as int] == *ast,
                        forall|j: int| 0 <= j < i ==> #[trigger] keyed_item_step_at(vk, rel, root as int, n as int, items@, gs, j),
                    decreases items@.len() - i,
                {
                    let item = items[i];
                    let ghost before = *ast;
                    proof {
                        assert(yaml_children_before(start.nodes(), item as int));
                        assert(ast.nodes()[item as int] == start.nodes()[item as int]);
                        let sn = start.nodes().take(n as int + 1);
                        assert(sn[n as int] == start.nodes()[n as int]);
                        assert(sn[item as int] == start.nodes()[item as int]);
                        assert(items@[i as int] == item);
                        if valid_rule(v, FieldRule::KeyedList(rel, vk), start.nodes(), n as int) {
                            let es = yaml_map(sn[item as int])->Some_0;
                            assert(sn[es[0].0 as int] == start.nodes()[es[0].0 as int]);
                        }
                        assert(valid_rule(v, FieldRule::KeyedList(rel, vk), start.nodes(), n as int) ==> (
                            yaml_map(start.nodes()[item as int]) matches Some(es) && es.len() == 1
                                && yaml_str(start.nodes()[es[0].0 as int]) is Some));
                    }
                    match as_map(item, ast) {
                        None => {
                            ast.add_error(ParseError::UnexpectedType("map"), n);
                            proof { lemma_added_error_at(&before, ast, n as int, ErrorView::UnexpectedType("map"@)); }
                        },
                        Some(entries) => {
                            if entries.len() == 0 {
                                ast.add_error(ParseError::Custom(String::from_str("expected a key")), item);
                                proof { lemma_added_error_at(&before, ast, item as int, ErrorView::Custom("expected a key"@)); }
                            } else {
                                let (kh, vh) = entries[0];
                                assert(entries@[0].0 < item && entries@[0].1 < item);
                                match as_string(kh, ast) {
                                    Some(key) => {
                                        proof {
                                            assert(yaml_children_before(start.nodes(), item as int));
                                            lemma_accepted_stable(vk, &start, &before, vh as int);
                                        }
                                        Field::parse(v, rel, vk, RelKey::Pair(key, i), root, vh, ast);
                                        proof {
                                            lemma_accepted_stable(vk, &before, ast, vh as int);
                                            if valid_rule(v, FieldRule::KeyedList(rel, vk), start.nodes(), n as int) {
                                                let sn = start.nodes().take(n as int + 1);
                                                assert(sn[n as int] == start.nodes()[n as int]);
                                                assert(sn[item as int] == start.nodes()[item as int]);
                                                assert(sn.take(vh as int + 1) =~= before.nodes().take(vh as int + 1));
                                                assert(valid_value(v, vk, before.nodes(), vh as int));
                                                lemma_no_new_errors_trans(&start, &before, ast);
                                            }
                                        }
                                    },
                                    None => {
                                        ast.add_error(ParseError::UnexpectedType("string"), kh);
                                        proof {
                                            lemma_added_error_at(&before, ast, kh as int, ErrorView::UnexpectedType("string"@));
                                            assert(before.nodes()[kh as int] == start.nodes()[kh as int]);
                                        }
                                    },
                                }
                                let ghost first = *ast;
                                proof {
                                    assert(ast.nodes()[kh as int] == before.nodes()[kh as int]);
                                    assert(ast.nodes()[item as int] == before.nodes()[item as int]);
                                    assert(first_key_step(vk, rel, root as int, i as int, entries@[0], before, first));
                                }
                                if entries.len() > 1 {
                                    ast.add_error(
                                        ParseError::Custom(String::from_str("expected only one key")),
                                        item,
                                    );
                                    proof {
                                        lemma_extends_trans(&before, &first, ast);
                                        lemma_added_error_at(&first, ast, item as int, ErrorView::Custom("expected only one key"@));
                                        lemma_accepted_stable(vk, &first, ast, vh as int);
                                        assert(ast.nodes()[kh as int] == first.nodes()[kh as int]);
                                        match yaml_str(first.nodes()[kh as int]) {
                                            Some(key) => {
                                                if value_accepted(vk, first.nodes(), vh as int) {
                                                    lemma_links_value_extends(&first, ast, root as int, relation_view_for(rel, RelKey::Pair(key, i)), vk, vh as int);
                                                }
                                            },
                                            None => lemma_error_at_extends(&first, ast, ErrorView::UnexpectedType("string"@), kh as int),
                                        }
                                    }
                                }
                            }
                        },
                    }
                    proof {
                        lemma_extends_trans(&start, &before, ast);
                        assert(ast.nodes()[item as int] == before.nodes()[item as int]);
                        assert forall|j: int| 0 <= j < i + 1 implies #[trigger] keyed_item_read(*ast, root as int, rel, vk, n as int, j, items@[j] as int) by {
                            if j < i {
                                lemma_keyed_item_read_extends(&before, ast, root as int, rel, vk, n as int, j, items@[j] as int);
                            }
                        }
                        assert(keyed_item_step(vk, rel, root as int, n as int, i as int, item as int, before, *ast));
                        let gs2 = gs.push(*ast);
                        assert forall|j: int| 0 <= j < i + 1 implies #[trigger] keyed_item_step_at(vk, rel, root as int, n as int, items@, gs2, j) by {
                            if j < i {
                                assert(gs2[j] == gs[j]);
                                assert(gs2[j + 1] == gs[j + 1]);
                                assert(keyed_item_step_at(vk, rel, root as int, n as int, items@, gs, j));
                            }
                        }
                        gs = gs2;
                    }
                    i = i + 1;
                }
                proof {
                    assert(ast.nodes()[n as int] == start.nodes()[n as int]);
                    assert(keyed_item_steps(vk, rel, root as int, n as int, items@, gs));
                }
            },
        }
    }
}

/// A list of type references.
pub fn type_ref_list(what: Entity, link_by: RelKind, root: usize, n: usize, ast: &mut Ast)
    requires
        old(ast).wf(),
        root < old(ast).nodes().len(),
        n < old(ast).nodes().len(),
    ensures
        final(ast).wf(),
        final(ast).extends(old(ast)),
        yaml_list(old(ast).nodes()[n as int]) is None ==> added_error(
            *old(ast),
            *final(ast),
            n as int,
            ErrorView::UnexpectedType("list"@),
        ),
        ref_list_read(*final(ast), root as int, n as int, Entity::File(FileEntity), what, LookupKind::Type, relation_view_for(link_by, RelKey::Unit)),
        valid_name_list(old(ast).nodes(), n as int) ==> no_new_errors(*old(ast), *final(ast)),
{
    let ghost start = *ast;
    proof {
        lemma_extends_refl(ast);
        assert(yaml_children_before(start.nodes(), n as int));
    }
    match as_list(n, ast) {
        None => {
            ast.add_error(ParseError::UnexpectedType("list"), n);
            proof { lemma_added_error_at(&start, ast, n as int, ErrorView::UnexpectedType("list"@)); }
        },
        Some(items) => {
            let mut i: usize = 0;
            while i < items.len()
                invariant
                    ast.wf(),
                    start.wf(),
                    ast.extends(&start),
                    root < start.nodes().len(),
                    n < start.nodes().len(),
                    i <= items@.len(),
                    forall|j: int| 0 <= j < items@.len() ==> #[trigger] items@[j] < n,
                    forall|j: int| 0 <= j < i ==> #[trigger] ref_read(*ast, root as int, items@[j] as int, Entity::File(FileEntity), what, LookupKind::Type, relation_view_for(link_by, RelKey::Unit)),
                    yaml_list(start.nodes()[n as int]) == Some(items@),
                    valid_name_list(start.nodes(), n as int) ==> no_new_errors(start, *ast),
                decreases items@.len() - i,
            {
                let ghost before = *ast;
                proof {
                    assert(items@[i as int] < n);
                    assert(before.nodes()[items@[i as int] as int] == start.nodes()[items@[i as int] as int]);
                }
                TypeRef::parse(what, link_by, root, items[i], ast);
                proof {
                    lemma_extends_trans(&start, &before, ast);
                    lemma_referenced_read(&before, ast, root as int, items@[i as int] as int, Entity::File(FileEntity), what, LookupKind::Type, relation_view_for(link_by, RelKey::Unit));
                    if valid_name_list(start.nodes(), n as int) {
                        assert(yaml_list(start.nodes()[n as int])->Some_0[i as int] == items@[i as int]);
                        assert(is_str_or_null(before.nodes()[items@[i as int] as int]));
                        assert(ast.nodes() == before.nodes());
                        lemma_no_new_errors_trans(&start, &before, ast);
                    }
                    assert forall|j: int| 0 <= j < i + 1 implies #[trigger] ref_read(*ast, root as int, items@[j] as int, Entity::File(FileEntity), what, LookupKind::Type, relation_view_for(link_by, RelKey::Unit)) by {
                        if j < i {
                            lemma_ref_read_extends(&before, ast, root as int, items@[j] as int, Entity::File(FileEntity), what, LookupKind::Type, relation_view_for(link_by, RelKey::Unit));
                        }
                    }
                }
                i = i + 1;
            }
            proof {
                assert(ast.nodes()[n as int] == start.nodes()[n as int]);
            }
        },
    }
}

/// A list of definition references.
pub fn def_ref_list(place: Entity, what: Entity, link_by: RelKind, root: usize, n: usize, ast: &mut Ast)
    requires
        old(ast).wf(),
        root < old(ast).nodes().len(),
        n < old(ast).nodes().len(),
    ensures
        final(ast).wf(),
        final(ast).extends(old(ast)),
        yaml_list(old(ast).nodes()[n as int]) is None ==> added_error(
            *old(ast),
            *final(ast),
            n as int,
            ErrorView::UnexpectedType("list"@),
        ),
        ref_list_read(*final(ast), root as int, n as int, place, what, LookupKind::Definition, relation_view_for(link_by, RelKey::Unit)),
        valid_name_list(old(ast).nodes(), n as int) ==> no_new_errors(*old(ast), *final(ast)),
{
    let ghost start = *ast;
    proof {
        lemma_extends_refl(ast);
        assert(yaml_children_before(start.nodes(), n as int));
    }
    match as_list(n, ast) {
        None => {
            ast.add_error(ParseError::UnexpectedType("list"), n);
            proof { lemma_added_error_at(&start, ast, n as int, ErrorView::UnexpectedType("list"@)); }
        },
        Some(items) => {
            let mut i: usize = 0;
            while i < items.len()
                invariant
                    ast.wf(),
                    start.wf(),
                    ast.extends(&start),
                    root < start.nodes().len(),
                    n < start.nodes().len(),
                    i <= items@.len(),
                    forall|j: int| 0 <= j < items@.len() ==> #[trigger] items@[j] < n,
                    forall|j: int| 0 <= j < i ==> #[trigger] ref_read(*ast, root as int, items@[j] as int, place, what, LookupKind::Definition, relation_view_for(link_by, RelKey::Unit)),
                    yaml_list(start.nodes()[n as int]) == Some(items@),
                    valid_name_list(start.nodes(), n as int) ==> no_new_errors(start, *ast),
                decreases items@.len() - i,
            {
                let ghost before = *ast;
                proof {
                    assert(items@[i as int] < n);
                    assert(before.nodes()[items@[i as int] as int] == start.nodes()[items@[i as int] as int]);
                }
                DefRef::parse(place, what, link_by, root, items[i], ast);
                proof {
                    lemma_extends_trans(&start, &before, ast);
                    lemma_referenced_read(&before, ast, root as int, items@[i as int] as int, place, what, LookupKind::Definition, relation_view_for(link_by, RelKey::Unit));
                    if valid_name_list(start.nodes(), n as int) {
                        assert(yaml_list(start.nodes()[n as int])->Some_0[i as int] == items@[i as int]);
                        assert(is_str_or_null(before.nodes()[items@[i as int] as int]));
                        assert(ast.nodes() == before.nodes());
                        lemma_no_new_errors_trans(&start, &before, ast);
                    }
                    assert forall|j: int| 0 <= j < i + 1 implies #[trigger] ref_read(*ast, root as int, items@[j] as int, place, what, LookupKind::Definition, relation_view_for(link_by, RelKey::Unit)) by {
                        if j < i {
                            lemma_ref_read_extends(&before, ast, root as int, items@[j] as int, place, what, LookupKind::Definition, relation_view_for(link_by, RelKey::Unit));
                        }
                    }
                }
                i = i + 1;
            }
            proof {
                assert(ast.nodes()[n as int] == start.nodes()[n as int]);
            }
        },
    }
}

/// A list of artifact definitions or references.
pub fn artifact_ref_list(v: ToscaVersion, link_by: RelKind, root: usize, n: usize, ast: &mut Ast)
    requires
        old(ast).wf(),
        root < old(ast).nodes().len(),
        n < old(ast).nodes().len(),
    ensures
        final(ast).wf(),
        final(ast).extends(old(ast)),
        yaml_list(old(ast).nodes()[n as int]) is None ==> added_error(
            *old(ast),
            *final(ast),
            n as int,
            ErrorView::UnexpectedType("list"@),
        ),
        artifact_list_read(*final(ast), root as int, n as int, relation_view_for(link_by, RelKey::Unit)),
        valid_rule(v, FieldRule::ArtifactRefList(link_by), old(ast).nodes(), n as int) ==> no_new_errors(*old(ast), *final(ast)),
    decreases n, 9nat,
{
    let ghost start = *ast;
    proof {
        lemma_extends_refl(ast);
        assert(yaml_children_before(start.nodes(), n as int));
    }
    match as_list(n, ast) {
        None => {
            ast.add_error(ParseError::UnexpectedType("list"), n);
            proof { lemma_added_error_at(&start, ast, n as int, ErrorView::UnexpectedType("list"@)); }
        },
        Some(items) => {
            let mut i: usize = 0;
            while i < items.len()
                invariant
                    ast.wf(),
                    start.wf(),
                    ast.extends(&start),
                    root < start.nodes().len(),
                    n < start.nodes().len(),
                    i <= items@.len(),
                    forall|j: int| 0 <= j < items@.len() ==> #[trigger] items@[j] < n,
                    forall|j: int| 0 <= j < i ==> #[trigger] artifact_read(*ast, root as int, items@[j] as int, relation_view_for(link_by, RelKey::Unit)),
                    yaml_list(start.nodes()[n as int]) == Some(items@),
                    valid_rule(v, FieldRule::ArtifactRefList(link_by), start.nodes(), n as int) ==> no_new_errors(start, *ast),
                decreases items@.len() - i,
            {
                let ghost before = *ast;
                proof {
                    let c = items@[i as int] as int;
                    let sn = start.nodes().take(n as int + 1);
                    let bt = before.nodes().take(c + 1);
                    assert(sn[n as int] == start.nodes()[n as int]);
                    assert(c < n);
                    assert(sn[c] == bt[c]);
                    assert(sn.take(c + 1) =~= bt.take(c + 1));
                    assert(bt.take(c + 1) =~= bt);
                    assert(valid_rule(v, FieldRule::ArtifactRefList(link_by), start.nodes(), n as int) ==> valid_rule(
                        v,
                        FieldRule::ArtifactRef(link_by),
                        before.nodes(),
                        c,
                    ));
                }
                ArtifactRefOrDefinition::parse(v, link_by, root, items[i], ast);
                proof {
                    if valid_rule(v, FieldRule::ArtifactRefList(link_by), start.nodes(), n as int) {
                        lemma_no_new_errors_trans(&start, &before, ast);
                    }
                    lemma_extends_trans(&start, &before, ast);
                    assert forall|j: int| 0 <= j < i + 1 implies #[trigger] artifact_read(*ast, root as int, items@[j] as int, relation_view_for(link_by, RelKey::Unit)) by {
                        if j < i {
                            lemma_artifact_read_extends(&before, ast, root as int, items@[j] as int, relation_view_for(link_by, RelKey::Unit));
                        }
                    }
                }
                i = i + 1;
            }
            proof {
                assert(ast.nodes()[n as int] == start.nodes()[n as int]);
            }
        },
    }
}

/// An artifact given in place, or the name of an artifact defined in the
/// node.
pub struct ArtifactRefOrDefinition;

impl ArtifactRefOrDefinition {
    /// Reads node `n`: a map is read as an artifact definition; a string or
    /// null is a reference to an artifact of the node, linked to `root` by
    /// a relation of kind `link_by`.
    pub fn parse(v: ToscaVersion, link_by: RelKind, root: usize, n: usize, ast: &mut Ast)
        requires
            old(ast).wf(),
            root < old(ast).nodes().len(),
            n < old(ast).nodes().len(),
        ensures
            final(ast).wf(),
            final(ast).extends(old(ast)),
            !is_map_str_or_null(old(ast).nodes()[n as int]) ==> added_error(
                *old(ast),
                *final(ast),
                n as int,
                ErrorView::UnexpectedType("map or string"@),
            ),
            artifact_read(*final(ast), root as int, n as int, relation_view_for(link_by, RelKey::Unit)),
            valid_rule(v, FieldRule::ArtifactRef(link_by), old(ast).nodes(), n as int) ==> no_new_errors(*old(ast), *final(ast)),
        decreases n, 8nat,
    {
        let ghost start = *ast;
        proof {
            lemma_extends_refl(ast);
            let sn = start.nodes().take(n as int + 1);
            assert(sn[n as int] == start.nodes()[n as int]);
            assert(sn.take(n as int + 1) =~= sn);
        }
        match ast.node(n) {
            AstEntity::Yaml(YamlEntity::Mapping(_)) => {
                let k = slot(v, DefKind::Artifact);
                parse_definition(v, k, n, ast);
                proof {
                    let e = start.edges().len() as int;
                    assert(artifact_loc(*ast, e, n as int));
                }
            },
            AstEntity::Yaml(YamlEntity::Str(_)) | AstEntity::Yaml(YamlEntity::Null) => {
                DefRef::parse(
                    Entity::Node(NodeEntity),
                    Entity::Artifact(ArtifactEntity),
                    link_by,
                    root,
                    n,
                    ast,
                );
                proof {
                    lemma_referenced_read(&start, ast, root as int, n as int, Entity::Node(NodeEntity), Entity::Artifact(ArtifactEntity), LookupKind::Definition, relation_view_for(link_by, RelKey::Unit));
                }
            },
            _ => {
                ast.add_error(ParseError::UnexpectedType("map or string"), n);
                proof { lemma_added_error_at(&start, ast, n as int, ErrorView::UnexpectedType("map or string"@)); }
            },
        }
        proof { assert(ast.nodes()[n as int] == start.nodes()[n as int]); }
    }
}

/// Reads node `n` as a definition of kind `k` under version `v`.
pub fn parse_definition(v: ToscaVersion, k: DefKind, n: usize, ast: &mut Ast) -> (r: Option<usize>)
    requires
        old(ast).wf(),
        n < old(ast).nodes().len(),
    ensures
        final(ast).wf(),
        final(ast).extends(old(ast)),
        r matches Some(h) ==> h < final(ast).nodes().len(),
        definition_outcome(k, *old(ast), *final(ast), n as int, r),
        r matches Some(h) ==> definition_read(*final(ast), v, k, n as int, h as int),
        short_form_at(k, old(ast).nodes(), n as int) ==> short_form_added(k, *old(ast), *final(ast), n as int),
        r is None ==> added_error(*old(ast), *final(ast), refusal(k, old(ast).nodes(), n as int).0, refusal(k, old(ast).nodes(), n as int).1),
        k == DefKind::WorkflowActivity ==> activity_short_form_added(*old(ast), *final(ast), n as int),
        valid_definition(v, k, old(ast).nodes(), n as int) ==> no_new_errors(*old(ast), *final(ast)),
    decreases n, 6nat,
{
    let ghost start = *ast;
    let ghost sn = start.nodes().take(n as int + 1);
    proof {
        lemma_extends_refl(ast);
        assert(sn[n as int] == start.nodes()[n as int]);
        assert(sn.take(n as int + 1) =~= sn);
        lemma_valid_definition_unfold(v, k, start.nodes(), n as int);
    }
    match k {
        DefKind::WorkflowActivity => {
            let r = parse_activity(v, n, ast);
            proof {
                if let Some(h) = r {
                    assert(definition_read(*ast, v, DefKind::WorkflowActivity, n as int, h as int));
                }
            }
            r
        },
        DefKind::Import | DefKind::Import13 | DefKind::Capability | DefKind::Relationship
        | DefKind::RelationshipAssignment | DefKind::RequirementAssignment
        | DefKind::Implementation13 | DefKind::WorkflowDelegateActivity
        | DefKind::WorkflowInlineActivity | DefKind::WorkflowSetStateActivity
        | DefKind::WorkflowCallOperationActivity => {
            let h = ast.add_with_loc(AstEntity::Tosca(self_entity(k)), n);
            let ghost mid = *ast;
            proof {
                assert(sn =~= mid.nodes().take(n as int + 1));
                assert(mid.nodes()[start.nodes().len() as int] is Tosca);
            }
            parse_map_or_string(v, k, h, n, ast);
            proof {
                if valid_definition(v, k, start.nodes(), n as int) {
                    lemma_no_new_errors_trans(&start, &mid, ast);
                }
                lemma_extends_trans(&start, &mid, ast);
                assert(ast.nodes()[h as int] == mid.nodes()[h as int]);
                assert(ast.edges()[start.edges().len() as int] == mid.edges()[start.edges().len() as int]);
            }
            Some(h)
        },
        DefKind::Schema | DefKind::Implementation | DefKind::Repository => {
            match ast.node(n) {
                AstEntity::Yaml(YamlEntity::Mapping(_)) => parse_schema_entity(v, k, n, ast),
                AstEntity::Yaml(YamlEntity::Str(_)) | AstEntity::Yaml(YamlEntity::Null) => {
                    let h = ast.add_with_loc(AstEntity::Tosca(self_entity(k)), n);
                    let ghost mid = *ast;
                    proof { assert(mid.nodes()[start.nodes().len() as int] is Tosca); }
                    match k {
                        DefKind::Schema => {
                            TypeRef::parse(Entity::Data(DataEntity), RelKind::HasType, h, n, ast);
                            proof {
                                lemma_referenced_read(&mid, ast, h as int, n as int, Entity::File(FileEntity), Entity::Data(DataEntity), LookupKind::Type, relation_view_for(RelKind::HasType, RelKey::Unit));
                            }
                        },
                        DefKind::Implementation => {
                            DefRef::parse(
                                Entity::Node(NodeEntity),
                                Entity::Artifact(ArtifactEntity),
                                RelKind::PrimaryArtifact,
                                h,
                                n,
                                ast,
                            );
                            proof {
                                lemma_referenced_read(&mid, ast, h as int, n as int, Entity::Node(NodeEntity), Entity::Artifact(ArtifactEntity), LookupKind::Definition, relation_view_for(RelKind::PrimaryArtifact, RelKey::Unit));
                            }
                        },
                        _ => {
                            ast.add_edge(h, n, AstRelation::Tosca(Relation::RepositoryUrl(RepositoryUrlRelation)));
                            proof {
                                assert(link_to_at(*ast, mid.edges().len() as int, h as int, n as int, RelationView::RepositoryUrl));
                            }
                        },
                    }
                    proof {
                        assert(ast.nodes()[n as int] == start.nodes()[n as int]);
                        assert(ast.nodes() == mid.nodes());
                        lemma_no_new_errors_trans(&start, &mid, ast);
                        lemma_extends_trans(&start, &mid, ast);
                        assert(ast.nodes()[h as int] == mid.nodes()[h as int]);
                        assert(ast.edges()[start.edges().len() as int] == mid.edges()[start.edges().len() as int]);
                    }
                    Some(h)
                },
                _ => {
                    ast.add_error(ParseError::UnexpectedType("map or string"), n);
                    None
                },
            }
        },
        _ => parse_schema_entity(v, k, n, ast),
    }
}

/// The kinds whose definitions are a map or a string, and always create
/// their entity.
pub open spec fn map_or_string_kind(k: DefKind) -> bool {
    match k {
        DefKind::Import | DefKind::Import13 | DefKind::Capability | DefKind::Relationship
        | DefKind::RelationshipAssignment | DefKind::RequirementAssignment
        | DefKind::Implementation13 | DefKind::WorkflowDelegateActivity
        | DefKind::WorkflowInlineActivity | DefKind::WorkflowSetStateActivity
        | DefKind::WorkflowCallOperationActivity => true,
        _ => false,
    }
}

/// The kinds whose definitions may be a string or null in place of a map,
/// and create their entity only then.
pub open spec fn nullable_form_kind(k: DefKind) -> bool {
    k == DefKind::Schema || k == DefKind::Implementation || k == DefKind::Repository
}

/// Whether a definition of kind `k` is read from node `n` in its short
/// form: `set_state` always, the others where the node is not a map.
pub open spec fn short_form_at(k: DefKind, nodes: Seq<AstEntity>, n: int) -> bool {
    &&& map_or_string_kind(k) || nullable_form_kind(k)
    &&& k == DefKind::WorkflowSetStateActivity || yaml_map(nodes[n]) is None
}

/// Whether the short form of a definition of kind `k` takes the node `w`:
/// a string or null for the kinds that may be null, a string otherwise.
pub open spec fn short_form_taken(k: DefKind, w: AstEntity) -> bool {
    if nullable_form_kind(k) {
        is_str_or_null(w)
    } else {
        yaml_str(w) is Some
    }
}

/// What reading the short form of a definition of kind `k` from node `n`
/// added to `old`, giving `new`, and nothing else: for a node it takes, the
/// entity and its location, and one link; otherwise one error, after the
/// entity and its location for the kinds that always create it.
pub open spec fn short_form_added(k: DefKind, old: Ast, new: Ast, n: int) -> bool {
    if short_form_taken(k, old.nodes()[n]) {
        new.nodes().len() == old.nodes().len() + 1 && new.edges().len() == old.edges().len() + 2
    } else if map_or_string_kind(k) {
        &&& new.nodes().len() == old.nodes().len() + 2
        &&& new.edges().len() == old.edges().len() + 2
        &&& is_error(new.nodes().last(), short_form_error(k))
        &&& new.edges().last() == ((new.nodes().len() - 1) as usize, n as usize, AstRelation::Parse(ParseLoc))
    } else {
        added_error(old, new, n, ErrorView::UnexpectedType("map or string"@))
    }
}

/// The error for a node that the short form of a kind that always creates
/// its entity does not take: `set_state` wants a string, the others a map
/// or a string.
pub open spec fn short_form_error(k: DefKind) -> ErrorView {
    if k == DefKind::WorkflowSetStateActivity {
        ErrorView::UnexpectedType("string"@)
    } else {
        ErrorView::UnexpectedType("map or string"@)
    }
}

/// Where, and with what error, a definition of kind `k` at node `n` is
/// refused: an activity as `activity_refusal` says; a kind that may be a
/// string or null, at the node, for wanting a map or a string; any other
/// kind that is refused, at the node, for wanting a map.
pub open spec fn refusal(k: DefKind, nodes: Seq<AstEntity>, n: int) -> (int, ErrorView) {
    if k == DefKind::WorkflowActivity {
        activity_refusal(nodes, n)
    } else if nullable_form_kind(k) {
        (n, ErrorView::UnexpectedType("map or string"@))
    } else {
        (n, ErrorView::UnexpectedType("map"@))
    }
}

/// What reading a workflow activity from node `n` added, where the kind its
/// key names is read in its short form: as `short_form_added` says, from the
/// value of the key.
pub open spec fn activity_short_form_added(old: Ast, new: Ast, n: int) -> bool {
    match activity_kind(old.nodes(), n) {
        Some(kind) => {
            let at = created_at(DefKind::WorkflowActivity, old.nodes(), n);
            short_form_at(kind, old.nodes(), at) ==> short_form_added(kind, old, new, at)
        },
        None => true,
    }
}

/// The short or long form of the definitions that always create their
/// entity `h`: a map is read field by field; a string is read by the kind's
/// short form; anything else is an error.
fn parse_map_or_string(v: ToscaVersion, k: DefKind, h: usize, n: usize, ast: &mut Ast)
    requires
        map_or_string_kind(k),
        old(ast).wf(),
        h < old(ast).nodes().len(),
        n < old(ast).nodes().len(),
    ensures
        final(ast).wf(),
        final(ast).extends(old(ast)),
        plain_definition_read(*final(ast), v, k, n as int, h as int),
        short_form_at(k, old(ast).nodes(), n as int) ==> if short_form_taken(k, old(ast).nodes()[n as int]) {
            final(ast).nodes().len() == old(ast).nodes().len() && final(ast).edges().len() == old(ast).edges().len() + 1
        } else {
            added_error(*old(ast), *final(ast), n as int, short_form_error(k))
        },
        valid_definition(v, k, old(ast).nodes(), n as int) ==> no_new_errors(*old(ast), *final(ast)),
    decreases n, 5nat,
{
    let ghost start = *ast;
    proof {
        lemma_extends_refl(ast);
        lemma_valid_definition_unfold(v, k, start.nodes(), n as int);
    }
    if let DefKind::WorkflowSetStateActivity = k {
        if as_string(n, ast).is_some() {
            let d = DefinitionRelation(String::new());
            ast.add_edge(h, n, AstRelation::Tosca(Relation::Definition(d)));
            proof {
                assert(link_to_at(*ast, start.edges().len() as int, h as int, n as int, RelationView::Definition(Seq::empty())));
            }
        } else {
            ast.add_error(ParseError::UnexpectedType("string"), n);
            proof { lemma_added_error_at(&start, ast, n as int, ErrorView::UnexpectedType("string"@)); }
        }
        proof { assert(ast.nodes()[n as int] == start.nodes()[n as int]); }
        return;
    }
    match as_map(n, ast) {
        Some(entries) => {
            parse_schema(v, k, h, n, &entries, ast);
            proof {
                assert(ast.nodes()[n as int] == start.nodes()[n as int]);
                assert(yaml_children_before(start.nodes(), n as int));
                lemma_string_keys_stable(start.nodes(), ast.nodes(), entries@, n as int);
            }
        },
        None => {
            if as_string(n, ast).is_some() {
                match k {
                    DefKind::Capability => {
                        TypeRef::parse(Entity::Capability(CapabilityEntity), RelKind::HasType, h, n, ast);
                        proof {
                            lemma_referenced_read(&start, ast, h as int, n as int, Entity::File(FileEntity), Entity::Capability(CapabilityEntity), LookupKind::Type, relation_view_for(RelKind::HasType, RelKey::Unit));
                        }
                    },
                    DefKind::Relationship | DefKind::RelationshipAssignment => {
                        let r = FieldRef::type_ref(
                            Entity::Relationship(RelationshipEntity),
                            Relation::HasType(HasTypeRelation),
                        );
                        r.link(h, n, ast);
                        proof {
                            assert(ref_edge(*ast, start.edges().len() as int, h as int, n as int, Entity::File(FileEntity), Entity::Relationship(RelationshipEntity), LookupKind::Type, RelationView::HasType));
                        }
                    },
                    DefKind::RequirementAssignment => {
                        DefRef::parse(Entity::ServiceTemplate(ServiceTemplateEntity), Entity::Node(NodeEntity), RelKind::TargetNode, h, n, ast);
                        proof {
                            lemma_referenced_read(&start, ast, h as int, n as int, Entity::ServiceTemplate(ServiceTemplateEntity), Entity::Node(NodeEntity), LookupKind::Definition, relation_view_for(RelKind::TargetNode, RelKey::Unit));
                        }
                    },
                    DefKind::Implementation13 => {
                        DefRef::parse(Entity::Node(NodeEntity), Entity::Artifact(ArtifactEntity), RelKind::PrimaryArtifact, h, n, ast);
                        proof {
                            lemma_referenced_read(&start, ast, h as int, n as int, Entity::Node(NodeEntity), Entity::Artifact(ArtifactEntity), LookupKind::Definition, relation_view_for(RelKind::PrimaryArtifact, RelKey::Unit));
                        }
                    },
                    DefKind::WorkflowDelegateActivity | DefKind::WorkflowInlineActivity => {
                        ast.add_edge(h, n, AstRelation::Tosca(Relation::Workflow(WorkflowRelation)));
                        proof {
                            assert(link_to_at(*ast, start.edges().len() as int, h as int, n as int, RelationView::Workflow));
                        }
                    },
                    DefKind::WorkflowCallOperationActivity => {
                        ast.add_edge(h, n, AstRelation::Tosca(Relation::Operation(OperationRelation)));
                        proof {
                            assert(link_to_at(*ast, start.edges().len() as int, h as int, n as int, RelationView::Operation));
                        }
                    },
                    _ => {
                        ast.add_edge(h, n, AstRelation::Tosca(Relation::ImportUrl(ImportUrlRelation)));
                        proof {
                            assert(link_to_at(*ast, start.edges().len() as int, h as int, n as int, RelationView::ImportUrl));
                        }
                    },
                }
            } else {
                ast.add_error(ParseError::UnexpectedType("map or string"), n);
                proof { lemma_added_error_at(&start, ast, n as int, ErrorView::UnexpectedType("map or string"@)); }
            }
            proof { assert(ast.nodes()[n as int] == start.nodes()[n as int]); }
        },
    }
}

/// A workflow activity: a map whose one key names the kind of activity and
/// whose value is read as that activity.
fn parse_activity(v: ToscaVersion, n: usize, ast: &mut Ast) -> (r: Option<usize>)
    requires
        old(ast).wf(),
        n < old(ast).nodes().len(),
    ensures
        final(ast).wf(),
        final(ast).extends(old(ast)),
        r matches Some(h) ==> h < final(ast).nodes().len(),
        definition_outcome(DefKind::WorkflowActivity, *old(ast), *final(ast), n as int, r),
        r matches Some(h) ==> definition_read(*final(ast), v, DefKind::WorkflowActivity, n as int, h as int),
        r is None ==> added_error(
            *old(ast),
            *final(ast),
            activity_refusal(old(ast).nodes(), n as int).0,
            activity_refusal(old(ast).nodes(), n as int).1,
        ),
        activity_short_form_added(*old(ast), *final(ast), n as int),
        valid_definition(v, DefKind::WorkflowActivity, old(ast).nodes(), n as int) ==> no_new_errors(*old(ast), *final(ast)),
    decreases n, 5nat,
{
    let ghost start = *ast;
    let ghost sn = start.nodes().take(n as int + 1);
    proof {
        lemma_extends_refl(ast);
        assert(yaml_children_before(start.nodes(), n as int));
        assert(sn[n as int] == start.nodes()[n as int]);
        assert(sn.take(n as int + 1) =~= sn);
        lemma_valid_definition_unfold(v, DefKind::WorkflowActivity, start.nodes(), n as int);
    }
    match as_map(n, ast) {
        None => {
            ast.add_error(ParseError::UnexpectedType("map"), n);
            None
        },
        Some(entries) => {
            if entries.len() == 0 {
                ast.add_error(ParseError::Custom(String::from_str("expected a key")), n);
                return None;
            }
            let (kh, vh) = entries[0];
            assert(entries@[0].0 < n && entries@[0].1 < n);
            match as_string(kh, ast) {
                None => {
                    ast.add_error(ParseError::UnexpectedType("string"), kh);
                    None
                },
                Some(s) => {
                    let kind = if str_eq(s.as_str(), "delegate") {
                        Some(DefKind::WorkflowDelegateActivity)
                    } else if str_eq(s.as_str(), "inline") {
                        Some(DefKind::WorkflowInlineActivity)
                    } else if str_eq(s.as_str(), "set_state") {
                        Some(DefKind::WorkflowSetStateActivity)
                    } else if str_eq(s.as_str(), "call_operation") {
                        Some(DefKind::WorkflowCallOperationActivity)
                    } else {
                        None
                    };
                    match kind {
                        Some(kind) => {
                            let r = parse_definition(v, kind, vh, ast);
                            proof {
                                assert(ast.nodes()[n as int] == start.nodes()[n as int]);
                                assert(ast.nodes()[kh as int] == start.nodes()[kh as int]);
                            }
                            r
                        },
                        None => {
                            ast.add_error(ParseError::Custom(String::from_str("unknown activity kind")), kh);
                            None
                        },
                    }
                },
            }
        },
    }
}

} // verus!
