//! Definitions with no problems: the YAML that the grammar reads without
//! recording a single error. Each predicate looks at the node it is given
//! and the nodes below it only (`nodes.take(n + 1)`), so that it keeps its
//! value as the graph grows.
use vstd::prelude::*;

use crate::ast::AstEntity;
use crate::grammar::outcome::value_accepted;
use crate::grammar::parse::{activity_kind, map_or_string_kind, nullable_form_kind, string_keys};
use crate::grammar::value::is_str_or_null;
use crate::grammar::{schema_rule, spec_slot, validation_errors, DefKind, FieldRule, ToscaVersion, ValueKind};
use crate::yaml::{yaml_list, yaml_map, yaml_str};

verus! {

/// Node `n` is a list of strings or nulls, each below `n`.
pub open spec fn valid_name_list(s: Seq<AstEntity>, n: int) -> bool {
    yaml_list(s[n]) matches Some(items) && forall|i: int|
        0 <= i < items.len() ==> (#[trigger] items[i]) < n && is_str_or_null(s[items[i] as int])
}

/// The value at node `n`, read by `rule`, records no error.
pub open spec fn valid_rule(v: ToscaVersion, rule: FieldRule, nodes: Seq<AstEntity>, n: int) -> bool
    decreases n, 8nat,
{
    0 <= n < nodes.len() && valid_rule_in(v, rule, nodes.take(n + 1), n)
}

/// `valid_rule`, over the nodes up to `n`.
pub open spec fn valid_rule_in(v: ToscaVersion, rule: FieldRule, s: Seq<AstEntity>, n: int) -> bool
    decreases n, 7nat,
{
    match rule {
        FieldRule::Ignore => true,
        FieldRule::Field(_, vk) => valid_value(v, vk, s, n),
        FieldRule::Collection(_, vk) => yaml_map(s[n]) matches Some(es) && forall|j: int|
            0 <= j < es.len() ==> (#[trigger] es[j]).0 < n && es[j].1 < n && yaml_str(s[es[j].0 as int]) is Some
                && valid_value(v, vk, s, es[j].1 as int),
        FieldRule::List(_, vk) => yaml_list(s[n]) matches Some(items) && forall|i: int|
            0 <= i < items.len() ==> (#[trigger] items[i]) < n && valid_value(v, vk, s, items[i] as int),
        FieldRule::KeyedList(_, vk) => yaml_list(s[n]) matches Some(items) && forall|i: int|
            0 <= i < items.len() ==> (#[trigger] items[i]) < n && (yaml_map(s[items[i] as int]) matches Some(es)
                && es.len() == 1 && es[0].0 < n && es[0].1 < n && yaml_str(s[es[0].0 as int]) is Some
                && valid_value(v, vk, s, es[0].1 as int)),
        FieldRule::TypeRef(_, _) | FieldRule::DefRef(_, _, _) => is_str_or_null(s[n]),
        FieldRule::TypeRefList(_, _) | FieldRule::DefRefList(_, _, _) => valid_name_list(s, n),
        FieldRule::ArtifactRef(_) => if yaml_map(s[n]) is Some {
            valid_definition(v, spec_slot(v, DefKind::Artifact), s, n)
        } else {
            is_str_or_null(s[n])
        },
        FieldRule::ArtifactRefList(_) => yaml_list(s[n]) matches Some(items) && forall|i: int|
            0 <= i < items.len() ==> (#[trigger] items[i]) < n && if yaml_map(s[items[i] as int]) is Some {
                valid_definition(v, spec_slot(v, DefKind::Artifact), s, items[i] as int)
            } else {
                is_str_or_null(s[items[i] as int])
            },
    }
}

/// The value at node `n`, read as `vk`, records no error: a plain value
/// that is accepted, or a definition with no problems.
pub open spec fn valid_value(v: ToscaVersion, vk: ValueKind, nodes: Seq<AstEntity>, n: int) -> bool
    decreases n, 6nat,
{
    0 <= n < nodes.len() && valid_value_in(v, vk, nodes.take(n + 1), n)
}

/// `valid_value`, over the nodes up to `n`.
pub open spec fn valid_value_in(v: ToscaVersion, vk: ValueKind, s: Seq<AstEntity>, n: int) -> bool
    decreases n, 5nat,
{
    match vk {
        ValueKind::Def(k) => valid_definition(v, k, s, n),
        _ => value_accepted(vk, s, n),
    }
}

/// The definition of kind `k` at node `n` records no error: a workflow
/// activity names a kind of activity by its first key and that activity
/// has no problems; a map has fields with no problems; a short form is a
/// string, or a string or null for the kinds that may be null.
pub open spec fn valid_definition(v: ToscaVersion, k: DefKind, nodes: Seq<AstEntity>, n: int) -> bool
    decreases n, 4nat,
{
    0 <= n < nodes.len() && valid_definition_in(v, k, nodes.take(n + 1), n)
}

/// `valid_definition`, over the nodes up to `n`.
pub open spec fn valid_definition_in(v: ToscaVersion, k: DefKind, s: Seq<AstEntity>, n: int) -> bool
    decreases n, 3nat,
{
    if k == DefKind::WorkflowActivity {
        activity_kind(s, n) matches Some(kind) && yaml_map(s[n])->Some_0[0].0 < n && yaml_map(s[n])->Some_0[0].1 < n
            && valid_definition(
            v,
            kind,
            s,
            yaml_map(s[n])->Some_0[0].1 as int,
        )
    } else if k == DefKind::WorkflowSetStateActivity {
        yaml_str(s[n]) is Some
    } else if yaml_map(s[n]) is Some {
        valid_fields(v, k, s, n)
    } else if map_or_string_kind(k) {
        yaml_str(s[n]) is Some
    } else {
        nullable_form_kind(k) && is_str_or_null(s[n])
    }
}

/// The map at node `n`, read as the fields of a definition of kind `k`,
/// records no error: every key is a string that names a field of the kind,
/// every value has no problems by the field's rule, and the field checks of
/// the kind find nothing.
pub open spec fn valid_fields(v: ToscaVersion, k: DefKind, nodes: Seq<AstEntity>, n: int) -> bool
    decreases n, 2nat,
{
    0 <= n < nodes.len() && valid_fields_in(v, k, nodes.take(n + 1), n)
}

/// `valid_fields`, over the nodes up to `n`.
pub open spec fn valid_fields_in(v: ToscaVersion, k: DefKind, s: Seq<AstEntity>, n: int) -> bool
    decreases n, 1nat,
{
    yaml_map(s[n]) matches Some(es) && validation_errors(k, string_keys(s, es)).len() == 0 && forall|j: int|
        0 <= j < es.len() ==> (#[trigger] es[j]).0 < n && es[j].1 < n && (yaml_str(s[es[j].0 as int]) matches Some(key)
            && (schema_rule(v, k, key@) matches Some(rule) && valid_rule(v, rule, s, es[j].1 as int)))
}

/// What a definition with no problems is, read over all the nodes.
pub proof fn lemma_valid_definition_unfold(v: ToscaVersion, k: DefKind, nodes: Seq<AstEntity>, n: int)
    ensures
        valid_definition(v, k, nodes, n) ==> {
            &&& 0 <= n < nodes.len()
            &&& k == DefKind::WorkflowActivity ==> (activity_kind(nodes, n) matches Some(kind) && yaml_map(
                nodes[n],
            )->Some_0[0].1 < n && valid_definition(v, kind, nodes, yaml_map(nodes[n])->Some_0[0].1 as int))
            &&& k == DefKind::WorkflowSetStateActivity ==> yaml_str(nodes[n]) is Some
            &&& k != DefKind::WorkflowActivity && k != DefKind::WorkflowSetStateActivity && yaml_map(nodes[n]) is Some
                ==> valid_fields(v, k, nodes, n)
            &&& k != DefKind::WorkflowActivity && yaml_map(nodes[n]) is None && map_or_string_kind(k) ==> yaml_str(
                nodes[n],
            ) is Some
            &&& k != DefKind::WorkflowActivity && yaml_map(nodes[n]) is None && !map_or_string_kind(k)
                ==> nullable_form_kind(k) && is_str_or_null(nodes[n])
        },
{
    if valid_definition(v, k, nodes, n) {
        let s = nodes.take(n + 1);
        assert(valid_definition_in(v, k, s, n));
        assert(s[n] == nodes[n]);
        assert(s.take(n + 1) =~= s);
        if k == DefKind::WorkflowActivity {
            let es = yaml_map(nodes[n])->Some_0;
            assert(s[es[0].0 as int] == nodes[es[0].0 as int]);
            let c = es[0].1 as int;
            assert(s.take(c + 1) =~= nodes.take(c + 1));
        } else if k != DefKind::WorkflowSetStateActivity && yaml_map(nodes[n]) is Some {
            assert(valid_fields(v, k, s, n));
            assert(valid_fields_in(v, k, s, n));
        }
    }
}

/// A list of names with no problems over the nodes up to `n` has none over
/// all the nodes.
pub proof fn lemma_name_list_prefix(nodes: Seq<AstEntity>, n: int)
    requires
        0 <= n < nodes.len(),
        valid_name_list(nodes.take(n + 1), n),
    ensures
        valid_name_list(nodes, n),
{
    let s = nodes.take(n + 1);
    assert(s[n] == nodes[n]);
    let items = yaml_list(nodes[n])->Some_0;
    assert forall|i: int| 0 <= i < items.len() implies (#[trigger] items[i]) < n && is_str_or_null(nodes[items[i] as int]) by {
        assert(items[i] < n);
        assert(s[items[i] as int] == nodes[items[i] as int]);
    }
}

} // verus!
