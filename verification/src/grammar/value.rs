//! The parsers of plain field values: each checks the kind of a YAML node
//! and either accepts the node as it is or records an error at it.
use vstd::prelude::*;

use crate::ast::{added_error, Ast, AstEntity, AstRelation, ErrorView, ParseError, ParseLoc, YamlEntity};
use crate::models::{Entity, StatusEntity};
use crate::yaml::{as_bool, as_int, as_string, str_eq, yaml_str};

verus! {

/// The outcome of a kind check at node `n`: if `ok`, the node itself and an
/// unchanged graph; otherwise no node, and one error "unexpected type `what`".
pub open spec fn kind_checked(old: Ast, new: Ast, n: int, ok: bool, what: Seq<char>, r: Option<usize>) -> bool {
    if ok {
        r == Some(n as usize) && new == old
    } else {
        r is None && added_error(old, new, n, ErrorView::UnexpectedType(what))
    }
}

/// Whether a node is a YAML string or null.
pub open spec fn is_str_or_null(w: AstEntity) -> bool {
    w matches AstEntity::Yaml(YamlEntity::Str(_)) || w matches AstEntity::Yaml(YamlEntity::Null)
}

/// A string.
pub struct StringValue;

impl StringValue {
    pub fn parse(n: usize, ast: &mut Ast) -> (r: Option<usize>)
        requires
            old(ast).wf(),
            n < old(ast).nodes().len(),
        ensures
            final(ast).wf(),
            final(ast).extends(old(ast)),
            kind_checked(*old(ast), *final(ast), n as int, yaml_str(old(ast).nodes()[n as int]) is Some, "string"@, r),
    {
        proof { crate::ast::lemma_extends_refl(ast); }
        if as_string(n, ast).is_some() {
            Some(n)
        } else {
            ast.add_error(ParseError::UnexpectedType("string"), n);
            None
        }
    }
}

/// A string or null.
pub struct NullableStringValue;

impl NullableStringValue {
    pub fn parse(n: usize, ast: &mut Ast) -> (r: Option<usize>)
        requires
            old(ast).wf(),
            n < old(ast).nodes().len(),
        ensures
            final(ast).wf(),
            final(ast).extends(old(ast)),
            kind_checked(*old(ast), *final(ast), n as int, is_str_or_null(old(ast).nodes()[n as int]), "string"@, r),
    {
        proof { crate::ast::lemma_extends_refl(ast); }
        match ast.node(n) {
            AstEntity::Yaml(YamlEntity::Str(_)) | AstEntity::Yaml(YamlEntity::Null) => Some(n),
            _ => {
                ast.add_error(ParseError::UnexpectedType("string"), n);
                None
            },
        }
    }
}

/// An integer.
pub struct IntValue;

impl IntValue {
    pub fn parse(n: usize, ast: &mut Ast) -> (r: Option<usize>)
        requires
            old(ast).wf(),
            n < old(ast).nodes().len(),
        ensures
            final(ast).wf(),
            final(ast).extends(old(ast)),
            kind_checked(
                *old(ast),
                *final(ast),
                n as int,
                old(ast).nodes()[n as int] matches AstEntity::Yaml(YamlEntity::Int(_)),
                "integer"@,
                r,
            ),
    {
        proof { crate::ast::lemma_extends_refl(ast); }
        if as_int(n, ast).is_some() {
            Some(n)
        } else {
            ast.add_error(ParseError::UnexpectedType("integer"), n);
            None
        }
    }
}

/// A boolean.
pub struct BoolValue;

impl BoolValue {
    pub fn parse(n: usize, ast: &mut Ast) -> (r: Option<usize>)
        requires
            old(ast).wf(),
            n < old(ast).nodes().len(),
        ensures
            final(ast).wf(),
            final(ast).extends(old(ast)),
            kind_checked(
                *old(ast),
                *final(ast),
                n as int,
                old(ast).nodes()[n as int] matches AstEntity::Yaml(YamlEntity::Bool(_)),
                "bool"@,
                r,
            ),
    {
        proof { crate::ast::lemma_extends_refl(ast); }
        if as_bool(n, ast).is_some() {
            Some(n)
        } else {
            ast.add_error(ParseError::UnexpectedType("bool"), n);
            None
        }
    }
}

/// Any value at all.
pub struct AnyValue;

impl AnyValue {
    pub fn parse(n: usize, ast: &mut Ast) -> (r: Option<usize>)
        requires
            old(ast).wf(),
            n < old(ast).nodes().len(),
        ensures
            final(ast).wf(),
            final(ast).extends(old(ast)),
            r == Some(n),
            *final(ast) == *old(ast),
    {
        proof { crate::ast::lemma_extends_refl(ast); }
        Some(n)
    }
}

/// The status that a status name stands for.
pub open spec fn status_named(s: Seq<char>) -> Option<StatusEntity> {
    if s == "supported"@ {
        Some(StatusEntity::Supported)
    } else if s == "unsupported"@ {
        Some(StatusEntity::Unsupported)
    } else if s == "experimental"@ {
        Some(StatusEntity::Experimental)
    } else if s == "deprecated"@ {
        Some(StatusEntity::Deprecated)
    } else {
        None
    }
}

/// What reading a status name at node `n` gives: a status entity located at
/// the node for one of the four names; an error for another string or for
/// anything else.
pub open spec fn status_outcome(old: Ast, new: Ast, n: int, r: Option<usize>) -> bool {
            match yaml_str(old.nodes()[n]) {
                None => r is None && added_error(old, new, n, ErrorView::UnexpectedType("string"@)),
                Some(s) => match status_named(s@) {
                    Some(st) => {
                        &&& r matches Some(h) && h == old.nodes().len()
                        &&& new.nodes() == old.nodes().push(AstEntity::Tosca(Entity::Status(st)))
                        &&& new.edges() == old.edges().push(
                            (old.nodes().len() as usize, n as usize, AstRelation::Parse(ParseLoc)),
                        )
                    },
                    None => r is None && added_error(
                        old,
                        new,
                        n,
                        ErrorView::Custom("unknown status: "@ + s@),
                    ),
                },
            }
}

/// A status name: `supported`, `unsupported`, `experimental` or
/// `deprecated`, read into a status entity located at the node.
pub struct StatusValue;

impl StatusValue {
    pub fn parse(n: usize, ast: &mut Ast) -> (r: Option<usize>)
        requires
            old(ast).wf(),
            n < old(ast).nodes().len(),
        ensures
            final(ast).wf(),
            final(ast).extends(old(ast)),
            status_outcome(*old(ast), *final(ast), n as int, r),
    {
        let s = match as_string(n, ast) {
            Some(s) => s,
            None => {
                ast.add_error(ParseError::UnexpectedType("string"), n);
                return None;
            },
        };
        let status = if str_eq(s.as_str(), "supported") {
            Some(StatusEntity::Supported)
        } else if str_eq(s.as_str(), "unsupported") {
            Some(StatusEntity::Unsupported)
        } else if str_eq(s.as_str(), "experimental") {
            Some(StatusEntity::Experimental)
        } else if str_eq(s.as_str(), "deprecated") {
            Some(StatusEntity::Deprecated)
        } else {
            None
        };
        match status {
            Some(st) => {
                let h = ast.add_with_loc(AstEntity::Tosca(Entity::Status(st)), n);
                Some(h)
            },
            None => {
                let mut msg = String::from_str("unknown status: ");
                msg.append(s.as_str());
                ast.add_error(ParseError::Custom(msg), n);
                None
            },
        }
    }
}

} // verus!
