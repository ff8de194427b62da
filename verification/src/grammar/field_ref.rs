//! References: fields whose value names a type or a definition that is
//! looked up later. The field is linked to its YAML value by a `Ref` edge
//! that records how to look the name up.
use vstd::prelude::*;

use crate::ast::{added_error, Ast, AstRelation, ErrorView};
use crate::grammar::value::{is_str_or_null, NullableStringValue};
use crate::grammar::{make_relation, relation_view_for, RelKey, RelKind};
use crate::models::{
    Entity, FileEntity, LookupKind, RefRelation, Relation, RelationView, RootRelation,
    SimpleLookuper,
};

verus! {

/// Whether `r` is a reference edge that looks its name up along `kind`
/// among the `what` entities below the `place` entity, and links with a
/// relation whose view is `link_by`.
pub open spec fn is_reference(
    r: AstRelation,
    place: Entity,
    what: Entity,
    kind: LookupKind,
    link_by: RelationView,
) -> bool {
    &&& r matches AstRelation::Tosca(Relation::Ref(rr))
    &&& r->Tosca_0->Ref_0.lookuper.root.0@ == RelationView::Root
    &&& r->Tosca_0->Ref_0.lookuper.root.1 == place
    &&& r->Tosca_0->Ref_0.lookuper.what == what
    &&& r->Tosca_0->Ref_0.lookuper.what_rel == kind
    &&& r->Tosca_0->Ref_0.lookuper.link_by@ == link_by
}

/// The outcome of reading a reference at node `n` for `root`: if the node
/// is a string or null, one reference edge from `root` to it; otherwise one
/// error.
pub open spec fn referenced(
    old: Ast,
    new: Ast,
    root: int,
    n: int,
    place: Entity,
    what: Entity,
    kind: LookupKind,
    link_by: RelationView,
) -> bool {
    if is_str_or_null(old.nodes()[n]) {
        &&& new.nodes() == old.nodes()
        &&& new.edges().len() == old.edges().len() + 1
        &&& new.edges().drop_last() == old.edges()
        &&& new.edges().last().0 == root
        &&& new.edges().last().1 == n
        &&& is_reference(new.edges().last().2, place, what, kind, link_by)
    } else {
        added_error(old, new, n, ErrorView::UnexpectedType("string"@))
    }
}

/// A field that refers to another entity by name.
pub struct FieldRef(pub SimpleLookuper);

impl FieldRef {
    /// A reference to a type of entity `entity`, declared in a file, linked
    /// by `relation`.
    pub fn type_ref(entity: Entity, relation: Relation) -> (r: FieldRef)
        ensures
            r.0.root.0@ == RelationView::Root,
            r.0.root.1 == Entity::File(FileEntity),
            r.0.what == entity,
            r.0.what_rel == LookupKind::Type,
            r.0.link_by == relation,
    {
        FieldRef(
            SimpleLookuper {
                root: (Relation::Root(RootRelation), Entity::File(FileEntity)),
                what: entity,
                what_rel: LookupKind::Type,
                link_by: relation,
            },
        )
    }

    /// Links `root` to the name at node `n` by this reference.
    pub fn link(self, root: usize, n: usize, ast: &mut Ast)
        requires
            old(ast).wf(),
            root < old(ast).nodes().len(),
            n < old(ast).nodes().len(),
        ensures
            final(ast).wf(),
            final(ast).extends(old(ast)),
            final(ast).nodes() == old(ast).nodes(),
            final(ast).edges() == old(ast).edges().push(
                (root, n, AstRelation::Tosca(Relation::Ref(RefRelation { lookuper: Box::new(self.0) }))),
            ),
    {
        ast.add_edge(root, n, AstRelation::Tosca(Relation::Ref(RefRelation { lookuper: Box::new(self.0) })));
    }

    /// Reads the name at node `n`, which must be a string or null, and links
    /// `root` to it by this reference.
    pub fn parse(self, root: usize, n: usize, ast: &mut Ast)
        requires
            old(ast).wf(),
            root < old(ast).nodes().len(),
            n < old(ast).nodes().len(),
        ensures
            final(ast).wf(),
            final(ast).extends(old(ast)),
            is_str_or_null(old(ast).nodes()[n as int]) ==> final(ast).nodes() == old(ast).nodes()
                && final(ast).edges() == old(ast).edges().push(
                (root, n, AstRelation::Tosca(Relation::Ref(RefRelation { lookuper: Box::new(self.0) }))),
            ),
            !is_str_or_null(old(ast).nodes()[n as int]) ==> added_error(
                *old(ast),
                *final(ast),
                n as int,
                ErrorView::UnexpectedType("string"@),
            ),
    {
        if NullableStringValue::parse(n, ast).is_some() {
            self.link(root, n, ast);
        }
    }
}

/// A reference to a type, declared in some file.
pub struct TypeRef;

impl TypeRef {
    /// Reads a reference at node `n` to a type of entity `what`, linked to
    /// `root` by a relation of kind `link_by`.
    pub fn parse(what: Entity, link_by: RelKind, root: usize, n: usize, ast: &mut Ast)
        requires
            old(ast).wf(),
            root < old(ast).nodes().len(),
            n < old(ast).nodes().len(),
        ensures
            final(ast).wf(),
            final(ast).extends(old(ast)),
            referenced(
                *old(ast),
                *final(ast),
                root as int,
                n as int,
                Entity::File(FileEntity),
                what,
                LookupKind::Type,
                relation_view_for(link_by, RelKey::Unit),
            ),
    {
        let rel = make_relation(link_by, &RelKey::Unit);
        let r = FieldRef::type_ref(what, rel);
        let ghost prev = *ast;
        r.parse(root, n, ast);
        assert(is_str_or_null(prev.nodes()[n as int]) ==> ast.edges().drop_last() =~= prev.edges());
    }
}

/// A reference to a definition, made inside some entity.
pub struct DefRef;

impl DefRef {
    /// Reads a reference at node `n` to a definition of entity `what` made
    /// inside an entity `place`, linked to `root` by a relation of kind
    /// `link_by`.
    pub fn parse(place: Entity, what: Entity, link_by: RelKind, root: usize, n: usize, ast: &mut Ast)
        requires
            old(ast).wf(),
            root < old(ast).nodes().len(),
            n < old(ast).nodes().len(),
        ensures
            final(ast).wf(),
            final(ast).extends(old(ast)),
            referenced(
                *old(ast),
                *final(ast),
                root as int,
                n as int,
                place,
                what,
                LookupKind::Definition,
                relation_view_for(link_by, RelKey::Unit),
            ),
    {
        let rel = make_relation(link_by, &RelKey::Unit);
        let r = FieldRef(
            SimpleLookuper {
                root: (Relation::Root(RootRelation), place),
                what,
                what_rel: LookupKind::Definition,
                link_by: rel,
            },
        );
        let ghost prev = *ast;
        r.parse(root, n, ast);
        assert(is_str_or_null(prev.nodes()[n as int]) ==> ast.edges().drop_last() =~= prev.edges());
    }
}

} // verus!
