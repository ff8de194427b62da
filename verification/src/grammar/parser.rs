//! Finding the TOSCA version that a document declares.
use vstd::prelude::*;

use crate::ast::{
    added_errors, is_error, lemma_added_errors_push, lemma_added_no_errors, lemma_extends_refl, Ast, AstEntity,
    AstRelation, ErrorView, ParseError, ParseLoc,
};
use crate::grammar::outcome::fields_read;
use crate::grammar::parse::parse_definition;
use crate::grammar::valid::valid_definition;
use crate::grammar::{version_name, DefKind, Tosca2_0, ToscaVersion};
use crate::models::{Entity, FileEntity};
use crate::parser::{edge_is, has_edge};
use crate::yaml::{as_map, as_string, str_eq, yaml_map, yaml_str};

verus! {

/// Whether node `k` is the YAML string `key`.
pub open spec fn key_is(nodes: Seq<AstEntity>, k: int, key: Seq<char>) -> bool {
    yaml_str(nodes[k]) matches Some(s) && s@ == key
}

/// Entry `i` of `entries` is the first whose key is `key`.
pub open spec fn first_with_key(nodes: Seq<AstEntity>, entries: Seq<(usize, usize)>, key: Seq<char>, i: int) -> bool {
    &&& 0 <= i < entries.len()
    &&& key_is(nodes, entries[i].0 as int, key)
    &&& forall|j: int| 0 <= j < i ==> !key_is(nodes, #[trigger] entries[j].0 as int, key)
}

/// The first entry of `entries` whose key is `key`, if any.
pub open spec fn entry_with_key(nodes: Seq<AstEntity>, entries: Seq<(usize, usize)>, key: Seq<char>) -> Option<(usize, usize)> {
    if exists|i: int| first_with_key(nodes, entries, key, i) {
        Some(entries[choose|i: int| first_with_key(nodes, entries, key, i)])
    } else {
        None
    }
}

/// The errors, all located at `n`, that looking for the declared version
/// in node `n` records: for a node that is not a map, that it is not one and
/// then that the key is missing; for a map without the key, that it is
/// missing; for a value that is not a string, that it is not one; none
/// where the version is declared.
pub open spec fn version_errors(nodes: Seq<AstEntity>, n: usize) -> Seq<(usize, ErrorView)> {
    let key = "tosca_definitions_version"@;
    match yaml_map(nodes[n as int]) {
        None => seq![(n, ErrorView::UnexpectedType("map"@)), (n, ErrorView::MissingField(key))],
        Some(es) => match entry_with_key(nodes, es, key) {
            None => seq![(n, ErrorView::MissingField(key))],
            Some((_, v)) => match yaml_str(nodes[v as int]) {
                Some(_) => Seq::empty(),
                None => seq![(n, ErrorView::UnexpectedType("string"@))],
            },
        },
    }
}

/// What looking for the declared version in node `n` gives: the node of the
/// value of the first `tosca_definitions_version` key and its text, with
/// the graph unchanged; or nothing, with exactly the errors of
/// `version_errors` added.
pub open spec fn version_outcome(old: Ast, new: Ast, n: usize, r: Option<(usize, String)>) -> bool {
    &&& r == declared_version(old.nodes(), n as int)
    &&& r is Some ==> new == old
    &&& r is None ==> added_errors(old, new, version_errors(old.nodes(), n))
}

/// The node and text of the version that the document whose YAML root is
/// `n` declares as a string, if it does.
pub open spec fn declared_version(nodes: Seq<AstEntity>, n: int) -> Option<(usize, String)> {
    match yaml_map(nodes[n]) {
        None => None,
        Some(es) => match entry_with_key(nodes, es, "tosca_definitions_version"@) {
            None => None,
            Some((_, v)) => match yaml_str(nodes[v as int]) {
                Some(s) => Some((v, s)),
                None => None,
            },
        },
    }
}

/// Where no version is declared, there is at least one version error.
pub proof fn lemma_version_errors(nodes: Seq<AstEntity>, n: usize)
    ensures
        declared_version(nodes, n as int) is None <==> version_errors(nodes, n).len() > 0,
{
}

/// At most one entry is the first with a key.
proof fn lemma_first_with_key_unique(nodes: Seq<AstEntity>, es: Seq<(usize, usize)>, key: Seq<char>, i: int, j: int)
    requires
        first_with_key(nodes, es, key, i),
        first_with_key(nodes, es, key, j),
    ensures
        i == j,
{
    if i < j {
        assert(!key_is(nodes, es[i].0 as int, key));
    }
    if j < i {
        assert(!key_is(nodes, es[j].0 as int, key));
    }
}

/// The declared version, and the error for its absence, do not change as
/// the graph grows.
pub proof fn lemma_declared_version_stable(a: &Ast, b: &Ast, n: int)
    requires
        a.wf(),
        b.extends(a),
        0 <= n < a.nodes().len(),
    ensures
        declared_version(a.nodes(), n) == declared_version(b.nodes(), n),
        n <= usize::MAX ==> version_errors(a.nodes(), n as usize) == version_errors(b.nodes(), n as usize),
        yaml_map(a.nodes()[n]) matches Some(es) ==> entry_with_key(a.nodes(), es, "tosca_definitions_version"@)
            == entry_with_key(b.nodes(), es, "tosca_definitions_version"@),
{
    let key = "tosca_definitions_version"@;
    assert(b.nodes()[n] == a.nodes()[n]);
    assert(crate::ast::yaml_children_before(a.nodes(), n));
    if let Some(es) = yaml_map(a.nodes()[n]) {
        assert forall|i: int| #![auto] first_with_key(a.nodes(), es, key, i) == first_with_key(b.nodes(), es, key, i) by {
            if 0 <= i < es.len() {
                assert(b.nodes()[es[i].0 as int] == a.nodes()[es[i].0 as int]);
                assert forall|j: int| 0 <= j < i implies #[trigger] key_is(a.nodes(), es[j].0 as int, key) == key_is(b.nodes(), es[j].0 as int, key) by {
                    assert(b.nodes()[es[j].0 as int] == a.nodes()[es[j].0 as int]);
                }
            }
        }
        if exists|i: int| first_with_key(a.nodes(), es, key, i) {
            let ca = choose|i: int| first_with_key(a.nodes(), es, key, i);
            assert(first_with_key(b.nodes(), es, key, ca));
            let cb = choose|i: int| first_with_key(b.nodes(), es, key, i);
            lemma_first_with_key_unique(b.nodes(), es, key, ca, cb);
            assert(b.nodes()[es[ca].1 as int] == a.nodes()[es[ca].1 as int]);
        }
    }
}

/// The value node of the first `tosca_definitions_version` key of the map
/// at node `doc_root`, whose entries are `entries`.
pub fn version_entry(doc_root: usize, entries: &Vec<(usize, usize)>, ast: &Ast) -> (r: Option<usize>)
    requires
        ast.wf(),
        doc_root < ast.nodes().len(),
        yaml_map(ast.nodes()[doc_root as int]) == Some(entries@),
    ensures
        match entry_with_key(ast.nodes(), entries@, "tosca_definitions_version"@) {
            Some((_, v)) => r == Some(v),
            None => r is None,
        },
{
    let ghost nodes = ast.nodes();
    proof { assert(crate::ast::yaml_children_before(nodes, doc_root as int)); }
    let mut i: usize = 0;
    while i < entries.len()
        invariant
            ast.wf(),
            nodes == ast.nodes(),
            i <= entries@.len(),
            doc_root < nodes.len(),
            yaml_map(nodes[doc_root as int]) == Some(entries@),
            forall|j: int| 0 <= j < entries@.len() ==> (#[trigger] entries@[j]).0 < doc_root && entries@[j].1 < doc_root,
            forall|j: int| 0 <= j < i ==> !key_is(nodes, #[trigger] entries@[j].0 as int, "tosca_definitions_version"@),
        decreases entries@.len() - i,
    {
        let (kh, vh) = entries[i];
        let found = match as_string(kh, ast) {
            Some(key) => str_eq(key.as_str(), "tosca_definitions_version"),
            None => false,
        };
        if found {
            proof {
                assert(first_with_key(nodes, entries@, "tosca_definitions_version"@, i as int));
                let c = choose|c: int| first_with_key(nodes, entries@, "tosca_definitions_version"@, c);
                if c < i {
                    assert(!key_is(nodes, entries@[c].0 as int, "tosca_definitions_version"@));
                }
                if c > i {
                    assert(!key_is(nodes, entries@[i as int].0 as int, "tosca_definitions_version"@));
                }
                assert(c == i);
            }
            return Some(vh);
        }
        i = i + 1;
    }
    proof {
        if exists|c: int| first_with_key(nodes, entries@, "tosca_definitions_version"@, c) {
            let c = choose|c: int| first_with_key(nodes, entries@, "tosca_definitions_version"@, c);
            assert(!key_is(nodes, entries@[c].0 as int, "tosca_definitions_version"@));
        }
    }
    None
}

/// The grammar's entry point: what version a document is written in.
pub struct ToscaGrammar;

/// Nothing was added to the graph after the YAML tree whose root is `yr`.
pub open spec fn nothing_after(ast: Ast, yr: int) -> bool {
    &&& ast.nodes().len() == yr + 1
    &&& ast.edges().len() > 0
    &&& ast.edges().last().0 == yr
}

/// One error `err`, located at node `at`, was added to the graph after the
/// YAML tree whose root is `yr`, and nothing else.
pub open spec fn one_error_after(ast: Ast, yr: int, err: ErrorView, at: int) -> bool {
    &&& ast.nodes().len() == yr + 2
    &&& is_error(ast.nodes()[yr + 1], err)
    &&& ast.edges().len() >= 2
    &&& ast.edges()[ast.edges().len() - 2].0 == yr
    &&& ast.edges().last() == ((yr + 1) as usize, at as usize, AstRelation::Parse(ParseLoc))
}

/// What reading the document with YAML root `yr` gave, `root`. A map whose
/// first `tosca_definitions_version` key has the value `tosca_2_0` gives
/// the TOSCA 2.0 file entity, located at the YAML root, with the fields of
/// the map read. Anything else gives the YAML root itself: a node that is
/// not a map, or a map without the key, with one error at the root; a map
/// whose key has another value, with nothing added.
pub open spec fn document_parsed(ast: Ast, yr: int, root: int) -> bool {
    match yaml_map(ast.nodes()[yr]) {
        None => root == yr && one_error_after(ast, yr, ErrorView::UnexpectedType("map"@), yr),
        Some(es) => match entry_with_key(ast.nodes(), es, "tosca_definitions_version"@) {
            None => root == yr && one_error_after(
                ast,
                yr,
                ErrorView::MissingField("tosca_definitions_version"@),
                yr,
            ),
            Some((_, v)) => if yaml_str(ast.nodes()[v as int]) matches Some(s) && s@ == version_name(ToscaVersion::V2_0) {
                &&& ast.nodes()[root] == AstEntity::Tosca(Entity::File(FileEntity))
                &&& has_edge(ast, root, yr, AstRelation::Parse(ParseLoc))
                &&& fields_read(ast, ToscaVersion::V2_0, DefKind::File, root, yr)
            } else {
                root == yr && nothing_after(ast, yr)
            },
        },
    }
}

/// A document with no problems, whose YAML root is `yr`: a map whose first
/// `tosca_definitions_version` key has the value `tosca_2_0`, and which,
/// read as a TOSCA 2.0 file, has no problems (`valid_definition`).
pub open spec fn valid_document(nodes: Seq<AstEntity>, yr: int) -> bool {
    &&& yaml_map(nodes[yr]) matches Some(es) && (entry_with_key(nodes, es, "tosca_definitions_version"@) matches Some(
        (_, v),
    ) && (yaml_str(nodes[v as int]) matches Some(s) && s@ == version_name(ToscaVersion::V2_0)))
    &&& valid_definition(ToscaVersion::V2_0, DefKind::File, nodes, yr)
}

/// No error was recorded after node `yr`.
pub open spec fn no_errors_after(ast: Ast, yr: int) -> bool {
    forall|i: int| yr < i < ast.nodes().len() ==> !(#[trigger] ast.nodes()[i] is Parse)
}

impl ToscaGrammar {
    /// Reads the document whose YAML root is `yr`, the last node of the
    /// graph, as the file of the TOSCA version it declares: a map whose
    /// first `tosca_definitions_version` key has the value `tosca_2_0` is
    /// read as a TOSCA 2.0 file, whose entity is returned; a map with
    /// another version is left as it is; a node that is not a map, or a map
    /// without the key, gets an error. Anything but a TOSCA 2.0 file gives
    /// the YAML root back. A document with no problems records no error.
    pub fn parse(yr: usize, ast: &mut Ast) -> (root: usize)
        requires
            old(ast).wf(),
            yr + 1 == old(ast).nodes().len(),
            old(ast).edges().len() > 0,
            old(ast).edges().last().0 == yr,
        ensures
            final(ast).wf(),
            final(ast).extends(old(ast)),
            root < final(ast).nodes().len(),
            document_parsed(*final(ast), yr as int, root as int),
            valid_document(final(ast).nodes(), yr as int) ==> no_errors_after(*final(ast), yr as int),
    {
        let ghost at_yaml = *ast;
        proof { lemma_extends_refl(ast); }
        let root = match as_map(yr, ast) {
            None => {
                ast.add_error(ParseError::UnexpectedType("map"), yr);
                proof {
                    assert(ast.edges()[ast.edges().len() - 2] == at_yaml.edges().last());
                    assert(one_error_after(*ast, yr as int, ErrorView::UnexpectedType("map"@), yr as int));
                }
                yr
            },
            Some(entries) => match version_entry(yr, &entries, ast) {
                None => {
                    ast.add_error(ParseError::MissingField("tosca_definitions_version"), yr);
                    proof {
                        assert(ast.edges()[ast.edges().len() - 2] == at_yaml.edges().last());
                        assert(ast.nodes()[yr as int] == at_yaml.nodes()[yr as int]);
                        assert(ast.nodes().drop_last() == at_yaml.nodes());
                        assert(one_error_after(*ast, yr as int, ErrorView::MissingField("tosca_definitions_version"@), yr as int));
                    }
                    yr
                },
                Some(vh) => {
                    proof {
                        assert(crate::ast::yaml_children_before(ast.nodes(), yr as int));
                        let c = choose|c: int| first_with_key(ast.nodes(), entries@, "tosca_definitions_version"@, c);
                        assert(entries@[c].1 < yr);
                    }
                    let is_2_0 = match as_string(vh, ast) {
                        Some(s) => str_eq(s.as_str(), Tosca2_0::name()),
                        None => false,
                    };
                    if is_2_0 {
                        match parse_definition(ToscaVersion::V2_0, DefKind::File, yr, ast) {
                            Some(f) => {
                                proof {
                                    assert(edge_is(*ast, at_yaml.edges().len() as int, f as int, yr as int, AstRelation::Parse(ParseLoc)));
                                }
                                f
                            },
                            None => yr,
                        }
                    } else {
                        proof {
                            assert(nothing_after(*ast, yr as int));
                        }
                        yr
                    }
                },
            },
        };
        proof {
            lemma_declared_version_stable(&at_yaml, ast, yr as int);
            assert(ast.nodes()[yr as int] == at_yaml.nodes()[yr as int]);
            assert(document_parsed(*ast, yr as int, root as int));
            if valid_document(ast.nodes(), yr as int) {
                assert(ast.nodes().take(yr + 1) =~= at_yaml.nodes().take(yr + 1));
                assert(valid_definition(ToscaVersion::V2_0, DefKind::File, at_yaml.nodes(), yr as int));
            }
        }
        root
    }

    /// The node and text of the `tosca_definitions_version` of the document
    /// whose YAML root is `doc_root`.
    pub fn get_tosca_version(doc_root: usize, ast: &mut Ast) -> (r: Option<(usize, String)>)
        requires
            old(ast).wf(),
            doc_root < old(ast).nodes().len(),
        ensures
            final(ast).wf(),
            final(ast).extends(old(ast)),
            version_outcome(*old(ast), *final(ast), doc_root, r),
            r matches Some((v, _)) ==> v < final(ast).nodes().len(),
    {
        let ghost start = *ast;
        proof {
            lemma_extends_refl(ast);
            lemma_added_no_errors(ast);
            assert(crate::ast::yaml_children_before(ast.nodes(), doc_root as int));
        }
        let key = "tosca_definitions_version";
        let entries = match as_map(doc_root, ast) {
            Some(entries) => entries,
            None => {
                ast.add_error(ParseError::UnexpectedType("map"), doc_root);
                let ghost mid = *ast;
                proof { lemma_added_errors_push(&start, &start, &mid, Seq::empty(), doc_root, ErrorView::UnexpectedType("map"@)); }
                ast.add_error(ParseError::MissingField(key), doc_root);
                proof {
                    lemma_added_errors_push(&start, &mid, ast, seq![(doc_root, ErrorView::UnexpectedType("map"@))], doc_root, ErrorView::MissingField("tosca_definitions_version"@));
                    assert(seq![(doc_root, ErrorView::UnexpectedType("map"@))].push((doc_root, ErrorView::MissingField("tosca_definitions_version"@)))
                        =~= version_errors(start.nodes(), doc_root));
                }
                return None;
            },
        };
        match version_entry(doc_root, &entries, ast) {
            None => {
                ast.add_error(ParseError::MissingField(key), doc_root);
                proof {
                    lemma_added_errors_push(&start, &start, ast, Seq::empty(), doc_root, ErrorView::MissingField("tosca_definitions_version"@));
                    assert(Seq::<(usize, ErrorView)>::empty().push((doc_root, ErrorView::MissingField("tosca_definitions_version"@)))
                        =~= version_errors(start.nodes(), doc_root));
                }
                None
            },
            Some(vh) => {
                proof {
                    let c = choose|c: int| first_with_key(start.nodes(), entries@, "tosca_definitions_version"@, c);
                    assert(entries@[c].1 < doc_root);
                }
                match as_string(vh, ast) {
                    Some(version) => Some((vh, version)),
                    None => {
                        ast.add_error(ParseError::UnexpectedType("string"), doc_root);
                        proof {
                            lemma_added_errors_push(&start, &start, ast, Seq::empty(), doc_root, ErrorView::UnexpectedType("string"@));
                            assert(Seq::<(usize, ErrorView)>::empty().push((doc_root, ErrorView::UnexpectedType("string"@)))
                                =~= version_errors(start.nodes(), doc_root));
                        }
                        None
                    },
                }
            },
        }
    }
}

} // verus!
