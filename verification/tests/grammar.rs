use toto::ast::{Ast, AstEntity, AstRelation, ParseError, ParseLoc, SourceFile};
use toto::grammar::field_ref::{DefRef, FieldRef, TypeRef};
use toto::grammar::parse::{parse_definition, ArtifactRefOrDefinition, CollectionRelator, KeyedListRelator, ListRelator};
use toto::grammar::parser::ToscaGrammar;
use toto::grammar::value::{BoolValue, IntValue, StatusValue, StringValue};
use toto::grammar::{slot, validate, DefKind, RelKind, Tosca1_3, Tosca2_0, ToscaVersion, ValueKind};
use toto::models::{ArtifactEntity, Entity, FileEntity, HasTypeRelation, ImportEntity, LookupKind, NodeEntity, Relation, RootRelation, StatusEntity};
use toto::yaml::{load_yaml, YamlNode, YamlPair, YamlValue};

fn node(value: YamlValue) -> YamlNode {
    YamlNode { value, pos: 0 }
}

fn text(s: &str) -> YamlNode {
    node(YamlValue::Str(s.to_string()))
}

fn map(pairs: Vec<(&str, YamlNode)>) -> YamlNode {
    node(YamlValue::Mapping(pairs.into_iter().map(|(k, v)| YamlPair { key: text(k), value: v }).collect()))
}

/// A graph holding one document whose YAML is `y`; returns the YAML root.
fn load(ast: &mut Ast, y: &YamlNode) -> usize {
    let doc = ast.add_node(AstEntity::File(SourceFile { url: "file:///t.yaml".to_string(), content: Some(String::new()) }));
    load_yaml(ast, y, doc)
}

/// The errors in the graph, with the node each is located at.
fn errors(ast: &Ast) -> Vec<(ParseError, usize)> {
    let mut r = Vec::new();
    for e in 0..ast.edge_count() {
        let (a, b) = ast.edge_endpoints(e);
        if let AstEntity::Parse(p) = ast.node(a) {
            r.push((p.clone(), b));
        }
    }
    r
}

#[test]
fn version_names() {
    assert_eq!(Tosca1_3::name(), "tosca_simple_yaml_1_3");
    assert_eq!(Tosca2_0::name(), "tosca_2_0");
    assert_eq!(slot(ToscaVersion::V1_3, DefKind::File), DefKind::File13);
    assert_eq!(slot(ToscaVersion::V1_3, DefKind::Import), DefKind::Import13);
    assert_eq!(slot(ToscaVersion::V1_3, DefKind::NodeType), DefKind::NodeType);
    assert_eq!(slot(ToscaVersion::V2_0, DefKind::File), DefKind::File);
}

#[test]
fn get_tosca_version_finds_the_declared_version() {
    let mut ast = Ast::new();
    let root = load(&mut ast, &map(vec![("description", text("d")), ("tosca_definitions_version", text("tosca_2_0"))]));
    let before = ast.node_count();
    let (v, name) = ToscaGrammar::get_tosca_version(root, &mut ast).unwrap();
    assert_eq!(name, "tosca_2_0");
    assert_eq!(ast.node(v), &AstEntity::Yaml(toto::ast::YamlEntity::Str("tosca_2_0".to_string())));
    assert_eq!(ast.node_count(), before);
}

#[test]
fn get_tosca_version_wants_a_map() {
    let mut ast = Ast::new();
    let root = load(&mut ast, &text("tosca_2_0"));
    assert_eq!(ToscaGrammar::get_tosca_version(root, &mut ast), None);
    assert_eq!(
        errors(&ast),
        vec![(ParseError::UnexpectedType("map"), root), (ParseError::MissingField("tosca_definitions_version"), root)]
    );
}

#[test]
fn get_tosca_version_wants_the_key() {
    let mut ast = Ast::new();
    let root = load(&mut ast, &map(vec![("description", text("d"))]));
    assert_eq!(ToscaGrammar::get_tosca_version(root, &mut ast), None);
    assert_eq!(errors(&ast), vec![(ParseError::MissingField("tosca_definitions_version"), root)]);
}

#[test]
fn get_tosca_version_wants_a_string() {
    let mut ast = Ast::new();
    let root = load(&mut ast, &map(vec![("tosca_definitions_version", node(YamlValue::Int(2)))]));
    assert_eq!(ToscaGrammar::get_tosca_version(root, &mut ast), None);
    assert_eq!(errors(&ast), vec![(ParseError::UnexpectedType("string"), root)]);
}

#[test]
fn status_values() {
    let names = [
        ("supported", StatusEntity::Supported),
        ("unsupported", StatusEntity::Unsupported),
        ("experimental", StatusEntity::Experimental),
        ("deprecated", StatusEntity::Deprecated),
    ];
    for (name, status) in names {
        let mut ast = Ast::new();
        let n = load(&mut ast, &text(name));
        let h = StatusValue::parse(n, &mut ast).unwrap();
        assert_eq!(ast.node(h), &AstEntity::Tosca(Entity::Status(status)));
        assert_eq!(ast.edge_endpoints(ast.edge_count() - 1), (h, n));
        assert_eq!(ast.edge_weight(ast.edge_count() - 1), &AstRelation::Parse(ParseLoc));
    }
    let mut ast = Ast::new();
    let n = load(&mut ast, &text("retired"));
    assert_eq!(StatusValue::parse(n, &mut ast), None);
    assert_eq!(errors(&ast), vec![(ParseError::Custom("unknown status: retired".to_string()), n)]);
    let mut ast = Ast::new();
    let n = load(&mut ast, &node(YamlValue::Bool(true)));
    assert_eq!(StatusValue::parse(n, &mut ast), None);
    assert_eq!(errors(&ast), vec![(ParseError::UnexpectedType("string"), n)]);
}

#[test]
fn plain_values_check_their_kind() {
    let mut ast = Ast::new();
    let s = load(&mut ast, &text("x"));
    let i = load(&mut ast, &node(YamlValue::Int(7)));
    assert_eq!(StringValue::parse(s, &mut ast), Some(s));
    assert_eq!(IntValue::parse(i, &mut ast), Some(i));
    assert_eq!(errors(&ast), vec![]);
    assert_eq!(StringValue::parse(i, &mut ast), None);
    assert_eq!(BoolValue::parse(s, &mut ast), None);
    assert_eq!(errors(&ast), vec![(ParseError::UnexpectedType("string"), i), (ParseError::UnexpectedType("bool"), s)]);
}

#[test]
fn field_ref_type_ref() {
    let r = FieldRef::type_ref(Entity::Node(NodeEntity), Relation::HasType(HasTypeRelation));
    assert_eq!(r.0.root, (Relation::Root(RootRelation), Entity::File(FileEntity)));
    assert_eq!(r.0.what, Entity::Node(NodeEntity));
    assert_eq!(r.0.what_rel, LookupKind::Type);
    assert_eq!(r.0.link_by, Relation::HasType(HasTypeRelation));
}

#[test]
fn import_validation() {
    let f = |names: &[&str]| validate(DefKind::Import, &names.iter().map(|s| s.to_string()).collect());
    assert_eq!(f(&["url"]), vec![]);
    assert_eq!(f(&["profile"]), vec![]);
    assert_eq!(f(&["url", "profile"]), vec![ParseError::Custom("url and profile are mutually exclusive".to_string())]);
    assert_eq!(f(&["namespace"]), vec![ParseError::MissingField("url or profile")]);
    assert_eq!(
        f(&["repository"]),
        vec![ParseError::MissingField("url or profile"), ParseError::Custom("can only be used when a url is specified".to_string())]
    );
}

#[test]
fn file_definition_reads_fields_and_reports_unknown_ones() {
    let mut ast = Ast::new();
    let doc = map(vec![
        ("tosca_definitions_version", text("tosca_2_0")),
        ("description", text("a file")),
        ("imports", node(YamlValue::List(vec![map(vec![("url", text("b.yaml"))])]))),
        ("bogus", text("x")),
    ]);
    let root = load(&mut ast, &doc);
    let before = ast.node_count();
    let f = parse_definition(ToscaVersion::V2_0, DefKind::File, root, &mut ast).unwrap();
    assert_eq!(f, before);
    assert_eq!(ast.node(f), &AstEntity::Tosca(Entity::File(FileEntity)));
    // One import entity, linked from the file by its position.
    let mut imports = Vec::new();
    for e in 0..ast.edge_count() {
        let (a, b) = ast.edge_endpoints(e);
        if a == f {
            if let AstRelation::Tosca(Relation::Import(i)) = ast.edge_weight(e) {
                imports.push((i.0, b));
            }
        }
    }
    assert_eq!(imports.len(), 1);
    assert_eq!(imports[0].0, 0);
    assert_eq!(ast.node(imports[0].1), &AstEntity::Tosca(Entity::Import(ImportEntity)));
    let errs = errors(&ast);
    assert_eq!(errs.len(), 1);
    assert_eq!(errs[0].0, ParseError::UnknownField("bogus".to_string()));
}

#[test]
fn definitions_that_want_a_map() {
    let mut ast = Ast::new();
    let n = load(&mut ast, &text("x"));
    assert_eq!(parse_definition(ToscaVersion::V2_0, DefKind::NodeType, n, &mut ast), None);
    assert_eq!(errors(&ast), vec![(ParseError::UnexpectedType("map"), n)]);
}

fn integer(i: i64) -> YamlNode {
    node(YamlValue::Int(i))
}

fn list(items: Vec<YamlNode>) -> YamlNode {
    node(YamlValue::List(items))
}

/// The relations that lead out of node `root`.
fn links_of(ast: &Ast, root: usize) -> Vec<(String, usize)> {
    let mut r = Vec::new();
    for e in 0..ast.edge_count() {
        let (a, b) = ast.edge_endpoints(e);
        if a == root {
            if let AstRelation::Tosca(x) = ast.edge_weight(e) {
                r.push((format!("{:?}", x), b));
            }
        }
    }
    r
}

/// A graph with one entity to link fields to; returns it.
fn entity(ast: &mut Ast) -> usize {
    ast.add_node(AstEntity::Tosca(Entity::Node(NodeEntity)))
}

#[test]
fn collection_links_each_entry_by_its_key() {
    let mut ast = Ast::new();
    let root = entity(&mut ast);
    let n = load(
        &mut ast,
        &node(YamlValue::Mapping(vec![
            YamlPair { key: text("a"), value: text("x") },
            YamlPair { key: integer(3), value: text("y") },
            YamlPair { key: text("b"), value: integer(4) },
        ])),
    );
    CollectionRelator::parse(ToscaVersion::V2_0, RelKind::Metadata, ValueKind::String, root, n, &mut ast);
    let links = links_of(&ast, root);
    assert_eq!(links.len(), 1);
    assert!(links[0].0.contains("\"a\""));
    assert_eq!(ast.node(links[0].1), &AstEntity::Yaml(toto::ast::YamlEntity::Str("x".to_string())));
    let errs = errors(&ast);
    assert_eq!(errs.len(), 2);
    assert_eq!(errs[0].0, ParseError::UnexpectedType("string"));
    assert_eq!(ast.node(errs[0].1), &AstEntity::Yaml(toto::ast::YamlEntity::Int(3)));
    assert_eq!(errs[1].0, ParseError::UnexpectedType("string"));
    assert_eq!(ast.node(errs[1].1), &AstEntity::Yaml(toto::ast::YamlEntity::Int(4)));
    let mut ast2 = Ast::new();
    let root2 = entity(&mut ast2);
    let m = load(&mut ast2, &text("no map"));
    CollectionRelator::parse(ToscaVersion::V2_0, RelKind::Metadata, ValueKind::Any, root2, m, &mut ast2);
    assert_eq!(errors(&ast2), vec![(ParseError::UnexpectedType("map"), m)]);
}

#[test]
fn list_links_each_item_by_its_position() {
    let mut ast = Ast::new();
    let root = entity(&mut ast);
    let n = load(&mut ast, &list(vec![text("a"), integer(1), text("c")]));
    ListRelator::parse(ToscaVersion::V2_0, RelKind::FileExt, ValueKind::String, root, n, &mut ast);
    let links = links_of(&ast, root);
    assert_eq!(links.len(), 2);
    assert!(links[0].0.contains("(0)"));
    assert!(links[1].0.contains("(2)"));
    assert_eq!(errors(&ast).len(), 1);
    let mut ast2 = Ast::new();
    let root2 = entity(&mut ast2);
    let m = load(&mut ast2, &text("no list"));
    ListRelator::parse(ToscaVersion::V2_0, RelKind::FileExt, ValueKind::String, root2, m, &mut ast2);
    assert_eq!(errors(&ast2), vec![(ParseError::UnexpectedType("list"), m)]);
}

#[test]
fn keyed_list_wants_one_key_maps() {
    let mut ast = Ast::new();
    let root = entity(&mut ast);
    let good = map(vec![("first", text("x"))]);
    let two = map(vec![("second", text("y")), ("extra", text("z"))]);
    let none = node(YamlValue::Mapping(vec![]));
    let n = load(&mut ast, &list(vec![good, two, none, text("not a map")]));
    KeyedListRelator::parse(ToscaVersion::V2_0, RelKind::Directive, ValueKind::String, root, n, &mut ast);
    let links = links_of(&ast, root);
    assert_eq!(links.len(), 2);
    let errs: Vec<ParseError> = errors(&ast).into_iter().map(|e| e.0).collect();
    assert_eq!(
        errs,
        vec![
            ParseError::Custom("expected only one key".to_string()),
            ParseError::Custom("expected a key".to_string()),
            ParseError::UnexpectedType("map"),
        ]
    );
    assert_eq!(errors(&ast)[2].1, n);
}

#[test]
fn short_forms_are_read_from_a_string() {
    let mut ast = Ast::new();
    let n = load(&mut ast, &text("other.yaml"));
    let h = parse_definition(ToscaVersion::V2_0, DefKind::Import, n, &mut ast).unwrap();
    assert_eq!(ast.node(h), &AstEntity::Tosca(Entity::Import(ImportEntity)));
    let links = links_of(&ast, h);
    assert_eq!(links.len(), 1);
    assert!(links[0].0.starts_with("ImportUrl"));
    assert_eq!(links[0].1, n);
    assert!(errors(&ast).is_empty());

    let mut ast2 = Ast::new();
    let r = load(&mut ast2, &text("https://example.com/repo"));
    let h2 = parse_definition(ToscaVersion::V2_0, DefKind::Repository, r, &mut ast2).unwrap();
    let links2 = links_of(&ast2, h2);
    assert_eq!(links2.len(), 1);
    assert!(links2[0].0.starts_with("RepositoryUrl"));
    assert_eq!(links2[0].1, r);
}

#[test]
fn short_forms_refuse_other_values() {
    let mut ast = Ast::new();
    let n = load(&mut ast, &integer(7));
    assert!(parse_definition(ToscaVersion::V2_0, DefKind::Import, n, &mut ast).is_some());
    assert_eq!(errors(&ast), vec![(ParseError::UnexpectedType("map or string"), n)]);

    let mut ast2 = Ast::new();
    let m = load(&mut ast2, &integer(7));
    assert!(parse_definition(ToscaVersion::V2_0, DefKind::WorkflowSetStateActivity, m, &mut ast2).is_some());
    assert_eq!(errors(&ast2), vec![(ParseError::UnexpectedType("string"), m)]);

    let mut ast3 = Ast::new();
    let s = load(&mut ast3, &text("running"));
    let h3 = parse_definition(ToscaVersion::V2_0, DefKind::WorkflowSetStateActivity, s, &mut ast3).unwrap();
    let links3 = links_of(&ast3, h3);
    assert_eq!(links3.len(), 1);
    assert!(links3[0].0.starts_with("Definition"));
    assert!(errors(&ast3).is_empty());
}

/// The reference edges that lead out of node `root`: what each looks up,
/// and the node of the name.
fn refs_of(ast: &Ast, root: usize) -> Vec<(Entity, Entity, LookupKind, usize)> {
    let mut r = Vec::new();
    for e in 0..ast.edge_count() {
        let (a, b) = ast.edge_endpoints(e);
        if a == root {
            if let AstRelation::Tosca(Relation::Ref(x)) = ast.edge_weight(e) {
                r.push((x.lookuper.root.1.clone(), x.lookuper.what.clone(), x.lookuper.what_rel.clone(), b));
            }
        }
    }
    r
}

#[test]
fn references_link_to_the_name() {
    let mut ast = Ast::new();
    let root = entity(&mut ast);
    let n = load(&mut ast, &text("tosca.nodes.Root"));
    TypeRef::parse(Entity::Node(NodeEntity), RelKind::HasType, root, n, &mut ast);
    assert_eq!(refs_of(&ast, root), vec![(Entity::File(FileEntity), Entity::Node(NodeEntity), LookupKind::Type, n)]);
    let m = load(&mut ast, &node(YamlValue::Null));
    DefRef::parse(Entity::Node(NodeEntity), Entity::Artifact(ArtifactEntity), RelKind::PrimaryArtifact, root, m, &mut ast);
    let refs = refs_of(&ast, root);
    assert_eq!(refs.len(), 2);
    assert_eq!(refs[1], (Entity::Node(NodeEntity), Entity::Artifact(ArtifactEntity), LookupKind::Definition, m));
    assert!(errors(&ast).is_empty());
    let bad = load(&mut ast, &integer(1));
    TypeRef::parse(Entity::Node(NodeEntity), RelKind::HasType, root, bad, &mut ast);
    assert_eq!(refs_of(&ast, root).len(), 2);
    assert_eq!(errors(&ast), vec![(ParseError::UnexpectedType("string"), bad)]);
}

#[test]
fn artifacts_are_defined_in_place_or_named() {
    let mut ast = Ast::new();
    let root = entity(&mut ast);
    let n = load(&mut ast, &map(vec![("file", text("a.sh"))]));
    let before = ast.node_count();
    ArtifactRefOrDefinition::parse(ToscaVersion::V2_0, RelKind::PrimaryArtifact, root, n, &mut ast);
    assert_eq!(ast.node(before), &AstEntity::Tosca(Entity::Artifact(ArtifactEntity)));
    let located = (0..ast.edge_count()).any(|e| ast.edge_endpoints(e) == (before, n) && ast.edge_weight(e) == &AstRelation::Parse(ParseLoc));
    assert!(located);
    assert!(refs_of(&ast, root).is_empty());
    let s = load(&mut ast, &text("install"));
    ArtifactRefOrDefinition::parse(ToscaVersion::V2_0, RelKind::PrimaryArtifact, root, s, &mut ast);
    assert_eq!(refs_of(&ast, root), vec![(Entity::Node(NodeEntity), Entity::Artifact(ArtifactEntity), LookupKind::Definition, s)]);
    let bad = load(&mut ast, &integer(2));
    ArtifactRefOrDefinition::parse(ToscaVersion::V2_0, RelKind::PrimaryArtifact, root, bad, &mut ast);
    let errs = errors(&ast);
    assert_eq!(errs.last().unwrap(), &(ParseError::UnexpectedType("map or string"), bad));
}

#[test]
fn activities_name_their_kind() {
    let mut ast = Ast::new();
    let n = load(&mut ast, &map(vec![("set_state", text("started"))]));
    assert!(parse_definition(ToscaVersion::V2_0, DefKind::WorkflowActivity, n, &mut ast).is_some());
    assert!(errors(&ast).is_empty());

    let mut ast = Ast::new();
    let n = load(&mut ast, &map(vec![("foo", text("bar"))]));
    assert_eq!(parse_definition(ToscaVersion::V2_0, DefKind::WorkflowActivity, n, &mut ast), None);
    let errs = errors(&ast);
    assert_eq!(errs.len(), 1);
    assert_eq!(errs[0].0, ParseError::Custom("unknown activity kind".to_string()));
    assert_eq!(ast.node(errs[0].1), &AstEntity::Yaml(toto::ast::YamlEntity::Str("foo".to_string())));

    let mut ast = Ast::new();
    let n = load(&mut ast, &node(YamlValue::Mapping(vec![])));
    assert_eq!(parse_definition(ToscaVersion::V2_0, DefKind::WorkflowActivity, n, &mut ast), None);
    assert_eq!(errors(&ast), vec![(ParseError::Custom("expected a key".to_string()), n)]);

    let mut ast = Ast::new();
    let n = load(&mut ast, &text("delegate"));
    assert_eq!(parse_definition(ToscaVersion::V2_0, DefKind::WorkflowActivity, n, &mut ast), None);
    assert_eq!(errors(&ast), vec![(ParseError::UnexpectedType("map"), n)]);
}

#[test]
fn keyed_list_reads_each_pair_in_order() {
    let mut ast = Ast::new();
    let root = entity(&mut ast);
    let n = load(&mut ast, &list(vec![map(vec![("a", text("x"))]), map(vec![("b", text("y"))])]));
    KeyedListRelator::parse(ToscaVersion::V2_0, RelKind::OrderedAssignment, ValueKind::String, root, n, &mut ast);
    let links = links_of(&ast, root);
    assert_eq!(links.len(), 2);
    assert!(links[0].0.contains("\"a\"") && links[0].0.contains('0'));
    assert!(links[1].0.contains("\"b\"") && links[1].0.contains('1'));
    assert_eq!(ast.node(links[0].1), &AstEntity::Yaml(toto::ast::YamlEntity::Str("x".to_string())));
    assert_eq!(ast.node(links[1].1), &AstEntity::Yaml(toto::ast::YamlEntity::Str("y".to_string())));
    assert!(errors(&ast).is_empty());
}

#[test]
fn import_checks_are_reported_at_the_map() {
    let mut ast = Ast::new();
    let n = load(&mut ast, &map(vec![("url", text("a.yaml")), ("profile", text("p"))]));
    assert!(parse_definition(ToscaVersion::V2_0, DefKind::Import, n, &mut ast).is_some());
    assert_eq!(errors(&ast), vec![(ParseError::Custom("url and profile are mutually exclusive".to_string()), n)]);
}

#[test]
fn keyed_list_reads_a_two_key_item_once() {
    let mut ast = Ast::new();
    let root = entity(&mut ast);
    let n = load(&mut ast, &list(vec![map(vec![("b", text("y")), ("c", text("z"))])]));
    let item = n - 1;
    assert!(matches!(ast.node(item), AstEntity::Yaml(toto::ast::YamlEntity::Mapping(_))));
    let edges_before = ast.edge_count();
    KeyedListRelator::parse(ToscaVersion::V2_0, RelKind::OrderedAssignment, ValueKind::String, root, n, &mut ast);
    let links = links_of(&ast, root);
    assert_eq!(links.len(), 1);
    assert!(links[0].0.contains("\"b\"") && links[0].0.contains('0'));
    assert_eq!(ast.node(links[0].1), &AstEntity::Yaml(toto::ast::YamlEntity::Str("y".to_string())));
    assert_eq!(errors(&ast), vec![(ParseError::Custom("expected only one key".to_string()), item)]);
    assert_eq!(ast.edge_count(), edges_before + 2);
}

#[test]
fn collection_reads_each_entry_once() {
    let mut ast = Ast::new();
    let root = entity(&mut ast);
    let n = load(&mut ast, &map(vec![("a", text("x")), ("b", text("y"))]));
    let nodes_before = ast.node_count();
    let edges_before = ast.edge_count();
    CollectionRelator::parse(ToscaVersion::V2_0, RelKind::Metadata, ValueKind::String, root, n, &mut ast);
    let links = links_of(&ast, root);
    assert_eq!(links.len(), 2);
    assert!(links[0].0.contains("\"a\""));
    assert!(links[1].0.contains("\"b\""));
    assert_eq!(ast.node_count(), nodes_before);
    assert_eq!(ast.edge_count(), edges_before + 2);
    assert!(errors(&ast).is_empty());
}

#[test]
fn tosca_grammar_dispatches_on_the_version() {
    let mut ast = Ast::new();
    let n = load(&mut ast, &map(vec![("tosca_definitions_version", text("tosca_2_0")), ("description", text("d"))]));
    let root = ToscaGrammar::parse(n, &mut ast);
    assert_ne!(root, n);
    assert_eq!(ast.node(root), &AstEntity::Tosca(Entity::File(FileEntity)));
    assert!(errors(&ast).is_empty());

    let mut ast = Ast::new();
    let n = load(&mut ast, &map(vec![("tosca_definitions_version", text("tosca_simple_yaml_1_3"))]));
    let count = ast.node_count();
    assert_eq!(ToscaGrammar::parse(n, &mut ast), n);
    assert_eq!(ast.node_count(), count);

    let mut ast = Ast::new();
    let n = load(&mut ast, &map(vec![("description", text("d"))]));
    assert_eq!(ToscaGrammar::parse(n, &mut ast), n);
    assert_eq!(errors(&ast), vec![(ParseError::MissingField("tosca_definitions_version"), n)]);

    let mut ast = Ast::new();
    let n = load(&mut ast, &text("plain"));
    assert_eq!(ToscaGrammar::parse(n, &mut ast), n);
    assert_eq!(errors(&ast), vec![(ParseError::UnexpectedType("map"), n)]);
}
