use toto::ast::{Ast, AstEntity, AstRelation, FileRelation, ParseError, SourceFile};
use toto::models::{Entity, FileEntity, ImportEntity, ImportTargetRelation, Relation};
use toto::parser::{find_file, iter_imports, report_yaml_error, yaml_error_is_readable, FileStorage, LoadedFile, ParseStep, ToscaParser};
use toto::semantic::{parse_document, resolve_url, File, Scope, SemanticError};
use toto::yaml::{YamlNode, YamlPair, YamlValue};

fn node(value: YamlValue) -> YamlNode {
    YamlNode { value, pos: 0 }
}

fn text(s: &str) -> YamlNode {
    node(YamlValue::Str(s.to_string()))
}

fn map(pairs: Vec<(&str, YamlNode)>) -> YamlNode {
    node(YamlValue::Mapping(pairs.into_iter().map(|(k, v)| YamlPair { key: text(k), value: v }).collect()))
}

/// A TOSCA document of `version` importing `imports` by URL.
fn document(version: &str, imports: &[&str]) -> YamlNode {
    let list = imports.iter().map(|u| map(vec![("url", text(u))])).collect();
    map(vec![("tosca_definitions_version", text(version)), ("imports", node(YamlValue::List(list)))])
}

fn read(y: YamlNode) -> LoadedFile {
    LoadedFile::Read { content: "text".to_string(), yaml: Ok(y) }
}

fn errors(ast: &Ast) -> Vec<(ParseError, usize)> {
    let mut r = Vec::new();
    for e in 0..ast.edge_count() {
        let (a, b) = ast.edge_endpoints(e);
        if let AstEntity::Parse(p) = ast.node(a) {
            r.push((p.clone(), b));
        }
    }
    r
}

fn asked(step: &ParseStep) -> Option<String> {
    match step {
        ParseStep::Load(u) => Some(u.clone()),
        ParseStep::Done(_) => None,
    }
}

#[test]
fn resolve_url_keeps_urls_and_joins_paths() {
    assert_eq!(resolve_url("http://example.org/a.yaml", "file:///w/m.yaml"), Ok("http://example.org/a.yaml".to_string()));
    assert_eq!(resolve_url("sub/b.yaml", "file:///w/m.yaml"), Ok("file:///w/sub/b.yaml".to_string()));
    assert_eq!(resolve_url("../c.yaml", "file:///w/x/m.yaml"), Ok("file:///w/c.yaml".to_string()));
    assert_eq!(resolve_url("b.yaml", "not a url"), Err("relative URL without a base".to_string()));
}

#[test]
fn semantic_error() {
    let e = SemanticError::new("bad".to_string());
    assert_eq!(e.loc(), 0);
    assert_eq!(e.what(), "bad");
}

#[test]
fn yaml_error_messages() {
    assert!(yaml_error_is_readable("no position"));
    assert!(yaml_error_is_readable("msg: \nctx\n2:3\n"));
    assert!(!yaml_error_is_readable("msg: \nctx\nx:3\n"));
    assert!(yaml_error_is_readable("msg: \nctx\nno colon\n"));
    let mut ast = Ast::new();
    let doc = ast.add_node(AstEntity::File(SourceFile { url: "file:///a.yaml".to_string(), content: Some("ab\ncdef".to_string()) }));
    report_yaml_error("mapping values are not allowed: \nin this context\n2:3\n", doc, &mut ast);
    assert_eq!(ast.node(1), &AstEntity::Parse(ParseError::Custom("mapping values are not allowed".to_string())));
    assert_eq!(ast.edge_endpoints(0), (1, doc));
    assert_eq!(ast.edge_weight(0), &AstRelation::File(FileRelation(5)));
    report_yaml_error("short", doc, &mut ast);
    assert_eq!(ast.node(2), &AstEntity::Parse(ParseError::Custom("short".to_string())));
    assert_eq!(ast.edge_weight(1), &AstRelation::File(FileRelation(0)));
}

#[test]
fn yaml_error_without_position_needs_no_text() {
    let mut ast = Ast::new();
    let doc = ast.add_node(AstEntity::File(SourceFile { url: "file:///b.yaml".to_string(), content: None }));
    report_yaml_error("oops", doc, &mut ast);
    assert_eq!(ast.node_count(), 2);
    assert_eq!(ast.node(1), &AstEntity::Parse(ParseError::Custom("oops".to_string())));
    assert_eq!(ast.edge_count(), 1);
    assert_eq!(ast.edge_endpoints(0), (1, doc));
    assert_eq!(ast.edge_weight(0), &AstRelation::File(FileRelation(0)));
}

#[test]
fn a_valid_document_records_no_error() {
    let property = map(vec![("type", text("string")), ("description", text("p"))]);
    let node_type = map(vec![
        ("derived_from", text("tosca.nodes.Root")),
        ("properties", map(vec![("name", property)])),
    ]);
    let template = map(vec![("type", text("Server")), ("properties", map(vec![("name", text("x"))]))]);
    let y = map(vec![
        ("tosca_definitions_version", text("tosca_2_0")),
        ("description", text("a service")),
        ("metadata", map(vec![("author", text("me"))])),
        ("node_types", map(vec![("Server", node_type)])),
        ("service_template", map(vec![("node_templates", map(vec![("web", template)]))])),
    ]);
    let mut ast = Ast::new();
    let root = parse_document("file:///w/a.yaml", "t".to_string(), Ok(y), &mut ast);
    assert_eq!(ast.node(root), &AstEntity::Tosca(Entity::File(FileEntity)));
    assert!(errors(&ast).is_empty());
}

#[test]
fn file_storage_reads_back() {
    let mut ast = Ast::new();
    let mut files = FileStorage::new();
    let a = files.add_file("file:///a.yaml", "A".to_string(), &mut ast);
    let b = files.add_file("file:///b.yaml", "B".to_string(), &mut ast);
    assert_eq!(files.get_file("file:///a.yaml"), Some(a));
    assert_eq!(files.get_file("file:///b.yaml"), Some(b));
    assert_eq!(files.get_file("file:///c.yaml"), None);
    assert_eq!(files.get_files(), vec!["file:///a.yaml".to_string(), "file:///b.yaml".to_string()]);
    assert_eq!(ast.node(b), &AstEntity::File(SourceFile { url: "file:///b.yaml".to_string(), content: Some("B".to_string()) }));
    files.clear();
    assert_eq!(files.get_file("file:///a.yaml"), None);
}

#[test]
fn find_file_takes_the_last_link() {
    let mut ast = Ast::new();
    let doc = ast.add_node(AstEntity::File(SourceFile { url: "builtin://x".to_string(), content: None }));
    assert_eq!(find_file(doc, &ast), None);
    let f1 = ast.add_node(AstEntity::Tosca(Entity::File(FileEntity)));
    let f2 = ast.add_node(AstEntity::Tosca(Entity::File(FileEntity)));
    ast.add_edge(f1, doc, AstRelation::File(FileRelation(0)));
    ast.add_edge(f2, doc, AstRelation::Tosca(Relation::ImportTarget(ImportTargetRelation)));
    assert_eq!(find_file(doc, &ast), Some(f1));
    ast.add_edge(f2, doc, AstRelation::File(FileRelation(0)));
    assert_eq!(find_file(doc, &ast), Some(f2));
}

#[test]
fn iter_imports_resolves_against_the_file() {
    let mut ast = Ast::new();
    let mut parser = ToscaParser::new();
    let step = parser.parse("file:///w/main.yaml", &mut ast);
    assert_eq!(asked(&step), Some("file:///w/main.yaml".to_string()));
    // With a base that is no URL, the import cannot be resolved.
    let step = parser.resume(read(document("tosca_2_0", &["b.yaml"])), &mut ast);
    assert_eq!(asked(&step), Some("file:///w/b.yaml".to_string()));
    let mut file = None;
    for i in 0..ast.node_count() {
        if ast.node(i) == &AstEntity::Tosca(Entity::File(FileEntity)) {
            file = Some(i);
        }
    }
    let file = file.unwrap();
    let before = errors(&ast).len();
    let imports = iter_imports("file:///w/main.yaml", file, &mut ast);
    assert_eq!(imports.len(), 1);
    assert_eq!(imports[0].0, "file:///w/b.yaml");
    assert_eq!(errors(&ast).len(), before);
    let imports = iter_imports("not a url", file, &mut ast);
    assert!(imports.is_empty());
    let errs = errors(&ast);
    assert_eq!(errs.last().unwrap().0, ParseError::Custom("invalid url b.yaml: relative URL without a base".to_string()));
}

#[test]
fn parser_reads_imports_once() {
    let mut ast = Ast::new();
    let mut parser = ToscaParser::new();
    let step = parser.parse("file:///w/main.yaml", &mut ast);
    assert_eq!(asked(&step), Some("file:///w/main.yaml".to_string()));
    // Imports are followed newest first: c, then b.
    let step = parser.resume(read(document("tosca_2_0", &["b.yaml", "sub/c.yaml"])), &mut ast);
    assert_eq!(asked(&step), Some("file:///w/sub/c.yaml".to_string()));
    let step = parser.resume(read(document("tosca_2_0", &[])), &mut ast);
    assert_eq!(asked(&step), Some("file:///w/b.yaml".to_string()));
    // b imports the main document back, and c, both read already.
    let step = parser.resume(read(document("tosca_2_0", &["main.yaml", "sub/c.yaml"])), &mut ast);
    match step {
        ParseStep::Done(Ok(d)) => assert_eq!(d, 0),
        _ => panic!("expected the parse to be over"),
    }
    assert_eq!(
        parser.get_files(),
        vec!["file:///w/main.yaml".to_string(), "file:///w/sub/c.yaml".to_string(), "file:///w/b.yaml".to_string()]
    );
    assert_eq!(errors(&ast), vec![]);
    // Each import definition is linked to the document it names.
    let mut targets = Vec::new();
    for e in 0..ast.edge_count() {
        if let AstRelation::Tosca(Relation::ImportTarget(_)) = ast.edge_weight(e) {
            let (_, b) = ast.edge_endpoints(e);
            if let AstEntity::File(f) = ast.node(b) {
                targets.push(f.url.clone());
            }
        }
    }
    targets.sort();
    assert_eq!(
        targets,
        vec![
            "builtin://tosca_2_0".to_string(),
            "builtin://tosca_2_0".to_string(),
            "builtin://tosca_2_0".to_string(),
            "file:///w/b.yaml".to_string(),
            "file:///w/main.yaml".to_string(),
            "file:///w/sub/c.yaml".to_string(),
            "file:///w/sub/c.yaml".to_string(),
        ]
    );
}

#[test]
fn parser_links_only_what_it_read() {
    let mut ast = Ast::new();
    let mut parser = ToscaParser::new();
    parser.parse("file:///w/main.yaml", &mut ast);
    // Imports are followed newest first: the second `plain.yaml` is asked
    // for, the first is then linked to it at once, and `gone.yaml` is asked
    // for last.
    let step = parser.resume(read(document("tosca_2_0", &["gone.yaml", "plain.yaml", "plain.yaml"])), &mut ast);
    assert_eq!(asked(&step), Some("file:///w/plain.yaml".to_string()));
    let step = parser.resume(read(text("no map")), &mut ast);
    assert_eq!(asked(&step), Some("file:///w/gone.yaml".to_string()));
    let step = parser.resume(LoadedFile::Unreadable("No such file".to_string()), &mut ast);
    assert!(matches!(step, ParseStep::Done(Ok(0))));
    let mut imports = 0;
    for i in 0..ast.node_count() {
        if ast.node(i) == &AstEntity::Tosca(Entity::Import(ImportEntity)) {
            imports += 1;
        }
    }
    let mut targets = Vec::new();
    let mut file_links = Vec::new();
    for e in 0..ast.edge_count() {
        let (a, b) = ast.edge_endpoints(e);
        match ast.edge_weight(e) {
            AstRelation::Tosca(Relation::ImportTarget(_)) => {
                assert_eq!(ast.node(a), &AstEntity::Tosca(Entity::Import(ImportEntity)));
                if let AstEntity::File(f) = ast.node(b) {
                    targets.push(f.url.clone());
                }
            },
            AstRelation::Tosca(Relation::ImportFile(_)) => file_links.push((a, b)),
            _ => {},
        }
    }
    // Every import definition but the unreadable one is linked to its
    // document; the document that holds no map gives no file entity, so
    // nothing links to one read from it.
    assert_eq!(targets.len(), imports - 1);
    assert_eq!(targets.iter().filter(|u| u.as_str() == "file:///w/plain.yaml").count(), 2);
    for (a, b) in file_links {
        assert_eq!(ast.node(a), &AstEntity::Tosca(Entity::File(FileEntity)));
        assert_eq!(ast.node(b), &AstEntity::Tosca(Entity::File(FileEntity)));
    }
    let errs: Vec<ParseError> = errors(&ast).into_iter().map(|e| e.0).collect();
    assert!(errs.contains(&ParseError::Custom("No such file".to_string())));
}

#[test]
fn parser_main_document_unreadable() {
    let mut ast = Ast::new();
    let mut parser = ToscaParser::new();
    parser.parse("file:///w/main.yaml", &mut ast);
    let step = parser.resume(LoadedFile::Unreadable("No such file".to_string()), &mut ast);
    match step {
        ParseStep::Done(Err(m)) => assert_eq!(m, "No such file"),
        _ => panic!("expected the parse to fail"),
    }
    assert_eq!(ast.node_count(), 0);
    assert!(parser.get_files().is_empty());
}

#[test]
fn parser_unknown_version() {
    let mut ast = Ast::new();
    let mut parser = ToscaParser::new();
    parser.parse("file:///w/main.yaml", &mut ast);
    let step = parser.resume(read(document("tosca_9", &["b.yaml"])), &mut ast);
    assert!(matches!(step, ParseStep::Done(Ok(0))));
    let errs = errors(&ast);
    assert_eq!(errs.len(), 1);
    assert_eq!(errs[0].0, ParseError::Custom("unknown tosca version".to_string()));
    assert_eq!(ast.node(errs[0].1), &AstEntity::Yaml(toto::ast::YamlEntity::Str("tosca_9".to_string())));
}

#[test]
fn parser_import_problems() {
    let mut ast = Ast::new();
    let mut parser = ToscaParser::new();
    parser.parse("file:///w/main.yaml", &mut ast);
    // Imports are followed newest first, as the graph lists them.
    let step = parser.resume(read(document("tosca_2_0", &["old.yaml", "gone.yaml", "bad.yaml"])), &mut ast);
    assert_eq!(asked(&step), Some("file:///w/bad.yaml".to_string()));
    let step = parser.resume(
        LoadedFile::Read { content: "a\nb: [".to_string(), yaml: Err("did not find expected node content: \nwhile parsing\n2:4\n".to_string()) },
        &mut ast,
    );
    assert_eq!(asked(&step), Some("file:///w/gone.yaml".to_string()));
    let step = parser.resume(LoadedFile::Unreadable("No such file".to_string()), &mut ast);
    assert_eq!(asked(&step), Some("file:///w/old.yaml".to_string()));
    let step = parser.resume(read(document("tosca_simple_yaml_1_3", &[])), &mut ast);
    assert!(matches!(step, ParseStep::Done(Ok(0))));
    let errs: Vec<ParseError> = errors(&ast).into_iter().map(|e| e.0).collect();
    assert_eq!(
        errs,
        vec![
            ParseError::Custom("did not find expected node content".to_string()),
            ParseError::Custom("No such file".to_string()),
            ParseError::Custom("can't import file of different tosca version".to_string()),
        ]
    );
    let mut offsets = Vec::new();
    for e in 0..ast.edge_count() {
        let (a, _) = ast.edge_endpoints(e);
        if let (AstEntity::Parse(_), AstRelation::File(FileRelation(p))) = (ast.node(a), ast.edge_weight(e)) {
            offsets.push(*p);
        }
    }
    assert_eq!(offsets, vec![5]);
    assert_eq!(parser.get_files().len(), 3);
}

#[test]
fn scope_follows_imports() {
    let mut scope = Scope::new("file:///w/".to_string());
    assert_eq!(scope.add_file("a.yaml"), Some("file:///w/a.yaml".to_string()));
    let next = scope.file_read(read(document("tosca_2_0", &["b.yaml"])));
    assert_eq!(next, Some("file:///w/b.yaml".to_string()));
    let next = scope.file_read(read(document("tosca_2_0", &["a.yaml"])));
    assert_eq!(next, None);
    assert!(scope.errors.is_empty());
    assert_eq!(scope.files.len(), 2);
    assert_eq!(scope.files[1].0, "file:///w/b.yaml");
    let imports = scope.files[0].1.get_imports(&scope.ast);
    assert_eq!(imports, vec!["b.yaml".to_string()]);
    assert_eq!(scope.add_file("a.yaml"), None);
}

#[test]
fn scope_reads_valid_files_without_errors() {
    let mut scope = Scope::new("file:///w/".to_string());
    assert_eq!(scope.add_file("a.yaml"), Some("file:///w/a.yaml".to_string()));
    let next = scope.file_read(read(document("tosca_2_0", &["b.yaml"])));
    assert_eq!(next, Some("file:///w/b.yaml".to_string()));
    let b = map(vec![
        ("tosca_definitions_version", text("tosca_2_0")),
        ("description", text("b")),
        ("node_types", map(vec![("Server", map(vec![("derived_from", text("tosca.nodes.Root"))]))])),
    ]);
    assert_eq!(scope.file_read(read(b)), None);
    assert!(scope.errors.is_empty());
    assert!(errors(&scope.ast).is_empty());
}

#[test]
fn get_imports_lists_the_newest_first() {
    let mut scope = Scope::new("file:///w/".to_string());
    scope.add_file("a.yaml");
    scope.file_read(read(document("tosca_2_0", &["b.yaml", "c.yaml"])));
    let imports = scope.files[0].1.get_imports(&scope.ast);
    assert_eq!(imports, vec!["c.yaml".to_string(), "b.yaml".to_string()]);
}

#[test]
fn scope_reports_problems() {
    let mut scope = Scope::new("file:///w/".to_string());
    assert_eq!(scope.add_file("x.yaml"), Some("file:///w/x.yaml".to_string()));
    assert_eq!(scope.file_read(LoadedFile::Unreadable("not found".to_string())), None);
    assert_eq!(scope.errors[0].what(), "file:///w/x.yaml: not found");
    assert!(scope.files.is_empty());
    let mut scope = Scope::new("not a url".to_string());
    assert_eq!(scope.add_file("a.yaml"), None);
    assert_eq!(scope.errors[0].what(), "invalid url a.yaml: relative URL without a base");
    let mut scope = Scope::new("file:///w/".to_string());
    assert_eq!(scope.add_file_relative("a.yaml", "http://h/x/"), Some("http://h/x/a.yaml".to_string()));
    let file = File { source: String::new(), root: 0 };
    assert!(file.get_imports(&scope.ast).is_empty());
}

#[test]
fn parse_document_gives_the_file_entity() {
    let mut ast = Ast::new();
    let root = parse_document("file:///w/a.yaml", "t".to_string(), Ok(document("tosca_2_0", &[])), &mut ast);
    assert_ne!(root, 0);
    assert_eq!(ast.node(root), &AstEntity::Tosca(Entity::File(FileEntity)));
    assert_eq!(ast.node(0), &AstEntity::File(SourceFile { url: "file:///w/a.yaml".to_string(), content: Some("t".to_string()) }));
    assert!(errors(&ast).is_empty());

    // Only TOSCA 2.0 is read; another version leaves the YAML root, with no
    // error.
    for version in ["tosca_9", "tosca_simple_yaml_1_3"] {
        let mut ast = Ast::new();
        let root = parse_document("file:///w/a.yaml", "t".to_string(), Ok(document(version, &[])), &mut ast);
        assert_eq!(root, ast.node_count() - 1);
        assert!(matches!(ast.node(root), AstEntity::Yaml(_)));
        assert!(errors(&ast).is_empty());
    }

    let mut ast = Ast::new();
    let root = parse_document("file:///w/a.yaml", "t".to_string(), Ok(map(vec![("description", text("d"))])), &mut ast);
    assert_eq!(errors(&ast), vec![(ParseError::MissingField("tosca_definitions_version"), root)]);

    let mut ast = Ast::new();
    let root = parse_document("file:///w/a.yaml", "t".to_string(), Ok(text("plain")), &mut ast);
    assert_eq!(root, 1);
    assert_eq!(errors(&ast), vec![(ParseError::UnexpectedType("map"), 1)]);

    let mut ast = Ast::new();
    let root = parse_document(
        "file:///w/a.yaml",
        "a: [".to_string(),
        Err("did not find expected node content: \nx\n1:5\n".to_string()),
        &mut ast,
    );
    assert_eq!(root, 0);
    assert_eq!(ast.node(1), &AstEntity::Parse(ParseError::Custom("did not find expected node content".to_string())));
    assert_eq!(ast.edge_weight(0), &AstRelation::File(FileRelation(4)));
}

#[test]
fn parser_follows_imports_depth_first() {
    let mut ast = Ast::new();
    let mut parser = ToscaParser::new();
    let mut asked_for = Vec::new();
    let mut step = parser.parse("file:///w/main.yaml", &mut ast);
    while let ParseStep::Load(u) = step {
        asked_for.push(u.clone());
        let doc = match u.as_str() {
            "file:///w/main.yaml" => document("tosca_2_0", &["b.yaml", "c.yaml"]),
            "file:///w/b.yaml" => document("tosca_2_0", &["d/d.yaml", "c.yaml"]),
            "file:///w/d/d.yaml" => document("tosca_2_0", &["../b.yaml"]),
            _ => document("tosca_2_0", &[]),
        };
        step = parser.resume(read(doc), &mut ast);
    }
    assert!(matches!(step, ParseStep::Done(Ok(0))));
    assert_eq!(asked_for, vec!["file:///w/main.yaml", "file:///w/c.yaml", "file:///w/b.yaml", "file:///w/d/d.yaml"]);
    assert_eq!(errors(&ast), vec![]);
}

/// The URL of the document that the TOSCA file entity `f` was read from.
fn document_of(ast: &Ast, f: usize) -> String {
    for e in 0..ast.edge_count() {
        let (a, b) = ast.edge_endpoints(e);
        if a != f {
            continue;
        }
        match ast.edge_weight(e) {
            AstRelation::File(_) => {
                if let AstEntity::File(d) = ast.node(b) {
                    return d.url.clone();
                }
            }
            AstRelation::Parse(_) => {
                for e2 in 0..ast.edge_count() {
                    let (y, d) = ast.edge_endpoints(e2);
                    if y == b {
                        if let (AstRelation::File(_), AstEntity::File(doc)) = (ast.edge_weight(e2), ast.node(d)) {
                            return doc.url.clone();
                        }
                    }
                }
            }
            _ => {}
        }
    }
    String::new()
}

#[test]
fn parser_links_importing_files() {
    let mut ast = Ast::new();
    let mut parser = ToscaParser::new();
    let mut step = parser.parse("file:///w/main.yaml", &mut ast);
    while let ParseStep::Load(u) = step {
        let doc = match u.as_str() {
            "file:///w/main.yaml" => document("tosca_2_0", &["b.yaml", "c.yaml"]),
            "file:///w/b.yaml" => document("tosca_2_0", &["d/d.yaml", "c.yaml"]),
            "file:///w/d/d.yaml" => document("tosca_2_0", &["../b.yaml"]),
            _ => document("tosca_2_0", &[]),
        };
        step = parser.resume(read(doc), &mut ast);
    }
    assert!(matches!(step, ParseStep::Done(Ok(0))));
    let mut links = Vec::new();
    let mut builtin = 0;
    for e in 0..ast.edge_count() {
        if let AstRelation::Tosca(Relation::ImportFile(_)) = ast.edge_weight(e) {
            let (a, b) = ast.edge_endpoints(e);
            assert_eq!(ast.node(a), &AstEntity::Tosca(Entity::File(FileEntity)));
            assert_eq!(ast.node(b), &AstEntity::Tosca(Entity::File(FileEntity)));
            let to = document_of(&ast, b);
            if to == "builtin://tosca_2_0" {
                builtin += 1;
            } else {
                links.push((document_of(&ast, a), to));
            }
        }
    }
    assert_eq!(builtin, 4);
    links.sort();
    assert_eq!(
        links,
        vec![
            ("file:///w/b.yaml".to_string(), "file:///w/d/d.yaml".to_string()),
            ("file:///w/main.yaml".to_string(), "file:///w/b.yaml".to_string()),
            ("file:///w/main.yaml".to_string(), "file:///w/c.yaml".to_string()),
        ]
    );
}
