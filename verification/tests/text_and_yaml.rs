use toto::ast::{Ast, AstEntity, AstRelation, FileRelation, SourceFile, YamlEntity};
use toto::text::{chars_of, find_char_from, from_lc, line_bounds, parse_u32_range};
use toto::yaml::{as_bool, as_int, as_list, as_map, as_string, load_yaml, str_eq, YamlNode, YamlPair, YamlValue};

fn node(value: YamlValue, pos: usize) -> YamlNode {
    YamlNode { value, pos }
}

fn text(s: &str, pos: usize) -> YamlNode {
    node(YamlValue::Str(s.to_string()), pos)
}

#[test]
fn chars_of_gives_every_character() {
    assert_eq!(chars_of("aé\nb"), vec!['a', 'é', '\n', 'b']);
    assert_eq!(chars_of(""), Vec::<char>::new());
}

#[test]
fn find_char_from_finds_the_first_at_or_after() {
    // The position is counted from where the search starts.
    let v = chars_of("a:b:c");
    assert_eq!(find_char_from(&v, 0, ':'), Some(1));
    assert_eq!(find_char_from(&v, 2, ':'), Some(1));
    assert_eq!(find_char_from(&v, 1, ':'), Some(0));
    assert_eq!(find_char_from(&v, 4, ':'), None);
}

#[test]
fn line_bounds_splits_on_newlines() {
    let v = chars_of("first\nsecond\n3:4");
    assert_eq!(line_bounds(&v, 0), Some((0, 5)));
    assert_eq!(line_bounds(&v, 1), Some((6, 12)));
    assert_eq!(line_bounds(&v, 2), Some((13, 16)));
    assert_eq!(line_bounds(&v, 3), None);
}

#[test]
fn parse_u32_range_reads_like_str_parse() {
    let v = chars_of("12 +7 x 4294967296 4294967295");
    assert_eq!(parse_u32_range(&v, 0, 2), Some(12));
    assert_eq!(parse_u32_range(&v, 3, 5), Some(7));
    assert_eq!(parse_u32_range(&v, 6, 7), None);
    assert_eq!(parse_u32_range(&v, 2, 2), None);
    assert_eq!(parse_u32_range(&v, 8, 18), None);
    assert_eq!(parse_u32_range(&v, 19, 29), Some(4294967295));
    assert_eq!("+7".parse::<u32>().ok(), Some(7));
}

#[test]
fn from_lc_counts_lines_and_columns_from_one() {
    let v = chars_of("ab\ncde\nf");
    assert_eq!(from_lc(&v, 1, 1), 0);
    assert_eq!(from_lc(&v, 2, 1), 3);
    assert_eq!(from_lc(&v, 2, 3), 5);
    assert_eq!(from_lc(&v, 3, 1), 7);
    assert_eq!(from_lc(&v, 9, 2), 8);
}

#[test]
fn str_eq_compares_text() {
    assert!(str_eq("tosca_2_0", "tosca_2_0"));
    assert!(!str_eq("tosca_2_0", "tosca_2_1"));
}

#[test]
fn loaded_yaml_reads_back() {
    let mut ast = Ast::new();
    let doc = ast.add_node(AstEntity::File(SourceFile { url: "file:///a.yaml".to_string(), content: Some("x".to_string()) }));
    let tree = node(
        YamlValue::Mapping(vec![
            YamlPair { key: text("name", 0), value: text("web", 6) },
            YamlPair { key: text("count", 10), value: node(YamlValue::Int(3), 17) },
            YamlPair {
                key: text("flags", 19),
                value: node(YamlValue::List(vec![node(YamlValue::Bool(true), 27), node(YamlValue::Null, 33)]), 26),
            },
        ]),
        0,
    );
    let root = load_yaml(&mut ast, &tree, doc);
    assert_eq!(root + 1, ast.node_count());
    let entries = as_map(root, &ast).unwrap();
    assert_eq!(entries.len(), 3);
    assert_eq!(as_string(entries[0].0, &ast), Some("name".to_string()));
    assert_eq!(as_string(entries[0].1, &ast), Some("web".to_string()));
    assert_eq!(as_int(entries[1].1, &ast), Some(3));
    assert_eq!(as_int(entries[0].1, &ast), None);
    let flags = as_list(entries[2].1, &ast).unwrap();
    assert_eq!(flags.len(), 2);
    assert_eq!(as_bool(flags[0], &ast), Some(true));
    assert_eq!(ast.node(flags[1]), &AstEntity::Yaml(YamlEntity::Null));
    assert_eq!(as_list(root, &ast), None);
    assert_eq!(as_map(flags[0], &ast), None);
    // The root's edge to its document, with its offset, comes last.
    let last = ast.edge_count() - 1;
    assert_eq!(ast.edge_endpoints(last), (root, doc));
    assert_eq!(ast.edge_weight(last), &AstRelation::File(FileRelation(0)));
    // Every YAML node is linked to the document at its offset.
    let mut offsets = Vec::new();
    for e in 0..ast.edge_count() {
        if let AstRelation::File(FileRelation(p)) = ast.edge_weight(e) {
            offsets.push(*p);
        }
    }
    offsets.sort();
    assert_eq!(offsets, vec![0, 0, 6, 10, 17, 19, 26, 27, 33]);
}
