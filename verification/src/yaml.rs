//! YAML documents: the plain tree that a YAML reader produces, its loading
//! into the document graph, and the accessors that the grammar reads it by.
use vstd::prelude::*;

use crate::ast::{lemma_extends_trans, Ast, AstEntity, AstRelation, FileRelation, YamlEntity};

verus! {

/// A YAML node as read from text, with the character offset where it starts.
#[derive(Debug)]
pub struct YamlNode {
    pub value: YamlValue,
    pub pos: usize,
}

/// One entry of a YAML map.
#[derive(Debug)]
pub struct YamlPair {
    pub key: YamlNode,
    pub value: YamlNode,
}

/// The value of a YAML node. Floats keep their text.
#[derive(Debug)]
pub enum YamlValue {
    Null,
    Bool(bool),
    Int(i64),
    Float(String),
    Str(String),
    List(Vec<YamlNode>),
    Mapping(Vec<YamlPair>),
}

/// Node `h` of `nodes` and the nodes it names hold exactly the YAML tree `y`.
pub open spec fn represents(nodes: Seq<AstEntity>, h: int, y: YamlNode) -> bool
    decreases y,
{
    &&& 0 <= h < nodes.len()
    &&& match y.value {
        YamlValue::Null => nodes[h] == AstEntity::Yaml(YamlEntity::Null),
        YamlValue::Bool(b) => nodes[h] == AstEntity::Yaml(YamlEntity::Bool(b)),
        YamlValue::Int(i) => nodes[h] == AstEntity::Yaml(YamlEntity::Int(i)),
        YamlValue::Float(f) => nodes[h] == AstEntity::Yaml(YamlEntity::Float(f)),
        YamlValue::Str(s) => nodes[h] == AstEntity::Yaml(YamlEntity::Str(s)),
        YamlValue::List(items) => match nodes[h] {
            AstEntity::Yaml(YamlEntity::List(hs)) => {
                &&& hs@.len() == items@.len()
                &&& forall|k: int|
                    0 <= k < items@.len() ==> represents(nodes, #[trigger] hs@[k] as int, items@[k])
            },
            _ => false,
        },
        YamlValue::Mapping(pairs) => match nodes[h] {
            AstEntity::Yaml(YamlEntity::Mapping(hs)) => {
                &&& hs@.len() == pairs@.len()
                &&& forall|k: int|
                    0 <= k < pairs@.len() ==> represents(nodes, (#[trigger] hs@[k]).0 as int, pairs@[k].key)
                        && represents(nodes, hs@[k].1 as int, pairs@[k].value)
            },
            _ => false,
        },
    }
}

/// What a graph represents stays represented when the graph grows.
pub proof fn lemma_represents_extends(a: &Ast, b: &Ast, h: int, y: YamlNode)
    requires
        b.extends(a),
        represents(a.nodes(), h, y),
    ensures
        represents(b.nodes(), h, y),
    decreases y,
{
    assert(b.nodes()[h] == a.nodes()[h]);
    match y.value {
        YamlValue::List(items) => {
            if let AstEntity::Yaml(YamlEntity::List(hs)) = a.nodes()[h] {
                assert forall|k: int| 0 <= k < items@.len() implies represents(b.nodes(), #[trigger] hs@[k] as int, items@[k]) by {
                    lemma_represents_extends(a, b, hs@[k] as int, items@[k]);
                }
            }
        },
        YamlValue::Mapping(pairs) => {
            if let AstEntity::Yaml(YamlEntity::Mapping(hs)) = a.nodes()[h] {
                assert forall|k: int| 0 <= k < pairs@.len() implies represents(b.nodes(), (#[trigger] hs@[k]).0 as int, pairs@[k].key)
                    && represents(b.nodes(), hs@[k].1 as int, pairs@[k].value) by {
                    lemma_represents_extends(a, b, hs@[k].0 as int, pairs@[k].key);
                    lemma_represents_extends(a, b, hs@[k].1 as int, pairs@[k].value);
                }
            }
        },
        _ => {},
    }
}

/// What was loaded is what the accessors read back: a node that represents
/// a YAML tree is a string, a list or a map exactly when the tree is one,
/// with the same text, and with one item for each item of the tree, each
/// representing that item.
pub proof fn lemma_read_back(nodes: Seq<AstEntity>, h: int, y: YamlNode)
    requires
        represents(nodes, h, y),
    ensures
        yaml_str(nodes[h]) == (match y.value {
            YamlValue::Str(s) => Some(s),
            _ => None,
        }),
        (yaml_list(nodes[h]) is Some) == (y.value is List),
        (yaml_map(nodes[h]) is Some) == (y.value is Mapping),
        y.value matches YamlValue::List(items) ==> {
            &&& yaml_list(nodes[h])->Some_0.len() == items@.len()
            &&& forall|k: int|
                0 <= k < items@.len() ==> represents(nodes, #[trigger] yaml_list(nodes[h])->Some_0[k] as int, items@[k])
        },
        y.value matches YamlValue::Mapping(pairs) ==> {
            &&& yaml_map(nodes[h])->Some_0.len() == pairs@.len()
            &&& forall|k: int|
                0 <= k < pairs@.len() ==> represents(nodes, (#[trigger] yaml_map(nodes[h])->Some_0[k]).0 as int, pairs@[k].key)
                    && represents(nodes, yaml_map(nodes[h])->Some_0[k].1 as int, pairs@[k].value)
        },
{
}

/// Loads the YAML tree `y` of the document at node `file` into the graph:
/// items first, then the node itself, then an edge from it to `file` with
/// its offset. Returns the node.
pub fn load_yaml(ast: &mut Ast, y: &YamlNode, file: usize) -> (h: usize)
    requires
        old(ast).wf(),
        file < old(ast).nodes().len(),
    ensures
        final(ast).wf(),
        final(ast).extends(old(ast)),
        h + 1 == final(ast).nodes().len(),
        represents(final(ast).nodes(), h as int, *y),
        final(ast).edges().len() > old(ast).edges().len(),
        final(ast).edges().last() == (h, file, AstRelation::File(FileRelation(y.pos))),
    decreases y,
{
    let ghost start = *ast;
    let ghost yg = *y;
    let w = match &y.value {
        YamlValue::Null => YamlEntity::Null,
        YamlValue::Bool(b) => YamlEntity::Bool(*b),
        YamlValue::Int(i) => YamlEntity::Int(*i),
        YamlValue::Float(f) => YamlEntity::Float(f.clone()),
        YamlValue::Str(s) => YamlEntity::Str(s.clone()),
        YamlValue::List(items) => {
            let mut hs: Vec<usize> = Vec::new();
            let mut k: usize = 0;
            while k < items.len()
                invariant
                    ast.wf(),
                    ast.extends(&start),
                    file < start.nodes().len(),
                    k <= items@.len(),
                    y.value == YamlValue::List(*items),
                    yg == *y,
                    hs@.len() == k,
                    forall|j: int| 0 <= j < k ==> represents(ast.nodes(), #[trigger] hs@[j] as int, items@[j]),
                    forall|j: int| 0 <= j < k ==> #[trigger] hs@[j] < ast.nodes().len(),
                decreases items@.len() - k,
            {
                let ghost before = *ast;
                proof {
                    assert(yg.value == YamlValue::List(*items));
                    assert(decreases_to!(yg => yg.value));
                    assert(decreases_to!(yg.value => yg.value->List_0));
                    assert(decreases_to!(*items => items@));
                    assert(decreases_to!(items@ => items@[k as int]));
                }
                let c = load_yaml(ast, &items[k], file);
                proof {
                    lemma_extends_trans(&start, &before, ast);
                    assert forall|j: int| 0 <= j < k implies represents(ast.nodes(), #[trigger] hs@[j] as int, items@[j]) by {
                        lemma_represents_extends(&before, ast, hs@[j] as int, items@[j]);
                    }
                }
                hs.push(c);
                k = k + 1;
            }
            YamlEntity::List(hs)
        },
        YamlValue::Mapping(pairs) => {
            let mut hs: Vec<(usize, usize)> = Vec::new();
            let mut k: usize = 0;
            while k < pairs.len()
                invariant
                    ast.wf(),
                    ast.extends(&start),
                    file < start.nodes().len(),
                    k <= pairs@.len(),
                    y.value == YamlValue::Mapping(*pairs),
                    yg == *y,
                    hs@.len() == k,
                    forall|j: int| 0 <= j < k ==> represents(ast.nodes(), (#[trigger] hs@[j]).0 as int, pairs@[j].key)
                        && represents(ast.nodes(), hs@[j].1 as int, pairs@[j].value),
                    forall|j: int| 0 <= j < k ==> (#[trigger] hs@[j]).0 < ast.nodes().len() && hs@[j].1 < ast.nodes().len(),
                decreases pairs@.len() - k,
            {
                let ghost before = *ast;
                proof {
                    assert(yg.value == YamlValue::Mapping(*pairs));
                    assert(decreases_to!(yg => yg.value));
                    assert(decreases_to!(yg.value => yg.value->Mapping_0));
                    assert(decreases_to!(*pairs => pairs@));
                    assert(decreases_to!(pairs@ => pairs@[k as int]));
                    assert(decreases_to!(pairs@[k as int] => pairs@[k as int].key));
                    assert(decreases_to!(pairs@[k as int] => pairs@[k as int].value));
                }
                let kh = load_yaml(ast, &pairs[k].key, file);
                let ghost mid = *ast;
                let vh = load_yaml(ast, &pairs[k].value, file);
                proof {
                    lemma_extends_trans(&start, &before, &mid);
                    lemma_extends_trans(&start, &mid, ast);
                    lemma_extends_trans(&before, &mid, ast);
                    lemma_represents_extends(&mid, ast, kh as int, pairs@[k as int].key);
                    assert forall|j: int| 0 <= j < k implies represents(ast.nodes(), (#[trigger] hs@[j]).0 as int, pairs@[j].key)
                        && represents(ast.nodes(), hs@[j].1 as int, pairs@[j].value) by {
                        lemma_represents_extends(&before, ast, hs@[j].0 as int, pairs@[j].key);
                        lemma_represents_extends(&before, ast, hs@[j].1 as int, pairs@[j].value);
                    }
                }
                hs.push((kh, vh));
                k = k + 1;
            }
            YamlEntity::Mapping(hs)
        },
    };
    let ghost mid = *ast;
    let ghost wg = w;
    let h = ast.add_yaml(w);
    ast.add_edge(h, file, AstRelation::File(FileRelation(y.pos)));
    proof {
        lemma_extends_trans(&start, &mid, ast);
        assert(ast.nodes()[h as int] == AstEntity::Yaml(wg));
        match yg.value {
            YamlValue::List(items) => {
                if let YamlEntity::List(hs) = wg {
                    assert forall|k: int| 0 <= k < items@.len() implies represents(ast.nodes(), #[trigger] hs@[k] as int, items@[k]) by {
                        lemma_represents_extends(&mid, ast, hs@[k] as int, items@[k]);
                    }
                }
            },
            YamlValue::Mapping(pairs) => {
                if let YamlEntity::Mapping(hs) = wg {
                    assert forall|k: int| 0 <= k < pairs@.len() implies represents(ast.nodes(), (#[trigger] hs@[k]).0 as int, pairs@[k].key)
                        && represents(ast.nodes(), hs@[k].1 as int, pairs@[k].value) by {
                        lemma_represents_extends(&mid, ast, hs@[k].0 as int, pairs@[k].key);
                        lemma_represents_extends(&mid, ast, hs@[k].1 as int, pairs@[k].value);
                    }
                }
            },
            _ => {},
        }
    }
    h
}

/// The text of a YAML string node.
pub open spec fn yaml_str(w: AstEntity) -> Option<String> {
    match w {
        AstEntity::Yaml(YamlEntity::Str(s)) => Some(s),
        _ => None,
    }
}

/// The text of node `n` if it is a YAML string.
pub fn as_string(n: usize, ast: &Ast) -> (r: Option<String>)
    requires
        n < ast.nodes().len(),
    ensures
        r == yaml_str(ast.nodes()[n as int]),
{
    match ast.node(n) {
        AstEntity::Yaml(YamlEntity::Str(s)) => Some(s.clone()),
        _ => None,
    }
}

/// The value of node `n` if it is a YAML integer.
pub fn as_int(n: usize, ast: &Ast) -> (r: Option<i64>)
    requires
        n < ast.nodes().len(),
    ensures
        r == (match ast.nodes()[n as int] {
            AstEntity::Yaml(YamlEntity::Int(i)) => Some(i),
            _ => None,
        }),
{
    match ast.node(n) {
        AstEntity::Yaml(YamlEntity::Int(i)) => Some(*i),
        _ => None,
    }
}

/// The value of node `n` if it is a YAML boolean.
pub fn as_bool(n: usize, ast: &Ast) -> (r: Option<bool>)
    requires
        n < ast.nodes().len(),
    ensures
        r == (match ast.nodes()[n as int] {
            AstEntity::Yaml(YamlEntity::Bool(b)) => Some(b),
            _ => None,
        }),
{
    match ast.node(n) {
        AstEntity::Yaml(YamlEntity::Bool(b)) => Some(*b),
        _ => None,
    }
}

/// The items of a YAML list node.
pub open spec fn yaml_list(w: AstEntity) -> Option<Seq<usize>> {
    match w {
        AstEntity::Yaml(YamlEntity::List(items)) => Some(items@),
        _ => None,
    }
}

/// The entries of a YAML map node.
pub open spec fn yaml_map(w: AstEntity) -> Option<Seq<(usize, usize)>> {
    match w {
        AstEntity::Yaml(YamlEntity::Mapping(entries)) => Some(entries@),
        _ => None,
    }
}

/// The item nodes of node `n` if it is a YAML list, in order.
pub fn as_list(n: usize, ast: &Ast) -> (r: Option<Vec<usize>>)
    requires
        n < ast.nodes().len(),
    ensures
        match r {
            Some(v) => yaml_list(ast.nodes()[n as int]) == Some(v@),
            None => yaml_list(ast.nodes()[n as int]) is None,
        },
{
    match ast.node(n) {
        AstEntity::Yaml(YamlEntity::List(items)) => {
            let mut out: Vec<usize> = Vec::new();
            let mut k: usize = 0;
            while k < items.len()
                invariant
                    k <= items@.len(),
                    out@ == items@.subrange(0, k as int),
                decreases items@.len() - k,
            {
                out.push(items[k]);
                k = k + 1;
                assert(out@ =~= items@.subrange(0, k as int));
            }
            assert(out@ =~= items@);
            Some(out)
        },
        _ => None,
    }
}

/// The `(key, value)` node pairs of node `n` if it is a YAML map, in order.
pub fn as_map(n: usize, ast: &Ast) -> (r: Option<Vec<(usize, usize)>>)
    requires
        n < ast.nodes().len(),
    ensures
        match r {
            Some(v) => yaml_map(ast.nodes()[n as int]) == Some(v@),
            None => yaml_map(ast.nodes()[n as int]) is None,
        },
{
    match ast.node(n) {
        AstEntity::Yaml(YamlEntity::Mapping(entries)) => {
            let mut out: Vec<(usize, usize)> = Vec::new();
            let mut k: usize = 0;
            while k < entries.len()
                invariant
                    k <= entries@.len(),
                    out@ == entries@.subrange(0, k as int),
                decreases entries@.len() - k,
            {
                let (a, b) = entries[k];
                out.push((a, b));
                k = k + 1;
                assert(out@ =~= entries@.subrange(0, k as int));
            }
            assert(out@ =~= entries@);
            Some(out)
        },
        _ => None,
    }
}

/// Whether `a` and `b` hold the same text.
pub fn str_eq(a: &str, b: &str) -> (r: bool)
    ensures
        r == (a@ == b@),
{
    let x = String::from_str(a);
    let y = String::from_str(b);
    x == y
}

} // verus!
