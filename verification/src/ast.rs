//! The graph that holds a parsed document: source files, YAML nodes, TOSCA
//! entities and parse errors, connected by typed edges.
use vstd::prelude::*;

use crate::models::{Entity, Relation, RelationView};

verus! {

#[verifier::external_type_specification]
#[verifier::external_body]
pub struct ExDirected(petgraph::Directed);

#[verifier::external_type_specification]
#[verifier::external_body]
#[verifier::reject_recursive_types(N)]
#[verifier::reject_recursive_types(E)]
#[verifier::reject_recursive_types(Ty)]
#[verifier::reject_recursive_types(Ix)]
pub struct ExGraph<N, E, Ty, Ix>(petgraph::graph::Graph<N, E, Ty, Ix>);

/// The graph type that holds a document: directed, indexed by `usize`.
pub type AstGraph = petgraph::graph::Graph<AstEntity, AstRelation, petgraph::Directed, usize>;

/// The node weights of an `AstGraph`, in order of their indices.
pub uninterp spec fn graph_nodes(g: AstGraph) -> Seq<AstEntity>;

/// The edges of an `AstGraph` as `(source, target, weight)`, in order of
/// their indices.
pub uninterp spec fn graph_edges(g: AstGraph) -> Seq<(usize, usize, AstRelation)>;

/// A problem found while reading a document.
#[derive(Debug, PartialEq, Eq, Clone)]
pub enum ParseError {
    UnexpectedType(&'static str),
    MissingField(&'static str),
    UnknownField(String),
    Custom(String),
}

/// A parse error with its texts as character sequences.
pub enum ErrorView {
    UnexpectedType(Seq<char>),
    MissingField(Seq<char>),
    UnknownField(Seq<char>),
    Custom(Seq<char>),
}

impl View for ParseError {
    type V = ErrorView;

    open spec fn view(&self) -> ErrorView {
        match *self {
            ParseError::UnexpectedType(s) => ErrorView::UnexpectedType(s@),
            ParseError::MissingField(s) => ErrorView::MissingField(s@),
            ParseError::UnknownField(s) => ErrorView::UnknownField(s@),
            ParseError::Custom(s) => ErrorView::Custom(s@),
        }
    }
}

/// The edge from an error or an entity to the YAML node it stems from.
#[derive(Debug, Default, PartialEq, Eq, Clone, Copy)]
pub struct ParseLoc;

/// A loaded document: where it came from, and its text (absent for the
/// built-in definitions).
#[derive(Debug, PartialEq, Eq, Clone)]
pub struct SourceFile {
    pub url: String,
    pub content: Option<String>,
}

/// The edge from a YAML node (or a file-level error) to its document, with
/// the character offset at which it starts.
#[derive(Debug, PartialEq, Eq, Clone, Copy)]
pub struct FileRelation(pub usize);

/// A YAML node. Lists and maps name their items by node index.
#[derive(Debug, PartialEq, Eq, Clone)]
pub enum YamlEntity {
    Null,
    Bool(bool),
    Int(i64),
    Float(String),
    Str(String),
    List(Vec<usize>),
    Mapping(Vec<(usize, usize)>),
}

/// A node of the document graph.
#[derive(Debug, PartialEq, Eq, Clone)]
pub enum AstEntity {
    File(SourceFile),
    Parse(ParseError),
    Yaml(YamlEntity),
    Tosca(Entity),
}

/// An edge of the document graph.
#[derive(Debug, PartialEq, Eq)]
pub enum AstRelation {
    File(FileRelation),
    Parse(ParseLoc),
    Tosca(Relation),
}

/// A node weight that may hold a TOSCA entity.
pub trait AsToscaEntity {
    fn as_tosca(&self) -> Option<&Entity>;
}

/// An edge weight that may hold a TOSCA relation.
pub trait AsToscaRelation {
    fn as_tosca(&self) -> Option<&Relation>;
}

/// Node weights that hold everything the TOSCA grammar puts in a graph:
/// documents, YAML nodes, TOSCA entities and errors.
pub trait ToscaCompatibleEntity: From<SourceFile> + From<YamlEntity> + From<Entity> + From<ParseError> + AsToscaEntity + Sized {

}

/// Edge weights that hold everything the TOSCA grammar puts in a graph:
/// file offsets, error locations and TOSCA relations.
pub trait ToscaCompatibleRelation: From<FileRelation> + From<ParseLoc> + From<Relation> + AsToscaRelation + Sized {

}

impl AsToscaEntity for AstEntity {
    fn as_tosca(&self) -> (r: Option<&Entity>)
        ensures
            r == (match *self {
                AstEntity::Tosca(e) => Some(&e),
                _ => None,
            }),
    {
        match self {
            AstEntity::Tosca(e) => Some(e),
            _ => None,
        }
    }
}

impl AsToscaRelation for AstRelation {
    fn as_tosca(&self) -> (r: Option<&Relation>)
        ensures
            r == (match *self {
                AstRelation::Tosca(e) => Some(&e),
                _ => None,
            }),
    {
        match self {
            AstRelation::Tosca(e) => Some(e),
            _ => None,
        }
    }
}

impl From<SourceFile> for AstEntity {
    fn from(v: SourceFile) -> (r: AstEntity) {
        AstEntity::File(v)
    }
}

impl vstd::std_specs::convert::FromSpecImpl<SourceFile> for AstEntity {
    open spec fn obeys_from_spec() -> bool {
        true
    }

    open spec fn from_spec(v: SourceFile) -> AstEntity {
        AstEntity::File(v)
    }
}

impl From<YamlEntity> for AstEntity {
    fn from(v: YamlEntity) -> (r: AstEntity) {
        AstEntity::Yaml(v)
    }
}

impl vstd::std_specs::convert::FromSpecImpl<YamlEntity> for AstEntity {
    open spec fn obeys_from_spec() -> bool {
        true
    }

    open spec fn from_spec(v: YamlEntity) -> AstEntity {
        AstEntity::Yaml(v)
    }
}

impl From<Entity> for AstEntity {
    fn from(v: Entity) -> (r: AstEntity) {
        AstEntity::Tosca(v)
    }
}

impl vstd::std_specs::convert::FromSpecImpl<Entity> for AstEntity {
    open spec fn obeys_from_spec() -> bool {
        true
    }

    open spec fn from_spec(v: Entity) -> AstEntity {
        AstEntity::Tosca(v)
    }
}

impl From<ParseError> for AstEntity {
    fn from(v: ParseError) -> (r: AstEntity) {
        AstEntity::Parse(v)
    }
}

impl vstd::std_specs::convert::FromSpecImpl<ParseError> for AstEntity {
    open spec fn obeys_from_spec() -> bool {
        true
    }

    open spec fn from_spec(v: ParseError) -> AstEntity {
        AstEntity::Parse(v)
    }
}

impl From<FileRelation> for AstRelation {
    fn from(v: FileRelation) -> (r: AstRelation) {
        AstRelation::File(v)
    }
}

impl vstd::std_specs::convert::FromSpecImpl<FileRelation> for AstRelation {
    open spec fn obeys_from_spec() -> bool {
        true
    }

    open spec fn from_spec(v: FileRelation) -> AstRelation {
        AstRelation::File(v)
    }
}

impl From<ParseLoc> for AstRelation {
    fn from(v: ParseLoc) -> (r: AstRelation) {
        AstRelation::Parse(v)
    }
}

impl vstd::std_specs::convert::FromSpecImpl<ParseLoc> for AstRelation {
    open spec fn obeys_from_spec() -> bool {
        true
    }

    open spec fn from_spec(v: ParseLoc) -> AstRelation {
        AstRelation::Parse(v)
    }
}

impl From<Relation> for AstRelation {
    fn from(v: Relation) -> (r: AstRelation) {
        AstRelation::Tosca(v)
    }
}

impl vstd::std_specs::convert::FromSpecImpl<Relation> for AstRelation {
    open spec fn obeys_from_spec() -> bool {
        true
    }

    open spec fn from_spec(v: Relation) -> AstRelation {
        AstRelation::Tosca(v)
    }
}

impl ToscaCompatibleEntity for AstEntity {

}

impl ToscaCompatibleRelation for AstRelation {

}

/// `Graph::default`: a graph with no nodes and no edges.
#[verifier::external_body]
fn graph_new() -> (g: AstGraph)
    ensures
        graph_nodes(g) == Seq::<AstEntity>::empty(),
        graph_edges(g) == Seq::<(usize, usize, AstRelation)>::empty(),
{
    petgraph::graph::Graph::default()
}

/// `Graph::clear`: removes every node and edge.
#[verifier::external_body]
fn graph_clear(g: &mut AstGraph)
    ensures
        graph_nodes(*final(g)) == Seq::<AstEntity>::empty(),
        graph_edges(*final(g)) == Seq::<(usize, usize, AstRelation)>::empty(),
{
    g.clear()
}

/// `Graph::node_count`: the number of nodes.
#[verifier::external_body]
fn graph_node_count(g: &AstGraph) -> (n: usize)
    ensures
        n == graph_nodes(*g).len(),
{
    g.node_count()
}

/// `Graph::edge_count`: the number of edges.
#[verifier::external_body]
fn graph_edge_count(g: &AstGraph) -> (n: usize)
    ensures
        n == graph_edges(*g).len(),
{
    g.edge_count()
}

/// `Graph::add_node`: appends a node; its index is the old node count. With
/// `usize` indices the capacity check of the source never fails.
#[verifier::external_body]
fn graph_add_node(g: &mut AstGraph, w: AstEntity) -> (i: usize)
    ensures
        graph_nodes(*final(g)) == graph_nodes(*old(g)).push(w),
        graph_edges(*final(g)) == graph_edges(*old(g)),
        i == graph_nodes(*old(g)).len(),
{
    g.add_node(w).index()
}

/// `Graph::add_edge`: appends an edge; it panics unless both ends exist.
#[verifier::external_body]
fn graph_add_edge(g: &mut AstGraph, a: usize, b: usize, w: AstRelation)
    requires
        a < graph_nodes(*old(g)).len(),
        b < graph_nodes(*old(g)).len(),
    ensures
        graph_nodes(*final(g)) == graph_nodes(*old(g)),
        graph_edges(*final(g)) == graph_edges(*old(g)).push((a, b, w)),
{
    g.add_edge(petgraph::graph::NodeIndex::new(a), petgraph::graph::NodeIndex::new(b), w);
}

/// Indexing a graph by node: the weight of an existing node.
#[verifier::external_body]
fn graph_node(g: &AstGraph, i: usize) -> (w: &AstEntity)
    requires
        i < graph_nodes(*g).len(),
    ensures
        *w == graph_nodes(*g)[i as int],
{
    &g[petgraph::graph::NodeIndex::new(i)]
}

/// Indexing a graph by edge: the weight of an existing edge.
#[verifier::external_body]
fn graph_edge_weight(g: &AstGraph, e: usize) -> (w: &AstRelation)
    requires
        e < graph_edges(*g).len(),
    ensures
        *w == graph_edges(*g)[e as int].2,
{
    &g[petgraph::graph::EdgeIndex::new(e)]
}

/// `Graph::edge_endpoints`: source and target of an edge, if it exists.
#[verifier::external_body]
fn graph_edge_endpoints(g: &AstGraph, e: usize) -> (r: Option<(usize, usize)>)
    ensures
        e < graph_edges(*g).len() ==> r == Some(
            (graph_edges(*g)[e as int].0, graph_edges(*g)[e as int].1),
        ),
        e >= graph_edges(*g).len() ==> r is None,
{
    g.edge_endpoints(petgraph::graph::EdgeIndex::new(e)).map(|(a, b)| (a.index(), b.index()))
}

/// The children of a YAML node all come before it in the graph.
pub open spec fn yaml_children_before(nodes: Seq<AstEntity>, i: int) -> bool {
    match nodes[i] {
        AstEntity::Yaml(YamlEntity::List(items)) => forall|k: int|
            0 <= k < items@.len() ==> #[trigger] items@[k] < i,
        AstEntity::Yaml(YamlEntity::Mapping(entries)) => forall|k: int|
            0 <= k < entries@.len() ==> (#[trigger] entries@[k]).0 < i && entries@[k].1 < i,
        _ => true,
    }
}

/// Every error node has an edge out of it that says where it was found.
pub open spec fn error_located(
    nodes: Seq<AstEntity>,
    edges: Seq<(usize, usize, AstRelation)>,
    i: int,
) -> bool {
    nodes[i] is Parse ==> exists|e: int| 0 <= e < edges.len() && #[trigger] edges[e].0 == i
}

/// The document graph.
pub struct Ast {
    graph: AstGraph,
}

impl Ast {
    /// The nodes, in order of their indices.
    pub closed spec fn nodes(&self) -> Seq<AstEntity> {
        graph_nodes(self.graph)
    }

    /// The edges `(source, target, weight)`, in order of their indices.
    pub closed spec fn edges(&self) -> Seq<(usize, usize, AstRelation)> {
        graph_edges(self.graph)
    }

    /// Edges join existing nodes, YAML nodes name earlier nodes as their
    /// items, and every error is located.
    pub open spec fn wf(&self) -> bool {
        &&& forall|e: int|
            0 <= e < self.edges().len() ==> (#[trigger] self.edges()[e]).0 < self.nodes().len()
                && self.edges()[e].1 < self.nodes().len()
        &&& forall|i: int| 0 <= i < self.nodes().len() ==> yaml_children_before(self.nodes(), i)
        &&& forall|i: int|
            0 <= i < self.nodes().len() ==> error_located(self.nodes(), self.edges(), i)
    }

    /// `self` holds everything that `prev` held, at the same indices.
    pub open spec fn extends(&self, prev: &Ast) -> bool {
        &&& prev.nodes().len() <= self.nodes().len()
        &&& prev.edges().len() <= self.edges().len()
        &&& forall|i: int| 0 <= i < prev.nodes().len() ==> #[trigger] self.nodes()[i] == prev.nodes()[i]
        &&& forall|e: int| 0 <= e < prev.edges().len() ==> #[trigger] self.edges()[e] == prev.edges()[e]
    }

    /// An empty graph.
    pub fn new() -> (ast: Ast)
        ensures
            ast.nodes().len() == 0,
            ast.edges().len() == 0,
            ast.wf(),
    {
        Ast { graph: graph_new() }
    }

    /// Removes every node and edge.
    pub fn clear(&mut self)
        ensures
            final(self).nodes().len() == 0,
            final(self).edges().len() == 0,
            final(self).wf(),
    {
        graph_clear(&mut self.graph);
    }

    pub fn node_count(&self) -> (n: usize)
        ensures
            n == self.nodes().len(),
    {
        graph_node_count(&self.graph)
    }

    pub fn edge_count(&self) -> (n: usize)
        ensures
            n == self.edges().len(),
    {
        graph_edge_count(&self.graph)
    }

    /// The weight of node `i`.
    pub fn node(&self, i: usize) -> (w: &AstEntity)
        requires
            i < self.nodes().len(),
        ensures
            *w == self.nodes()[i as int],
    {
        graph_node(&self.graph, i)
    }

    /// Source and target of edge `e`.
    pub fn edge_endpoints(&self, e: usize) -> (r: (usize, usize))
        requires
            e < self.edges().len(),
        ensures
            r == (self.edges()[e as int].0, self.edges()[e as int].1),
    {
        match graph_edge_endpoints(&self.graph, e) {
            Some(r) => r,
            None => (0, 0),
        }
    }

    /// The weight of edge `e`.
    pub fn edge_weight(&self, e: usize) -> (w: &AstRelation)
        requires
            e < self.edges().len(),
        ensures
            *w == self.edges()[e as int].2,
    {
        graph_edge_weight(&self.graph, e)
    }

    /// Adds a node that is neither a YAML list or map nor an error; returns
    /// its index.
    pub fn add_node(&mut self, w: AstEntity) -> (i: usize)
        requires
            old(self).wf(),
            !(w is Parse),
            !(w matches AstEntity::Yaml(YamlEntity::List(_))),
            !(w matches AstEntity::Yaml(YamlEntity::Mapping(_))),
        ensures
            final(self).wf(),
            final(self).nodes() == old(self).nodes().push(w),
            final(self).edges() == old(self).edges(),
            i == old(self).nodes().len(),
    {
        let ghost prev = self.nodes();
        let ghost prev_edges = self.edges();
        let i = graph_add_node(&mut self.graph, w);
        proof {
            assert forall|j: int| 0 <= j < self.nodes().len() implies yaml_children_before(self.nodes(), j) by {
                if j < prev.len() {
                    assert(yaml_children_before(prev, j));
                    assert(self.nodes()[j] == prev[j]);
                }
            }
            assert forall|j: int| 0 <= j < self.nodes().len() implies error_located(self.nodes(), self.edges(), j) by {
                if j < prev.len() {
                    assert(error_located(prev, prev_edges, j));
                    assert(self.nodes()[j] == prev[j]);
                }
            }
        }
        i
    }

    /// Adds an edge between existing nodes.
    pub fn add_edge(&mut self, a: usize, b: usize, w: AstRelation)
        requires
            old(self).wf(),
            a < old(self).nodes().len(),
            b < old(self).nodes().len(),
        ensures
            final(self).wf(),
            final(self).nodes() == old(self).nodes(),
            final(self).edges() == old(self).edges().push((a, b, w)),
    {
        let ghost prev = self.edges();
        graph_add_edge(&mut self.graph, a, b, w);
        proof {
            assert forall|j: int| 0 <= j < self.nodes().len() implies error_located(self.nodes(), self.edges(), j) by {
                if self.nodes()[j] is Parse {
                    assert(error_located(self.nodes(), prev, j));
                    let e = choose|e: int| 0 <= e < prev.len() && #[trigger] prev[e].0 == j;
                    assert(self.edges()[e] == prev[e]);
                }
            }
        }
    }

    /// Adds a TOSCA entity or an error, located at node `n` by a `ParseLoc`
    /// edge; returns its index.
    pub fn add_with_loc(&mut self, w: AstEntity, n: usize) -> (i: usize)
        requires
            old(self).wf(),
            n < old(self).nodes().len(),
            w is Tosca || w is Parse,
        ensures
            final(self).wf(),
            final(self).nodes() == old(self).nodes().push(w),
            final(self).edges() == old(self).edges().push((i, n, AstRelation::Parse(ParseLoc))),
            i == old(self).nodes().len(),
    {
        let ghost prev = self.nodes();
        let ghost prev_edges = self.edges();
        let i = graph_add_node(&mut self.graph, w);
        graph_add_edge(&mut self.graph, i, n, AstRelation::Parse(ParseLoc));
        proof {
            let edges = self.edges();
            assert forall|j: int| 0 <= j < self.nodes().len() implies yaml_children_before(self.nodes(), j) by {
                if j < prev.len() {
                    assert(yaml_children_before(prev, j));
                    assert(self.nodes()[j] == prev[j]);
                }
            }
            assert forall|j: int| 0 <= j < self.nodes().len() implies error_located(self.nodes(), edges, j) by {
                if j < prev.len() {
                    assert(self.nodes()[j] == prev[j]);
                    if prev[j] is Parse {
                        assert(error_located(prev, prev_edges, j));
                        let e = choose|e: int| 0 <= e < prev_edges.len() && #[trigger] prev_edges[e].0 == j;
                        assert(edges[e] == prev_edges[e]);
                    }
                } else {
                    assert(edges[prev_edges.len() as int].0 == j);
                }
            }
        }
        i
    }
}

/// The items a YAML node names all lie below `bound`.
pub open spec fn yaml_items_below(w: YamlEntity, bound: int) -> bool {
    match w {
        YamlEntity::List(items) => forall|k: int| 0 <= k < items@.len() ==> #[trigger] items@[k] < bound,
        YamlEntity::Mapping(entries) => forall|k: int|
            0 <= k < entries@.len() ==> (#[trigger] entries@[k]).0 < bound && entries@[k].1 < bound,
        _ => true,
    }
}

impl Ast {
    /// Adds a YAML node whose items are existing nodes; returns its index.
    pub fn add_yaml(&mut self, w: YamlEntity) -> (i: usize)
        requires
            old(self).wf(),
            yaml_items_below(w, old(self).nodes().len() as int),
        ensures
            final(self).wf(),
            final(self).nodes() == old(self).nodes().push(AstEntity::Yaml(w)),
            final(self).edges() == old(self).edges(),
            i == old(self).nodes().len(),
    {
        let ghost prev = self.nodes();
        let ghost prev_edges = self.edges();
        let ghost wg = w;
        let i = graph_add_node(&mut self.graph, AstEntity::Yaml(w));
        proof {
            assert forall|j: int| 0 <= j < self.nodes().len() implies yaml_children_before(self.nodes(), j) by {
                if j < prev.len() {
                    assert(yaml_children_before(prev, j));
                    assert(self.nodes()[j] == prev[j]);
                } else {
                    assert(self.nodes()[j] == AstEntity::Yaml(wg));
                }
            }
            assert forall|j: int| 0 <= j < self.nodes().len() implies error_located(self.nodes(), self.edges(), j) by {
                if j < prev.len() {
                    assert(error_located(prev, prev_edges, j));
                    assert(self.nodes()[j] == prev[j]);
                }
            }
        }
        i
    }
}

/// Whether node `w` is the error `e`.
pub open spec fn is_error(w: AstEntity, e: ErrorView) -> bool {
    w matches AstEntity::Parse(pe) && pe@ == e
}

/// `new` is `old` with one more error, `e`, located at node `n`.
pub open spec fn added_error(old: Ast, new: Ast, n: int, e: ErrorView) -> bool {
    &&& old.nodes().len() <= usize::MAX
    &&& new.nodes().len() == old.nodes().len() + 1
    &&& new.nodes().drop_last() == old.nodes()
    &&& new.nodes().last() matches AstEntity::Parse(pe) && pe@ == e
    &&& new.edges() == old.edges().push(
        (old.nodes().len() as usize, n as usize, AstRelation::Parse(ParseLoc)),
    )
}

impl Ast {
    /// Records error `e`, located at node `n`.
    pub fn add_error(&mut self, e: ParseError, n: usize)
        requires
            old(self).wf(),
            n < old(self).nodes().len(),
        ensures
            final(self).wf(),
            final(self).extends(old(self)),
            added_error(*old(self), *final(self), n as int, e@),
    {
        let ghost prev = *self;
        self.add_with_loc(AstEntity::Parse(e), n);
        assert(self.nodes().drop_last() =~= prev.nodes());
    }
}

impl Ast {
    /// Records error `e` at document node `doc`, with the offset `pos` in it.
    pub fn add_file_error(&mut self, e: ParseError, doc: usize, pos: usize) -> (i: usize)
        requires
            old(self).wf(),
            doc < old(self).nodes().len(),
        ensures
            final(self).wf(),
            final(self).extends(old(self)),
            final(self).nodes() == old(self).nodes().push(AstEntity::Parse(e)),
            final(self).edges() == old(self).edges().push((i, doc, AstRelation::File(FileRelation(pos)))),
            i == old(self).nodes().len(),
    {
        let ghost prev = self.nodes();
        let ghost prev_edges = self.edges();
        let i = graph_add_node(&mut self.graph, AstEntity::Parse(e));
        graph_add_edge(&mut self.graph, i, doc, AstRelation::File(FileRelation(pos)));
        proof {
            let edges = self.edges();
            assert forall|j: int| 0 <= j < self.nodes().len() implies yaml_children_before(self.nodes(), j) by {
                if j < prev.len() {
                    assert(yaml_children_before(prev, j));
                    assert(self.nodes()[j] == prev[j]);
                }
            }
            assert forall|j: int| 0 <= j < self.nodes().len() implies error_located(self.nodes(), edges, j) by {
                if j < prev.len() {
                    assert(self.nodes()[j] == prev[j]);
                    if prev[j] is Parse {
                        assert(error_located(prev, prev_edges, j));
                        let e = choose|e: int| 0 <= e < prev_edges.len() && #[trigger] prev_edges[e].0 == j;
                        assert(edges[e] == prev_edges[e]);
                    }
                } else {
                    assert(edges[prev_edges.len() as int].0 == j);
                }
            }
        }
        i
    }
}

/// `new` is `old` with the errors `errs` added after it, in order, each
/// located at its node.
pub open spec fn added_errors(old: Ast, new: Ast, errs: Seq<(usize, ErrorView)>) -> bool {
    &&& new.nodes().len() == old.nodes().len() + errs.len()
    &&& new.edges().len() == old.edges().len() + errs.len()
    &&& forall|i: int| 0 <= i < old.nodes().len() ==> #[trigger] new.nodes()[i] == old.nodes()[i]
    &&& forall|e: int| 0 <= e < old.edges().len() ==> #[trigger] new.edges()[e] == old.edges()[e]
    &&& forall|t: int|
        0 <= t < errs.len() ==> is_error(#[trigger] new.nodes()[old.nodes().len() + t], errs[t].1)
            && new.edges()[old.edges().len() + t] == (
            (old.nodes().len() + t) as usize,
            errs[t].0,
            AstRelation::Parse(ParseLoc),
        )
}

/// No errors added: the graph is unchanged.
pub proof fn lemma_added_no_errors(a: &Ast)
    ensures
        added_errors(*a, *a, Seq::empty()),
{
}

/// One more error after a run of added errors.
pub proof fn lemma_added_errors_push(a: &Ast, b: &Ast, c: &Ast, errs: Seq<(usize, ErrorView)>, n: usize, e: ErrorView)
    requires
        added_errors(*a, *b, errs),
        added_error(*b, *c, n as int, e),
    ensures
        added_errors(*a, *c, errs.push((n, e))),
{
    let es = errs.push((n, e));
    assert forall|i: int| 0 <= i < a.nodes().len() implies #[trigger] c.nodes()[i] == a.nodes()[i] by {
        assert(c.nodes().drop_last()[i] == b.nodes()[i]);
    }
    assert forall|t: int| 0 <= t < es.len() implies is_error(#[trigger] c.nodes()[a.nodes().len() + t], es[t].1)
        && c.edges()[a.edges().len() + t] == ((a.nodes().len() + t) as usize, es[t].0, AstRelation::Parse(ParseLoc)) by {
        if t < errs.len() {
            assert(c.nodes().drop_last()[a.nodes().len() + t] == b.nodes()[a.nodes().len() + t]);
        }
    }
}

/// Added errors extend the graph.
pub proof fn lemma_added_errors_extends(a: &Ast, b: &Ast, errs: Seq<(usize, ErrorView)>)
    requires
        added_errors(*a, *b, errs),
    ensures
        b.extends(a),
{
}

/// Every error in a well-formed graph says where it was found: an edge
/// leads out of it.
pub proof fn lemma_errors_located(ast: &Ast, i: int)
    requires
        ast.wf(),
        0 <= i < ast.nodes().len(),
        ast.nodes()[i] is Parse,
    ensures
        exists|e: int| 0 <= e < ast.edges().len() && #[trigger] ast.edges()[e].0 == i,
{
    assert(error_located(ast.nodes(), ast.edges(), i));
}

/// Edge `e` leads out of `root` by a TOSCA relation whose view is `rv`.
pub open spec fn link_at(ast: Ast, e: int, root: int, rv: RelationView) -> bool {
    &&& 0 <= e < ast.edges().len()
    &&& ast.edges()[e].0 == root
    &&& ast.edges()[e].2 matches AstRelation::Tosca(x) && x@ == rv
}

/// Edge `e` leads from `root` to `target` by a TOSCA relation whose view is
/// `rv`.
pub open spec fn link_to_at(ast: Ast, e: int, root: int, target: int, rv: RelationView) -> bool {
    &&& link_at(ast, e, root, rv)
    &&& ast.edges()[e].1 == target
}

/// `root` is linked to `target` by a TOSCA relation whose view is `rv`.
pub open spec fn links_to(ast: Ast, root: int, target: int, rv: RelationView) -> bool {
    exists|e: int| #[trigger] link_to_at(ast, e, root, target, rv)
}

/// Edge `e` locates an error `err` at node `at`.
pub open spec fn error_edge(ast: Ast, e: int, err: ErrorView, at: int) -> bool {
    &&& 0 <= e < ast.edges().len()
    &&& ast.edges()[e].1 == at
    &&& ast.edges()[e].2 == AstRelation::Parse(ParseLoc)
    &&& is_error(ast.nodes()[ast.edges()[e].0 as int], err)
}

/// An error `err` is located at node `at`.
pub open spec fn error_at(ast: Ast, err: ErrorView, at: int) -> bool {
    exists|e: int| #[trigger] error_edge(ast, e, err, at)
}

/// A located error stays when the graph grows.
pub proof fn lemma_error_at_extends(a: &Ast, b: &Ast, err: ErrorView, at: int)
    requires
        a.wf(),
        error_at(*a, err, at),
        b.extends(a),
    ensures
        error_at(*b, err, at),
{
    let e = choose|e: int| error_edge(*a, e, err, at);
    assert(b.edges()[e] == a.edges()[e]);
    assert(b.nodes()[a.edges()[e].0 as int] == a.nodes()[a.edges()[e].0 as int]);
    assert(error_edge(*b, e, err, at));
}

/// An added error is located where it was added.
pub proof fn lemma_added_error_at(a: &Ast, b: &Ast, n: int, err: ErrorView)
    requires
        added_error(*a, *b, n, err),
        0 <= n < a.nodes().len(),
    ensures
        error_at(*b, err, n),
{
    let e = a.edges().len() as int;
    assert(b.edges()[e] == (a.nodes().len() as usize, n as usize, AstRelation::Parse(ParseLoc)));
    assert(b.nodes()[a.nodes().len() as int] == b.nodes().last());
    assert(error_edge(*b, e, err, n));
}

/// Extension is reflexive.
pub proof fn lemma_extends_refl(a: &Ast)
    ensures
        a.extends(a),
{
}

/// Extension is transitive.
pub proof fn lemma_extends_trans(a: &Ast, b: &Ast, c: &Ast)
    requires
        b.extends(a),
        c.extends(b),
    ensures
        c.extends(a),
{
    assert forall|i: int| 0 <= i < a.nodes().len() implies #[trigger] c.nodes()[i] == a.nodes()[i] by {
        assert(c.nodes()[i] == b.nodes()[i]);
    }
    assert forall|e: int| 0 <= e < a.edges().len() implies #[trigger] c.edges()[e] == a.edges()[e] by {
        assert(c.edges()[e] == b.edges()[e]);
    }
}

} // verus!
