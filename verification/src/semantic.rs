//! Imports between documents: which documents a file imports, and how the
//! URL of an import is resolved against the file that names it.
use vstd::prelude::*;

use crate::ast::{lemma_extends_refl, lemma_extends_trans, Ast, AstEntity, AstRelation, ErrorView, SourceFile, YamlEntity};
use crate::grammar::parser::{document_parsed, no_errors_after, valid_document, ToscaGrammar};
use crate::models::Relation;
use crate::parser::{
    file_error_edge, invalid_url_message, invalid_url_text, is_document, join_url, parse_url,
    report_yaml_error, root_edge, url_joined, url_parsed, yaml_error_message, yaml_error_offset,
    yaml_error_parses, yaml_error_recorded, yaml_root_at, LoadedFile,
};
use crate::yaml::{lemma_represents_extends, load_yaml, str_eq, yaml_str, YamlNode};

verus! {

broadcast use vstd::string::group_string_axioms;

/// A problem found while following the imports of documents.
pub struct SemanticError {
    pub msg: String,
}

impl SemanticError {
    pub fn new(msg: String) -> (e: SemanticError)
        ensures
            e.msg@ == msg@,
    {
        SemanticError { msg }
    }

    /// Where the problem lies: such errors point at no position.
    pub fn loc(&self) -> (r: u64)
        ensures
            r == 0,
    {
        0
    }

    /// What the problem is.
    pub fn what(&self) -> (r: String)
        ensures
            r@ == self.msg@,
    {
        self.msg.clone()
    }
}

/// What URL text `path` stands for, seen from the document at `base`: `path`
/// itself where it is a URL, else `path` joined to `base`.
pub open spec fn resolved(path: Seq<char>, base: Seq<char>) -> Result<Seq<char>, Seq<char>> {
    match url_parsed(path) {
        Some(u) => Ok(u),
        None => url_joined(base, path),
    }
}

/// A path that is a URL stands for that URL, whatever document it is seen
/// from.
pub proof fn lemma_url_resolves_to_itself(path: Seq<char>, base: Seq<char>, other: Seq<char>)
    requires
        url_parsed(path) is Some,
    ensures
        resolved(path, base) == Ok::<Seq<char>, Seq<char>>(url_parsed(path)->Some_0),
        resolved(path, base) == resolved(path, other),
{
}

/// The URL that `path` stands for, seen from the document at `base`, or why
/// there is none.
pub fn resolve_url(path: &str, base: &str) -> (r: Result<String, String>)
    ensures
        match r {
            Ok(u) => resolved(path@, base@) == Ok::<Seq<char>, Seq<char>>(u@),
            Err(m) => resolved(path@, base@) == Err::<Seq<char>, Seq<char>>(m@),
        },
{
    match parse_url(path) {
        Some(u) => Ok(u),
        None => join_url(base, path),
    }
}

/// The URL text of import definition `def`, as the edges below `k` give it:
/// the text of the YAML string that the last `ImportUrl` edge out of `def`
/// leading to a string leads to (the first met when the edges out of `def`
/// are walked newest first, as the graph lists them).
pub open spec fn url_in(nodes: Seq<AstEntity>, edges: Seq<(usize, usize, AstRelation)>, def: usize, k: int) -> Option<Seq<char>>
    decreases k,
{
    if k <= 0 {
        None
    } else {
        let e = edges[k - 1];
        if e.0 == def && (e.2 matches AstRelation::Tosca(Relation::ImportUrl(_))) && yaml_str(nodes[e.1 as int]) is Some {
            Some(yaml_str(nodes[e.1 as int])->Some_0@)
        } else {
            url_in(nodes, edges, def, k - 1)
        }
    }
}

/// The imports of file entity `f` that the edges below `k` give: for each
/// edge out of `f` by an `Import` relation, in order, the URL text of the
/// import definition it leads to, and that definition; definitions without a
/// URL are left out.
pub open spec fn imports_in(nodes: Seq<AstEntity>, edges: Seq<(usize, usize, AstRelation)>, f: usize, k: int) -> Seq<(Seq<char>, usize)>
    decreases k,
{
    if k <= 0 {
        Seq::empty()
    } else {
        let prev = imports_in(nodes, edges, f, k - 1);
        let e = edges[k - 1];
        if e.0 == f && (e.2 matches AstRelation::Tosca(Relation::Import(_))) && url_in(
            nodes,
            edges,
            e.1,
            edges.len() as int,
        ) is Some {
            prev.push((url_in(nodes, edges, e.1, edges.len() as int)->Some_0, e.1))
        } else {
            prev
        }
    }
}

/// The imports of file entity `f` in `ast`, newest first: the order in
/// which the graph lists the neighbours of `f`.
pub open spec fn imports_of(ast: Ast, f: usize) -> Seq<(Seq<char>, usize)> {
    imports_in(ast.nodes(), ast.edges(), f, ast.edges().len() as int).reverse()
}

/// Whether `w` is a relation that the imports of a file are read from.
pub open spec fn names_imports(w: AstRelation) -> bool {
    ||| w matches AstRelation::Tosca(Relation::Import(_))
    ||| w matches AstRelation::Tosca(Relation::ImportUrl(_))
}

/// The URL text of an import is the same in a graph that holds the edges
/// looked at.
proof fn lemma_url_in_same(a: Ast, b: Ast, d: usize, k: int)
    requires
        a.wf(),
        b.extends(&a),
        0 <= k <= a.edges().len(),
    ensures
        url_in(b.nodes(), b.edges(), d, k) == url_in(a.nodes(), a.edges(), d, k),
    decreases k,
{
    if k > 0 {
        lemma_url_in_same(a, b, d, k - 1);
        assert(b.edges()[k - 1] == a.edges()[k - 1]);
        assert(b.nodes()[a.edges()[k - 1].1 as int] == a.nodes()[a.edges()[k - 1].1 as int]);
    }
}

/// Edges that do not name imports leave the URL text of an import as it is.
proof fn lemma_url_in_tail(b: Ast, d: usize, k0: int, k: int)
    requires
        0 <= k0 <= k <= b.edges().len(),
        forall|e: int| k0 <= e < b.edges().len() ==> !names_imports((#[trigger] b.edges()[e]).2),
    ensures
        url_in(b.nodes(), b.edges(), d, k) == url_in(b.nodes(), b.edges(), d, k0),
    decreases k - k0,
{
    if k > k0 {
        lemma_url_in_tail(b, d, k0, k - 1);
        assert(!names_imports(b.edges()[k - 1].2));
    }
}

/// The imports of a file are the same in a graph that holds the edges
/// looked at, if the edges it adds do not name imports.
proof fn lemma_imports_in_same(a: Ast, b: Ast, f: usize, k: int)
    requires
        a.wf(),
        b.extends(&a),
        0 <= k <= a.edges().len(),
        forall|e: int| a.edges().len() <= e < b.edges().len() ==> !names_imports((#[trigger] b.edges()[e]).2),
    ensures
        imports_in(b.nodes(), b.edges(), f, k) == imports_in(a.nodes(), a.edges(), f, k),
    decreases k,
{
    if k > 0 {
        lemma_imports_in_same(a, b, f, k - 1);
        let e = a.edges()[k - 1];
        assert(b.edges()[k - 1] == e);
        lemma_url_in_same(a, b, e.1, a.edges().len() as int);
        lemma_url_in_tail(b, e.1, a.edges().len() as int, b.edges().len() as int);
    }
}

/// Edges that do not name imports leave the imports of a file as they are.
proof fn lemma_imports_in_tail(b: Ast, f: usize, k0: int, k: int)
    requires
        0 <= k0 <= k <= b.edges().len(),
        forall|e: int| k0 <= e < b.edges().len() ==> !names_imports((#[trigger] b.edges()[e]).2),
    ensures
        imports_in(b.nodes(), b.edges(), f, k) == imports_in(b.nodes(), b.edges(), f, k0),
    decreases k - k0,
{
    if k > k0 {
        lemma_imports_in_tail(b, f, k0, k - 1);
        assert(!names_imports(b.edges()[k - 1].2));
    }
}

/// The imports of a file stay what they are as the graph grows by edges
/// that do not name imports.
pub proof fn lemma_imports_of_stable(a: &Ast, b: &Ast, f: usize)
    requires
        a.wf(),
        b.extends(a),
        forall|e: int| a.edges().len() <= e < b.edges().len() ==> !names_imports((#[trigger] b.edges()[e]).2),
    ensures
        imports_of(*b, f) == imports_of(*a, f),
{
    lemma_imports_in_same(*a, *b, f, a.edges().len() as int);
    lemma_imports_in_tail(*b, f, a.edges().len() as int, b.edges().len() as int);
}

/// The URL text of import definition `def`.
fn url_of_import(def: usize, ast: &Ast) -> (r: Option<String>)
    requires
        ast.wf(),
    ensures
        match r {
            Some(u) => url_in(ast.nodes(), ast.edges(), def, ast.edges().len() as int) == Some(u@),
            None => url_in(ast.nodes(), ast.edges(), def, ast.edges().len() as int) is None,
        },
{
    let count = ast.edge_count();
    let mut k: usize = count;
    while k > 0
        invariant
            ast.wf(),
            count == ast.edges().len(),
            k <= count,
            url_in(ast.nodes(), ast.edges(), def, count as int) == url_in(ast.nodes(), ast.edges(), def, k as int),
        decreases k,
    {
        let e = k - 1;
        let (a, b) = ast.edge_endpoints(e);
        if a == def {
            if let AstRelation::Tosca(Relation::ImportUrl(_)) = ast.edge_weight(e) {
                if let AstEntity::Yaml(YamlEntity::Str(s)) = ast.node(b) {
                    return Some(s.clone());
                }
            }
        }
        k = e;
    }
    None
}

/// The imports of file entity `f`, with the URL text each names, newest
/// first, as the graph lists the neighbours of `f`.
pub fn file_imports(f: usize, ast: &Ast) -> (r: Vec<(String, usize)>)
    requires
        ast.wf(),
    ensures
        r@.len() == imports_of(*ast, f).len(),
        forall|i: int| 0 <= i < r@.len() ==> (#[trigger] r@[i]).0@ == imports_of(*ast, f)[i].0 && r@[i].1 == imports_of(*ast, f)[i].1,
{
    let mut r: Vec<(String, usize)> = Vec::new();
    let mut k: usize = 0;
    let count = ast.edge_count();
    while k < count
        invariant
            ast.wf(),
            count == ast.edges().len(),
            k <= count,
            r@.len() == imports_in(ast.nodes(), ast.edges(), f, k as int).len(),
            forall|i: int| 0 <= i < r@.len() ==> (#[trigger] r@[i]).0@ == imports_in(ast.nodes(), ast.edges(), f, k as int)[i].0
                && r@[i].1 == imports_in(ast.nodes(), ast.edges(), f, k as int)[i].1,
        decreases count - k,
    {
        let (a, b) = ast.edge_endpoints(k);
        if a == f {
            if let AstRelation::Tosca(Relation::Import(_)) = ast.edge_weight(k) {
                if let Some(u) = url_of_import(b, ast) {
                    r.push((u, b));
                }
            }
        }
        k = k + 1;
    }
    let ghost all = imports_in(ast.nodes(), ast.edges(), f, count as int);
    let mut out: Vec<(String, usize)> = Vec::new();
    let mut j: usize = r.len();
    while j > 0
        invariant
            j <= r@.len(),
            r@.len() == all.len(),
            forall|i: int| 0 <= i < r@.len() ==> (#[trigger] r@[i]).0@ == all[i].0 && r@[i].1 == all[i].1,
            out@.len() == r@.len() - j,
            forall|i: int| 0 <= i < out@.len() ==> (#[trigger] out@[i]).0@ == all[all.len() - 1 - i].0
                && out@[i].1 == all[all.len() - 1 - i].1,
        decreases j,
    {
        j = j - 1;
        let (u, d) = &r[j];
        out.push((u.clone(), *d));
    }
    out
}

/// A document that has been read, with the node of its root.
pub struct File {
    pub source: String,
    pub root: usize,
}

impl File {
    /// The URL texts that the file entity at `self.root` imports, newest
    /// first.
    pub fn get_imports(&self, ast: &Ast) -> (r: Vec<String>)
        requires
            ast.wf(),
        ensures
            r@.len() == imports_of(*ast, self.root).len(),
            forall|i: int| 0 <= i < r@.len() ==> (#[trigger] r@[i])@ == imports_of(*ast, self.root)[i].0,
    {
        let all = file_imports(self.root, ast);
        let mut r: Vec<String> = Vec::new();
        let mut k: usize = 0;
        while k < all.len()
            invariant
                r@.len() == k,
                k <= all@.len(),
                forall|i: int| 0 <= i < k ==> (#[trigger] r@[i])@ == all@[i].0@,
            decreases all@.len() - k,
        {
            r.push(all[k].0.clone());
            k = k + 1;
        }
        r
    }
}

/// Whether a file with URL `url` is among `files`.
pub open spec fn has_file(files: Seq<(String, File)>, url: Seq<char>) -> bool {
    exists|i: int| 0 <= i < files.len() && (#[trigger] files[i]).0@ == url
}

/// The message for a file that could not be read.
pub open spec fn unreadable_message(url: Seq<char>, why: Seq<char>) -> Seq<char> {
    url + ": "@ + why
}

/// Whether a file with URL `url` is among `files`.
fn contains_file(files: &Vec<(String, File)>, url: &str) -> (r: bool)
    ensures
        r == has_file(files@, url@),
{
    let mut k: usize = 0;
    while k < files.len()
        invariant
            k <= files@.len(),
            forall|i: int| 0 <= i < k ==> (#[trigger] files@[i]).0@ != url@,
        decreases files@.len() - k,
    {
        if str_eq(files[k].0.as_str(), url) {
            return true;
        }
        k = k + 1;
    }
    false
}

/// Loads the document read from `url` into the graph and reads it as a
/// TOSCA 2.0 file if it declares that version. Returns the file entity, the
/// YAML root where there is none, or the document node where the YAML
/// reader failed.
pub fn parse_document(url: &str, content: String, yaml: Result<YamlNode, String>, ast: &mut Ast) -> (root: usize)
    requires
        old(ast).wf(),
        yaml matches Err(e) ==> yaml_error_parses(e@),
    ensures
        final(ast).wf(),
        final(ast).extends(old(ast)),
        root < final(ast).nodes().len(),
        is_document(final(ast).nodes()[old(ast).nodes().len() as int], url@, Some(content@)),
        match yaml {
            Ok(y) => exists|yr: int| #[trigger] yaml_root_at(*final(ast), yr, old(ast).nodes().len() as int, y)
                && document_parsed(*final(ast), yr, root as int) && (valid_document(final(ast).nodes(), yr)
                ==> no_errors_after(*final(ast), yr)),
            Err(e) => root == old(ast).nodes().len() && yaml_error_recorded(
                *final(ast),
                old(ast).nodes().len() as int,
                e@,
                content@,
            ),
        },
{
    let ghost start = *ast;
    let ghost cv = content@;
    let doc = ast.add_node(AstEntity::File(SourceFile { url: String::from_str(url), content: Some(content) }));
    let ghost at_doc = *ast;
    let root = match yaml {
        Err(e) => {
            report_yaml_error(e.as_str(), doc, ast);
            proof {
                let ed = at_doc.edges().len() as int;
                assert(ast.nodes()[ast.edges()[ed].0 as int] == ast.nodes().last());
                assert(file_error_edge(*ast, ed, ErrorView::Custom(yaml_error_message(e@)), doc as int, yaml_error_offset(e@, cv)));
            }
            doc
        },
        Ok(y) => {
            let yr = load_yaml(ast, &y, doc);
            let ghost at_yaml = *ast;
            proof {
                let ed = (at_yaml.edges().len() - 1) as int;
                assert(root_edge(at_yaml, ed, yr as int, doc as int, y.pos));
                lemma_extends_refl(ast);
            }
            let root = ToscaGrammar::parse(yr, ast);
            proof {
                lemma_extends_trans(&at_doc, &at_yaml, ast);
                lemma_represents_extends(&at_yaml, ast, yr as int, y);
                let ed = (at_yaml.edges().len() - 1) as int;
                assert(ast.edges()[ed] == at_yaml.edges()[ed]);
                assert(root_edge(*ast, ed, yr as int, doc as int, y.pos));
                assert(ast.nodes()[yr as int] == at_yaml.nodes()[yr as int]);
                assert(yaml_root_at(*ast, yr as int, doc as int, y));
            }
            root
        },
    };
    proof { lemma_extends_trans(&start, &at_doc, ast); }
    root
}

/// The paths `todo` as texts: each path with the URL it is resolved
/// against.
pub open spec fn todo_view(todo: Seq<(String, String)>) -> Seq<(Seq<char>, Seq<char>)> {
    todo.map_values(|p: (String, String)| (p.0@, p.1@))
}

/// The imports `imps` of a file, to be followed from the file at `base`,
/// as they go on the paths left to follow: the first import last, so that
/// it is followed first.
pub open spec fn queued_imports(imps: Seq<(Seq<char>, usize)>, base: Seq<char>) -> Seq<(Seq<char>, Seq<char>)> {
    Seq::new(imps.len(), |i: int| (imps[imps.len() - 1 - i].0, base))
}

/// Following the paths `todo`, the last first, with the files `files`
/// read: the URL of the first path that resolves to a file not read, if
/// any; the errors for the paths before it that do not resolve, in order;
/// and the paths left after it.
pub open spec fn drain(todo: Seq<(Seq<char>, Seq<char>)>, files: Seq<(String, File)>) -> (
    Option<Seq<char>>,
    Seq<Seq<char>>,
    Seq<(Seq<char>, Seq<char>)>,
)
    decreases todo.len(),
{
    if todo.len() == 0 {
        (None, Seq::empty(), Seq::empty())
    } else {
        let path = todo.last().0;
        let base = todo.last().1;
        match resolved(path, base) {
            Err(m) => {
                let d = drain(todo.drop_last(), files);
                (d.0, seq![invalid_url_message(path, m)] + d.1, d.2)
            },
            Ok(u) => if has_file(files, u) {
                drain(todo.drop_last(), files)
            } else {
                (Some(u), Seq::empty(), todo.drop_last())
            },
        }
    }
}

/// The text of the URL in `r`, if any.
pub open spec fn url_view(r: Option<String>) -> Option<Seq<char>> {
    match r {
        Some(u) => Some(u@),
        None => None,
    }
}

/// The documents reachable from a root document through their imports,
/// read into one graph. Files are read by the caller: `add_file` and
/// `file_read` say which URL to read next, and `file_read` takes what was
/// read, until there is nothing left to read.
pub struct Scope {
    pub root: String,
    pub files: Vec<(String, File)>,
    pub ast: Ast,
    pub errors: Vec<SemanticError>,
    /// The paths left to follow, with the URL each is resolved against;
    /// the last is followed first.
    pub todo: Vec<(String, String)>,
    /// The URL of the file waited for.
    pub waiting: Option<String>,
}

impl Scope {
    /// Whether the state of the scope holds together: the graph is well
    /// formed, the files name nodes of it, no URL was read twice, and the
    /// URL being waited for has not been read.
    pub closed spec fn inv(&self) -> bool {
        &&& self.core_inv()
        &&& match self.waiting {
            Some(u) => !has_file(self.files@, u@),
            None => self.todo@.len() == 0,
        }
    }

    /// The graph is well formed, the files name nodes of it, and no URL was
    /// read twice.
    closed spec fn core_inv(&self) -> bool {
        &&& self.ast.wf()
        &&& forall|i: int| 0 <= i < self.files@.len() ==> (#[trigger] self.files@[i]).1.root < self.ast.nodes().len()
        &&& forall|i: int, j: int|
            0 <= i < j < self.files@.len() ==> (#[trigger] self.files@[i]).0@ != (#[trigger] self.files@[j]).0@
    }

    /// No file is read twice: the URLs of the files read are all different.
    pub proof fn lemma_files_distinct(&self)
        requires
            self.inv(),
        ensures
            forall|i: int, j: int|
                0 <= i < j < self.files@.len() ==> (#[trigger] self.files@[i]).0@ != (#[trigger] self.files@[j]).0@,
    {
    }

    /// The URL the scope waits for, if any.
    pub closed spec fn waiting_for(&self) -> Option<Seq<char>> {
        match self.waiting {
            Some(u) => Some(u@),
            None => None,
        }
    }

    /// The messages of the errors found so far.
    pub open spec fn messages(&self) -> Seq<Seq<char>> {
        self.errors@.map_values(|e: SemanticError| e.msg@)
    }

    /// A scope whose relative paths are resolved against `root`.
    pub fn new(root: String) -> (s: Scope)
        ensures
            s.inv(),
            s.root@ == root@,
            s.files@.len() == 0,
            s.errors@.len() == 0,
            s.ast.nodes().len() == 0,
            s.waiting_for() is None,
    {
        Scope { root, files: Vec::new(), ast: Ast::new(), errors: Vec::new(), todo: Vec::new(), waiting: None }
    }

    /// Takes the paths left to follow, most recent first, until one names a
    /// file that has not been read; that file is then waited for.
    fn next(&mut self) -> (r: Option<String>)
        requires
            old(self).core_inv(),
            old(self).waiting is None,
        ensures
            final(self).inv(),
            final(self).files == old(self).files,
            final(self).ast == old(self).ast,
            final(self).root == old(self).root,
            url_view(r) == drain(todo_view(old(self).todo@), old(self).files@).0,
            final(self).messages() == old(self).messages() + drain(todo_view(old(self).todo@), old(self).files@).1,
            todo_view(final(self).todo@) == drain(todo_view(old(self).todo@), old(self).files@).2,
            final(self).waiting_for() == url_view(r),
    {
        let ghost d0 = drain(todo_view(self.todo@), self.files@);
        while self.todo.len() > 0
            invariant
                self.core_inv(),
                self.waiting is None,
                self.files == old(self).files,
                self.ast == old(self).ast,
                self.root == old(self).root,
                d0 == drain(todo_view(old(self).todo@), old(self).files@),
                d0.0 == drain(todo_view(self.todo@), self.files@).0,
                old(self).messages() + d0.1 == self.messages() + drain(todo_view(self.todo@), self.files@).1,
                d0.2 == drain(todo_view(self.todo@), self.files@).2,
            decreases self.todo@.len(),
        {
            let ghost cur = self.todo@;
            let ghost dc = drain(todo_view(cur), self.files@);
            let (path, base) = self.todo.pop().unwrap();
            proof {
                assert(todo_view(cur).drop_last() =~= todo_view(self.todo@));
                assert(todo_view(cur).last() == (path@, base@));
            }
            match resolve_url(path.as_str(), base.as_str()) {
                Err(m) => {
                    let p = path.as_str();
                    let why = m.as_str();
                    let msg = invalid_url_text(p, why);
                    let ghost before = self.messages();
                    self.errors.push(SemanticError::new(msg));
                    proof {
                        assert(self.messages() =~= before.push(msg@));
                        let dn = drain(todo_view(self.todo@), self.files@);
                        assert(dc.1 == seq![invalid_url_message(path@, m@)] + dn.1);
                        assert(before + dc.1 =~= self.messages() + dn.1);
                    }
                },
                Ok(u) => {
                    if !contains_file(&self.files, u.as_str()) {
                        self.waiting = Some(u.clone());
                        proof {
                            assert(self.messages() + dc.1 =~= self.messages());
                        }
                        return Some(u);
                    }
                },
            }
        }
        proof {
            assert(todo_view(self.todo@) =~= Seq::<(Seq<char>, Seq<char>)>::empty());
            assert(self.messages() + Seq::<Seq<char>>::empty() =~= self.messages());
        }
        None
    }

    /// Follows `path`, resolved against `root`: an error where it does not
    /// resolve; nothing to do where its file was read before; else its file
    /// is waited for.
    pub fn add_file_relative(&mut self, path: &str, root: &str) -> (r: Option<String>)
        requires
            old(self).inv(),
            old(self).waiting_for() is None,
        ensures
            final(self).inv(),
            final(self).files == old(self).files,
            final(self).ast == old(self).ast,
            final(self).root == old(self).root,
            follow_outcome(*old(self), *final(self), path@, root@, r),
    {
        match resolve_url(path, root) {
            Err(m) => {
                let why = m.as_str();
                let msg = invalid_url_text(path, why);
                let ghost before = self.messages();
                self.errors.push(SemanticError::new(msg));
                assert(self.messages() =~= before.push(msg@));
                None
            },
            Ok(u) => {
                if contains_file(&self.files, u.as_str()) {
                    None
                } else {
                    self.waiting = Some(u.clone());
                    Some(u)
                }
            },
        }
    }

    /// Follows `path`, resolved against the root of the scope.
    pub fn add_file(&mut self, path: &str) -> (r: Option<String>)
        requires
            old(self).inv(),
            old(self).waiting_for() is None,
        ensures
            final(self).inv(),
            final(self).files == old(self).files,
            final(self).ast == old(self).ast,
            follow_outcome(*old(self), *final(self), path@, old(self).root@, r),
    {
        let root = self.root.clone();
        self.add_file_relative(path, root.as_str())
    }

    /// Hands the scope what was read for the file it waits for: a file that
    /// was read is loaded and recorded, and its imports are followed, each
    /// resolved against the file's URL, before those left to follow from
    /// earlier files; a file that could not be read gets an error. Returns
    /// the next URL to read, if any. A document with no problems records no
    /// error in the graph.
    pub fn file_read(&mut self, read: LoadedFile) -> (r: Option<String>)
        requires
            old(self).inv(),
            old(self).waiting_for() is Some,
            read matches LoadedFile::Read { yaml: Err(e), .. } ==> yaml_error_parses(e@),
        ensures
            final(self).inv(),
            final(self).root == old(self).root,
            final(self).ast.extends(&old(self).ast),
            match read {
                LoadedFile::Read { content, .. } => {
                    &&& final(self).files@.len() == old(self).files@.len() + 1
                    &&& final(self).files@.drop_last() == old(self).files@
                    &&& Some(final(self).files@.last().0@) == old(self).waiting_for()
                    &&& final(self).files@.last().1.source@ == content@
                    &&& is_document(
                        final(self).ast.nodes()[old(self).ast.nodes().len() as int],
                        old(self).waiting_for()->Some_0,
                        Some(content@),
                    )
                    &&& final(self).files@.last().1.root < final(self).ast.nodes().len()
                    &&& ({
                        let d = drain(
                            todo_view(old(self).todo@) + queued_imports(
                                imports_of(final(self).ast, final(self).files@.last().1.root),
                                old(self).waiting_for()->Some_0,
                            ),
                            final(self).files@,
                        );
                        &&& url_view(r) == d.0
                        &&& final(self).messages() == old(self).messages() + d.1
                        &&& todo_view(final(self).todo@) == d.2
                    })
                },
                LoadedFile::Unreadable(m) => {
                    &&& final(self).files == old(self).files
                    &&& final(self).ast == old(self).ast
                    &&& ({
                        let d = drain(todo_view(old(self).todo@), old(self).files@);
                        &&& url_view(r) == d.0
                        &&& final(self).messages() == old(self).messages().push(
                            unreadable_message(old(self).waiting_for()->Some_0, m@),
                        ) + d.1
                        &&& todo_view(final(self).todo@) == d.2
                    })
                },
            },
            final(self).waiting_for() == url_view(r),
            r matches Some(u) ==> !has_file(final(self).files@, u@),
            read matches LoadedFile::Read { yaml: Ok(y), .. } ==> exists|yr: int|
                #[trigger] yaml_root_at(final(self).ast, yr, old(self).ast.nodes().len() as int, y) && (valid_document(
                    final(self).ast.nodes(),
                    yr,
                ) ==> no_errors_after(final(self).ast, yr)),
    {
        let url = match &self.waiting {
            Some(u) => u.clone(),
            None => String::new(),
        };
        match read {
            LoadedFile::Unreadable(m) => {
                let u = url.as_str();
                let why = m.as_str();
                let mut msg = String::from_str(u);
                msg.append(": ");
                msg.append(why);
                let ghost before = self.messages();
                self.errors.push(SemanticError::new(msg));
                assert(self.messages() =~= before.push(msg@));
                self.waiting = None;
                let r = self.next();
                r
            },
            LoadedFile::Read { content, yaml } => {
                let source = content.clone();
                let root = parse_document(url.as_str(), content, yaml, &mut self.ast);
                let file = File { source, root };
                let imports = file.get_imports(&self.ast);
                let ghost prev_files = self.files@;
                self.files.push((url.clone(), file));
                proof {
                    assert(self.files@.drop_last() =~= prev_files);
                    assert forall|i: int| 0 <= i < self.files@.len() implies (#[trigger] self.files@[i]).1.root < self.ast.nodes().len() by {
                        if i < prev_files.len() {
                            assert(self.files@[i] == prev_files[i]);
                        }
                    }
                    assert forall|i: int, j: int| 0 <= i < j < self.files@.len() implies (#[trigger] self.files@[i]).0@ != (#[trigger] self.files@[j]).0@ by {
                        assert(self.files@[i] == prev_files[i]);
                        if j < prev_files.len() {
                            assert(self.files@[j] == prev_files[j]);
                        } else {
                            assert(!has_file(prev_files, url@));
                        }
                    }
                }
                let ghost s0 = *self;
                let ghost queued = queued_imports(imports_of(self.ast, root), url@);
                let mut k = imports.len();
                while k > 0
                    invariant
                        k <= imports@.len(),
                        imports@.len() == imports_of(s0.ast, root).len(),
                        forall|i: int| 0 <= i < imports@.len() ==> (#[trigger] imports@[i])@ == imports_of(s0.ast, root)[i].0,
                        queued == queued_imports(imports_of(s0.ast, root), url@),
                        self.core_inv(),
                        self.files == s0.files,
                        self.ast == s0.ast,
                        self.root == s0.root,
                        self.errors == s0.errors,
                        todo_view(self.todo@) == todo_view(s0.todo@) + queued.take(imports@.len() - k),
                    decreases k,
                {
                    k = k - 1;
                    let ghost before = self.todo@;
                    self.todo.push((imports[k].clone(), url.clone()));
                    proof {
                        assert(todo_view(self.todo@) =~= todo_view(before).push((imports@[k as int]@, url@)));
                        assert(queued.take(imports@.len() - k) =~= queued.take(imports@.len() - k - 1).push(queued[imports@.len() - k - 1]));
                    }
                }
                proof {
                    assert(queued.take(imports@.len() as int) =~= queued);
                }
                self.waiting = None;
                let r = self.next();
                r
            },
        }
    }
}

/// What following `path` from `base` does: an error where it does not
/// resolve; nothing where its file was read before; else its file is asked
/// for and waited for.
pub open spec fn follow_outcome(old: Scope, new: Scope, path: Seq<char>, base: Seq<char>, r: Option<String>) -> bool {
    match resolved(path, base) {
        Err(m) => {
            &&& r is None
            &&& new.waiting_for() is None
            &&& new.messages() == old.messages().push(invalid_url_message(path, m))
        },
        Ok(u) => {
            &&& new.messages() == old.messages()
            &&& if has_file(old.files@, u) {
                r is None && new.waiting_for() is None
            } else {
                r matches Some(s) && s@ == u && new.waiting_for() == Some(u)
            }
        },
    }
}

} // verus!
