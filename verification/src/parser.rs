//! Reading a TOSCA document with its imports. Files are read by the caller:
//! the parser says which file it needs next, and is resumed with what was
//! read, until it is done.
use vstd::prelude::*;

use crate::ast::{
    added_error, added_errors, lemma_added_errors_extends, lemma_added_errors_push,
    lemma_added_no_errors, lemma_extends_refl, lemma_extends_trans, Ast, AstEntity, AstRelation,
    ErrorView, FileRelation, ParseError, ParseLoc, SourceFile, is_error, error_at,
    lemma_added_error_at, lemma_error_at_extends,
};
use crate::grammar::parser::{
    declared_version, lemma_declared_version_stable, lemma_version_errors, version_errors, version_outcome,
    ToscaGrammar,
};
use crate::yaml::{lemma_represents_extends, load_yaml, represents, str_eq, yaml_map, YamlNode};
use crate::grammar::parse::parse_definition;
use crate::grammar::outcome::{fields_read, lemma_fields_read_extends};
use crate::grammar::{slot, spec_slot, version_name, DefKind, Tosca1_3, Tosca2_0, ToscaVersion};
use crate::models::{
    Entity, FileEntity, ImportEntity, ImportFileRelation, ImportRelation, ImportTargetRelation,
    Relation,
};
use crate::semantic::{imports_in, imports_of, lemma_imports_of_stable, names_imports, resolved};
use crate::text::{chars_of, find_char, find_char_from, from_lc, lc_offset, line_bounds, nth_line, parse_u32, parse_u32_range};

verus! {

broadcast use vstd::string::group_string_axioms;

/// The text of the URL that `url::Url::parse` reads from `s`, if it reads one.
pub uninterp spec fn url_parsed(s: Seq<char>) -> Option<Seq<char>>;

/// The text of the URL that `url::Url::join` gives for `rel` against the URL
/// whose text is `base`, or the text of the error. The base is held as its
/// text and read back with `url::Url::parse` first; a `Url` reads back from
/// its own text unchanged, so this is the join against the parsed base.
pub uninterp spec fn url_joined(base: Seq<char>, rel: Seq<char>) -> Result<Seq<char>, Seq<char>>;

/// `url::Url::parse`: the text of the URL read from `s`; the result depends
/// on `s` alone.
#[verifier::external_body]
pub(crate) fn parse_url(s: &str) -> (r: Option<String>)
    ensures
        match r {
            Some(u) => url_parsed(s@) == Some(u@),
            None => url_parsed(s@) is None,
        },
{
    url::Url::parse(s).ok().map(String::from)
}

/// `url::Url::join` of `rel` against the URL whose text is `base` (which
/// `url::Url::parse` reads back first): the text of the joined URL, or the
/// text of the error. The result depends on `base` and `rel` alone.
#[verifier::external_body]
pub(crate) fn join_url(base: &str, rel: &str) -> (r: Result<String, String>)
    ensures
        match r {
            Ok(u) => url_joined(base@, rel@) == Ok::<Seq<char>, Seq<char>>(u@),
            Err(m) => url_joined(base@, rel@) == Err::<Seq<char>, Seq<char>>(m@),
        },
{
    match url::Url::parse(base).and_then(|b| b.join(rel)) {
        Ok(u) => Ok(String::from(u)),
        Err(e) => Err(e.to_string()),
    }
}

// ----------------------------------------------------------------------
// Errors reported by the YAML reader

/// The two halves, around the first `:`, of the third line of a YAML
/// reader's error message: its line and column.
pub open spec fn error_position_text(err: Seq<char>) -> Option<(Seq<char>, Seq<char>)> {
    match nth_line(err, 2) {
        None => None,
        Some(l) => match find_char(l, ':') {
            None => None,
            Some(i) => Some((l.take(i), l.skip(i + 1))),
        },
    }
}

/// Whether the position in a YAML reader's error message, where there is
/// one, is two numbers.
pub open spec fn yaml_error_parses(err: Seq<char>) -> bool {
    match error_position_text(err) {
        None => true,
        Some((a, b)) => parse_u32(a) is Some && parse_u32(b) is Some,
    }
}

/// The offset in `content` that a YAML reader's error message points at; 0
/// where it points nowhere.
pub open spec fn yaml_error_offset(err: Seq<char>, content: Seq<char>) -> usize {
    match error_position_text(err) {
        None => 0,
        Some((a, b)) => {
            let o = lc_offset(content, parse_u32(a).unwrap() as nat, parse_u32(b).unwrap() as nat);
            if o <= usize::MAX {
                o as usize
            } else {
                usize::MAX
            }
        },
    }
}

/// The first line of a YAML reader's error message, without a trailing `: `.
pub open spec fn yaml_error_message(err: Seq<char>) -> Seq<char> {
    let first = nth_line(err, 0).unwrap();
    if first.len() >= 2 && first[first.len() - 2] == ':' && first[first.len() - 1] == ' ' {
        first.take(first.len() - 2)
    } else {
        first
    }
}

/// Whether the position in a YAML reader's error message, where there is
/// one, is two numbers.
pub fn yaml_error_is_readable(err: &str) -> (r: bool)
    ensures
        r == yaml_error_parses(err@),
{
    let v = chars_of(err);
    match line_bounds(&v, 2) {
        None => true,
        Some((a, b)) => {
            let ghost l = v@.subrange(a as int, b as int);
            let line: Vec<char> = copy_range(&v, a, b);
            match find_char_from(&line, 0, ':') {
                None => {
                    assert(line@.skip(0) =~= line@);
                    true
                },
                Some(i) => {
                    assert(line@.skip(0) =~= line@);
                    let x = parse_u32_range(&line, 0, i);
                    let y = parse_u32_range(&line, i + 1, line.len());
                    assert(line@.subrange(0, i as int) =~= l.take(i as int));
                    assert(line@.subrange(i + 1, line@.len() as int) =~= l.skip(i + 1));
                    x.is_some() && y.is_some()
                },
            }
        },
    }
}

/// The characters `v[a..b]`.
fn copy_range(v: &Vec<char>, a: usize, b: usize) -> (r: Vec<char>)
    requires
        a <= b <= v@.len(),
    ensures
        r@ == v@.subrange(a as int, b as int),
{
    let mut r: Vec<char> = Vec::new();
    let mut k = a;
    while k < b
        invariant
            a <= k <= b <= v@.len(),
            r@ == v@.subrange(a as int, k as int),
        decreases b - k,
    {
        r.push(v[k]);
        k = k + 1;
        assert(r@ =~= v@.subrange(a as int, k as int));
    }
    r
}

/// The offset in `content` that the YAML reader's error message `err`
/// points at.
fn error_offset(err: &str, content: &Vec<char>) -> (pos: usize)
    requires
        yaml_error_parses(err@),
    ensures
        pos == yaml_error_offset(err@, content@),
{
    let v = chars_of(err);
    match line_bounds(&v, 2) {
        None => 0,
        Some((a, b)) => {
            let ghost l = v@.subrange(a as int, b as int);
            let line: Vec<char> = copy_range(&v, a, b);
            assert(line@.skip(0) =~= line@);
            match find_char_from(&line, 0, ':') {
                None => 0,
                Some(i) => {
                    let x = parse_u32_range(&line, 0, i);
                    let y = parse_u32_range(&line, i + 1, line.len());
                    assert(line@.subrange(0, i as int) =~= l.take(i as int));
                    assert(line@.subrange(i + 1, line@.len() as int) =~= l.skip(i + 1));
                    match (x, y) {
                        (Some(lineno), Some(charno)) => from_lc(content, lineno, charno),
                        _ => 0,
                    }
                },
            }
        },
    }
}

/// The text of a document node; empty where it holds none.
pub open spec fn document_text(w: AstEntity) -> Seq<char> {
    match w {
        AstEntity::File(SourceFile { content: Some(c), .. }) => c@,
        _ => Seq::empty(),
    }
}

/// Records a YAML reader's error message `err` on the document `doc_root`:
/// the first line of the message, located at the offset that the message
/// points at in the document's text (0 where it points nowhere). The text
/// is needed only where the message has a position.
pub fn report_yaml_error(err: &str, doc_root: usize, ast: &mut Ast)
    requires
        old(ast).wf(),
        doc_root < old(ast).nodes().len(),
        old(ast).nodes()[doc_root as int] is File,
        error_position_text(err@) is Some ==> old(ast).nodes()[doc_root as int]->File_0.content is Some,
        yaml_error_parses(err@),
    ensures
        final(ast).wf(),
        final(ast).extends(old(ast)),
        old(ast).nodes().len() <= usize::MAX,
        final(ast).nodes().len() == old(ast).nodes().len() + 1,
        final(ast).nodes().last() matches AstEntity::Parse(e) && e@ == ErrorView::Custom(yaml_error_message(err@)),
        final(ast).edges() == old(ast).edges().push(
            (
                old(ast).nodes().len() as usize,
                doc_root,
                AstRelation::File(
                    FileRelation(
                        yaml_error_offset(err@, document_text(old(ast).nodes()[doc_root as int])),
                    ),
                ),
            ),
        ),
{
    let content: Vec<char> = match ast.node(doc_root) {
        AstEntity::File(SourceFile { content: Some(c), .. }) => chars_of(c.as_str()),
        _ => Vec::new(),
    };
    let pos = error_offset(err, &content);
    let v = chars_of(err);
    let (a, b) = match line_bounds(&v, 0) {
        Some(r) => r,
        None => (0, 0),
    };
    let end = if b - a >= 2 && v[b - 2] == ':' && v[b - 1] == ' ' {
        b - 2
    } else {
        b
    };
    proof {
        let first = nth_line(v@, 0).unwrap();
        assert(first == v@.subrange(a as int, b as int));
        assert(v@.subrange(a as int, end as int) =~= yaml_error_message(v@));
    }
    let msg = String::from_str(err.substring_char(a, end));
    ast.add_file_error(ParseError::Custom(msg), doc_root, pos);
}


// ----------------------------------------------------------------------
// Loaded files

/// Whether `w` is a document read from `url` with text `content` (none for
/// the built-in definitions).
pub open spec fn is_document(w: AstEntity, url: Seq<char>, content: Option<Seq<char>>) -> bool {
    &&& w is File
    &&& w->File_0.url@ == url
    &&& match content {
        Some(c) => w->File_0.content is Some && w->File_0.content->Some_0@ == c,
        None => w->File_0.content is None,
    }
}

/// The first handle recorded for `url` in `files`.
pub open spec fn lookup(files: Seq<(String, usize)>, url: Seq<char>) -> Option<usize>
    decreases files.len(),
{
    if files.len() == 0 {
        None
    } else if files[0].0@ == url {
        Some(files[0].1)
    } else {
        lookup(files.drop_first(), url)
    }
}

/// Reading back what was recorded: after the file at `u` is recorded with
/// node `h`, looking up `url` gives what it gave before where it found
/// something; else `h` where `url` is `u`; else nothing.
pub proof fn lemma_lookup_after_add(files: Seq<(String, usize)>, u: String, h: usize, url: Seq<char>)
    ensures
        lookup(files.push((u, h)), url) == (if lookup(files, url) is Some {
            lookup(files, url)
        } else if u@ == url {
            Some(h)
        } else {
            None
        }),
    decreases files.len(),
{
    let grown = files.push((u, h));
    if files.len() > 0 {
        assert(grown.drop_first() =~= files.drop_first().push((u, h)));
        assert(grown[0] == files[0]);
        lemma_lookup_after_add(files.drop_first(), u, h, url);
    } else {
        assert(grown.drop_first() =~= Seq::<(String, usize)>::empty());
        assert(grown[0] == (u, h));
        assert(lookup(grown.drop_first(), url) is None);
    }
}

/// The documents that have been loaded, by URL.
pub struct FileStorage {
    files: Vec<(String, usize)>,
}

impl FileStorage {
    /// The URLs and document nodes of the loaded files, in loading order.
    pub closed spec fn entries(&self) -> Seq<(String, usize)> {
        self.files@
    }

    /// The URLs of the loaded files.
    pub open spec fn urls(&self) -> Seq<Seq<char>> {
        self.entries().map_values(|e: (String, usize)| e.0@)
    }

    /// The document node of the file loaded from `url`, if any.
    pub open spec fn file_of(&self, url: Seq<char>) -> Option<usize> {
        lookup(self.entries(), url)
    }

    pub fn new() -> (s: FileStorage)
        ensures
            s.entries().len() == 0,
    {
        FileStorage { files: Vec::new() }
    }

    /// Forgets every loaded file.
    pub fn clear(&mut self)
        ensures
            final(self).entries().len() == 0,
    {
        self.files = Vec::new();
    }

    /// The document node of the file loaded from `url`.
    pub fn get_file(&self, url: &str) -> (r: Option<usize>)
        ensures
            r == self.file_of(url@),
    {
        let mut k: usize = 0;
        assert(self.files@.skip(0) =~= self.files@);
        while k < self.files.len()
            invariant
                k <= self.files@.len(),
                lookup(self.files@, url@) == lookup(self.files@.skip(k as int), url@),
            decreases self.files@.len() - k,
        {
            proof {
                assert(self.files@.skip(k as int).drop_first() =~= self.files@.skip(k + 1));
            }
            if crate::yaml::str_eq(self.files[k].0.as_str(), url) {
                return Some(self.files[k].1);
            }
            k = k + 1;
        }
        None
    }

    /// The URLs of the loaded files, in loading order.
    pub fn get_files(&self) -> (r: Vec<String>)
        ensures
            r@.map_values(|s: String| s@) == self.urls(),
    {
        let mut r: Vec<String> = Vec::new();
        let mut k: usize = 0;
        while k < self.files.len()
            invariant
                k <= self.files@.len(),
                r@.len() == k,
                forall|i: int| 0 <= i < k ==> #[trigger] r@[i] == self.files@[i].0,
            decreases self.files@.len() - k,
        {
            r.push(self.files[k].0.clone());
            k = k + 1;
        }
        assert(r@.map_values(|s: String| s@) =~= self.urls());
        r
    }

    /// Adds the document read from `url`, with text `content`, to the graph
    /// and records it; returns its node.
    pub fn add_file(&mut self, url: &str, content: String, ast: &mut Ast) -> (h: usize)
        requires
            old(ast).wf(),
        ensures
            final(ast).wf(),
            final(ast).extends(old(ast)),
            h == old(ast).nodes().len(),
            final(ast).nodes().len() == h + 1,
            final(ast).edges() == old(ast).edges(),
            is_document(final(ast).nodes()[h as int], url@, Some(content@)),
            final(self).entries() == old(self).entries().push((final(self).entries().last().0, h)),
            final(self).entries().last().0@ == url@,
    {
        let ghost prev = *ast;
        let h = ast.add_node(AstEntity::File(SourceFile { url: String::from_str(url), content: Some(content) }));
        proof { assert(ast.extends(&prev)); }
        self.files.push((String::from_str(url), h));
        h
    }
}

/// Whether edge `e` links a TOSCA file entity to document `doc`.
pub open spec fn is_file_link(ast: Ast, e: int, doc: int) -> bool {
    &&& 0 <= e < ast.edges().len()
    &&& ast.edges()[e].1 == doc
    &&& ast.edges()[e].2 is File
    &&& ast.nodes()[ast.edges()[e].0 as int] == AstEntity::Tosca(Entity::File(FileEntity))
}

// ----------------------------------------------------------------------
// Reading a document with its imports

/// What the caller read for the file it was asked for.
pub enum LoadedFile {
    /// The text of the file, and what the YAML reader made of it: a tree, or
    /// its error message.
    Read { content: String, yaml: Result<crate::yaml::YamlNode, String> },
    /// The file could not be read; why.
    Unreadable(String),
}

/// What the parser needs next.
pub enum ParseStep {
    /// The file at this URL is to be read, and the parser resumed with it.
    Load(String),
    /// Parsing is over: the node of the main document, or why the main
    /// document could not be read.
    Done(Result<usize, String>),
}

/// What the parser waits for.
enum Pending {
    Idle,
    Root(String),
    Import(String, usize),
}

/// A file whose imports are being followed: its file entity, the imports
/// it names with their resolved URLs, and how many have been followed.
struct Frame {
    file: usize,
    imports: Vec<(String, usize)>,
    next: usize,
}

/// The files of `l` are a file on `stack` and the file below it.
spec fn on_stack(stack: Seq<Frame>, l: (usize, usize)) -> bool {
    exists|i: int| 1 <= i < stack.len() && #[trigger] stack[i].file == l.1 && stack[i - 1].file == l.0
}

/// Leaving the top file of a stack keeps the pairs below it.
proof fn lemma_on_stack_pop(stack: Seq<Frame>, l: (usize, usize))
    requires
        on_stack(stack, l),
    ensures
        on_stack(stack.drop_last(), l) || (stack.len() >= 2 && l == (stack[stack.len() - 2].file, stack.last().file)),
{
    let i = choose|i: int| 1 <= i < stack.len() && #[trigger] stack[i].file == l.1 && stack[i - 1].file == l.0;
    if i < stack.len() - 1 {
        assert(stack.drop_last()[i] == stack[i]);
        assert(stack.drop_last()[i - 1] == stack[i - 1]);
    }
}

/// A stack with the same files in the same places keeps the same pairs.
proof fn lemma_on_stack_same_files(a: Seq<Frame>, b: Seq<Frame>, l: (usize, usize))
    requires
        on_stack(a, l),
        a.len() <= b.len(),
        forall|i: int| 0 <= i < a.len() ==> (#[trigger] b[i]).file == a[i].file,
    ensures
        on_stack(b, l),
{
    let i = choose|i: int| 1 <= i < a.len() && #[trigger] a[i].file == l.1 && a[i - 1].file == l.0;
    assert(b[i].file == a[i].file);
    assert(b[i - 1].file == a[i - 1].file);
}

/// The imports left to follow on a stack of files, counting each file once
/// more for leaving it.
spec fn work_left(stack: Seq<Frame>) -> nat
    decreases stack.len(),
{
    if stack.len() == 0 {
        0
    } else {
        work_left(stack.drop_last()) + (stack.last().imports@.len() - stack.last().next) as nat + 1
    }
}

/// The imports of frame `f` not followed yet, as URL texts with their
/// definitions and the file entity that names them.
spec fn frame_pending(f: Frame) -> Seq<(Seq<char>, usize, usize)> {
    f.imports@.skip(f.next as int).map_values(|p: (String, usize)| (p.0@, p.1, f.file))
}

/// The imports not followed yet on a stack of files, in the order they are
/// followed: those of the top file first.
spec fn stack_pending(stack: Seq<Frame>) -> Seq<(Seq<char>, usize, usize)>
    decreases stack.len(),
{
    if stack.len() == 0 {
        Seq::empty()
    } else {
        frame_pending(stack.last()) + stack_pending(stack.drop_last())
    }
}

/// Import `i` of the queue `q` is the first whose file has not been read.
pub open spec fn first_unread(q: Seq<(Seq<char>, usize, usize)>, files: Seq<(String, usize)>, i: int) -> bool {
    &&& 0 <= i < q.len()
    &&& lookup(files, q[i].0) is None
    &&& forall|j: int| 0 <= j < i ==> lookup(files, #[trigger] q[j].0) is Some
}

/// The imports `imps`, each with the file entity `f` that names them.
pub open spec fn owned(imps: Seq<(Seq<char>, usize)>, f: usize) -> Seq<(Seq<char>, usize, usize)> {
    imps.map_values(|p: (Seq<char>, usize)| (p.0, p.1, f))
}

/// Import `j` of the queue `q`, whose file was read before, is linked from
/// its definition to that file's document; and the file entity that names
/// it is linked to the TOSCA file entity that the last file link of that
/// document comes from, if there is one (what `find_file` finds).
pub open spec fn linked_import(ast: Ast, q: Seq<(Seq<char>, usize, usize)>, files: Seq<(String, usize)>, j: int) -> bool {
    &&& lookup(files, q[j].0) is Some
    &&& has_edge(
        ast,
        q[j].1 as int,
        lookup(files, q[j].0)->Some_0 as int,
        AstRelation::Tosca(Relation::ImportTarget(ImportTargetRelation)),
    )
    &&& forall|e: int| #[trigger] last_file_link(ast, e, lookup(files, q[j].0)->Some_0 as int) ==> has_edge(
        ast,
        q[j].2 as int,
        ast.edges()[e].0 as int,
        AstRelation::Tosca(Relation::ImportFile(ImportFileRelation)),
    )
}

/// Following the queue of imports `q`, with the files `files` read, gave
/// `r`, leaving `rest` queued: the imports of files read before were linked
/// to them, up to the first import of a file not read, whose file is asked
/// for (for definition `def`), the imports after it staying queued; or, all
/// having been read, the parse is over.
pub open spec fn follows(
    ast: Ast,
    q: Seq<(Seq<char>, usize, usize)>,
    files: Seq<(String, usize)>,
    r: ParseStep,
    def: Option<usize>,
    rest: Seq<(Seq<char>, usize, usize)>,
) -> bool {
    match r {
        ParseStep::Load(u) => exists|i: int| #[trigger] first_unread(q, files, i) && q[i].0 == u@ && def == Some(q[i].1)
            && rest == q.skip(i + 1) && (forall|j: int| 0 <= j < i ==> #[trigger] linked_import(ast, q, files, j)),
        ParseStep::Done(_) => {
            &&& forall|j: int| 0 <= j < q.len() ==> #[trigger] linked_import(ast, q, files, j)
            &&& rest.len() == 0
        },
    }
}

/// `new` is `old` with edges added that only link imports to what they
/// import.
pub open spec fn only_import_links_added(old: Ast, new: Ast) -> bool {
    &&& new.nodes() == old.nodes()
    &&& new.extends(&old)
    &&& forall|e: int| old.edges().len() <= e < new.edges().len() ==> is_import_link((#[trigger] new.edges()[e]).2)
}

/// Whether `w` links a file or an import to what it imports.
pub open spec fn is_import_link(w: AstRelation) -> bool {
    ||| w matches AstRelation::Tosca(Relation::ImportFile(_))
    ||| w matches AstRelation::Tosca(Relation::ImportTarget(_))
}

/// One more import link keeps a run of import links.
proof fn lemma_import_link_added(start: &Ast, before: &Ast, after: &Ast, a: usize, b: usize, w: AstRelation)
    requires
        only_import_links_added(*start, *before),
        after.nodes() == before.nodes(),
        after.edges() == before.edges().push((a, b, w)),
        (w matches AstRelation::Tosca(Relation::ImportFile(_))) || (w matches AstRelation::Tosca(Relation::ImportTarget(_))),
    ensures
        only_import_links_added(*start, *after),
{
    assert forall|e: int| 0 <= e < start.edges().len() implies #[trigger] after.edges()[e] == start.edges()[e] by {
        assert(after.edges()[e] == before.edges()[e]);
    }
    assert forall|e: int| start.edges().len() <= e < after.edges().len() implies is_import_link((#[trigger] after.edges()[e]).2) by {
        if e < before.edges().len() {
            assert(after.edges()[e] == before.edges()[e]);
        }
    }
}

// ----------------------------------------------------------------------
// Following the imports of a file

/// Edge `e` is the last one that links a TOSCA file entity to `doc`.
pub open spec fn last_file_link(ast: Ast, e: int, doc: int) -> bool {
    &&& is_file_link(ast, e, doc)
    &&& forall|e2: int| e < e2 < ast.edges().len() ==> !is_file_link(ast, e2, doc)
}

/// The TOSCA file entity `p` was read from document `doc`: it is the
/// source of the last edge that links a file entity to `doc`.
pub open spec fn file_read_from(ast: Ast, doc: int, p: int) -> bool {
    exists|e: int| #[trigger] last_file_link(ast, e, doc) && ast.edges()[e].0 == p
}

/// Linking the import `imp` (its URL, its definition, and the file entity
/// that names it), whose file was read before, took `a` to `b`: where a
/// file entity was read from that document, the importing file entity was
/// linked to it; then the definition was linked to the document; nothing
/// else was added.
pub open spec fn import_link_step(imp: (Seq<char>, usize, usize), files: Seq<(String, usize)>, a: Ast, b: Ast) -> bool {
    &&& lookup(files, imp.0) is Some
    &&& b.nodes() == a.nodes()
    &&& {
        let doc = lookup(files, imp.0)->Some_0;
        let target = (imp.1, doc, AstRelation::Tosca(Relation::ImportTarget(ImportTargetRelation)));
        if exists|e: int| #[trigger] last_file_link(a, e, doc as int) {
            exists|p: usize|
                #[trigger] file_read_from(a, doc as int, p as int) && b.edges() == a.edges().push(
                    (imp.2, p, AstRelation::Tosca(Relation::ImportFile(ImportFileRelation))),
                ).push(target)
        } else {
            b.edges() == a.edges().push(target)
        }
    }
}

/// Closing a file whose imports were all followed took `a` to `b`: nothing
/// was added, or one edge that links a file entity to one it imports.
pub open spec fn close_step(a: Ast, b: Ast) -> bool {
    &&& b.nodes() == a.nodes()
    &&& b.edges() == a.edges() || (b.edges().len() == a.edges().len() + 1 && b.edges().drop_last() == a.edges()
        && b.edges().last().2 == AstRelation::Tosca(Relation::ImportFile(ImportFileRelation)))
}

/// Step `t` of following the queue `q` took `gs[t]` to `gs[t + 1]`: it
/// linked import `ks[t]`, the next one, or it closed a file.
pub open spec fn follow_step_at(q: Seq<(Seq<char>, usize, usize)>, files: Seq<(String, usize)>, gs: Seq<Ast>, ks: Seq<int>, t: int) -> bool {
    if ks[t + 1] == ks[t] + 1 {
        0 <= ks[t] < q.len() && import_link_step(q[ks[t]], files, gs[t], gs[t + 1])
    } else {
        ks[t + 1] == ks[t] && close_step(gs[t], gs[t + 1])
    }
}

/// `gs` are the graphs along following the queue `q` with the files
/// `files` read, `ks` the number of imports linked before each; `n` were
/// linked in all, one after the other, in order.
pub open spec fn follow_steps(q: Seq<(Seq<char>, usize, usize)>, files: Seq<(String, usize)>, gs: Seq<Ast>, ks: Seq<int>, n: int) -> bool {
    &&& gs.len() == ks.len()
    &&& gs.len() > 0
    &&& ks[0] == 0
    &&& ks.last() == n
    &&& forall|t: int| 0 <= t < gs.len() - 1 ==> #[trigger] follow_step_at(q, files, gs, ks, t)
}

/// How many imports of the queue `q` following it links, given what came
/// of it: those before the one whose file is asked for, or all of them.
pub open spec fn links_made(q: Seq<(Seq<char>, usize, usize)>, files: Seq<(String, usize)>, r: ParseStep) -> int {
    match r {
        ParseStep::Load(_) => choose|i: int| first_unread(q, files, i),
        ParseStep::Done(_) => q.len() as int,
    }
}

/// What following the queue `q` added to `old`, giving `new`, with the
/// files `files` read and `r` coming of it: the imports linked one by one,
/// in order, as `import_link_step` says, with files closed between them;
/// nothing else.
pub open spec fn followed(old: Ast, new: Ast, q: Seq<(Seq<char>, usize, usize)>, files: Seq<(String, usize)>, r: ParseStep) -> bool {
    exists|gs: Seq<Ast>, ks: Seq<int>|
        #[trigger] follow_steps(q, files, gs, ks, links_made(q, files, r)) && gs[0] == old && gs.last() == new
}

/// The first import of a queue whose file was not read is only one.
proof fn lemma_first_unread_unique(q: Seq<(Seq<char>, usize, usize)>, files: Seq<(String, usize)>, i: int)
    requires
        first_unread(q, files, i),
    ensures
        (choose|c: int| first_unread(q, files, c)) == i,
{
    let c = choose|c: int| first_unread(q, files, c);
    assert(first_unread(q, files, c));
    if c < i {
        assert(lookup(files, q[c].0) is Some);
    } else if c > i {
        assert(lookup(files, q[i].0) is Some);
    }
}

/// The TOSCA file entity parsed from document `doc`: the source of the last
/// edge that links such an entity to `doc`.
pub fn find_file(doc: usize, ast: &Ast) -> (r: Option<usize>)
    requires
        ast.wf(),
    ensures
        match r {
            Some(f) => exists|e: int| last_file_link(*ast, e, doc as int) && ast.edges()[e].0 == f,
            None => forall|e: int| !is_file_link(*ast, e, doc as int),
        },
{
    let mut k: usize = ast.edge_count();
    while k > 0
        invariant
            ast.wf(),
            k <= ast.edges().len(),
            forall|e2: int| k <= e2 < ast.edges().len() ==> !is_file_link(*ast, e2, doc as int),
        decreases k,
    {
        let e = k - 1;
        let (a, b) = ast.edge_endpoints(e);
        if b == doc {
            if let AstRelation::File(_) = ast.edge_weight(e) {
                if let AstEntity::Tosca(Entity::File(_)) = ast.node(a) {
                    assert(last_file_link(*ast, e as int, doc as int));
                    return Some(a);
                }
            }
        }
        k = e;
    }
    None
}

/// The message for an import whose URL cannot be resolved.
pub open spec fn invalid_url_message(path: Seq<char>, why: Seq<char>) -> Seq<char> {
    "invalid url "@ + path + ": "@ + why
}

/// The message for an import whose URL `path` cannot be resolved, `why`.
pub fn invalid_url_text(path: &str, why: &str) -> (r: String)
    ensures
        r@ == invalid_url_message(path@, why@),
{
    let mut r = String::from_str("invalid url ");
    r.append(path);
    r.append(": ");
    r.append(why);
    r
}

/// The imports among `imps` whose URLs resolve against `base`, with the
/// resolved URLs, in order.
pub open spec fn resolved_imports(imps: Seq<(Seq<char>, usize)>, base: Seq<char>) -> Seq<(Seq<char>, usize)>
    decreases imps.len(),
{
    if imps.len() == 0 {
        Seq::empty()
    } else {
        let prev = resolved_imports(imps.drop_last(), base);
        match resolved(imps.last().0, base) {
            Ok(u) => prev.push((u, imps.last().1)),
            Err(_) => prev,
        }
    }
}

/// The errors for the imports among `imps` whose URLs do not resolve
/// against `base`, each at its definition, in order.
pub open spec fn import_errors(imps: Seq<(Seq<char>, usize)>, base: Seq<char>) -> Seq<(usize, ErrorView)>
    decreases imps.len(),
{
    if imps.len() == 0 {
        Seq::empty()
    } else {
        let prev = import_errors(imps.drop_last(), base);
        match resolved(imps.last().0, base) {
            Ok(_) => prev,
            Err(m) => prev.push((imps.last().1, ErrorView::Custom(invalid_url_message(imps.last().0, m)))),
        }
    }
}

/// The definitions named by the imports of a file are nodes of the graph.
proof fn lemma_imports_in_graph(ast: Ast, f: usize, k: int)
    requires
        ast.wf(),
        0 <= k <= ast.edges().len(),
    ensures
        forall|i: int| 0 <= i < imports_in(ast.nodes(), ast.edges(), f, k).len()
            ==> (#[trigger] imports_in(ast.nodes(), ast.edges(), f, k)[i]).1 < ast.nodes().len(),
    decreases k,
{
    if k > 0 {
        lemma_imports_in_graph(ast, f, k - 1);
        let prev = imports_in(ast.nodes(), ast.edges(), f, k - 1);
        let cur = imports_in(ast.nodes(), ast.edges(), f, k);
        assert(ast.edges()[k - 1].1 < ast.nodes().len());
        assert forall|i: int| 0 <= i < cur.len() implies (#[trigger] cur[i]).1 < ast.nodes().len() by {
            if i < prev.len() {
                assert(cur[i] == prev[i]);
            }
        }
    }
}

/// The imports of file entity `f`, their URLs resolved against `base`, the
/// URL of its document. An import whose URL does not resolve is left out,
/// and an error is recorded at its definition.
pub fn iter_imports(base: &str, f: usize, ast: &mut Ast) -> (r: Vec<(String, usize)>)
    requires
        old(ast).wf(),
    ensures
        final(ast).wf(),
        added_errors(*old(ast), *final(ast), import_errors(imports_of(*old(ast), f), base@)),
        r@.len() == resolved_imports(imports_of(*old(ast), f), base@).len(),
        forall|i: int| 0 <= i < r@.len() ==> (#[trigger] r@[i]).0@ == resolved_imports(imports_of(*old(ast), f), base@)[i].0
            && r@[i].1 == resolved_imports(imports_of(*old(ast), f), base@)[i].1,
{
    let ghost start = *ast;
    let ghost imps = imports_of(start, f);
    let all = crate::semantic::file_imports(f, ast);
    proof {
        lemma_imports_in_graph(start, f, start.edges().len() as int);
        let fwd = imports_in(start.nodes(), start.edges(), f, start.edges().len() as int);
        assert forall|i: int| 0 <= i < imps.len() implies (#[trigger] imps[i]).1 < start.nodes().len() by {
            assert(imps[i] == fwd[fwd.len() - 1 - i]);
        }
        lemma_added_no_errors(ast);
    }
    let mut r: Vec<(String, usize)> = Vec::new();
    let mut k: usize = 0;
    while k < all.len()
        invariant
            ast.wf(),
            k <= all@.len(),
            all@.len() == imps.len(),
            forall|i: int| 0 <= i < all@.len() ==> (#[trigger] all@[i]).0@ == imps[i].0 && all@[i].1 == imps[i].1,
            forall|i: int| 0 <= i < imps.len() ==> (#[trigger] imps[i]).1 < start.nodes().len(),
            added_errors(start, *ast, import_errors(imps.take(k as int), base@)),
            r@.len() == resolved_imports(imps.take(k as int), base@).len(),
            forall|i: int| 0 <= i < r@.len() ==> (#[trigger] r@[i]).0@ == resolved_imports(imps.take(k as int), base@)[i].0
                && r@[i].1 == resolved_imports(imps.take(k as int), base@)[i].1,
        decreases all@.len() - k,
    {
        let ghost before = *ast;
        let path = all[k].0.as_str();
        let def = all[k].1;
        proof {
            assert(imps.take(k + 1).drop_last() =~= imps.take(k as int));
            assert(imps.take(k + 1).last() == imps[k as int]);
            lemma_added_errors_extends(&start, &before, import_errors(imps.take(k as int), base@));
        }
        match crate::semantic::resolve_url(path, base) {
            Ok(u) => {
                r.push((u, def));
            },
            Err(m) => {
                let why = m.as_str();
                let msg = invalid_url_text(path, why);
                ast.add_error(ParseError::Custom(msg), def);
                proof {
                    lemma_added_errors_push(&start, &before, ast, import_errors(imps.take(k as int), base@), def, ErrorView::Custom(invalid_url_message(path@, m@)));
                }
            },
        }
        k = k + 1;
    }
    proof {
        assert(imps.take(k as int) =~= imps);
    }
    r
}

// ----------------------------------------------------------------------
// The parser

/// Reads a TOSCA document and the documents it imports into one graph. The
/// caller reads the files: `parse` and `resume` say which file to read next,
/// and `resume` takes what was read, until the parser is done.
pub struct ToscaParser {
    files: FileStorage,
    version: ToscaVersion,
    builtin_root: usize,
    builtin_handle: usize,
    root_doc: usize,
    stack: Vec<Frame>,
    pending: Pending,
    /// Each file entity read from an imported document, after the file
    /// entity that imports it.
    tree: Ghost<Seq<(usize, usize)>>,
}

/// Whether the URLs in `files` are all different.
pub open spec fn distinct_urls(files: Seq<(String, usize)>) -> bool {
    forall|i: int, j: int| 0 <= i < j < files.len() ==> (#[trigger] files[i]).0@ != (#[trigger] files[j]).0@
}

/// The URLs of the files read, in reading order.
pub open spec fn read_urls(files: Seq<(String, usize)>) -> Seq<Seq<char>> {
    files.map_values(|p: (String, usize)| p.0@)
}

/// Following a queue of imports up to one whose file is asked for leaves
/// fewer imports queued.
proof fn lemma_follows_shrinks(
    ast: Ast,
    q: Seq<(Seq<char>, usize, usize)>,
    files: Seq<(String, usize)>,
    r: ParseStep,
    def: Option<usize>,
    rest: Seq<(Seq<char>, usize, usize)>,
)
    requires
        follows(ast, q, files, r, def, rest),
        r is Load,
    ensures
        rest.len() < q.len(),
{
    let u = r->Load_0;
    let i = choose|i: int| #[trigger] first_unread(q, files, i) && q[i].0 == u@ && def == Some(q[i].1)
        && rest == q.skip(i + 1) && (forall|j: int| 0 <= j < i ==> #[trigger] linked_import(ast, q, files, j));
    assert(rest.len() == q.len() - i - 1);
}

/// A URL that `lookup` does not find is none of the recorded ones.
proof fn lemma_lookup_none(files: Seq<(String, usize)>, url: Seq<char>)
    requires
        lookup(files, url) is None,
    ensures
        forall|i: int| 0 <= i < files.len() ==> (#[trigger] files[i]).0@ != url,
    decreases files.len(),
{
    if files.len() > 0 {
        lemma_lookup_none(files.drop_first(), url);
        assert forall|i: int| 0 <= i < files.len() implies (#[trigger] files[i]).0@ != url by {
            if i > 0 {
                assert(files[i] == files.drop_first()[i - 1]);
            }
        }
    }
}

impl ToscaParser {
    /// The files read so far: their URLs and document nodes, in reading
    /// order.
    pub closed spec fn loaded(&self) -> Seq<(String, usize)> {
        self.files.entries()
    }

    /// The URL of the file the parser waits for, if any.
    pub closed spec fn waiting_for(&self) -> Option<Seq<char>> {
        match self.pending {
            Pending::Idle => None,
            Pending::Root(u) => Some(u@),
            Pending::Import(u, _) => Some(u@),
        }
    }

    /// Whether the parser waits for the main document.
    pub closed spec fn waits_for_main(&self) -> bool {
        self.pending is Root
    }

    /// The TOSCA version that the main document selected.
    pub closed spec fn tosca_version(&self) -> ToscaVersion {
        self.version
    }

    /// The nodes of the built-in definitions: their document and their
    /// file entity.
    pub closed spec fn builtin_nodes(&self) -> (usize, usize) {
        (self.builtin_root, self.builtin_handle)
    }

    /// The imports not followed yet, in the order they are followed (the
    /// imports of the file read last first, then those left in the files
    /// that import it), as URL texts with their definitions.
    pub closed spec fn queue(&self) -> Seq<(Seq<char>, usize, usize)> {
        stack_pending(self.stack@)
    }

    /// The import definition whose file the parser waits for, if any.
    pub closed spec fn waiting_import(&self) -> Option<usize> {
        match self.pending {
            Pending::Import(_, d) => Some(d),
            _ => None,
        }
    }

    /// The file entities read from imported documents, each after the file
    /// entity that imports it, in reading order.
    pub closed spec fn import_links(&self) -> Seq<(usize, usize)> {
        self.tree@
    }

    /// The file entity whose imports are followed now, if any.
    pub closed spec fn top_file(&self) -> Option<usize> {
        if self.stack@.len() > 0 {
            Some(self.stack@.last().file)
        } else {
            None
        }
    }

    /// The file entity whose import the parser waits for, if any.
    pub closed spec fn importer(&self) -> Option<usize> {
        match self.pending {
            Pending::Import(_, _) => self.top_file(),
            _ => None,
        }
    }

    /// The import link `l` is in the graph, or its files are a file on the
    /// stack and the file below it, whose imports are still followed.
    closed spec fn link_kept(&self, l: (usize, usize), ast: &Ast) -> bool {
        ||| has_edge(*ast, l.0 as int, l.1 as int, AstRelation::Tosca(Relation::ImportFile(ImportFileRelation)))
        ||| on_stack(self.stack@, l)
    }

    /// Whether the parser's state fits the graph `ast`.
    pub closed spec fn inv(&self, ast: &Ast) -> bool {
        &&& ast.wf()
        &&& forall|i: int| 0 <= i < self.loaded().len() ==> (#[trigger] self.loaded()[i]).1 < ast.nodes().len()
        &&& distinct_urls(self.loaded())
        &&& self.loaded().len() > 0 ==> self.root_doc == self.loaded()[0].1
        &&& match self.pending {
            Pending::Idle => true,
            Pending::Root(_) => self.stack@.len() == 0 && self.loaded().len() == 0,
            Pending::Import(u, d) => {
                &&& d < ast.nodes().len()
                &&& self.stack@.len() > 0
                &&& lookup(self.loaded(), u@) is None
            },
        }
        &&& self.stack@.len() > 0 ==> {
            &&& self.builtin_root < ast.nodes().len()
            &&& self.builtin_handle < ast.nodes().len()
            &&& self.loaded().len() > 0
        }
        &&& forall|i: int| 0 <= i < self.stack@.len() ==> self.frame_fits(#[trigger] self.stack@[i], ast)
        &&& forall|k: int| 0 <= k < self.tree@.len() ==> self.link_kept(#[trigger] self.tree@[k], ast)
    }

    /// Whether frame `f` names nodes of `ast` only.
    closed spec fn frame_fits(&self, f: Frame, ast: &Ast) -> bool {
        &&& f.file < ast.nodes().len()
        &&& f.next <= f.imports@.len()
        &&& forall|j: int| 0 <= j < f.imports@.len() ==> (#[trigger] f.imports@[j]).1 < ast.nodes().len()
    }

    pub fn new() -> (p: ToscaParser)
        ensures
            p.loaded().len() == 0,
            p.waiting_for() is None,
            p.import_links().len() == 0,
            forall|ast: &Ast| ast.wf() ==> p.inv(ast),
    {
        ToscaParser {
            files: FileStorage::new(),
            version: ToscaVersion::V2_0,
            builtin_root: 0,
            builtin_handle: 0,
            root_doc: 0,
            stack: Vec::new(),
            pending: Pending::Idle,
            tree: Ghost(Seq::empty()),
        }
    }

    /// The URLs of the files read so far, in reading order.
    pub fn get_files(&self) -> (r: Vec<String>)
        ensures
            r@.map_values(|s: String| s@) == self.loaded().map_values(|e: (String, usize)| e.0@),
    {
        self.files.get_files()
    }

    /// Starts reading the document at `uri`: empties the graph and forgets
    /// the files read before, then asks for `uri`.
    pub fn parse(&mut self, uri: &str, ast: &mut Ast) -> (r: ParseStep)
        ensures
            final(ast).nodes().len() == 0,
            final(ast).edges().len() == 0,
            final(self).inv(final(ast)),
            final(self).loaded().len() == 0,
            final(self).import_links().len() == 0,
            final(self).waits_for_main(),
            final(self).waiting_for() == Some(uri@),
            r matches ParseStep::Load(u) && u@ == uri@,
    {
        ast.clear();
        self.files.clear();
        self.stack = Vec::new();
        self.pending = Pending::Root(String::from_str(uri));
        self.tree = Ghost(Seq::empty());
        ParseStep::Load(String::from_str(uri))
    }
}

/// Edge `e` is `(a, b, w)`.
pub open spec fn edge_is(ast: Ast, e: int, a: int, b: int, w: AstRelation) -> bool {
    &&& 0 <= e < ast.edges().len()
    &&& ast.edges()[e] == (a as usize, b as usize, w)
}

/// The graph has the edge `(a, b, w)`.
pub open spec fn has_edge(ast: Ast, a: int, b: int, w: AstRelation) -> bool {
    exists|e: int| #[trigger] edge_is(ast, e, a, b, w)
}

/// Node `imp` is the import of the built-in definitions by the file entity
/// `fh`: an import entity that `fh` links to, and that targets the
/// built-in document `br`, whose file entity `bh` `fh` imports.
pub open spec fn builtin_import(ast: Ast, fh: int, imp: int, br: int, bh: int) -> bool {
    &&& 0 <= imp < ast.nodes().len()
    &&& ast.nodes()[imp] == AstEntity::Tosca(Entity::Import(ImportEntity))
    &&& has_edge(ast, fh, imp, AstRelation::Tosca(Relation::Import(ImportRelation(1000000))))
    &&& has_edge(ast, fh, bh, AstRelation::Tosca(Relation::ImportFile(ImportFileRelation)))
    &&& has_edge(ast, imp, br, AstRelation::Tosca(Relation::ImportTarget(ImportTargetRelation)))
}

/// Node `fh` is the TOSCA file entity read under version `v` from the YAML
/// root `yr`: located there, with its fields read, and importing the
/// built-in definitions `br` (document) and `bh` (file entity).
pub open spec fn file_parsed(ast: Ast, v: ToscaVersion, yr: int, fh: int, br: int, bh: int) -> bool {
    &&& 0 <= fh < ast.nodes().len()
    &&& ast.nodes()[fh] == AstEntity::Tosca(Entity::File(FileEntity))
    &&& has_edge(ast, fh, yr, AstRelation::Parse(ParseLoc))
    &&& fields_read(ast, v, spec_slot(v, DefKind::File), fh, yr)
    &&& exists|imp: int| #[trigger] builtin_import(ast, fh, imp, br, bh)
}

/// The record of import links `lk` (the importing file entity, if any; the
/// links before; the links after) after reading the file entity `fh`, if
/// one was read: it is recorded after its importer; otherwise nothing is.
pub open spec fn links_after(lk: (Option<usize>, Seq<(usize, usize)>, Seq<(usize, usize)>), fh: Option<int>) -> bool {
    lk.2 == match (lk.0, fh) {
        (Some(p), Some(f)) => lk.1.push((p, f as usize)),
        _ => lk.1,
    }
}

/// The document with YAML root `yr`, read from `url`, was read as a TOSCA
/// file of version `v`, and the imports it names were queued before those
/// queued already, `q_old`, giving `q_new`: a map gives a file entity whose
/// resolved imports come first, and which is recorded in the import links
/// `lk` as `links_after` says; anything else has an error, the one node
/// added after the YAML tree (and, for the main document, the built-in
/// nodes `br` and `bh` that follow it), and queues and records nothing.
pub open spec fn file_queued(
    ast: Ast,
    v: ToscaVersion,
    yr: int,
    br: int,
    bh: int,
    url: Seq<char>,
    q_old: Seq<(Seq<char>, usize, usize)>,
    q_new: Seq<(Seq<char>, usize, usize)>,
    lk: (Option<usize>, Seq<(usize, usize)>, Seq<(usize, usize)>),
) -> bool {
    if yaml_map(ast.nodes()[yr]) is Some {
        exists|fh: int| #[trigger] file_parsed(ast, v, yr, fh, br, bh)
            && q_new == owned(resolved_imports(imports_of(ast, fh as usize), url), fh as usize) + q_old
            && links_after(lk, Some(fh))
    } else {
        &&& error_at(ast, ErrorView::UnexpectedType("map"@), yr)
        &&& ast.nodes().len() == (if br == yr + 1 { yr + 4 } else { yr + 2 })
        &&& q_new == q_old
        &&& links_after(lk, None)
    }
}

/// The document with YAML root `yr`, read from `url`, was read as a TOSCA
/// file of version `v`, and its imports were followed, before those queued
/// already, `q_old`: a map gives a file entity, recorded in the import
/// links `lk`, and following its resolved imports and then `q_old` gave `r`;
/// anything else has an error, the one node added after the YAML tree and
/// the built-in nodes, and following `q_old` gave `r`.
pub open spec fn tosca_followed(
    ast: Ast,
    v: ToscaVersion,
    yr: int,
    br: int,
    bh: int,
    url: Seq<char>,
    q_old: Seq<(Seq<char>, usize, usize)>,
    files: Seq<(String, usize)>,
    r: ParseStep,
    asked: Option<usize>,
    rest: Seq<(Seq<char>, usize, usize)>,
    lk: (Option<usize>, Seq<(usize, usize)>, Seq<(usize, usize)>),
) -> bool {
    if yaml_map(ast.nodes()[yr]) is Some {
        exists|fh: int| #[trigger] file_parsed(ast, v, yr, fh, br, bh)
            && follows(ast, owned(resolved_imports(imports_of(ast, fh as usize), url), fh as usize) + q_old, files, r, asked, rest)
            && links_after(lk, Some(fh))
    } else {
        &&& error_at(ast, ErrorView::UnexpectedType("map"@), yr)
        &&& ast.nodes().len() == (if br == yr + 1 { yr + 4 } else { yr + 2 })
        &&& follows(ast, q_old, files, r, asked, rest)
        &&& links_after(lk, None)
    }
}

/// A read TOSCA file entity stays read when the graph grows.
proof fn lemma_file_parsed_extends(a: &Ast, b: &Ast, v: ToscaVersion, yr: int, fh: int, br: int, bh: int)
    requires
        a.wf(),
        b.extends(a),
        0 <= yr < a.nodes().len(),
        file_parsed(*a, v, yr, fh, br, bh),
    ensures
        file_parsed(*b, v, yr, fh, br, bh),
{
    let imp = choose|imp: int| builtin_import(*a, fh, imp, br, bh);
    assert(b.nodes()[fh] == a.nodes()[fh]);
    assert(b.nodes()[imp] == a.nodes()[imp]);
    lemma_has_edge_extends(a, b, fh, yr, AstRelation::Parse(ParseLoc));
    lemma_has_edge_extends(a, b, fh, imp, AstRelation::Tosca(Relation::Import(ImportRelation(1000000))));
    lemma_has_edge_extends(a, b, fh, bh, AstRelation::Tosca(Relation::ImportFile(ImportFileRelation)));
    lemma_has_edge_extends(a, b, imp, br, AstRelation::Tosca(Relation::ImportTarget(ImportTargetRelation)));
    lemma_fields_read_extends(a, b, v, spec_slot(v, DefKind::File), fh, yr);
    assert(builtin_import(*b, fh, imp, br, bh));
}

/// Following a queued file: what was queued by reading it, then followed
/// over import links only, was followed.
proof fn lemma_file_followed(
    g: &Ast,
    f: &Ast,
    v: ToscaVersion,
    yr: int,
    br: int,
    bh: int,
    url: Seq<char>,
    q_old: Seq<(Seq<char>, usize, usize)>,
    q_new: Seq<(Seq<char>, usize, usize)>,
    files: Seq<(String, usize)>,
    r: ParseStep,
    asked: Option<usize>,
    rest: Seq<(Seq<char>, usize, usize)>,
    lk: (Option<usize>, Seq<(usize, usize)>, Seq<(usize, usize)>),
)
    requires
        g.wf(),
        only_import_links_added(*g, *f),
        0 <= yr < g.nodes().len(),
        file_queued(*g, v, yr, br, bh, url, q_old, q_new, lk),
        follows(*f, q_new, files, r, asked, rest),
    ensures
        tosca_followed(*f, v, yr, br, bh, url, q_old, files, r, asked, rest, lk),
{
    assert(f.nodes()[yr] == g.nodes()[yr]);
    if yaml_map(g.nodes()[yr]) is Some {
        let fh = choose|fh: int| #[trigger] file_parsed(*g, v, yr, fh, br, bh)
            && q_new == owned(resolved_imports(imports_of(*g, fh as usize), url), fh as usize) + q_old
            && links_after(lk, Some(fh));
        lemma_file_parsed_extends(g, f, v, yr, fh, br, bh);
        assert forall|e: int| g.edges().len() <= e < f.edges().len() implies !names_imports((#[trigger] f.edges()[e]).2) by {
            assert(is_import_link(f.edges()[e].2));
        }
        lemma_imports_of_stable(g, f, fh as usize);
        assert(file_parsed(*f, v, yr, fh, br, bh));
    } else {
        lemma_error_at_extends(g, f, ErrorView::UnexpectedType("map"@), yr);
    }
}

/// Edges that link imports leave the file links of a document as they are.
proof fn lemma_file_links_stable(a: &Ast, b: &Ast, doc: int)
    requires
        a.wf(),
        b.extends(a),
        forall|e: int| a.edges().len() <= e < b.edges().len() ==> is_import_link((#[trigger] b.edges()[e]).2),
    ensures
        forall|e: int| #[trigger] last_file_link(*b, e, doc) <==> last_file_link(*a, e, doc),
        forall|e: int| #[trigger] is_file_link(*b, e, doc) ==> is_file_link(*a, e, doc),
{
    assert forall|e: int| #[trigger] is_file_link(*b, e, doc) == (e < a.edges().len() && is_file_link(*a, e, doc)) by {
        if 0 <= e < a.edges().len() {
            assert(b.edges()[e] == a.edges()[e]);
            assert(b.nodes()[a.edges()[e].0 as int] == a.nodes()[a.edges()[e].0 as int]);
        } else if a.edges().len() <= e < b.edges().len() {
            assert(is_import_link(b.edges()[e].2));
        }
    }
    assert forall|e: int| #[trigger] last_file_link(*b, e, doc) <==> last_file_link(*a, e, doc) by {
        if last_file_link(*a, e, doc) {
            assert forall|e2: int| e < e2 < b.edges().len() implies !is_file_link(*b, e2, doc) by {
                assert(is_file_link(*b, e2, doc) == (e2 < a.edges().len() && is_file_link(*a, e2, doc)));
            }
        }
        if last_file_link(*b, e, doc) {
            assert(is_file_link(*b, e, doc) == (e < a.edges().len() && is_file_link(*a, e, doc)));
            assert forall|e2: int| e < e2 < a.edges().len() implies !is_file_link(*a, e2, doc) by {
                assert(is_file_link(*b, e2, doc) == (e2 < a.edges().len() && is_file_link(*a, e2, doc)));
            }
        }
    }
}

/// The linking of import `j` of a queue stays as the graph grows by import
/// links.
proof fn lemma_linked_import_extends(a: &Ast, b: &Ast, q: Seq<(Seq<char>, usize, usize)>, files: Seq<(String, usize)>, j: int)
    requires
        a.wf(),
        b.extends(a),
        forall|e: int| a.edges().len() <= e < b.edges().len() ==> is_import_link((#[trigger] b.edges()[e]).2),
        linked_import(*a, q, files, j),
    ensures
        linked_import(*b, q, files, j),
{
    let doc = lookup(files, q[j].0)->Some_0 as int;
    lemma_has_edge_extends(a, b, q[j].1 as int, doc, AstRelation::Tosca(Relation::ImportTarget(ImportTargetRelation)));
    lemma_file_links_stable(a, b, doc);
    assert forall|e: int| #[trigger] last_file_link(*b, e, doc) implies has_edge(
        *b,
        q[j].2 as int,
        b.edges()[e].0 as int,
        AstRelation::Tosca(Relation::ImportFile(ImportFileRelation)),
    ) by {
        assert(last_file_link(*a, e, doc));
        assert(b.edges()[e] == a.edges()[e]);
        lemma_has_edge_extends(a, b, q[j].2 as int, a.edges()[e].0 as int, AstRelation::Tosca(Relation::ImportFile(ImportFileRelation)));
    }
}

/// An edge stays when the graph grows.
proof fn lemma_has_edge_extends(a: &Ast, b: &Ast, x: int, y: int, w: AstRelation)
    requires
        has_edge(*a, x, y, w),
        b.extends(a),
    ensures
        has_edge(*b, x, y, w),
{
    let e = choose|e: int| edge_is(*a, e, x, y, w);
    assert(b.edges()[e] == a.edges()[e]);
    assert(edge_is(*b, e, x, y, w));
}

/// What `lookup` finds is one of the recorded files.
proof fn lemma_lookup_some(files: Seq<(String, usize)>, url: Seq<char>)
    requires
        lookup(files, url) is Some,
    ensures
        exists|i: int| 0 <= i < files.len() && (#[trigger] files[i]).1 == lookup(files, url)->Some_0,
    decreases files.len(),
{
    if files[0].0@ != url {
        lemma_lookup_some(files.drop_first(), url);
        let i = choose|i: int| 0 <= i < files.drop_first().len() && (#[trigger] files.drop_first()[i]).1 == lookup(files.drop_first(), url)->Some_0;
        assert(files[i + 1] == files.drop_first()[i]);
    }
}

/// The resolved imports of a file name definitions among its imports.
proof fn lemma_resolved_in(imps: Seq<(Seq<char>, usize)>, base: Seq<char>, bound: int)
    requires
        forall|i: int| 0 <= i < imps.len() ==> (#[trigger] imps[i]).1 < bound,
    ensures
        forall|i: int| 0 <= i < resolved_imports(imps, base).len() ==> (#[trigger] resolved_imports(imps, base)[i]).1 < bound,
    decreases imps.len(),
{
    if imps.len() > 0 {
        let prev = resolved_imports(imps.drop_last(), base);
        let cur = resolved_imports(imps, base);
        assert forall|i: int| 0 <= i < imps.drop_last().len() implies (#[trigger] imps.drop_last()[i]).1 < bound by {
            assert(imps.drop_last()[i] == imps[i]);
        }
        lemma_resolved_in(imps.drop_last(), base, bound);
        assert forall|i: int| 0 <= i < cur.len() implies (#[trigger] cur[i]).1 < bound by {
            if i < prev.len() {
                assert(cur[i] == prev[i]);
            }
        }
    }
}

impl ToscaParser {
    /// The state fits a graph that has grown.
    proof fn lemma_inv_extends(&self, a: &Ast, b: &Ast)
        requires
            self.inv(a),
            b.wf(),
            b.extends(a),
        ensures
            self.inv(b),
    {
        assert forall|i: int| 0 <= i < self.stack@.len() implies self.frame_fits(#[trigger] self.stack@[i], b) by {
            assert(self.frame_fits(self.stack@[i], a));
        }
        assert forall|k: int| 0 <= k < self.tree@.len() implies self.link_kept(#[trigger] self.tree@[k], b) by {
            let l = self.tree@[k];
            if has_edge(*a, l.0 as int, l.1 as int, AstRelation::Tosca(Relation::ImportFile(ImportFileRelation))) {
                lemma_has_edge_extends(a, b, l.0 as int, l.1 as int, AstRelation::Tosca(Relation::ImportFile(ImportFileRelation)));
            }
        }
    }

    /// No file is read twice: the URLs of the files read are all different.
    pub proof fn lemma_loaded_distinct(&self, ast: &Ast)
        requires
            self.inv(ast),
        ensures
            distinct_urls(self.loaded()),
    {
    }

    /// Reads the TOSCA file entity of the document whose YAML root is `yr`
    /// and, where there is one, links it to the built-in definitions and
    /// puts its imports, resolved against `uri`, on the stack.
    fn open_file(&mut self, uri: &str, yr: usize, ast: &mut Ast)
        requires
            old(self).inv(old(ast)),
            old(self).pending is Idle,
            old(self).loaded().len() > 0,
            old(self).builtin_root < old(ast).nodes().len(),
            old(self).builtin_handle < old(ast).nodes().len(),
            yr < old(ast).nodes().len(),
            old(ast).nodes().len() == (if old(self).builtin_root == yr + 1 { yr + 3 } else { yr + 1 }),
        ensures
            final(self).inv(final(ast)),
            final(ast).extends(old(ast)),
            final(self).files.entries() == old(self).files.entries(),
            final(self).pending is Idle,
            final(self).root_doc == old(self).root_doc,
            final(self).version == old(self).version,
            final(self).builtin_root == old(self).builtin_root,
            final(self).builtin_handle == old(self).builtin_handle,
            file_queued(
                *final(ast),
                old(self).version,
                yr as int,
                old(self).builtin_root as int,
                old(self).builtin_handle as int,
                uri@,
                old(self).queue(),
                final(self).queue(),
                (old(self).top_file(), old(self).import_links(), final(self).import_links()),
            ),
    {
        let ghost start = *ast;
        let k = slot(self.version, DefKind::File);
        match parse_definition(self.version, k, yr, ast) {
            None => {
                proof {
                    self.lemma_inv_extends(&start, ast);
                    lemma_added_error_at(&start, ast, yr as int, ErrorView::UnexpectedType("map"@));
                    assert(ast.nodes()[yr as int] == start.nodes()[yr as int]);
                }
            },
            Some(fh) => {
                let ghost made = *ast;
                let imp = ast.add_node(AstEntity::Tosca(Entity::Import(ImportEntity)));
                ast.add_edge(fh, imp, AstRelation::Tosca(Relation::Import(ImportRelation(1000000))));
                ast.add_edge(fh, self.builtin_handle, AstRelation::Tosca(Relation::ImportFile(ImportFileRelation)));
                ast.add_edge(imp, self.builtin_root, AstRelation::Tosca(Relation::ImportTarget(ImportTargetRelation)));
                let ghost mid = *ast;
                proof {
                    let n0 = made.edges().len() as int;
                    assert(edge_is(mid, start.edges().len() as int, fh as int, yr as int, AstRelation::Parse(ParseLoc)));
                    assert(edge_is(mid, n0, fh as int, imp as int, AstRelation::Tosca(Relation::Import(ImportRelation(1000000)))));
                    assert(edge_is(mid, n0 + 1, fh as int, self.builtin_handle as int, AstRelation::Tosca(Relation::ImportFile(ImportFileRelation))));
                    assert(edge_is(mid, n0 + 2, imp as int, self.builtin_root as int, AstRelation::Tosca(Relation::ImportTarget(ImportTargetRelation))));
                    lemma_fields_read_extends(&made, &mid, self.version, k, fh as int, yr as int);
                    assert(mid.nodes()[yr as int] == start.nodes()[yr as int]);
                    assert(builtin_import(mid, fh as int, imp as int, self.builtin_root as int, self.builtin_handle as int));
                    assert(file_parsed(mid, self.version, yr as int, fh as int, self.builtin_root as int, self.builtin_handle as int));
                }
                proof {
                    lemma_imports_in_graph(mid, fh, mid.edges().len() as int);
                    lemma_resolved_in(imports_of(mid, fh), uri@, mid.nodes().len() as int);
                }
                let imports = iter_imports(uri, fh, ast);
                proof {
                    lemma_added_errors_extends(&mid, ast, import_errors(imports_of(mid, fh), uri@));
                    lemma_extends_trans(&start, &mid, ast);
                    self.lemma_inv_extends(&start, ast);
                    lemma_file_parsed_extends(&mid, ast, self.version, yr as int, fh as int, self.builtin_root as int, self.builtin_handle as int);
                    assert forall|e: int| mid.edges().len() <= e < ast.edges().len() implies !names_imports((#[trigger] ast.edges()[e]).2) by {
                        let errs = import_errors(imports_of(mid, fh), uri@);
                        let t = e - mid.edges().len();
                        assert(0 <= t < errs.len());
                        assert(is_error(ast.nodes()[mid.nodes().len() + t], errs[t].1));
                        assert(ast.edges()[mid.edges().len() + t].2 == AstRelation::Parse(ParseLoc));
                    }
                    lemma_imports_of_stable(&mid, ast, fh);
                }
                let frame = Frame { file: fh, imports, next: 0 };
                proof {
                    assert(self.frame_fits(frame, ast));
                    assert(frame_pending(frame) =~= owned(resolved_imports(imports_of(*ast, fh), uri@), fh));
                }
                let ghost old_stack = self.stack@;
                let ghost tree0 = self.tree@;
                let ghost link = AstRelation::Tosca(Relation::ImportFile(ImportFileRelation));
                proof {
                    assert forall|k: int| 0 <= k < tree0.len() implies has_edge(*ast, tree0[k].0 as int, tree0[k].1 as int, link)
                        || on_stack(old_stack, #[trigger] tree0[k]) by {
                        assert(self.link_kept(tree0[k], ast));
                    }
                }
                if self.stack.len() > 0 {
                    let ghost pair = (self.stack@.last().file, fh);
                    self.tree = Ghost(self.tree@.push(pair));
                }
                self.stack.push(frame);
                proof {
                    assert forall|i: int| 0 <= i < self.stack@.len() implies self.frame_fits(#[trigger] self.stack@[i], ast) by {
                        if i < self.stack@.len() - 1 {
                            assert(self.stack@[i] == old(self).stack@[i]);
                        }
                    }
                    assert(self.stack@.drop_last() =~= old(self).stack@);
                    assert(file_parsed(*ast, self.version, yr as int, fh as int, self.builtin_root as int, self.builtin_handle as int));
                    assert forall|k: int| 0 <= k < self.tree@.len() implies self.link_kept(#[trigger] self.tree@[k], ast) by {
                        let l = self.tree@[k];
                        if k < tree0.len() {
                            assert(l == tree0[k]);
                            if !has_edge(*ast, l.0 as int, l.1 as int, link) {
                                assert forall|i: int| 0 <= i < old_stack.len() implies (#[trigger] self.stack@[i]).file == old_stack[i].file by {
                                    assert(self.stack@[i] == old_stack[i]);
                                }
                                lemma_on_stack_same_files(old_stack, self.stack@, l);
                            }
                        } else {
                            let i = self.stack@.len() - 1;
                            assert(self.stack@[i].file == l.1);
                            assert(self.stack@[i - 1] == old_stack.last());
                            assert(on_stack(self.stack@, l));
                        }
                    }
                }
            },
        }
    }

    /// Follows the imports on the stack until one names a file that has not
    /// been read, which is then asked for; or until none are left.
    fn advance(&mut self, ast: &mut Ast) -> (r: ParseStep)
        requires
            old(self).inv(old(ast)),
            old(self).pending is Idle,
            old(self).loaded().len() > 0,
        ensures
            final(self).inv(final(ast)),
            final(ast).extends(old(ast)),
            final(self).files.entries() == old(self).files.entries(),
            final(self).root_doc == old(self).root_doc,
            final(self).version == old(self).version,
            final(self).builtin_root == old(self).builtin_root,
            final(self).builtin_handle == old(self).builtin_handle,
            match r {
                ParseStep::Load(u) => final(self).waiting_for() == Some(u@) && final(self).waiting_import() is Some,
                ParseStep::Done(x) => final(self).pending is Idle && x == Ok::<usize, String>(final(self).root_doc),
            },
            follows(*final(ast), old(self).queue(), old(self).loaded(), r, final(self).waiting_import(), final(self).queue()),
            followed(*old(ast), *final(ast), old(self).queue(), old(self).loaded(), r),
            only_import_links_added(*old(ast), *final(ast)),
            final(self).import_links() == old(self).import_links(),
            r is Load ==> final(self).importer() is Some,
            r is Done ==> forall|k: int| 0 <= k < final(self).import_links().len() ==> has_edge(
                *final(ast),
                #[trigger] final(self).import_links()[k].0 as int,
                final(self).import_links()[k].1 as int,
                AstRelation::Tosca(Relation::ImportFile(ImportFileRelation)),
            ),
    {
        let ghost start = *ast;
        let ghost q = stack_pending(self.stack@);
        let ghost mut done: int = 0;
        let ghost mut gs: Seq<Ast> = seq![start];
        let ghost mut ks: Seq<int> = seq![0int];
        proof {
            lemma_extends_refl(ast);
            assert(q.skip(0) =~= q);
        }
        loop
            invariant
                self.inv(ast),
                start == *old(ast),
                ast.extends(&start),
                only_import_links_added(start, *ast),
                self.pending is Idle,
                self.tree@ == old(self).tree@,
                self.files.entries() == old(self).files.entries(),
                self.root_doc == old(self).root_doc,
                self.version == old(self).version,
                self.builtin_root == old(self).builtin_root,
                self.builtin_handle == old(self).builtin_handle,
                self.files.entries().len() > 0,
                q == stack_pending(old(self).stack@),
                0 <= done <= q.len(),
                stack_pending(self.stack@) == q.skip(done),
                forall|j: int| 0 <= j < done ==> #[trigger] linked_import(*ast, q, self.files.entries(), j),
                follow_steps(q, self.files.entries(), gs, ks, done),
                gs[0] == start,
                gs.last() == *ast,
            decreases work_left(self.stack@),
        {
            if self.stack.len() == 0 {
                proof {
                    assert(q.skip(done).len() == 0);
                    assert(done == q.len());
                    assert forall|k: int| 0 <= k < self.tree@.len() implies has_edge(
                        *ast,
                        #[trigger] self.tree@[k].0 as int,
                        self.tree@[k].1 as int,
                        AstRelation::Tosca(Relation::ImportFile(ImportFileRelation)),
                    ) by {
                        assert(self.link_kept(self.tree@[k], ast));
                    }
                }
                let r = ParseStep::Done(Ok(self.root_doc));
                proof {
                    assert(links_made(q, self.files.entries(), r) == done);
                    assert(follow_steps(q, self.files.entries(), gs, ks, links_made(q, self.files.entries(), r)));
                }
                return r;
            }
            let ghost before = *ast;
            let ghost old_stack = self.stack@;
            let ghost done0 = done;
            let ghost tree = self.tree@;
            let ghost link = AstRelation::Tosca(Relation::ImportFile(ImportFileRelation));
            proof {
                assert forall|k: int| 0 <= k < tree.len() implies has_edge(before, tree[k].0 as int, tree[k].1 as int, link)
                    || on_stack(old_stack, #[trigger] tree[k]) by {
                    assert(self.link_kept(tree[k], ast));
                }
            }
            let mut top = self.stack.pop().unwrap();
            proof {
                assert(self.stack@ =~= old_stack.drop_last());
                assert(self.frame_fits(old_stack[old_stack.len() - 1], ast));
                assert forall|i: int| 0 <= i < self.stack@.len() implies self.frame_fits(#[trigger] self.stack@[i], ast) by {
                    assert(self.stack@[i] == old_stack[i]);
                }
                assert(stack_pending(old_stack) == frame_pending(top) + stack_pending(self.stack@));
            }
            if top.next >= top.imports.len() {
                proof {
                    assert(frame_pending(top) =~= Seq::<(Seq<char>, usize, usize)>::empty());
                    assert(stack_pending(self.stack@) =~= stack_pending(old_stack));
                }
                if self.stack.len() > 0 {
                    let parent = self.stack[self.stack.len() - 1].file;
                    ast.add_edge(parent, top.file, AstRelation::Tosca(Relation::ImportFile(ImportFileRelation)));
                    proof {
                        assert forall|i: int| 0 <= i < self.stack@.len() implies self.frame_fits(#[trigger] self.stack@[i], ast) by {
                            assert(self.frame_fits(self.stack@[i], &before));
                        }
                        assert(edge_is(*ast, before.edges().len() as int, parent as int, top.file as int, link));
                        assert forall|k: int| 0 <= k < self.tree@.len() implies self.link_kept(#[trigger] self.tree@[k], ast) by {
                            let l = tree[k];
                            if has_edge(before, l.0 as int, l.1 as int, link) {
                                lemma_has_edge_extends(&before, ast, l.0 as int, l.1 as int, link);
                            } else {
                                lemma_on_stack_pop(old_stack, l);
                            }
                        }
                        lemma_import_link_added(&start, &before, ast, parent, top.file, AstRelation::Tosca(Relation::ImportFile(ImportFileRelation)));
                        assert(ast.edges().drop_last() =~= before.edges());
                        assert(close_step(before, *ast));
                    }
                } else {
                    proof {
                        assert forall|k: int| 0 <= k < self.tree@.len() implies self.link_kept(#[trigger] self.tree@[k], ast) by {
                            let l = tree[k];
                            if !has_edge(before, l.0 as int, l.1 as int, link) {
                                lemma_on_stack_pop(old_stack, l);
                            }
                        }
                    }
                }
            } else {
                let u = top.imports[top.next].0.clone();
                let def = top.imports[top.next].1;
                let file = top.file;
                let ghost top_old = top;
                top.next = top.next + 1;
                proof {
                    assert(frame_pending(top_old) =~= seq![(u@, def, file)] + frame_pending(top));
                    assert(q.skip(done) =~= seq![q[done]] + q.skip(done + 1));
                }
                self.stack.push(top);
                proof {
                    assert(self.stack@.drop_last() =~= old_stack.drop_last());
                    assert forall|i: int| 0 <= i < self.stack@.len() implies self.frame_fits(#[trigger] self.stack@[i], ast) by {
                        if i < self.stack@.len() - 1 {
                            assert(self.stack@[i] == old_stack[i]);
                        }
                    }
                    let rest = frame_pending(top) + stack_pending(old_stack.drop_last());
                    assert(stack_pending(self.stack@) == rest);
                    let whole = stack_pending(old_stack);
                    assert(whole == frame_pending(top_old) + stack_pending(old_stack.drop_last()));
                    assert(whole =~= seq![(u@, def, file)] + rest);
                    assert(whole == q.skip(done));
                    assert(whole[0] == (u@, def, file));
                    assert(q.skip(done)[0] == q[done]);
                    assert(whole.skip(1) =~= rest);
                    assert(q.skip(done).skip(1) =~= q.skip(done + 1));
                    assert(q[done] == (u@, def, file));
                    assert(stack_pending(self.stack@) =~= q.skip(done + 1));
                    assert forall|k: int| 0 <= k < self.tree@.len() implies self.link_kept(#[trigger] self.tree@[k], ast) by {
                        let l = tree[k];
                        if !has_edge(before, l.0 as int, l.1 as int, link) {
                            assert forall|i: int| 0 <= i < old_stack.len() implies (#[trigger] self.stack@[i]).file == old_stack[i].file by {
                                if i < old_stack.len() - 1 {
                                    assert(self.stack@[i] == old_stack[i]);
                                }
                            }
                            lemma_on_stack_same_files(old_stack, self.stack@, l);
                        }
                    }
                }
                match self.files.get_file(u.as_str()) {
                    Some(h) => {
                        proof { lemma_lookup_some(self.files.entries(), u@); }
                        let ghost mid = *ast;
                        let ghost file_link = AstRelation::Tosca(Relation::ImportFile(ImportFileRelation));
                        let ghost mut linked_to: Option<usize> = None;
                        match find_file(h, ast) {
                            Some(p) => {
                                ast.add_edge(file, p, AstRelation::Tosca(Relation::ImportFile(ImportFileRelation)));
                                proof {
                                    linked_to = Some(p);
                                    assert(file_read_from(mid, h as int, p as int));
                                    lemma_import_link_added(&start, &mid, ast, file, p, AstRelation::Tosca(Relation::ImportFile(ImportFileRelation)));
                                    assert(edge_is(*ast, mid.edges().len() as int, file as int, p as int, file_link));
                                    let e0 = choose|e: int| last_file_link(mid, e, h as int) && mid.edges()[e].0 == p;
                                    assert forall|e: int| #[trigger] last_file_link(mid, e, h as int) implies mid.edges()[e].0 == p by {
                                        if e < e0 {
                                            assert(!is_file_link(mid, e0, h as int));
                                        } else if e > e0 {
                                            assert(!is_file_link(mid, e, h as int));
                                        }
                                    }
                                }
                            },
                            None => {},
                        }
                        let ghost mid2 = *ast;
                        ast.add_edge(def, h, AstRelation::Tosca(Relation::ImportTarget(ImportTargetRelation)));
                        proof {
                            self.lemma_inv_extends(&before, ast);
                            lemma_import_link_added(&start, &mid2, ast, def, h, AstRelation::Tosca(Relation::ImportTarget(ImportTargetRelation)));
                            assert(edge_is(*ast, mid2.edges().len() as int, def as int, h as int, AstRelation::Tosca(Relation::ImportTarget(ImportTargetRelation))));
                            assert forall|e: int| mid.edges().len() <= e < ast.edges().len() implies is_import_link((#[trigger] ast.edges()[e]).2) by {
                                assert(is_import_link(ast.edges()[e].2));
                            }
                            lemma_file_links_stable(&mid, ast, h as int);
                            assert forall|e: int| #[trigger] last_file_link(*ast, e, h as int) implies has_edge(
                                *ast,
                                file as int,
                                ast.edges()[e].0 as int,
                                file_link,
                            ) by {
                                assert(last_file_link(mid, e, h as int));
                                assert(ast.edges()[e] == mid.edges()[e]);
                                assert(mid.edges()[e].0 == mid.edges()[e].0);
                                lemma_has_edge_extends(&mid2, ast, file as int, mid.edges()[e].0 as int, file_link);
                            }
                            assert(linked_import(*ast, q, self.files.entries(), done0));
                            done = done + 1;
                            assert(mid == before);
                            match linked_to {
                                Some(p) => {
                                    assert(ast.edges() =~= before.edges().push((file, p, file_link)).push(
                                        (def, h, AstRelation::Tosca(Relation::ImportTarget(ImportTargetRelation))),
                                    ));
                                    assert(file_read_from(before, h as int, p as int));
                                },
                                None => {
                                    assert(!(exists|e: int| #[trigger] last_file_link(before, e, h as int)));
                                    assert(ast.edges() =~= before.edges().push(
                                        (def, h, AstRelation::Tosca(Relation::ImportTarget(ImportTargetRelation))),
                                    ));
                                },
                            }
                            assert(import_link_step(q[done0], self.files.entries(), before, *ast));
                        }
                    },
                    None => {
                        self.pending = Pending::Import(u.clone(), def);
                        proof {
                            assert forall|j: int| 0 <= j < done implies lookup(self.files.entries(), #[trigger] q[j].0) is Some by {
                                assert(linked_import(*ast, q, self.files.entries(), j));
                            }
                            assert(first_unread(q, self.files.entries(), done));
                            lemma_first_unread_unique(q, self.files.entries(), done);
                            assert(*ast == before);
                        }
                        let r = ParseStep::Load(u);
                        proof {
                            assert(links_made(q, self.files.entries(), r) == done);
                            assert(follow_steps(q, self.files.entries(), gs, ks, links_made(q, self.files.entries(), r)));
                        }
                        return r;
                    },
                }
            }
            proof {
                let gs2 = gs.push(*ast);
                let ks2 = ks.push(done);
                assert(gs2[gs.len() - 1] == before && gs2[gs.len() as int] == *ast);
                assert(ks2[ks.len() - 1] == done0 && ks2[ks.len() as int] == done);
                assert(follow_step_at(q, self.files.entries(), gs2, ks2, gs.len() - 1));
                assert forall|t: int| 0 <= t < gs2.len() - 1 implies #[trigger] follow_step_at(q, self.files.entries(), gs2, ks2, t) by {
                    if t < gs.len() - 1 {
                        assert(gs2[t] == gs[t] && gs2[t + 1] == gs[t + 1]);
                        assert(ks2[t] == ks[t] && ks2[t + 1] == ks[t + 1]);
                        assert(follow_step_at(q, self.files.entries(), gs, ks, t));
                    }
                }
                gs = gs2;
                ks = ks2;
            }
            proof {
                lemma_extends_trans(&start, &before, ast);
                assert forall|j: int| 0 <= j < done implies #[trigger] linked_import(*ast, q, self.files.entries(), j) by {
                    if j < done0 {
                        assert(linked_import(before, q, self.files.entries(), j));
                        assert forall|e: int| before.edges().len() <= e < ast.edges().len() implies is_import_link((#[trigger] ast.edges()[e]).2) by {
                            assert(is_import_link(ast.edges()[e].2));
                        }
                        lemma_linked_import_extends(&before, ast, q, self.files.entries(), j);
                    }
                }
            }
        }
    }

    /// Sets up the built-in definitions of version `v`, then reads the file
    /// entity of the main document, whose YAML root is `yr`.
    fn start(&mut self, v: ToscaVersion, uri: &str, yr: usize, ast: &mut Ast)
        requires
            old(self).inv(old(ast)),
            old(self).pending is Idle,
            old(self).stack@.len() == 0,
            old(self).loaded().len() > 0,
            yr + 1 == old(ast).nodes().len(),
        ensures
            final(self).inv(final(ast)),
            final(ast).extends(old(ast)),
            final(self).files.entries() == old(self).files.entries(),
            final(self).pending is Idle,
            final(self).root_doc == old(self).root_doc,
            final(self).version == v,
            file_queued(
                *final(ast),
                v,
                yr as int,
                final(self).builtin_root as int,
                final(self).builtin_handle as int,
                uri@,
                old(self).queue(),
                final(self).queue(),
                (None, old(self).import_links(), final(self).import_links()),
            ),
    {
        let ghost start = *ast;
        let name = name_of(v);
        let mut raw = String::from_str("builtin://");
        raw.append(name);
        let url = match parse_url(raw.as_str()) {
            Some(u) => u,
            None => raw,
        };
        self.version = v;
        self.builtin_root = ast.add_node(AstEntity::File(SourceFile { url, content: None }));
        self.builtin_handle = ast.add_node(AstEntity::Tosca(Entity::File(FileEntity)));
        ast.add_edge(self.builtin_handle, self.builtin_root, AstRelation::File(FileRelation(0)));
        proof { self.lemma_inv_extends(&start, ast); }
        let ghost mid = *ast;
        self.open_file(uri, yr, ast);
        proof { lemma_extends_trans(&start, &mid, ast); }
    }
}

/// Edge `e` links the YAML root `yr` to its document `doc` at offset `pos`.
pub open spec fn root_edge(ast: Ast, e: int, yr: int, doc: int, pos: usize) -> bool {
    &&& 0 <= e < ast.edges().len()
    &&& ast.edges()[e] == (yr as usize, doc as usize, AstRelation::File(FileRelation(pos)))
}

/// Node `yr` is the root of the YAML tree `y` of document `doc`: it holds
/// the tree, and is linked to the document at the tree's offset.
pub open spec fn yaml_root_at(ast: Ast, yr: int, doc: int, y: YamlNode) -> bool {
    &&& 0 <= yr < ast.nodes().len()
    &&& represents(ast.nodes(), yr, y)
    &&& exists|e: int| #[trigger] root_edge(ast, e, yr, doc, y.pos)
}

/// Edge `e` locates the error `err` in document `doc` at offset `pos`.
pub open spec fn file_error_edge(ast: Ast, e: int, err: ErrorView, doc: int, pos: usize) -> bool {
    &&& 0 <= e < ast.edges().len()
    &&& ast.edges()[e].1 == doc
    &&& ast.edges()[e].2 == AstRelation::File(FileRelation(pos))
    &&& is_error(ast.nodes()[ast.edges()[e].0 as int], err)
}

/// The YAML reader's error `err` is recorded on document `doc`, whose text
/// is `content`: its message, at the offset it points at.
pub open spec fn yaml_error_recorded(ast: Ast, doc: int, err: Seq<char>, content: Seq<char>) -> bool {
    exists|e: int| #[trigger] file_error_edge(
        ast,
        e,
        ErrorView::Custom(yaml_error_message(err)),
        doc,
        yaml_error_offset(err, content),
    )
}

/// The errors of `version_errors` for the YAML root `yr` are the nodes
/// added after the YAML tree, in order, each located at `yr`, and nothing
/// else was added after the tree.
pub open spec fn version_errors_recorded(ast: Ast, yr: int) -> bool {
    let errs = version_errors(ast.nodes(), yr as usize);
    &&& ast.nodes().len() == yr + 1 + errs.len()
    &&& forall|t: int| 0 <= t < errs.len() ==> is_error(#[trigger] ast.nodes()[yr + 1 + t], errs[t].1)
        && has_edge(ast, yr + 1 + t, yr, AstRelation::Parse(ParseLoc))
}

/// The version that the document with YAML root `yr`, read from `url`,
/// declares was checked, and the imports were followed from there: a
/// missing version has its error at the root; the main document selects the
/// version it names (its file entity is then read and its imports followed
/// first), or has an error at the version if it names none that is known;
/// an imported document is read in the version `was` if it names it, and
/// otherwise has an error at its import definition. Each such error is the
/// one node added after the YAML tree. Where no file entity was read,
/// following the imports queued already, `q_old`, gave `r`, and the import
/// links `lk` record nothing. Either way the graph is one in which the
/// version was checked and the imports queued (`version_queued`), with the
/// links that following the queue made added (`followed`), and nothing else.
pub open spec fn version_checked(
    ast: Ast,
    main: bool,
    import_def: Option<usize>,
    was: ToscaVersion,
    now: ToscaVersion,
    builtins: (usize, usize),
    yr: int,
    url: Seq<char>,
    q_old: Seq<(Seq<char>, usize, usize)>,
    files: Seq<(String, usize)>,
    r: ParseStep,
    asked: Option<usize>,
    rest: Seq<(Seq<char>, usize, usize)>,
    lk: (Option<usize>, Seq<(usize, usize)>, Seq<(usize, usize)>),
) -> bool {
    &&& exists|g: Ast, q_new: Seq<(Seq<char>, usize, usize)>|
        #[trigger] version_queued(g, main, import_def, was, now, builtins, yr, url, q_old, q_new, lk) && followed(
            g,
            ast,
            q_new,
            files,
            r,
        )
    &&& match declared_version(ast.nodes(), yr) {
        None => version_errors_recorded(ast, yr) && follows(ast, q_old, files, r, asked, rest)
            && links_after(lk, None),
        Some((vn, name)) => if main {
            if name@ == version_name(ToscaVersion::V1_3) || name@ == version_name(ToscaVersion::V2_0) {
                &&& name@ == version_name(now)
                &&& tosca_followed(ast, now, yr, builtins.0 as int, builtins.1 as int, url, q_old, files, r, asked, rest, lk)
            } else {
                error_at(ast, ErrorView::Custom("unknown tosca version"@), vn as int) && ast.nodes().len() == yr + 2
                    && follows(ast, q_old, files, r, asked, rest)
                    && links_after(lk, None)
            }
        } else if name@ == version_name(was) {
            tosca_followed(ast, was, yr, builtins.0 as int, builtins.1 as int, url, q_old, files, r, asked, rest, lk)
        } else {
            &&& error_at(
                ast,
                ErrorView::Custom("can't import file of different tosca version"@),
                import_def->Some_0 as int,
            )
            &&& ast.nodes().len() == yr + 2
            &&& follows(ast, q_old, files, r, asked, rest)
            &&& links_after(lk, None)
        },
    }
}

/// The version that the document with YAML root `yr` declares was checked,
/// as in `version_checked`, and the imports of its file entity, if one was
/// read, were queued before `q_old`, giving `q_new`, the entity being
/// recorded in the import links `lk`.
pub open spec fn version_queued(
    ast: Ast,
    main: bool,
    import_def: Option<usize>,
    was: ToscaVersion,
    now: ToscaVersion,
    builtins: (usize, usize),
    yr: int,
    url: Seq<char>,
    q_old: Seq<(Seq<char>, usize, usize)>,
    q_new: Seq<(Seq<char>, usize, usize)>,
    lk: (Option<usize>, Seq<(usize, usize)>, Seq<(usize, usize)>),
) -> bool {
    match declared_version(ast.nodes(), yr) {
        None => version_errors_recorded(ast, yr) && q_new == q_old
            && links_after(lk, None),
        Some((vn, name)) => if main {
            if name@ == version_name(ToscaVersion::V1_3) || name@ == version_name(ToscaVersion::V2_0) {
                &&& name@ == version_name(now)
                &&& file_queued(ast, now, yr, builtins.0 as int, builtins.1 as int, url, q_old, q_new, lk)
            } else {
                error_at(ast, ErrorView::Custom("unknown tosca version"@), vn as int) && ast.nodes().len() == yr + 2
                    && q_new == q_old
                    && links_after(lk, None)
            }
        } else if name@ == version_name(was) {
            file_queued(ast, was, yr, builtins.0 as int, builtins.1 as int, url, q_old, q_new, lk)
        } else {
            &&& error_at(
                ast,
                ErrorView::Custom("can't import file of different tosca version"@),
                import_def->Some_0 as int,
            )
            &&& ast.nodes().len() == yr + 2
            &&& q_new == q_old
            &&& links_after(lk, None)
        },
    }
}

/// A document read and queued, then followed over import links only, was
/// read and followed.
proof fn lemma_version_followed(
    g: &Ast,
    f: &Ast,
    doc: int,
    y: YamlNode,
    main: bool,
    import_def: Option<usize>,
    was: ToscaVersion,
    now: ToscaVersion,
    builtins: (usize, usize),
    yr: int,
    url: Seq<char>,
    q_old: Seq<(Seq<char>, usize, usize)>,
    q_new: Seq<(Seq<char>, usize, usize)>,
    files: Seq<(String, usize)>,
    r: ParseStep,
    asked: Option<usize>,
    rest: Seq<(Seq<char>, usize, usize)>,
    lk: (Option<usize>, Seq<(usize, usize)>, Seq<(usize, usize)>),
)
    requires
        g.wf(),
        only_import_links_added(*g, *f),
        yaml_root_at(*g, yr, doc, y),
        version_queued(*g, main, import_def, was, now, builtins, yr, url, q_old, q_new, lk),
        follows(*f, q_new, files, r, asked, rest),
        followed(*g, *f, q_new, files, r),
    ensures
        yaml_root_at(*f, yr, doc, y),
        version_checked(*f, main, import_def, was, now, builtins, yr, url, q_old, files, r, asked, rest, lk),
{
    lemma_represents_extends(g, f, yr, y);
    let e = choose|e: int| root_edge(*g, e, yr, doc, y.pos);
    assert(f.edges()[e] == g.edges()[e]);
    assert(root_edge(*f, e, yr, doc, y.pos));
    lemma_declared_version_stable(g, f, yr);
    match declared_version(g.nodes(), yr) {
        None => {
            let errs = version_errors(g.nodes(), yr as usize);
            assert forall|t: int| 0 <= t < errs.len() implies is_error(#[trigger] f.nodes()[yr + 1 + t], errs[t].1)
                && has_edge(*f, yr + 1 + t, yr, AstRelation::Parse(ParseLoc)) by {
                assert(is_error(g.nodes()[yr + 1 + t], errs[t].1));
                lemma_has_edge_extends(g, f, yr + 1 + t, yr, AstRelation::Parse(ParseLoc));
            }
        },
        Some((vn, name)) => {
            if main {
                if name@ == version_name(ToscaVersion::V1_3) || name@ == version_name(ToscaVersion::V2_0) {
                    lemma_file_followed(g, f, now, yr, builtins.0 as int, builtins.1 as int, url, q_old, q_new, files, r, asked, rest, lk);
                } else {
                    lemma_error_at_extends(g, f, ErrorView::Custom("unknown tosca version"@), vn as int);
                }
            } else if name@ == version_name(was) {
                lemma_file_followed(g, f, was, yr, builtins.0 as int, builtins.1 as int, url, q_old, q_new, files, r, asked, rest, lk);
            } else {
                lemma_error_at_extends(
                    g,
                    f,
                    ErrorView::Custom("can't import file of different tosca version"@),
                    import_def->Some_0 as int,
                );
            }
        },
    }
}

/// A document that declares no version, checked, has its errors recorded
/// right after its YAML tree.
proof fn lemma_version_errors_recorded(at_yaml: &Ast, ast: &Ast, yr: usize)
    requires
        at_yaml.wf(),
        ast.extends(at_yaml),
        at_yaml.nodes().len() == yr + 1,
        version_outcome(*at_yaml, *ast, yr, None),
    ensures
        version_errors_recorded(*ast, yr as int),
{
    let errs = version_errors(at_yaml.nodes(), yr);
    lemma_version_errors(at_yaml.nodes(), yr);
    lemma_declared_version_stable(at_yaml, ast, yr as int);
    assert forall|t: int| 0 <= t < errs.len() implies is_error(#[trigger] ast.nodes()[yr + 1 + t], errs[t].1)
        && has_edge(*ast, yr + 1 + t, yr as int, AstRelation::Parse(ParseLoc)) by {
        assert(is_error(ast.nodes()[at_yaml.nodes().len() + t], errs[t].1));
        assert(errs[t].0 == yr);
        assert(edge_is(*ast, at_yaml.edges().len() + t, yr + 1 + t, yr as int, AstRelation::Parse(ParseLoc)));
    }
    assert(version_errors(ast.nodes(), yr) == errs);
    assert(ast.nodes().len() == yr + 1 + errs.len());
}

/// A recorded YAML error stays recorded as the graph grows.
proof fn lemma_yaml_error_recorded_extends(a: &Ast, b: &Ast, doc: int, err: Seq<char>, content: Seq<char>)
    requires
        a.wf(),
        b.extends(a),
        yaml_error_recorded(*a, doc, err, content),
    ensures
        yaml_error_recorded(*b, doc, err, content),
{
    let ev = ErrorView::Custom(yaml_error_message(err));
    let pos = yaml_error_offset(err, content);
    let e = choose|e: int| file_error_edge(*a, e, ev, doc, pos);
    assert(b.edges()[e] == a.edges()[e]);
    assert(b.nodes()[a.edges()[e].0 as int] == a.nodes()[a.edges()[e].0 as int]);
    assert(file_error_edge(*b, e, ev, doc, pos));
}

impl ToscaParser {
    /// Hands the parser what was read for the file it waits for, and goes on
    /// until it needs another file or is done.
    ///
    /// A file that was read is recorded with its document node; its YAML is
    /// loaded (or the reader's error recorded on it) and the version it
    /// declares looked up. The main document selects the version; a file
    /// imported from it must declare the same one. Then the imports of the
    /// file are followed, and those of the files that import it, in order.
    /// An import of a file that was read before is linked to it at once. An
    /// import whose file could not be read gets an error at its definition;
    /// the main document not being readable ends the parse with that reason.
    /// The file entity read from an imported document is recorded after the
    /// file entity that imports it; once its imports have all been followed,
    /// the importer is linked to it, so that when the parse is done every
    /// recorded pair is linked.
    pub fn resume(&mut self, loaded: LoadedFile, ast: &mut Ast) -> (r: ParseStep)
        requires
            old(self).inv(old(ast)),
            old(self).waiting_for() is Some,
            loaded matches LoadedFile::Read { yaml: Err(e), .. } ==> yaml_error_parses(e@),
        ensures
            final(self).inv(final(ast)),
            final(ast).extends(old(ast)),
            final(self).loaded().len() >= old(self).loaded().len(),
            r is Load ==> final(self).loaded().len() > old(self).loaded().len() || final(self).queue().len()
                < old(self).queue().len(),
            match loaded {
                LoadedFile::Read { content, .. } => {
                    &&& final(self).loaded() == old(self).loaded().push(
                        (final(self).loaded().last().0, old(ast).nodes().len() as usize),
                    )
                    &&& Some(final(self).loaded().last().0@) == old(self).waiting_for()
                    &&& is_document(
                        final(ast).nodes()[old(ast).nodes().len() as int],
                        old(self).waiting_for()->Some_0,
                        Some(content@),
                    )
                },
                LoadedFile::Unreadable(_) => final(self).loaded() == old(self).loaded(),
            },
            old(self).waiting_import() matches Some(d) ==> match loaded {
                LoadedFile::Read { .. } => final(ast).edges()[old(ast).edges().len() as int] == (
                    d,
                    old(ast).nodes().len() as usize,
                    AstRelation::Tosca(Relation::ImportTarget(ImportTargetRelation)),
                ),
                LoadedFile::Unreadable(m) => {
                    &&& is_error(final(ast).nodes()[old(ast).nodes().len() as int], ErrorView::Custom(m@))
                    &&& final(ast).edges()[old(ast).edges().len() as int] == (
                        old(ast).nodes().len() as usize,
                        d,
                        AstRelation::Parse(ParseLoc),
                    )
                },
            },
            match loaded {
                LoadedFile::Read { yaml: Ok(y), .. } => exists|yr: int| #[trigger] yaml_root_at(
                    *final(ast),
                    yr,
                    old(ast).nodes().len() as int,
                    y,
                ) && version_checked(
                    *final(ast),
                    old(self).waits_for_main(),
                    old(self).waiting_import(),
                    old(self).tosca_version(),
                    final(self).tosca_version(),
                    final(self).builtin_nodes(),
                    yr,
                    old(self).waiting_for()->Some_0,
                    old(self).queue(),
                    final(self).loaded(),
                    r,
                    final(self).waiting_import(),
                    final(self).queue(),
                    (old(self).importer(), old(self).import_links(), final(self).import_links()),
                ),
                LoadedFile::Read { content, yaml: Err(e) } => {
                    &&& yaml_error_recorded(*final(ast), old(ast).nodes().len() as int, e@, content@)
                    &&& follows(*final(ast), old(self).queue(), final(self).loaded(), r, final(self).waiting_import(), final(self).queue())
                    &&& final(self).import_links() == old(self).import_links()
                    &&& final(ast).nodes().len() == old(ast).nodes().len() + 2
                    &&& exists|g: Ast|
                        #[trigger] followed(g, *final(ast), old(self).queue(), final(self).loaded(), r) && g.nodes()
                            == final(ast).nodes() && yaml_error_recorded(g, old(ast).nodes().len() as int, e@, content@)
                },
                LoadedFile::Unreadable(why) => {
                    &&& !old(self).waits_for_main() ==> follows(
                        *final(ast),
                        old(self).queue(),
                        final(self).loaded(),
                        r,
                        final(self).waiting_import(),
                        final(self).queue(),
                    )
                    &&& final(self).import_links() == old(self).import_links()
                    &&& !old(self).waits_for_main() ==> final(ast).nodes().len() == old(ast).nodes().len() + 1
                    &&& !old(self).waits_for_main() ==> exists|mid: Ast|
                        #[trigger] added_error(
                            *old(ast),
                            mid,
                            old(self).waiting_import()->Some_0 as int,
                            ErrorView::Custom(why@),
                        ) && followed(mid, *final(ast), old(self).queue(), final(self).loaded(), r)
                },
            },
            r matches ParseStep::Done(Ok(_)) ==> forall|k: int| 0 <= k < final(self).import_links().len() ==> has_edge(
                *final(ast),
                #[trigger] final(self).import_links()[k].0 as int,
                final(self).import_links()[k].1 as int,
                AstRelation::Tosca(Relation::ImportFile(ImportFileRelation)),
            ),
            !old(self).waits_for_main() ==> final(self).tosca_version() == old(self).tosca_version()
                && final(self).builtin_nodes() == old(self).builtin_nodes(),
            old(self).waits_for_main() ==> match loaded {
                LoadedFile::Unreadable(why) => r matches ParseStep::Done(Err(m)) && m@ == why@,
                LoadedFile::Read { .. } => r matches ParseStep::Done(Ok(_)) || r is Load,
            },
            match r {
                ParseStep::Load(u) => {
                    &&& final(self).waiting_for() == Some(u@)
                    &&& lookup(final(self).loaded(), u@) is None
                    &&& final(self).importer() is Some
                },
                ParseStep::Done(Ok(d)) => {
                    &&& final(self).waiting_for() is None
                    &&& final(self).loaded().len() > 0
                    &&& d == final(self).loaded()[0].1
                },
                ParseStep::Done(Err(m)) => {
                    &&& final(self).waiting_for() is None
                    &&& old(self).waits_for_main()
                    &&& loaded matches LoadedFile::Unreadable(why) && why@ == m@
                    &&& *final(ast) == *old(ast)
                },
            },
    {
        let ghost start = *ast;
        let (url, def, main): (String, usize, bool) = match &self.pending {
            Pending::Root(u) => (u.clone(), 0, true),
            Pending::Import(u, d) => (u.clone(), *d, false),
            Pending::Idle => (String::new(), 0, false),
        };
        self.pending = Pending::Idle;
        match loaded {
            LoadedFile::Unreadable(m) => {
                if main {
                    return ParseStep::Done(Err(m));
                }
                let ghost why = m@;
                ast.add_error(ParseError::Custom(m), def);
                proof { self.lemma_inv_extends(&start, ast); }
                let ghost mid = *ast;
                let r = self.advance(ast);
                proof {
                    lemma_extends_trans(&start, &mid, ast);
                    assert(added_error(start, mid, def as int, ErrorView::Custom(why)));
                    if r is Load {
                        lemma_follows_shrinks(*ast, old(self).queue(), self.loaded(), r, self.waiting_import(), self.queue());
                    }
                }
                r
            },
            LoadedFile::Read { content, yaml } => {
                let ghost old_content = content@;
                let ghost old_yaml = yaml;
                let ghost prev_files = self.files.entries();
                let doc = self.files.add_file(url.as_str(), content, ast);
                proof {
                    lemma_lookup_none(prev_files, url@);
                    assert(self.files.entries().drop_last() =~= prev_files);
                }
                if main {
                    self.root_doc = doc;
                } else {
                    ast.add_edge(def, doc, AstRelation::Tosca(Relation::ImportTarget(ImportTargetRelation)));
                }
                let ghost loaded_at = *ast;
                proof {
                    let es = self.files.entries();
                    assert forall|i: int| 0 <= i < es.len() implies (#[trigger] es[i]).1 < ast.nodes().len() by {
                        if i < prev_files.len() {
                            assert(es[i] == prev_files[i]);
                        }
                    }
                    assert forall|i: int, j: int| 0 <= i < j < es.len() implies (#[trigger] es[i]).0@ != (#[trigger] es[j]).0@ by {
                        if j < prev_files.len() {
                            assert(es[i] == prev_files[i]);
                            assert(es[j] == prev_files[j]);
                        } else {
                            assert(es[i] == prev_files[i]);
                        }
                    }
                    assert forall|i: int| 0 <= i < self.stack@.len() implies self.frame_fits(#[trigger] self.stack@[i], ast) by {
                        assert(old(self).frame_fits(old(self).stack@[i], &start));
                    }
                    assert(ast.extends(&start));
                    assert forall|k: int| 0 <= k < self.tree@.len() implies self.link_kept(#[trigger] self.tree@[k], ast) by {
                        let l = self.tree@[k];
                        let link = AstRelation::Tosca(Relation::ImportFile(ImportFileRelation));
                        assert(old(self).link_kept(old(self).tree@[k], &start));
                        if has_edge(start, l.0 as int, l.1 as int, link) {
                            lemma_has_edge_extends(&start, ast, l.0 as int, l.1 as int, link);
                        }
                    }
                    if !main {
                        assert(es[0] == prev_files[0]);
                    }
                    assert(self.inv(ast));
                }
                let ghost mut witness: int = 0;
                let ghost content_view = old_content;
                match yaml {
                    Err(e) => {
                        report_yaml_error(e.as_str(), doc, ast);
                        proof {
                            let ed = loaded_at.edges().len() as int;
                            assert(ast.nodes()[ast.edges()[ed].0 as int] == ast.nodes().last());
                            assert(file_error_edge(
                                *ast,
                                ed,
                                ErrorView::Custom(yaml_error_message(e@)),
                                doc as int,
                                yaml_error_offset(e@, content_view),
                            ));
                            self.lemma_inv_extends(&loaded_at, ast);
                        }
                    },
                    Ok(y) => {
                        let yr = load_yaml(ast, &y, doc);
                        let ghost at_yaml = *ast;
                        proof {
                            self.lemma_inv_extends(&loaded_at, ast);
                            witness = yr as int;
                            let ed = (at_yaml.edges().len() - 1) as int;
                            assert(root_edge(at_yaml, ed, yr as int, doc as int, y.pos));
                        }
                        match ToscaGrammar::get_tosca_version(yr, ast) {
                            None => {
                                proof {
                                    lemma_version_errors_recorded(&at_yaml, ast, yr);
                                    self.lemma_inv_extends(&at_yaml, ast);
                                }
                            },
                            Some((vn, name)) => {
                                proof {
                                    lemma_version_errors(at_yaml.nodes(), yr);
                                    self.lemma_inv_extends(&at_yaml, ast);
                                }
                                let ghost at_version = *ast;
                                if main {
                                    if str_eq(name.as_str(), Tosca1_3::name()) {
                                        self.start(ToscaVersion::V1_3, url.as_str(), yr, ast);
                                    } else if str_eq(name.as_str(), Tosca2_0::name()) {
                                        self.start(ToscaVersion::V2_0, url.as_str(), yr, ast);
                                    } else {
                                        ast.add_error(ParseError::Custom(String::from_str("unknown tosca version")), vn);
                                        proof {
                                            lemma_added_error_at(&at_version, ast, vn as int, ErrorView::Custom("unknown tosca version"@));
                                            self.lemma_inv_extends(&at_version, ast);
                                        }
                                    }
                                } else if str_eq(name.as_str(), name_of(self.version)) {
                                    self.open_file(url.as_str(), yr, ast);
                                } else {
                                    ast.add_error(
                                        ParseError::Custom(String::from_str("can't import file of different tosca version")),
                                        def,
                                    );
                                    proof {
                                        lemma_added_error_at(
                                            &at_version,
                                            ast,
                                            def as int,
                                            ErrorView::Custom("can't import file of different tosca version"@),
                                        );
                                        self.lemma_inv_extends(&at_version, ast);
                                    }
                                }
                            },
                        }
                        proof {
                            lemma_extends_trans(&at_yaml, &at_yaml, ast);
                            lemma_represents_extends(&at_yaml, ast, yr as int, y);
                            let ed = (at_yaml.edges().len() - 1) as int;
                            assert(ast.edges()[ed] == at_yaml.edges()[ed]);
                            assert(root_edge(*ast, ed, yr as int, doc as int, y.pos));
                            lemma_declared_version_stable(&at_yaml, ast, yr as int);
                            assert(yaml_root_at(*ast, yr as int, doc as int, y));
                            assert(version_queued(
                                *ast,
                                main,
                                old(self).waiting_import(),
                                old(self).tosca_version(),
                                self.version,
                                (self.builtin_root, self.builtin_handle),
                                yr as int,
                                url@,
                                old(self).queue(),
                                self.queue(),
                                (old(self).importer(), old(self).import_links(), self.import_links()),
                            ));
                        }
                    },
                }
                proof {
                    lemma_extends_trans(&start, &loaded_at, ast);
                }
                let ghost mid = *ast;
                let ghost q_mid = self.queue();
                let ghost mid_self = *self;
                let r = self.advance(ast);
                proof {
                    lemma_extends_trans(&start, &mid, ast);
                    match old_yaml {
                        Ok(y) => {
                            lemma_version_followed(
                                &mid,
                                ast,
                                doc as int,
                                y,
                                main,
                                old(self).waiting_import(),
                                old(self).tosca_version(),
                                self.version,
                                (self.builtin_root, self.builtin_handle),
                                witness,
                                url@,
                                old(self).queue(),
                                q_mid,
                                self.loaded(),
                                r,
                                self.waiting_import(),
                                self.queue(),
                                (old(self).importer(), old(self).import_links(), self.import_links()),
                            );
                        },
                        Err(e) => {
                            lemma_yaml_error_recorded_extends(&mid, ast, doc as int, e@, content_view);
                            assert(q_mid == old(self).queue());
                            assert(followed(mid, *ast, old(self).queue(), self.loaded(), r));
                        },
                    }
                }
                r
            },
        }
    }
}

/// The value of `tosca_definitions_version` that selects `v`.
fn name_of(v: ToscaVersion) -> (s: &'static str)
    ensures
        s@ == version_name(v),
{
    match v {
        ToscaVersion::V1_3 => Tosca1_3::name(),
        ToscaVersion::V2_0 => Tosca2_0::name(),
    }
}

/// Each file is read at most once, so a run over finitely many documents
/// reads finitely many: the parser records the files it read under distinct
/// URLs, so where they all lie in a finite set of URLs, no more files were
/// read than that set holds. Each step of `resume` that asks for another
/// file has read one more file or left fewer imports queued, so the number
/// of files left unread, then the number of imports queued, goes down at
/// every such step.
pub proof fn lemma_reads_bounded(p: &ToscaParser, ast: &Ast, urls: Set<Seq<char>>)
    requires
        p.inv(ast),
        urls.finite(),
        forall|i: int| 0 <= i < p.loaded().len() ==> urls.contains(#[trigger] p.loaded()[i].0@),
    ensures
        p.loaded().len() <= urls.len(),
{
    let files = p.loaded();
    let s = read_urls(files);
    assert forall|i: int, j: int| 0 <= i < s.len() && 0 <= j < s.len() && i != j implies s[i] != s[j] by {
        if i < j {
            assert(files[i].0@ != files[j].0@);
        } else {
            assert(files[j].0@ != files[i].0@);
        }
    }
    assert(s.no_duplicates());
    s.unique_seq_to_set();
    assert forall|x: Seq<char>| s.to_set().contains(x) implies urls.contains(x) by {
        let i = choose|i: int| 0 <= i < s.len() && s[i] == x;
        assert(urls.contains(files[i].0@));
    }
    vstd::set_lib::lemma_len_subset(s.to_set(), urls);
}

} // verus!
