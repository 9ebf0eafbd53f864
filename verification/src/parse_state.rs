//! Parsing a whole source, and the text of what came of it.

use crate::atoms::containers::{AtomNodes, Container, ContainerAtoms, RootAtom};
use crate::atoms::nesting::{lemma_decoded_tree_is_nested, well_nested};
use crate::atoms::tree::{container_of, ContainerKind, NodeView};
use crate::atoms::{header_text, root_header, AtomHeader, AtomLike, HeaderView};
use crate::error::{bad_size_text, error_text, result_view, ErrorView, ParseError};
use crate::source::ByteSource;
use crate::text::{code_string, indent, push_decimal};
use vstd::prelude::*;
use vstd::string::*;

verus! {

/// The least number of bytes that a source must hold: one short header.
pub const MIN_FILE_READ: u64 = 8;

/// The mark before a node: one for the last child of its parent, another for
/// a child with siblings after it.
pub open spec fn branch_glyph(is_last: bool) -> char {
    if is_last {
        '\u{2517}'
    } else {
        '\u{2523}'
    }
}

/// The line of one node: two spaces for each level of depth, the mark, a
/// space, the header's fields and a line feed.
pub open spec fn line_text(header: HeaderView, depth: nat, is_last: bool) -> Seq<char> {
    indent(depth) + seq![branch_glyph(is_last), ' '] + header_text(header) + seq!['\n']
}

/// The lines of a node and of all that is below it: the node's own line
/// first, then its children in their order, one level deeper.
pub open spec fn tree_text(node: NodeView, depth: nat, is_last: bool) -> Seq<char>
    decreases node, 0nat,
{
    match node {
        NodeView::Container(container) => line_text(container.header, depth, is_last)
            + forest_text(container.children, 0, depth + 1),
        NodeView::Atom(leaf) => line_text(leaf.header(), depth, is_last),
    }
}

/// The lines of the nodes of `nodes` from index `from` on, all at the same
/// depth; the last of `nodes` is marked as the last.
pub open spec fn forest_text(nodes: Seq<NodeView>, from: nat, depth: nat) -> Seq<char>
    decreases nodes, nodes.len() - from,
{
    if from >= nodes.len() {
        Seq::empty()
    } else {
        tree_text(nodes[from as int], depth, from + 1 == nodes.len()) + forest_text(
            nodes,
            from + 1,
            depth,
        )
    }
}

/// The text of an outcome: the tree, or the one line of the error.
pub open spec fn results_text(results: Result<NodeView, ErrorView>) -> Seq<char> {
    match results {
        Ok(node) => tree_text(node, 0, true),
        Err(error) => error_text(error) + seq!['\n'],
    }
}

/// What parsing a source of the bytes `data` yields: the root container,
/// which spans the source, with the atoms of the top level as its children.
pub open spec fn parse_of(data: Seq<u8>) -> Result<NodeView, ErrorView> {
    Ok(NodeView::Container(container_of(data, root_header(data.len()), ContainerKind::Root)))
}

/// The tree that parsing yields is well nested: the atoms of the top level
/// lie within the source, in file order and without overlap, and so do the
/// children of every container below.
pub proof fn lemma_parsed_tree_is_nested(data: Seq<u8>)
    ensures
        parse_of(data) matches Ok(root) && well_nested(root),
{
    lemma_decoded_tree_is_nested(data, root_header(data.len()));
}

/// Appends the text of an atom's header: its four fields by name.
pub fn push_header<T: AtomLike>(out: &mut String, atom: &T)
    ensures
        final(out)@ == old(out)@ + header_text(atom.header_view()),
{
    let code: String = atom.atom_type();
    out.append("atom_size: ");
    push_decimal(out, atom.atom_size());
    out.append(", atom_type: ");
    out.append(code.as_str());
    out.append(", atom_location: ");
    push_decimal(out, atom.atom_location());
    out.append(", header_size: ");
    push_decimal(out, atom.header_size() as u64);
}

/// Appends the line of one node, indented by `prefix`.
fn push_line<T: AtomLike>(out: &mut String, atom: &T, prefix: &String, is_last: bool)
    ensures
        final(out)@ == old(out)@ + prefix@ + seq![branch_glyph(is_last), ' '] + header_text(
            atom.header_view(),
        ) + seq!['\n'],
{
    out.append(prefix.as_str());
    out.push(
        if is_last {
            '\u{2517}'
        } else {
            '\u{2523}'
        },
    );
    out.push(' ');
    push_header(out, atom);
    out.push('\n');
}

/// Appends the lines of a node and of all that is below it. `prefix` is the
/// indentation of the node's own line.
fn push_tree(
    out: &mut String,
    node: &AtomNodes,
    prefix: &String,
    Ghost(depth): Ghost<nat>,
    is_last: bool,
)
    requires
        prefix@ == indent(depth),
    ensures
        final(out)@ == old(out)@ + tree_text(node@, depth, is_last),
    decreases node@,
{
    match node {
        AtomNodes::Container(container) => {
            proof {
                AtomNodes::lemma_container_view(*container);
            }
            push_line(out, container, prefix, is_last);
            let mut deeper: String = prefix.clone();
            deeper.append("  ");
            proof {
                reveal_strlit("  ");
            }
            let children: &Vec<AtomNodes> = container.children();
            let ghost views = container@.children;
            let ghost begun = out@;
            let mut i: usize = 0;
            while i < children.len()
                invariant
                    i <= children.len(),
                    deeper@ == indent(depth + 1),
                    views == container@.children,
                    node@ == NodeView::Container(container@),
                    views.len() == children@.len(),
                    forall|j: int| 0 <= j < views.len() ==> views[j] == #[trigger] children@[j]@,
                    out@ + forest_text(views, i as nat, depth + 1) == begun + forest_text(
                        views,
                        0,
                        depth + 1,
                    ),
                decreases children.len() - i,
            {
                assert(decreases_to!(node@ => node@->Container_0.children[i as int]));
                push_tree(out, &children[i], &deeper, Ghost(depth + 1), i + 1 == children.len());
                i = i + 1;
            }
        },
        AtomNodes::Atom(atom) => {
            proof {
                AtomNodes::lemma_leaf_view(*atom);
            }
            push_line(out, atom, prefix, is_last);
        },
    }
}

/// The outcome of parsing a source: the root of the tree, or the error that
/// ended the parse.
#[derive(Debug)]
pub struct ParseResults {
    results: Result<AtomNodes, ParseError>,
}

impl View for ParseResults {
    type V = Result<NodeView, ErrorView>;

    closed spec fn view(&self) -> Result<NodeView, ErrorView> {
        result_view(self.results)
    }
}

impl Default for ParseResults {
    /// The outcome of no parse at all: the error that names no container.
    fn default() -> (results: ParseResults)
        ensures
            results@ == Err::<NodeView, ErrorView>(ErrorView::NotAContainer),
    {
        ParseResults { results: Err(ParseError::NotAContainer) }
    }
}

impl ParseResults {
    /// Wraps the outcome of decoding the root.
    pub fn new(root: Result<AtomNodes, ParseError>) -> (results: ParseResults)
        ensures
            results@ == result_view(root),
    {
        ParseResults { results: root }
    }

    /// The outcome itself.
    pub fn result(&self) -> (result: &Result<AtomNodes, ParseError>)
        ensures
            result_view(*result) == self@,
    {
        &self.results
    }

    /// The root of the tree of a parse that succeeded.
    pub fn nodes(&self) -> (root: &AtomNodes)
        requires
            self@ is Ok,
        ensures
            self@ == Ok::<NodeView, ErrorView>(root@),
    {
        match &self.results {
            Ok(root) => root,
            Err(_) => vstd::pervasive::unreached(),
        }
    }

    /// The outcome as text: one line for each node of the tree, parents
    /// before children and children in file order, or the one line of the
    /// error.
    pub fn to_text(&self) -> (text: String)
        ensures
            text@ == results_text(self@),
    {
        let mut text: String = String::new();
        match &self.results {
            Ok(root) => {
                let prefix: String = String::new();
                assert(prefix@ =~= indent(0));
                push_tree(&mut text, root, &prefix, Ghost(0), true);
            },
            Err(error) => {
                let description: String = error.to_text();
                text.append(description.as_str());
                text.push('\n');
            },
        }
        text
    }
}

/// What a [`Parser`] is to a contract: the name and the bytes of its file.
pub struct ParserView {
    pub filename: Seq<char>,
    pub bytes: Seq<u8>,
}

/// What making a parser yields: the parser, or, for fewer bytes than one
/// header takes, the error that says that the size is not valid.
pub open spec fn parser_of(filename: Seq<char>, contents: Seq<u8>) -> Result<
    ParserView,
    ErrorView,
> {
    if contents.len() >= MIN_FILE_READ {
        Ok(ParserView { filename, bytes: contents })
    } else {
        Err(ErrorView::NotValidMediaFileSize(bad_size_text()))
    }
}

/// A file that is ready to be parsed: its name and its bytes.
#[derive(Debug)]
pub struct Parser {
    filename: String,
    file: ByteSource,
}

impl View for Parser {
    type V = ParserView;

    closed spec fn view(&self) -> ParserView {
        ParserView { filename: self.filename@, bytes: self.file@.bytes }
    }
}

impl Parser {
    /// A parser for the file named `filename` with the bytes `contents`.
    ///
    /// Fails exactly where the file is too short to hold one atom header.
    pub fn new(filename: &str, contents: Vec<u8>) -> (result: Result<Parser, ParseError>)
        ensures
            result_view(result) == parser_of(filename@, contents@),
    {
        if contents.len() as u64 >= MIN_FILE_READ {
            Ok(Parser { filename: String::from_str(filename), file: ByteSource::new(contents) })
        } else {
            Err(ParseError::bad_size())
        }
    }

    /// The name of the file.
    pub fn filename(&self) -> (filename: &str)
        ensures
            filename@ == self@.filename,
    {
        self.filename.as_str()
    }

    /// The number of bytes in the file.
    pub fn file_size(&self) -> (size: u64)
        ensures
            size == self@.bytes.len(),
    {
        self.file.len()
    }

    /// The header of the root atom: the one that stands for the whole file.
    pub fn root_header(&self) -> (header: AtomHeader)
        ensures
            header@ == root_header(self@.bytes.len()),
    {
        AtomHeader::root(self.file.len())
    }

    /// Parses the file from its first byte: makes the root, and decodes with
    /// it every atom below. This never fails: what cannot be decoded is left
    /// out of the tree. The bytes stay as they are, so that parsing again
    /// gives the same tree.
    pub fn parse(&mut self) -> (results: ParseResults)
        ensures
            final(self)@ == old(self)@,
            results@ == parse_of(old(self)@.bytes),
            results@ == parse_of(final(self)@.bytes),
            results@ matches Ok(NodeView::Container(root)) && root.kind == ContainerKind::Root
                && root.header == root_header(old(self)@.bytes.len()),
    {
        self.file.seek(0);
        let header: AtomHeader = self.root_header();
        match RootAtom::new(header, &mut self.file) {
            Ok(root) => {
                let container: ContainerAtoms = ContainerAtoms::Root(root);
                proof {
                    AtomNodes::lemma_container_view(container);
                }
                ParseResults::new(Ok(AtomNodes::Container(container)))
            },
            Err(error) => ParseResults::new(Err(error)),
        }
    }
}

impl AtomLike for Parser {
    open spec fn header_view(&self) -> HeaderView {
        root_header(self@.bytes.len())
    }

    fn atom_size(&self) -> (size: u64) {
        self.file_size()
    }

    fn atom_type(&self) -> (text: String) {
        code_string(&self.root_header().type_code())
    }

    fn atom_location(&self) -> (location: u64) {
        0
    }

    fn header_size(&self) -> (header_size: u32) {
        0
    }
}

} // verus!
