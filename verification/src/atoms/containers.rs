//! Container atoms, whose payload is a run of further atoms, and the nodes
//! of the tree.

use crate::atoms::leaves::Atoms;
use crate::atoms::tree::{
    child_lines, container_atom_of, container_line, container_of, container_text, node_of,
    node_text, nodes_in, ContainerKind, ContainerView, NodeView,
};
use crate::atoms::{
    child_headers, header_views, lemma_first_child, zero_header, AtomHeader, AtomLike,
    HeaderView, MOOV,
};
use crate::error::{result_view, ParseError};
use crate::source::ByteSource;
use vstd::prelude::*;
use vstd::string::*;

verus! {

/// A node of the tree: a container with its children, or a leaf.
#[derive(Debug)]
pub enum AtomNodes {
    Container(ContainerAtoms),
    Atom(Atoms),
}

/// A container atom: the movie atom, which is read from a file, or the
/// root, which the parser makes for a whole source.
#[derive(Debug)]
pub enum ContainerAtoms {
    Moov(MoovAtom),
    Root(RootAtom),
}

/// The view of a node, by recursion over the tree.
pub closed spec fn node_view(node: AtomNodes) -> NodeView
    decreases node,
{
    match node {
        AtomNodes::Container(ContainerAtoms::Moov(atom)) => NodeView::Container(
            ContainerView {
                kind: ContainerKind::Moov,
                header: atom.atom_header@,
                children: Seq::new(
                    atom.children.len() as nat,
                    |i: int|
                        if 0 <= i < atom.children.len() {
                            node_view(atom.children[i])
                        } else {
                            arbitrary()
                        },
                ),
            },
        ),
        AtomNodes::Container(ContainerAtoms::Root(atom)) => NodeView::Container(
            ContainerView {
                kind: ContainerKind::Root,
                header: atom.atom_header@,
                children: Seq::new(
                    atom.children.len() as nat,
                    |i: int|
                        if 0 <= i < atom.children.len() {
                            node_view(atom.children[i])
                        } else {
                            arbitrary()
                        },
                ),
            },
        ),
        AtomNodes::Atom(atom) => NodeView::Atom(atom@),
    }
}

/// The views of a run of nodes.
pub open spec fn node_views(nodes: Seq<AtomNodes>) -> Seq<NodeView> {
    Seq::new(nodes.len(), |i: int| nodes[i]@)
}

impl View for AtomNodes {
    type V = NodeView;

    closed spec fn view(&self) -> NodeView {
        node_view(*self)
    }
}

impl View for ContainerAtoms {
    type V = ContainerView;

    open spec fn view(&self) -> ContainerView {
        match self {
            ContainerAtoms::Moov(atom) => atom@,
            ContainerAtoms::Root(atom) => atom@,
        }
    }
}

/// An atom that holds further atoms.
pub trait Container {
    /// The children of the container, in file order.
    spec fn children_view(&self) -> Seq<NodeView>;

    /// The children of the container, in file order.
    fn children(&self) -> (children: &Vec<AtomNodes>)
        ensures
            node_views(children@) == self.children_view(),
    ;
}

/// The `moov` atom: the container of everything that describes the movie.
#[derive(Debug)]
pub struct MoovAtom {
    atom_header: AtomHeader,
    children: Vec<AtomNodes>,
}

impl View for MoovAtom {
    type V = ContainerView;

    closed spec fn view(&self) -> ContainerView {
        ContainerView {
            kind: ContainerKind::Moov,
            header: self.atom_header@,
            children: node_views(self.children@),
        }
    }
}

impl Clone for MoovAtom {
    /// A copy with the same header and copies of the children.
    fn clone(&self) -> (copy: MoovAtom)
        ensures
            copy@ == self@,
        decreases self@, 0nat,
    {
        let mut children: Vec<AtomNodes> = Vec::new();
        let mut i: usize = 0;
        while i < self.children.len()
            invariant
                i <= self.children.len(),
                node_views(children@) == node_views(self.children@).subrange(0, i as int),
            decreases self.children.len() - i,
        {
            let ghost before = children@;
            assert(decreases_to!(self@ => self@.children[i as int]));
            let child: AtomNodes = self.children[i].clone();
            children.push(child);
            assert(node_views(children@) =~= node_views(before).push(child@));
            i = i + 1;
        }
        assert(node_views(children@) =~= node_views(self.children@));
        MoovAtom { atom_header: self.atom_header, children }
    }
}

impl Default for MoovAtom {
    /// The container with the header whose every field is zero, and without
    /// children.
    fn default() -> (atom: MoovAtom)
        ensures
            atom@ == (ContainerView {
                kind: ContainerKind::Moov,
                header: zero_header(),
                children: Seq::empty(),
            }),
    {
        let atom = MoovAtom { atom_header: AtomHeader::default(), children: Vec::new() };
        assert(node_views(atom.children@) =~= Seq::empty());
        atom
    }
}

impl MoovAtom {
    /// Whatever its header says, this container is of the kind of the
    /// movie atom.
    pub proof fn lemma_kind(self)
        ensures
            self@.kind == ContainerKind::Moov,
    {
    }

    /// Decodes the movie atom that `atom_header` describes: every atom in its
    /// payload that can be decoded becomes a child. Never fails. The cursor is
    /// left where it was.
    pub fn new(atom_header: AtomHeader, file: &mut ByteSource) -> (result: Result<
        MoovAtom,
        ParseError,
    >)
        ensures
            final(file)@ == old(file)@,
            result matches Ok(atom) && atom@ == container_of(
                old(file)@.bytes,
                atom_header@,
                ContainerKind::Moov,
            ),
        decreases atom_header@.payload_len(), 1nat,
    {
        match AtomNodes::parse_children(atom_header, file) {
            Ok(children) => Ok(MoovAtom { atom_header, children }),
            Err(error) => Err(error),
        }
    }

    /// The line of the container itself: its label and the header's fields.
    pub fn to_text(&self) -> (text: String)
        ensures
            text@ == container_line(self@),
    {
        let mut text: String = String::from_str("Moov: ");
        let header: String = self.atom_header.to_text();
        text.append(header.as_str());
        text
    }
}

impl Container for MoovAtom {
    open spec fn children_view(&self) -> Seq<NodeView> {
        self@.children
    }

    fn children(&self) -> (children: &Vec<AtomNodes>) {
        &self.children
    }
}

impl AtomLike for MoovAtom {
    open spec fn header_view(&self) -> HeaderView {
        self@.header
    }

    fn atom_size(&self) -> (size: u64) {
        self.atom_header.atom_size()
    }

    fn atom_type(&self) -> (text: String) {
        self.atom_header.atom_type()
    }

    fn atom_location(&self) -> (location: u64) {
        self.atom_header.atom_location()
    }

    fn header_size(&self) -> (header_size: u32) {
        self.atom_header.header_size()
    }
}

/// The root: the container that stands for a whole source. Its children are
/// the atoms at the top level of the file. No type code read from a file
/// gives it; the parser makes it.
#[derive(Debug)]
pub struct RootAtom {
    atom_header: AtomHeader,
    children: Vec<AtomNodes>,
}

impl View for RootAtom {
    type V = ContainerView;

    closed spec fn view(&self) -> ContainerView {
        ContainerView {
            kind: ContainerKind::Root,
            header: self.atom_header@,
            children: node_views(self.children@),
        }
    }
}

impl Clone for RootAtom {
    /// A copy with the same header and copies of the children.
    fn clone(&self) -> (copy: RootAtom)
        ensures
            copy@ == self@,
        decreases self@, 0nat,
    {
        let mut children: Vec<AtomNodes> = Vec::new();
        let mut i: usize = 0;
        while i < self.children.len()
            invariant
                i <= self.children.len(),
                node_views(children@) == node_views(self.children@).subrange(0, i as int),
            decreases self.children.len() - i,
        {
            let ghost before = children@;
            assert(decreases_to!(self@ => self@.children[i as int]));
            let child: AtomNodes = self.children[i].clone();
            children.push(child);
            assert(node_views(children@) =~= node_views(before).push(child@));
            i = i + 1;
        }
        assert(node_views(children@) =~= node_views(self.children@));
        RootAtom { atom_header: self.atom_header, children }
    }
}

impl Default for RootAtom {
    /// The container with the header whose every field is zero, and without
    /// children.
    fn default() -> (atom: RootAtom)
        ensures
            atom@ == (ContainerView {
                kind: ContainerKind::Root,
                header: zero_header(),
                children: Seq::empty(),
            }),
    {
        let atom = RootAtom { atom_header: AtomHeader::default(), children: Vec::new() };
        assert(node_views(atom.children@) =~= Seq::empty());
        atom
    }
}

impl RootAtom {
    /// Whatever its header says, this container is of the kind of the
    /// root.
    pub proof fn lemma_kind(self)
        ensures
            self@.kind == ContainerKind::Root,
    {
    }

    /// Decodes the root that `atom_header` describes: every atom in its
    /// payload that can be decoded becomes a child. Never fails. The cursor is
    /// left where it was.
    pub fn new(atom_header: AtomHeader, file: &mut ByteSource) -> (result: Result<
        RootAtom,
        ParseError,
    >)
        ensures
            final(file)@ == old(file)@,
            result matches Ok(atom) && atom@ == container_of(
                old(file)@.bytes,
                atom_header@,
                ContainerKind::Root,
            ),
        decreases atom_header@.payload_len(), 1nat,
    {
        match AtomNodes::parse_children(atom_header, file) {
            Ok(children) => Ok(RootAtom { atom_header, children }),
            Err(error) => Err(error),
        }
    }

    /// The line of the container itself: its label and the header's fields.
    pub fn to_text(&self) -> (text: String)
        ensures
            text@ == container_line(self@),
    {
        let mut text: String = String::from_str("Root: ");
        let header: String = self.atom_header.to_text();
        text.append(header.as_str());
        text
    }
}

impl Container for RootAtom {
    open spec fn children_view(&self) -> Seq<NodeView> {
        self@.children
    }

    fn children(&self) -> (children: &Vec<AtomNodes>) {
        &self.children
    }
}

impl AtomLike for RootAtom {
    open spec fn header_view(&self) -> HeaderView {
        self@.header
    }

    fn atom_size(&self) -> (size: u64) {
        self.atom_header.atom_size()
    }

    fn atom_type(&self) -> (text: String) {
        self.atom_header.atom_type()
    }

    fn atom_location(&self) -> (location: u64) {
        self.atom_header.atom_location()
    }

    fn header_size(&self) -> (header_size: u32) {
        self.atom_header.header_size()
    }
}

impl Clone for ContainerAtoms {
    /// A copy of the same kind with the same header and copies of the
    /// children.
    fn clone(&self) -> (copy: ContainerAtoms)
        ensures
            copy@ == self@,
        decreases self@, 1nat,
    {
        match self {
            ContainerAtoms::Moov(atom) => ContainerAtoms::Moov(atom.clone()),
            ContainerAtoms::Root(atom) => ContainerAtoms::Root(atom.clone()),
        }
    }
}

impl Clone for AtomNodes {
    /// A copy of the whole tree below the node.
    fn clone(&self) -> (copy: AtomNodes)
        ensures
            copy@ == self@,
        decreases self@, 0nat,
    {
        match self {
            AtomNodes::Container(container) => {
                proof {
                    AtomNodes::lemma_container_view(*container);
                    assert(decreases_to!(self@ => self@->Container_0));
                }
                let copy: ContainerAtoms = container.clone();
                proof {
                    AtomNodes::lemma_container_view(copy);
                }
                AtomNodes::Container(copy)
            },
            AtomNodes::Atom(atom) => AtomNodes::Atom(atom.clone()),
        }
    }
}

impl ContainerAtoms {
    /// Decodes the container that `atom_header` describes: the movie atom
    /// where the type code is `moov`. The cursor is left where it was.
    ///
    /// Fails for every other type code, and then reads nothing.
    pub fn new(atom_header: AtomHeader, file: &mut ByteSource) -> (result: Result<
        ContainerAtoms,
        ParseError,
    >)
        ensures
            final(file)@ == old(file)@,
            result_view(result) == container_atom_of(old(file)@.bytes, atom_header@),
            result matches Ok(container) ==> container is Moov,
        decreases atom_header@.payload_len(), 2nat,
    {
        if atom_header.kind() == MOOV {
            match MoovAtom::new(atom_header, file) {
                Ok(atom) => Ok(ContainerAtoms::Moov(atom)),
                Err(error) => Err(error),
            }
        } else {
            Err(ParseError::NotAContainer)
        }
    }

    /// Appends the text of the container and of all that is below it.
    fn push_text(&self, out: &mut String)
        ensures
            final(out)@ == old(out)@ + container_text(self@),
        decreases self@, 0nat,
    {
        let line: String = match self {
            ContainerAtoms::Moov(atom) => atom.to_text(),
            ContainerAtoms::Root(atom) => atom.to_text(),
        };
        out.append(line.as_str());
        out.push('\n');
        let children: &Vec<AtomNodes> = self.children();
        let ghost views = self@.children;
        let ghost begun = out@;
        let mut i: usize = 0;
        while i < children.len()
            invariant
                i <= children.len(),
                views == self@.children,
                views == node_views(children@),
                out@ + child_lines(views, i as nat) == begun + child_lines(views, 0),
            decreases children.len() - i,
        {
            out.push(
                if i + 1 == children.len() {
                    '\u{2517}'
                } else {
                    '\u{251C}'
                },
            );
            out.push(' ');
            children[i].push_text(out);
            out.push('\n');
            i = i + 1;
        }
    }

    /// The text of the container and of all that is below it: the
    /// container's own line, then one line for each child, marked as the last
    /// or as one with siblings after it.
    pub fn to_text(&self) -> (text: String)
        ensures
            text@ == container_text(self@),
    {
        let mut text: String = String::new();
        self.push_text(&mut text);
        text
    }
}

impl AtomLike for ContainerAtoms {
    open spec fn header_view(&self) -> HeaderView {
        self@.header
    }

    fn atom_size(&self) -> (size: u64) {
        match self {
            ContainerAtoms::Moov(atom) => atom.atom_size(),
            ContainerAtoms::Root(atom) => atom.atom_size(),
        }
    }

    fn atom_type(&self) -> (text: String) {
        match self {
            ContainerAtoms::Moov(atom) => atom.atom_type(),
            ContainerAtoms::Root(atom) => atom.atom_type(),
        }
    }

    fn atom_location(&self) -> (location: u64) {
        match self {
            ContainerAtoms::Moov(atom) => atom.atom_location(),
            ContainerAtoms::Root(atom) => atom.atom_location(),
        }
    }

    fn header_size(&self) -> (header_size: u32) {
        match self {
            ContainerAtoms::Moov(atom) => atom.header_size(),
            ContainerAtoms::Root(atom) => atom.header_size(),
        }
    }
}

impl Container for ContainerAtoms {
    open spec fn children_view(&self) -> Seq<NodeView> {
        self@.children
    }

    fn children(&self) -> (children: &Vec<AtomNodes>) {
        match self {
            ContainerAtoms::Moov(atom) => atom.children(),
            ContainerAtoms::Root(atom) => atom.children(),
        }
    }
}

impl AtomNodes {
    /// The view of a container node is the view of the container in it.
    pub proof fn lemma_container_view(container: ContainerAtoms)
        ensures
            AtomNodes::Container(container)@ == NodeView::Container(container@),
    {
        let node = AtomNodes::Container(container);
        match container {
            ContainerAtoms::Moov(atom) => {
                assert(node@->Container_0.children =~= node_views(atom.children@));
            },
            ContainerAtoms::Root(atom) => {
                assert(node@->Container_0.children =~= node_views(atom.children@));
            },
        }
    }

    /// The view of a leaf node is the view of the leaf in it.
    pub proof fn lemma_leaf_view(atom: Atoms)
        ensures
            AtomNodes::Atom(atom)@ == NodeView::Atom(atom@),
    {
    }

    /// Decodes the node that `atom_header` describes: the movie atom, a
    /// container, where the type code is `moov`, and a leaf otherwise. The
    /// cursor is left where it was.
    ///
    /// Fails only where a leaf of a known kind fails to decode.
    pub fn new(atom_header: AtomHeader, file: &mut ByteSource) -> (result: Result<
        AtomNodes,
        ParseError,
    >)
        ensures
            final(file)@ == old(file)@,
            result_view(result) == node_of(old(file)@.bytes, atom_header@),
        decreases atom_header@.payload_len(), 3nat,
    {
        match ContainerAtoms::new(atom_header, file) {
            Ok(container) => {
                proof {
                    AtomNodes::lemma_container_view(container);
                }
                Ok(AtomNodes::Container(container))
            },
            Err(_) => match Atoms::new(atom_header, file) {
                Ok(atom) => Ok(AtomNodes::Atom(atom)),
                Err(error) => Err(error),
            },
        }
    }

    /// Whether the node is a container.
    pub fn is_container(&self) -> (container: bool)
        ensures
            container == (self@ is Container),
    {
        match self {
            AtomNodes::Container(container) => {
                proof {
                    AtomNodes::lemma_container_view(*container);
                }
                true
            },
            AtomNodes::Atom(_) => false,
        }
    }

    /// Decodes the atoms in the payload of the container that
    /// `container_header` describes, in file order. A child that fails to
    /// decode is left out; its siblings are kept. Never fails. The cursor is
    /// left where it was.
    pub fn parse_children(container_header: AtomHeader, file: &mut ByteSource) -> (result: Result<
        Vec<AtomNodes>,
        ParseError,
    >)
        ensures
            final(file)@ == old(file)@,
            result matches Ok(children) && node_views(children@) == nodes_in(
                old(file)@.bytes,
                container_header@.payload_start(),
                container_header@.end(),
            ),
        decreases container_header@.payload_len(), 0nat,
    {
        let ghost data = file@.bytes;
        let ghost start = container_header@.payload_start();
        let ghost end = container_header@.end();
        let headers: Vec<AtomHeader> = match container_header.parse_children(file) {
            Ok(headers) => headers,
            Err(error) => {
                return Err(error);
            },
        };
        let mut children: Vec<AtomNodes> = Vec::new();
        let ghost mut position: nat = start;
        let mut i: usize = 0;
        while i < headers.len()
            invariant
                i <= headers.len(),
                file@ == old(file)@,
                data == file@.bytes,
                start == container_header@.payload_start(),
                end == container_header@.end(),
                start <= position,
                child_headers(data, position, end) == header_views(headers@).subrange(
                    i as int,
                    headers@.len() as int,
                ),
                node_views(children@) + nodes_in(data, position, end) == nodes_in(
                    data,
                    start,
                    end,
                ),
            decreases headers.len() - i,
        {
            let child: AtomHeader = headers[i];
            let ghost rest = header_views(headers@).subrange(i as int, headers@.len() as int);
            proof {
                lemma_first_child(data, position, end);
            }
            assert(rest.subrange(1, rest.len() as int) =~= header_views(headers@).subrange(
                i + 1,
                headers@.len() as int,
            ));
            match AtomNodes::new(child, file) {
                Ok(node) => {
                    children.push(node);
                },
                Err(_) => {},
            }
            proof {
                position = child@.end();
            }
            i = i + 1;
        }
        Ok(children)
    }

    /// Appends the text of the node and of all that is below it.
    fn push_text(&self, out: &mut String)
        ensures
            final(out)@ == old(out)@ + node_text(self@),
        decreases self@, 0nat,
    {
        match self {
            AtomNodes::Container(container) => {
                proof {
                    AtomNodes::lemma_container_view(*container);
                }
                container.push_text(out);
            },
            AtomNodes::Atom(atom) => {
                let text: String = atom.to_text();
                out.append(text.as_str());
            },
        }
    }

    /// The text of the node: that of the container or that of the leaf in it.
    pub fn to_text(&self) -> (text: String)
        ensures
            text@ == node_text(self@),
    {
        let mut text: String = String::new();
        self.push_text(&mut text);
        text
    }
}

impl AtomLike for AtomNodes {
    open spec fn header_view(&self) -> HeaderView {
        self@.header()
    }

    fn atom_size(&self) -> (size: u64) {
        match self {
            AtomNodes::Container(atom) => {
                proof {
                    AtomNodes::lemma_container_view(*atom);
                }
                atom.atom_size()
            },
            AtomNodes::Atom(atom) => atom.atom_size(),
        }
    }

    fn atom_type(&self) -> (text: String) {
        match self {
            AtomNodes::Container(atom) => {
                proof {
                    AtomNodes::lemma_container_view(*atom);
                }
                atom.atom_type()
            },
            AtomNodes::Atom(atom) => atom.atom_type(),
        }
    }

    fn atom_location(&self) -> (location: u64) {
        match self {
            AtomNodes::Container(atom) => {
                proof {
                    AtomNodes::lemma_container_view(*atom);
                }
                atom.atom_location()
            },
            AtomNodes::Atom(atom) => atom.atom_location(),
        }
    }

    fn header_size(&self) -> (header_size: u32) {
        match self {
            AtomNodes::Container(atom) => {
                proof {
                    AtomNodes::lemma_container_view(*atom);
                }
                atom.header_size()
            },
            AtomNodes::Atom(atom) => atom.header_size(),
        }
    }
}

} // verus!
