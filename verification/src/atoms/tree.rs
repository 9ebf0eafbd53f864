//! The tree that a source decodes to, as contracts see it: which nodes the
//! bytes of a source stand for, and the text of a node.

use crate::atoms::leaves::{leaf_of, leaf_text, LeafView};
use crate::atoms::{header_at, header_text, HeaderView, MOOV};
use crate::error::ErrorView;
use vstd::prelude::*;

verus! {

/// The kinds of container.
pub enum ContainerKind {
    Moov,
    Root,
}

/// What a container atom is to a contract: its kind, its header and its
/// children in file order.
pub struct ContainerView {
    pub kind: ContainerKind,
    pub header: HeaderView,
    pub children: Seq<NodeView>,
}

/// What a node of the tree is to a contract.
pub enum NodeView {
    Container(ContainerView),
    Atom(LeafView),
}

impl NodeView {
    /// The header of the node.
    pub open spec fn header(self) -> HeaderView {
        match self {
            NodeView::Container(container) => container.header,
            NodeView::Atom(leaf) => leaf.header(),
        }
    }
}

/// Whether `kind` is the type code of a container. The movie atom `moov`
/// is the only one: the root of a whole source is no atom of a file, and an
/// atom in a file that bears its name is a leaf like any other.
pub open spec fn is_container_kind(kind: nat) -> bool {
    kind == MOOV
}

/// The number of bytes from `position` up to `end`, zero where `position`
/// lies at or past `end`.
pub open spec fn room(position: nat, end: nat) -> nat {
    if position < end {
        (end - position) as nat
    } else {
        0
    }
}

/// The nodes that the atoms from offset `position` up to offset `end`
/// decode to, in file order.
///
/// Each atom is read where the one before it ends, and the run stops as
/// the run of child headers does: at `end`, and before an atom whose header
/// cannot be read, that is shorter than its own header or that would reach
/// past `end`. An atom that fails to decode is left out; those after it are
/// decoded all the same.
pub open spec fn nodes_in(data: Seq<u8>, position: nat, end: nat) -> Seq<NodeView>
    decreases room(position, end), 0nat,
{
    if position >= end {
        Seq::empty()
    } else {
        match header_at(data, position) {
            None => Seq::empty(),
            Some(header) => if !header.covers_header() || header.end() > end {
                Seq::empty()
            } else {
                match node_of(data, header) {
                    Ok(node) => seq![node] + nodes_in(data, header.end(), end),
                    Err(_) => nodes_in(data, header.end(), end),
                }
            },
        }
    }
}

/// The container of the kind `kind` that `header` describes in `data`: its
/// children are the nodes between the end of its header and the end of the
/// atom. A container without room for a child has none.
pub open spec fn container_of(
    data: Seq<u8>,
    header: HeaderView,
    kind: ContainerKind,
) -> ContainerView
    decreases header.payload_len(), 1nat,
{
    ContainerView { kind, header, children: nodes_in(data, header.payload_start(), header.end()) }
}

/// The node that `header` describes in `data`: the movie atom, a container,
/// where the type code names it, and a leaf otherwise. Only a leaf can fail
/// to decode.
pub open spec fn node_of(data: Seq<u8>, header: HeaderView) -> Result<NodeView, ErrorView>
    decreases header.payload_len(), 2nat,
{
    if is_container_kind(header.kind()) {
        Ok(NodeView::Container(container_of(data, header, ContainerKind::Moov)))
    } else {
        match leaf_of(data, header) {
            Ok(leaf) => Ok(NodeView::Atom(leaf)),
            Err(error) => Err(error),
        }
    }
}

/// What decoding a container yields for `header`: the movie atom where the
/// type code names it, and otherwise the error that says that the code names
/// no container.
pub open spec fn container_atom_of(data: Seq<u8>, header: HeaderView) -> Result<
    ContainerView,
    ErrorView,
> {
    if is_container_kind(header.kind()) {
        Ok(container_of(data, header, ContainerKind::Moov))
    } else {
        Err(ErrorView::NotAContainer)
    }
}

/// The label that begins the text of a container.
pub open spec fn container_label(kind: ContainerKind) -> Seq<char> {
    match kind {
        ContainerKind::Moov => "Moov: "@,
        ContainerKind::Root => "Root: "@,
    }
}

/// The line of a container itself: its label and the header's fields.
pub open spec fn container_line(container: ContainerView) -> Seq<char> {
    container_label(container.kind) + header_text(container.header)
}

/// The mark before a child in the text of its container: one for the last
/// child, another for a child with siblings after it.
pub open spec fn child_glyph(is_last: bool) -> char {
    if is_last {
        '\u{2517}'
    } else {
        '\u{251C}'
    }
}

/// The text of a node: that of the container or that of the leaf.
pub open spec fn node_text(node: NodeView) -> Seq<char>
    decreases node, 0nat,
{
    match node {
        NodeView::Container(container) => container_text(container),
        NodeView::Atom(leaf) => leaf_text(leaf),
    }
}

/// The text of a container: its own line, then for each child a line that
/// begins with the child's mark and holds the child's text.
pub open spec fn container_text(container: ContainerView) -> Seq<char>
    decreases container, 0nat,
{
    container_line(container) + seq!['\n'] + child_lines(container.children, 0)
}

/// The lines of the children of `children` from index `from` on.
pub open spec fn child_lines(children: Seq<NodeView>, from: nat) -> Seq<char>
    decreases children, children.len() - from,
{
    if from >= children.len() {
        Seq::empty()
    } else {
        seq![child_glyph(from + 1 == children.len()), ' '] + node_text(children[from as int])
            + seq!['\n'] + child_lines(children, from + 1)
    }
}

} // verus!
