//! What holds of every decoded tree: children lie inside their parents, in
//! file order, and a child that fails to decode takes no sibling with it.

use crate::atoms::leaves::{is_known_leaf, LeafView};
use crate::atoms::tree::{
    container_atom_of, container_of, is_container_kind, node_of, nodes_in, room, ContainerKind,
    ContainerView, NodeView,
};
use crate::atoms::{child_headers, header_at, lemma_first_child, root_header, HeaderView, MOOV};
use crate::error::ErrorView;
use vstd::prelude::*;

verus! {

/// Whether the nodes of `nodes` lie between the offsets `position` and `end`
/// and follow one another in file order without overlap.
pub open spec fn lie_in_order(nodes: Seq<NodeView>, position: nat, end: nat) -> bool {
    &&& forall|i: int|
        0 <= i < nodes.len() ==> position <= (#[trigger] nodes[i]).header().location
            && nodes[i].header().end() <= end
    &&& forall|i: int, j: int|
        0 <= i < j < nodes.len() ==> (#[trigger] nodes[i]).header().end() <= (
        #[trigger] nodes[j]).header().location
}

/// Whether every child of `container` lies in its payload, between the end
/// of its header and the end of the atom, and the children follow one
/// another in file order without overlap.
pub open spec fn holds_its_children(container: ContainerView) -> bool {
    lie_in_order(container.children, container.header.payload_start(), container.header.end())
}

/// Whether every container in the tree below `node`, and `node` itself where
/// it is one, holds its children.
pub open spec fn well_nested(node: NodeView) -> bool
    decreases node,
{
    match node {
        NodeView::Atom(_) => true,
        NodeView::Container(container) => {
            &&& holds_its_children(container)
            &&& forall|i: int|
                0 <= i < container.children.len() ==> well_nested(#[trigger] container.children[i])
        },
    }
}

/// Whether every node of `nodes` is well nested.
pub open spec fn all_well_nested(nodes: Seq<NodeView>) -> bool {
    forall|i: int| 0 <= i < nodes.len() ==> well_nested(#[trigger] nodes[i])
}

/// The nodes that a run of headers decodes to, from index `from` on: each
/// header that decodes gives its node, each that fails gives nothing.
pub open spec fn decoded(data: Seq<u8>, headers: Seq<HeaderView>, from: nat) -> Seq<NodeView>
    decreases headers.len() - from,
{
    if from >= headers.len() {
        Seq::empty()
    } else {
        match node_of(data, headers[from as int]) {
            Ok(node) => seq![node] + decoded(data, headers, from + 1),
            Err(_) => decoded(data, headers, from + 1),
        }
    }
}

/// A node that decodes has the header that it was decoded for.
pub proof fn lemma_node_keeps_header(data: Seq<u8>, header: HeaderView)
    ensures
        node_of(data, header) matches Ok(node) ==> node.header() == header,
{
}

/// An atom whose type code names neither a container nor a known leaf
/// decodes without fail, to the unknown leaf that keeps its header and
/// nothing else, whatever its bytes are. So does an atom of a file that
/// bears the name of the root.
pub proof fn lemma_unknown_kind_decodes(data: Seq<u8>, header: HeaderView)
    requires
        !is_container_kind(header.kind()),
        !is_known_leaf(header.kind()),
    ensures
        node_of(data, header) == Ok::<NodeView, ErrorView>(
            NodeView::Atom(LeafView::Unknown(header)),
        ),
{
}

/// An atom of a file that bears the name `root` is no container: it decodes
/// to the unknown leaf, as every atom of an unknown kind does.
pub proof fn lemma_root_name_in_a_file_is_a_leaf(data: Seq<u8>, header: HeaderView)
    requires
        header.type_code == root_header(header.size).type_code,
    ensures
        node_of(data, header) == Ok::<NodeView, ErrorView>(
            NodeView::Atom(LeafView::Unknown(header)),
        ),
        container_atom_of(data, header) == Err::<ContainerView, ErrorView>(
            ErrorView::NotAContainer,
        ),
{
}

/// A container whose size is that of its header alone has no children.
pub proof fn lemma_empty_container(data: Seq<u8>, header: HeaderView, kind: ContainerKind)
    requires
        header.size <= header.header_size,
    ensures
        container_of(data, header, kind).children == Seq::<NodeView>::empty(),
{
}

/// A container is decoded for the type code `moov` and for no other: every
/// other code gives the error that says that it names no container, and the
/// node of such a header is a leaf.
pub proof fn lemma_moov_alone_is_a_container(data: Seq<u8>, header: HeaderView)
    ensures
        container_atom_of(data, header) is Ok <==> header.kind() == MOOV,
        header.kind() != MOOV ==> container_atom_of(data, header) == Err::<
            ContainerView,
            ErrorView,
        >(ErrorView::NotAContainer),
        node_of(data, header) matches Ok(node) ==> (node is Container <==> header.kind() == MOOV),
{
}

/// The children of a container are the atoms of its payload that decode,
/// in file order: a child that fails to decode is left out, and every one
/// of its siblings that decodes is there all the same.
pub proof fn lemma_children_are_the_atoms_that_decode(data: Seq<u8>, position: nat, end: nat)
    ensures
        nodes_in(data, position, end) == decoded(data, child_headers(data, position, end), 0),
    decreases room(position, end),
{
    let headers = child_headers(data, position, end);
    if headers.len() > 0 {
        lemma_first_child(data, position, end);
        let first = headers[0];
        let rest = child_headers(data, first.end(), end);
        lemma_children_are_the_atoms_that_decode(data, first.end(), end);
        lemma_decoded_after_first(data, first, rest, 0);
    }
}

/// Decoding a run of headers from its second header on is decoding the
/// run without its first header.
proof fn lemma_decoded_after_first(
    data: Seq<u8>,
    first: HeaderView,
    rest: Seq<HeaderView>,
    from: nat,
)
    ensures
        decoded(data, seq![first] + rest, from + 1) == decoded(data, rest, from),
    decreases rest.len() - from,
{
    if from < rest.len() {
        lemma_decoded_after_first(data, first, rest, from + 1);
    }
}

/// The nodes decoded between two offsets lie between them, in file order
/// and without overlap, and each of them is well nested.
pub proof fn lemma_nodes_lie_in_order(data: Seq<u8>, position: nat, end: nat)
    ensures
        lie_in_order(nodes_in(data, position, end), position, end),
        all_well_nested(nodes_in(data, position, end)),
    decreases room(position, end), 0nat,
{
    if position < end {
        match header_at(data, position) {
            None => {},
            Some(header) => {
                if header.covers_header() && header.end() <= end {
                    lemma_nodes_lie_in_order(data, header.end(), end);
                    lemma_decoded_tree_is_nested(data, header);
                    lemma_node_keeps_header(data, header);
                }
            },
        }
    }
}

/// Every child of a decoded container ends at or before the end of its
/// parent and begins after the parent's header, none overlaps the next, and
/// the same holds of every container below: a decoded tree is well nested.
pub proof fn lemma_decoded_tree_is_nested(data: Seq<u8>, header: HeaderView)
    ensures
        holds_its_children(container_of(data, header, ContainerKind::Moov)),
        holds_its_children(container_of(data, header, ContainerKind::Root)),
        well_nested(NodeView::Container(container_of(data, header, ContainerKind::Moov))),
        well_nested(NodeView::Container(container_of(data, header, ContainerKind::Root))),
        node_of(data, header) matches Ok(node) ==> well_nested(node),
    decreases header.payload_len(), 2nat,
{
    lemma_nodes_lie_in_order(data, header.payload_start(), header.end());
}

} // verus!
