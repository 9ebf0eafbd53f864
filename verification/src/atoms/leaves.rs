//! Leaf atoms: those whose payload is data of their own kind, not further
//! atoms.

use crate::atoms::ftyp::{ftyp_of, ftyp_text, FtypAtom, FtypView};
use crate::atoms::mvhd::{mvhd_of, mvhd_text, MvhdAtom, MvhdView};
use crate::atoms::prfl::{prfl_of, prfl_text, PrflAtom, PrflView};
use crate::atoms::{
    header_text, zero_header, AtomHeader, AtomLike, HeaderView, FREE, FTYP, MDAT, MVHD, PRFL,
    WIDE,
};
use crate::error::{result_view, ErrorView, ParseError};
use crate::source::ByteSource;
use vstd::prelude::*;
use vstd::string::*;

verus! {

/// The `wide` atom: eight bytes kept free so that the atom after it can grow
/// an extended size.
#[derive(Debug, Clone, Copy, PartialEq, Eq)]
pub struct WideAtom {
    atom_header: AtomHeader,
}

impl View for WideAtom {
    type V = HeaderView;

    closed spec fn view(&self) -> HeaderView {
        self.atom_header@
    }
}

impl Default for WideAtom {
    /// The atom with the header whose every field is zero.
    fn default() -> (atom: WideAtom)
        ensures
            atom@ == zero_header(),
    {
        WideAtom { atom_header: AtomHeader::default() }
    }
}

/// The text of a `wide` atom: a label and the header's fields.
pub open spec fn wide_text(header: HeaderView) -> Seq<char> {
    "Wide: "@ + header_text(header)
}

impl WideAtom {
    /// The `wide` atom that `atom_header` describes. Nothing is read: the
    /// header is all there is to know of it.
    pub fn new(atom_header: AtomHeader) -> (result: Result<WideAtom, ParseError>)
        ensures
            result matches Ok(atom) && atom@ == atom_header@,
    {
        Ok(WideAtom { atom_header })
    }

    /// The atom as text.
    pub fn to_text(&self) -> (text: String)
        ensures
            text@ == wide_text(self@),
    {
        let mut text: String = String::from_str("Wide: ");
        let header: String = self.atom_header.to_text();
        text.append(header.as_str());
        text
    }
}

impl AtomLike for WideAtom {
    open spec fn header_view(&self) -> HeaderView {
        self@
    }

    fn atom_size(&self) -> (size: u64) {
        self.atom_header.atom_size()
    }

    fn atom_type(&self) -> (text: String) {
        self.atom_header.atom_type()
    }

    fn atom_location(&self) -> (location: u64) {
        self.atom_header.atom_location()
    }

    fn header_size(&self) -> (header_size: u32) {
        self.atom_header.header_size()
    }
}

/// The `free` atom: room that holds nothing.
#[derive(Debug, Clone, Copy, PartialEq, Eq)]
pub struct FreeAtom {
    atom_header: AtomHeader,
}

impl View for FreeAtom {
    type V = HeaderView;

    closed spec fn view(&self) -> HeaderView {
        self.atom_header@
    }
}

impl Default for FreeAtom {
    /// The atom with the header whose every field is zero.
    fn default() -> (atom: FreeAtom)
        ensures
            atom@ == zero_header(),
    {
        FreeAtom { atom_header: AtomHeader::default() }
    }
}

/// The text of a `free` atom: a label and the header's fields.
pub open spec fn free_text(header: HeaderView) -> Seq<char> {
    "Free: "@ + header_text(header)
}

impl FreeAtom {
    /// The `free` atom that `atom_header` describes. Nothing is read: the
    /// header is all there is to know of it.
    pub fn new(atom_header: AtomHeader) -> (result: Result<FreeAtom, ParseError>)
        ensures
            result matches Ok(atom) && atom@ == atom_header@,
    {
        Ok(FreeAtom { atom_header })
    }

    /// The atom as text.
    pub fn to_text(&self) -> (text: String)
        ensures
            text@ == free_text(self@),
    {
        let mut text: String = String::from_str("Free: ");
        let header: String = self.atom_header.to_text();
        text.append(header.as_str());
        text
    }
}

impl AtomLike for FreeAtom {
    open spec fn header_view(&self) -> HeaderView {
        self@
    }

    fn atom_size(&self) -> (size: u64) {
        self.atom_header.atom_size()
    }

    fn atom_type(&self) -> (text: String) {
        self.atom_header.atom_type()
    }

    fn atom_location(&self) -> (location: u64) {
        self.atom_header.atom_location()
    }

    fn header_size(&self) -> (header_size: u32) {
        self.atom_header.header_size()
    }
}

/// The `mdat` atom: the media data, which is not decoded.
#[derive(Debug, Clone, Copy, PartialEq, Eq)]
pub struct MdatAtom {
    atom_header: AtomHeader,
}

impl View for MdatAtom {
    type V = HeaderView;

    closed spec fn view(&self) -> HeaderView {
        self.atom_header@
    }
}

impl Default for MdatAtom {
    /// The atom with the header whose every field is zero.
    fn default() -> (atom: MdatAtom)
        ensures
            atom@ == zero_header(),
    {
        MdatAtom { atom_header: AtomHeader::default() }
    }
}

/// The text of a `mdat` atom: a label and the header's fields.
pub open spec fn mdat_text(header: HeaderView) -> Seq<char> {
    "mdia: "@ + header_text(header)
}

impl MdatAtom {
    /// The `mdat` atom that `atom_header` describes. Nothing is read: the
    /// header is all there is to know of it.
    pub fn new(atom_header: AtomHeader) -> (result: Result<MdatAtom, ParseError>)
        ensures
            result matches Ok(atom) && atom@ == atom_header@,
    {
        Ok(MdatAtom { atom_header })
    }

    /// The atom as text.
    pub fn to_text(&self) -> (text: String)
        ensures
            text@ == mdat_text(self@),
    {
        let mut text: String = String::from_str("mdia: ");
        let header: String = self.atom_header.to_text();
        text.append(header.as_str());
        text
    }
}

impl AtomLike for MdatAtom {
    open spec fn header_view(&self) -> HeaderView {
        self@
    }

    fn atom_size(&self) -> (size: u64) {
        self.atom_header.atom_size()
    }

    fn atom_type(&self) -> (text: String) {
        self.atom_header.atom_type()
    }

    fn atom_location(&self) -> (location: u64) {
        self.atom_header.atom_location()
    }

    fn header_size(&self) -> (header_size: u32) {
        self.atom_header.header_size()
    }
}

/// What a leaf atom is to a contract: its kind and the fields of that kind.
pub enum LeafView {
    Ftyp(FtypView),
    Free(HeaderView),
    Wide(HeaderView),
    Mdat(HeaderView),
    Mvhd(MvhdView),
    Prfl(PrflView),
    Unknown(HeaderView),
}

impl LeafView {
    /// The header of the leaf.
    pub open spec fn header(self) -> HeaderView {
        match self {
            LeafView::Ftyp(atom) => atom.header,
            LeafView::Free(header) => header,
            LeafView::Wide(header) => header,
            LeafView::Mdat(header) => header,
            LeafView::Mvhd(atom) => atom.header,
            LeafView::Prfl(atom) => atom.header,
            LeafView::Unknown(header) => header,
        }
    }
}

/// Whether `kind` is the type code of a leaf whose fields the library
/// decodes or knows to be none.
pub open spec fn is_known_leaf(kind: nat) -> bool {
    kind == FTYP || kind == FREE || kind == WIDE || kind == MDAT || kind == MVHD || kind == PRFL
}

/// The leaf that `header` describes in `data`. The type code decides the
/// kind; a code that names no known kind gives the unknown leaf, which keeps
/// the header alone and never fails.
pub open spec fn leaf_of(data: Seq<u8>, header: HeaderView) -> Result<LeafView, ErrorView> {
    let kind = header.kind();
    if kind == FTYP {
        match ftyp_of(data, header) {
            Ok(atom) => Ok(LeafView::Ftyp(atom)),
            Err(error) => Err(error),
        }
    } else if kind == FREE {
        Ok(LeafView::Free(header))
    } else if kind == WIDE {
        Ok(LeafView::Wide(header))
    } else if kind == MDAT {
        Ok(LeafView::Mdat(header))
    } else if kind == MVHD {
        match mvhd_of(data, header) {
            Ok(atom) => Ok(LeafView::Mvhd(atom)),
            Err(error) => Err(error),
        }
    } else if kind == PRFL {
        match prfl_of(data, header) {
            Ok(atom) => Ok(LeafView::Prfl(atom)),
            Err(error) => Err(error),
        }
    } else {
        Ok(LeafView::Unknown(header))
    }
}

/// The text of a leaf: that of its kind; for the unknown leaf a label and
/// the header's fields.
pub open spec fn leaf_text(leaf: LeafView) -> Seq<char> {
    match leaf {
        LeafView::Ftyp(atom) => ftyp_text(atom),
        LeafView::Free(header) => free_text(header),
        LeafView::Wide(header) => wide_text(header),
        LeafView::Mdat(header) => mdat_text(header),
        LeafView::Mvhd(atom) => mvhd_text(atom),
        LeafView::Prfl(atom) => prfl_text(atom),
        LeafView::Unknown(header) => "Unknown: "@ + header_text(header),
    }
}

/// A leaf atom of one of the known kinds, or of an unknown one.
#[derive(Debug)]
pub enum Atoms {
    Ftyp(FtypAtom),
    Free(FreeAtom),
    Wide(WideAtom),
    Mdat(MdatAtom),
    Mvhd(MvhdAtom),
    Prfl(PrflAtom),
    UnknownAtom(AtomHeader),
}

impl View for Atoms {
    type V = LeafView;

    open spec fn view(&self) -> LeafView {
        match self {
            Atoms::Ftyp(atom) => LeafView::Ftyp(atom@),
            Atoms::Free(atom) => LeafView::Free(atom@),
            Atoms::Wide(atom) => LeafView::Wide(atom@),
            Atoms::Mdat(atom) => LeafView::Mdat(atom@),
            Atoms::Mvhd(atom) => LeafView::Mvhd(atom@),
            Atoms::Prfl(atom) => LeafView::Prfl(atom@),
            Atoms::UnknownAtom(header) => LeafView::Unknown(header@),
        }
    }
}

impl Clone for Atoms {
    /// A copy of the same kind with the same fields.
    fn clone(&self) -> (copy: Atoms)
        ensures
            copy@ == self@,
    {
        match self {
            Atoms::Ftyp(atom) => Atoms::Ftyp(atom.clone()),
            Atoms::Free(atom) => Atoms::Free(*atom),
            Atoms::Wide(atom) => Atoms::Wide(*atom),
            Atoms::Mdat(atom) => Atoms::Mdat(*atom),
            Atoms::Mvhd(atom) => Atoms::Mvhd(atom.clone()),
            Atoms::Prfl(atom) => Atoms::Prfl(atom.clone()),
            Atoms::UnknownAtom(header) => Atoms::UnknownAtom(*header),
        }
    }
}

impl Atoms {
    /// Decodes the leaf that `atom_header` describes, by its type code. The
    /// cursor is left where it was.
    ///
    /// Fails only where the decoder of a known kind fails; an unknown type
    /// code is no failure.
    pub fn new(atom_header: AtomHeader, file: &mut ByteSource) -> (result: Result<
        Atoms,
        ParseError,
    >)
        ensures
            final(file)@ == old(file)@,
            result_view(result) == leaf_of(old(file)@.bytes, atom_header@),
    {
        let kind: u32 = atom_header.kind();
        if kind == FTYP {
            match FtypAtom::new(atom_header, file) {
                Ok(atom) => Ok(Atoms::Ftyp(atom)),
                Err(error) => Err(error),
            }
        } else if kind == FREE {
            match FreeAtom::new(atom_header) {
                Ok(atom) => Ok(Atoms::Free(atom)),
                Err(error) => Err(error),
            }
        } else if kind == WIDE {
            match WideAtom::new(atom_header) {
                Ok(atom) => Ok(Atoms::Wide(atom)),
                Err(error) => Err(error),
            }
        } else if kind == MDAT {
            match MdatAtom::new(atom_header) {
                Ok(atom) => Ok(Atoms::Mdat(atom)),
                Err(error) => Err(error),
            }
        } else if kind == MVHD {
            match MvhdAtom::new(atom_header, file) {
                Ok(atom) => Ok(Atoms::Mvhd(atom)),
                Err(error) => Err(error),
            }
        } else if kind == PRFL {
            match PrflAtom::new(atom_header, file) {
                Ok(atom) => Ok(Atoms::Prfl(atom)),
                Err(error) => Err(error),
            }
        } else {
            Ok(Atoms::UnknownAtom(atom_header))
        }
    }

    /// The leaf as text.
    pub fn to_text(&self) -> (text: String)
        ensures
            text@ == leaf_text(self@),
    {
        match self {
            Atoms::Ftyp(atom) => atom.to_text(),
            Atoms::Free(atom) => atom.to_text(),
            Atoms::Wide(atom) => atom.to_text(),
            Atoms::Mdat(atom) => atom.to_text(),
            Atoms::Mvhd(atom) => atom.to_text(),
            Atoms::Prfl(atom) => atom.to_text(),
            Atoms::UnknownAtom(header) => {
                let mut text: String = String::from_str("Unknown: ");
                let fields: String = header.to_text();
                text.append(fields.as_str());
                text
            },
        }
    }
}

impl AtomLike for Atoms {
    open spec fn header_view(&self) -> HeaderView {
        self@.header()
    }

    fn atom_size(&self) -> (size: u64) {
        match self {
            Atoms::Ftyp(atom) => atom.atom_size(),
            Atoms::Free(atom) => atom.atom_size(),
            Atoms::Wide(atom) => atom.atom_size(),
            Atoms::Mdat(atom) => atom.atom_size(),
            Atoms::Mvhd(atom) => atom.atom_size(),
            Atoms::Prfl(atom) => atom.atom_size(),
            Atoms::UnknownAtom(atom) => atom.atom_size(),
        }
    }

    fn atom_type(&self) -> (text: String) {
        match self {
            Atoms::Ftyp(atom) => atom.atom_type(),
            Atoms::Free(atom) => atom.atom_type(),
            Atoms::Wide(atom) => atom.atom_type(),
            Atoms::Mdat(atom) => atom.atom_type(),
            Atoms::Mvhd(atom) => atom.atom_type(),
            Atoms::Prfl(atom) => atom.atom_type(),
            Atoms::UnknownAtom(atom) => atom.atom_type(),
        }
    }

    fn atom_location(&self) -> (location: u64) {
        match self {
            Atoms::Ftyp(atom) => atom.atom_location(),
            Atoms::Free(atom) => atom.atom_location(),
            Atoms::Wide(atom) => atom.atom_location(),
            Atoms::Mdat(atom) => atom.atom_location(),
            Atoms::Mvhd(atom) => atom.atom_location(),
            Atoms::Prfl(atom) => atom.atom_location(),
            Atoms::UnknownAtom(atom) => atom.atom_location(),
        }
    }

    fn header_size(&self) -> (header_size: u32) {
        match self {
            Atoms::Ftyp(atom) => atom.header_size(),
            Atoms::Free(atom) => atom.header_size(),
            Atoms::Wide(atom) => atom.header_size(),
            Atoms::Mdat(atom) => atom.header_size(),
            Atoms::Mvhd(atom) => atom.header_size(),
            Atoms::Prfl(atom) => atom.header_size(),
            Atoms::UnknownAtom(atom) => atom.header_size(),
        }
    }
}

} // verus!
