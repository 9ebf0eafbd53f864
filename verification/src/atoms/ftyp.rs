//! The file-type atom.

use crate::atoms::{layout_error, read_atom_of, zero_header, AtomHeader, AtomLike, HeaderView};
use crate::bytes::{be_bytes_u32, be_u32, u32_from_be, u32_to_be};
use crate::error::{result_view, ErrorView, ParseError};
use crate::source::ByteSource;
use crate::text::{code_text, push_code};
use vstd::prelude::*;
use vstd::string::*;

verus! {

/// What an [`FtypAtom`] is to a contract.
pub struct FtypView {
    pub header: HeaderView,
    pub major_brand: nat,
    pub minor_version: nat,
    pub compatible_brands: Seq<u32>,
}

/// The number of compatible brands in a file-type atom: as many four-byte
/// codes as fit after the major brand and the minor version.
pub open spec fn brand_count(header: HeaderView) -> nat {
    ((header.size - header.header_size - 8) / 4) as nat
}

/// The compatible brands of the file-type atom whose bytes are `raw`: the
/// 32-bit numbers that follow the minor version, one after the other.
pub open spec fn compatible_brands_of(raw: Seq<u8>, header: HeaderView) -> Seq<u32> {
    Seq::new(
        brand_count(header),
        |i: int| be_u32(raw, header.header_size as int + 8 + 4 * i) as u32,
    )
}

/// The fields of the file-type atom whose bytes are `raw`: after the
/// header the major brand, the minor version and then the compatible
/// brands, each a 32-bit number.
pub open spec fn ftyp_fields(raw: Seq<u8>, header: HeaderView) -> Result<FtypView, ErrorView> {
    if header.size < header.header_size + 8 {
        Err(layout_error(header))
    } else {
        Ok(
            FtypView {
                header,
                major_brand: be_u32(raw, header.header_size as int),
                minor_version: be_u32(raw, header.header_size as int + 4),
                compatible_brands: compatible_brands_of(raw, header),
            },
        )
    }
}

/// The file-type atom that `header` describes in `data`: the whole atom is
/// read first, then its fields are taken from those bytes.
pub open spec fn ftyp_of(data: Seq<u8>, header: HeaderView) -> Result<FtypView, ErrorView> {
    match read_atom_of(data, header) {
        Ok(raw) => ftyp_fields(raw, header),
        Err(error) => Err(error),
    }
}

/// The text of a brand or a version: the four bytes that store the number,
/// as text.
pub open spec fn brand_text(brand: nat) -> Seq<char> {
    code_text(be_bytes_u32(brand))
}

/// The text of the brands of `brands` from index `from` on, a comma after
/// each.
pub open spec fn brands_text(brands: Seq<u32>, from: nat) -> Seq<char>
    decreases brands.len() - from,
{
    if from >= brands.len() {
        Seq::empty()
    } else {
        brand_text(brands[from as int] as nat) + ","@ + brands_text(brands, from + 1)
    }
}

/// The text of a file-type atom: the major brand, the minor version and the
/// list of compatible brands.
pub open spec fn ftyp_text(atom: FtypView) -> Seq<char> {
    "Ftyp - Major: "@ + brand_text(atom.major_brand) + ", Minor: "@ + brand_text(
        atom.minor_version,
    ) + ", Compatible = ["@ + brands_text(atom.compatible_brands, 0) + "]"@
}

/// The file-type atom: the brand that the file is written for and the
/// brands that it is compatible with.
#[derive(Debug)]
pub struct FtypAtom {
    atom_header: AtomHeader,
    major_brand: u32,
    minor_version: u32,
    compatible_brands: Vec<u32>,
}

impl View for FtypAtom {
    type V = FtypView;

    closed spec fn view(&self) -> FtypView {
        FtypView {
            header: self.atom_header@,
            major_brand: self.major_brand as nat,
            minor_version: self.minor_version as nat,
            compatible_brands: self.compatible_brands@,
        }
    }
}

impl Clone for FtypAtom {
    /// A copy with the same fields.
    fn clone(&self) -> (copy: FtypAtom)
        ensures
            copy@ == self@,
    {
        let compatible_brands: Vec<u32> = self.compatible_brands.clone();
        FtypAtom {
            atom_header: self.atom_header,
            major_brand: self.major_brand,
            minor_version: self.minor_version,
            compatible_brands,
        }
    }
}

impl Default for FtypAtom {
    /// The atom with every field zero and no compatible brand.
    fn default() -> (atom: FtypAtom)
        ensures
            atom@ == (FtypView {
                header: zero_header(),
                major_brand: 0,
                minor_version: 0,
                compatible_brands: Seq::empty(),
            }),
    {
        FtypAtom {
            atom_header: AtomHeader::default(),
            major_brand: 0,
            minor_version: 0,
            compatible_brands: Vec::new(),
        }
    }
}

impl FtypAtom {
    /// Decodes the file-type atom that `atom_header` describes. The whole atom is
    /// read; the cursor is left where it was.
    ///
    /// Fails where the source ends before the atom does, and where the atom
    /// is too short for a major brand and a minor version.
    pub fn new(atom_header: AtomHeader, file: &mut ByteSource) -> (result: Result<
        FtypAtom,
        ParseError,
    >)
        ensures
            final(file)@ == old(file)@,
            result_view(result) == ftyp_of(old(file)@.bytes, atom_header@),
    {
        let cursor: u64 = file.position();
        let read: Result<Vec<u8>, ParseError> = atom_header.read_atom(file);
        file.seek(cursor);
        let raw: Vec<u8> = match read {
            Ok(raw) => raw,
            Err(error) => {
                return Err(error);
            },
        };
        let size: u64 = atom_header.atom_size();
        let start: u64 = atom_header.header_size() as u64;
        if size < start + 8 {
            return Err(ParseError::AtomParseFailed(atom_header.atom_type()));
        }
        let bytes: &[u8] = raw.as_slice();
        let len: usize = bytes.len();
        let first: usize = start as usize;
        let major_brand: u32 = u32_from_be(bytes, first);
        let minor_version: u32 = u32_from_be(bytes, first + 4);
        let count: usize = ((size - start - 8) / 4) as usize;
        let ghost brands = compatible_brands_of(raw@, atom_header@);
        let mut compatible_brands: Vec<u32> = Vec::new();
        let mut i: usize = 0;
        while i < count
            invariant
                i <= count,
                count == brand_count(atom_header@),
                first == atom_header@.header_size,
                first + 8 + 4 * count <= len,
                len == bytes@.len(),
                bytes@ == raw@,
                brands == compatible_brands_of(raw@, atom_header@),
                compatible_brands@ == brands.subrange(0, i as int),
            decreases count - i,
        {
            let brand: u32 = u32_from_be(bytes, first + 8 + 4 * i);
            compatible_brands.push(brand);
            i = i + 1;
        }
        assert(brands.subrange(0, count as int) =~= brands);
        Ok(FtypAtom { atom_header, major_brand, minor_version, compatible_brands })
    }

    /// The atom as text.
    pub fn to_text(&self) -> (text: String)
        ensures
            text@ == ftyp_text(self@),
    {
        let mut text: String = String::from_str("Ftyp - Major: ");
        push_code(&mut text, &u32_to_be(self.major_brand));
        text.append(", Minor: ");
        push_code(&mut text, &u32_to_be(self.minor_version));
        text.append(", Compatible = [");
        let ghost begun = text@;
        let ghost brands = self.compatible_brands@;
        let mut i: usize = 0;
        while i < self.compatible_brands.len()
            invariant
                i <= self.compatible_brands.len(),
                brands == self.compatible_brands@,
                text@ + brands_text(brands, i as nat) == begun + brands_text(brands, 0),
            decreases self.compatible_brands.len() - i,
        {
            push_code(&mut text, &u32_to_be(self.compatible_brands[i]));
            text.append(",");
            i = i + 1;
        }
        text.append("]");
        text
    }

    /// The brand that the file is written for.
    pub fn major_brand(&self) -> (major_brand: u32)
        ensures
            major_brand == self@.major_brand,
    {
        self.major_brand
    }

    /// The version of the major brand.
    pub fn minor_version(&self) -> (minor_version: u32)
        ensures
            minor_version == self@.minor_version,
    {
        self.minor_version
    }

    /// The brands that the file is compatible with, in file order.
    pub fn compatible_brands(&self) -> (brands: &Vec<u32>)
        ensures
            brands@ == self@.compatible_brands,
    {
        &self.compatible_brands
    }
}

impl AtomLike for FtypAtom {
    open spec fn header_view(&self) -> HeaderView {
        self@.header
    }

    fn atom_size(&self) -> (size: u64) {
        self.atom_header.atom_size()
    }

    fn atom_type(&self) -> (text: String) {
        self.atom_header.atom_type()
    }

    fn atom_location(&self) -> (location: u64) {
        self.atom_header.atom_location()
    }

    fn header_size(&self) -> (header_size: u32) {
        self.atom_header.header_size()
    }
}

} // verus!
