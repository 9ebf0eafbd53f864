//! The profile atom and the entries of its feature table.

use crate::atoms::full_atom::{full_atom_in, FullAtom, FullAtomView};
use crate::atoms::{layout_error, read_atom_of, zero_header, AtomHeader, AtomLike, HeaderView};
use crate::bytes::{be_u32, u32_from_be};
use crate::error::{result_view, short_read_text, ErrorView, ParseError};
use crate::source::{span, ByteSource};
use crate::text::{
    code_string, code_text, decimal, push_code, push_decimal, push_upper_hex, upper_hex,
};
use vstd::prelude::*;
use vstd::string::*;

verus! {

/// The number of bytes of one entry of a feature table.
pub const FEATURE_LEN: u64 = 12;

/// What a [`FeatureEntry`] is to a contract.
pub struct FeatureView {
    pub part_id: nat,
    pub feature_code: Seq<u8>,
    pub feature_value: nat,
}

/// The entry of a feature table that the twelve bytes at offset `at` of
/// `data` stand for: a 32-bit identifier, a four-byte code and a 32-bit
/// value.
pub open spec fn feature_in(data: Seq<u8>, at: int) -> FeatureView {
    FeatureView {
        part_id: be_u32(data, at),
        feature_code: data.subrange(at + 4, at + 8),
        feature_value: be_u32(data, at + 8),
    }
}

/// The entry of a feature table at offset `at` of `data`, if twelve bytes
/// are there.
pub open spec fn feature_at(data: Seq<u8>, at: nat) -> Option<FeatureView> {
    if at + 12 > data.len() {
        None
    } else {
        Some(feature_in(data, at as int))
    }
}

/// The text of an entry: the identifier in hexadecimal, then the code and
/// the value as a pair.
pub open spec fn feature_text(entry: FeatureView) -> Seq<char> {
    "part_id: "@ + upper_hex(entry.part_id) + ", (code, value): ("@ + code_text(
        entry.feature_code,
    ) + ", "@ + decimal(entry.feature_value) + ")"@
}

/// One entry of a feature table.
#[derive(Debug, Clone, Copy, PartialEq, Eq)]
pub struct FeatureEntry {
    part_id: u32,
    feature_code: [u8; 4],
    feature_value: u32,
}

impl View for FeatureEntry {
    type V = FeatureView;

    closed spec fn view(&self) -> FeatureView {
        FeatureView {
            part_id: self.part_id as nat,
            feature_code: self.feature_code@,
            feature_value: self.feature_value as nat,
        }
    }
}

impl Default for FeatureEntry {
    /// The entry with every byte zero.
    fn default() -> (entry: FeatureEntry)
        ensures
            entry@ == (FeatureView {
                part_id: 0,
                feature_code: seq![0u8, 0u8, 0u8, 0u8],
                feature_value: 0,
            }),
    {
        FeatureEntry { part_id: 0, feature_code: [0, 0, 0, 0], feature_value: 0 }
    }
}

impl FeatureEntry {
    /// Reads one entry at the cursor and moves the cursor past the bytes that
    /// were there, twelve where it succeeds.
    ///
    /// Fails where fewer than twelve bytes are left.
    pub fn new(file: &mut ByteSource) -> (result: Result<FeatureEntry, ParseError>)
        ensures
            final(file)@.bytes == old(file)@.bytes,
            final(file)@.position == old(file)@.position + span(
                old(file)@.bytes,
                old(file)@.position,
                12,
            ).len(),
            match feature_at(old(file)@.bytes, old(file)@.position) {
                Some(entry) => result matches Ok(decoded) && decoded@ == entry,
                None => result matches Err(error) && error@ == ErrorView::IoError(
                    short_read_text(),
                ),
            },
    {
        let ghost data = file@.bytes;
        let ghost at = file@.position;
        let bytes: Vec<u8> = file.read(12);
        if bytes.len() < 12 {
            return Err(ParseError::short_read());
        }
        let part_id: u32 = u32_from_be(bytes.as_slice(), 0);
        let feature_code: [u8; 4] = [bytes[4], bytes[5], bytes[6], bytes[7]];
        let feature_value: u32 = u32_from_be(bytes.as_slice(), 8);
        assert(feature_code@ =~= data.subrange(at as int + 4, at as int + 8));
        Ok(FeatureEntry { part_id, feature_code, feature_value })
    }

    /// The entry as text.
    pub fn to_text(&self) -> (text: String)
        ensures
            text@ == feature_text(self@),
    {
        let mut text: String = String::from_str("part_id: ");
        push_upper_hex(&mut text, self.part_id as u64);
        text.append(", (code, value): (");
        push_code(&mut text, &self.feature_code);
        text.append(", ");
        push_decimal(&mut text, self.feature_value as u64);
        text.append(")");
        text
    }

    /// The identifier of the part that the feature belongs to.
    pub fn part_id(&self) -> (part_id: u32)
        ensures
            part_id == self@.part_id,
    {
        self.part_id
    }

    /// The code of the feature as text.
    pub fn feature_code(&self) -> (text: String)
        ensures
            text@ == code_text(self@.feature_code),
    {
        code_string(&self.feature_code)
    }

    /// The value of the feature.
    pub fn feature_value(&self) -> (feature_value: u32)
        ensures
            feature_value == self@.feature_value,
    {
        self.feature_value
    }
}

/// What a [`PrflAtom`] is to a contract.
pub struct PrflView {
    pub header: HeaderView,
    pub full_atom: FullAtomView,
    pub num_features: nat,
    pub features: Seq<FeatureView>,
}

/// The views of a run of feature entries.
pub open spec fn feature_views(entries: Seq<FeatureEntry>) -> Seq<FeatureView> {
    Seq::new(entries.len(), |i: int| entries[i]@)
}

/// The entries of the feature table of the profile atom whose bytes are
/// `raw`: as many as the atom announces, twelve bytes each, one after the
/// other behind the number that announces them.
pub open spec fn features_of(raw: Seq<u8>, header: HeaderView) -> Seq<FeatureView> {
    let start = header.header_size as int;
    Seq::new(be_u32(raw, start + 4), |i: int| feature_in(raw, start + 8 + 12 * i))
}

/// The fields of the profile atom whose bytes are `raw`: after the header
/// version and flags, the number of features, and then that many entries.
pub open spec fn prfl_fields(raw: Seq<u8>, header: HeaderView) -> Result<PrflView, ErrorView> {
    let start = header.header_size as int;
    if header.size < header.header_size + 8 {
        Err(layout_error(header))
    } else if header.size < header.header_size + 8 + 12 * be_u32(raw, start + 4) {
        Err(layout_error(header))
    } else {
        Ok(
            PrflView {
                header,
                full_atom: full_atom_in(raw, start),
                num_features: be_u32(raw, start + 4),
                features: features_of(raw, header),
            },
        )
    }
}

/// The profile atom that `header` describes in `data`: the whole atom is
/// read first, then its fields are taken from those bytes.
pub open spec fn prfl_of(data: Seq<u8>, header: HeaderView) -> Result<PrflView, ErrorView> {
    match read_atom_of(data, header) {
        Ok(raw) => prfl_fields(raw, header),
        Err(error) => Err(error),
    }
}

/// The text of a profile atom: the number of features it announces.
pub open spec fn prfl_text(atom: PrflView) -> Seq<char> {
    "Prfl: num_features: "@ + decimal(atom.num_features)
}

/// The profile atom: a table of features.
#[derive(Debug)]
pub struct PrflAtom {
    atom_header: AtomHeader,
    full_atom: FullAtom,
    num_features: u32,
    features: Vec<FeatureEntry>,
}

impl View for PrflAtom {
    type V = PrflView;

    closed spec fn view(&self) -> PrflView {
        PrflView {
            header: self.atom_header@,
            full_atom: self.full_atom@,
            num_features: self.num_features as nat,
            features: feature_views(self.features@),
        }
    }
}

impl Clone for PrflAtom {
    /// A copy with the same fields.
    fn clone(&self) -> (copy: PrflAtom)
        ensures
            copy@ == self@,
    {
        let features: Vec<FeatureEntry> = self.features.clone();
        PrflAtom {
            atom_header: self.atom_header,
            full_atom: self.full_atom,
            num_features: self.num_features,
            features,
        }
    }
}

impl Default for PrflAtom {
    /// The atom with every field zero and no feature.
    fn default() -> (atom: PrflAtom)
        ensures
            atom@ == (PrflView {
                header: zero_header(),
                full_atom: FullAtomView { version: 0, flags: 0 },
                num_features: 0,
                features: Seq::empty(),
            }),
    {
        let atom = PrflAtom {
            atom_header: AtomHeader::default(),
            full_atom: FullAtom::default(),
            num_features: 0,
            features: Vec::new(),
        };
        assert(feature_views(atom.features@) =~= Seq::empty());
        atom
    }
}

impl PrflAtom {
    /// Decodes the profile atom that `header` describes. The whole atom is
    /// read; the cursor is left where it was.
    ///
    /// Fails where the source ends before the atom does, and where the atom
    /// is too short for the number of features that it announces.
    pub fn new(header: AtomHeader, file: &mut ByteSource) -> (result: Result<PrflAtom, ParseError>)
        ensures
            final(file)@ == old(file)@,
            result_view(result) == prfl_of(old(file)@.bytes, header@),
    {
        let cursor: u64 = file.position();
        let read: Result<Vec<u8>, ParseError> = header.read_atom(file);
        file.seek(cursor);
        let raw: Vec<u8> = match read {
            Ok(raw) => raw,
            Err(error) => {
                return Err(error);
            },
        };
        let ghost bytes = raw@;
        let size: u64 = header.atom_size();
        let start: u64 = header.header_size() as u64;
        if size < start + 8 {
            return Err(ParseError::AtomParseFailed(header.atom_type()));
        }
        let mut atom = ByteSource::new(raw);
        atom.seek(start);
        let full_atom: FullAtom = match FullAtom::new(&mut atom) {
            Ok(full_atom) => full_atom,
            Err(_) => {
                return Err(ParseError::AtomParseFailed(header.atom_type()));
            },
        };
        let count: Vec<u8> = atom.read(4);
        if count.len() < 4 {
            return Err(ParseError::AtomParseFailed(header.atom_type()));
        }
        let num_features: u32 = u32_from_be(count.as_slice(), 0);
        if size < start + 8 + FEATURE_LEN * (num_features as u64) {
            return Err(ParseError::AtomParseFailed(header.atom_type()));
        }
        let ghost expected = features_of(bytes, header@);
        let mut features: Vec<FeatureEntry> = Vec::new();
        let mut i: u32 = 0;
        while i < num_features
            invariant
                i <= num_features,
                atom@.bytes == bytes,
                atom@.position == start + 8 + 12 * i,
                bytes.len() == size,
                start == header@.header_size,
                size >= start + 8 + 12 * num_features,
                num_features == be_u32(bytes, start as int + 4),
                expected == features_of(bytes, header@),
                feature_views(features@) == expected.subrange(0, i as int),
            decreases num_features - i,
        {
            let entry: FeatureEntry = match FeatureEntry::new(&mut atom) {
                Ok(entry) => entry,
                Err(_) => {
                    return Err(ParseError::AtomParseFailed(header.atom_type()));
                },
            };
            let ghost before = features@;
            features.push(entry);
            assert(feature_views(features@) =~= feature_views(before).push(entry@));
            i = i + 1;
        }
        assert(expected.subrange(0, num_features as int) =~= expected);
        Ok(PrflAtom { atom_header: header, full_atom, num_features, features })
    }

    /// The atom as text.
    pub fn to_text(&self) -> (text: String)
        ensures
            text@ == prfl_text(self@),
    {
        let mut text: String = String::from_str("Prfl: num_features: ");
        push_decimal(&mut text, self.num_features as u64);
        text
    }

    /// Version and flags of the atom.
    pub fn full_atom(&self) -> (full_atom: &FullAtom)
        ensures
            full_atom@ == self@.full_atom,
    {
        &self.full_atom
    }

    /// The number of features that the atom announces.
    pub fn num_features(&self) -> (num_features: u32)
        ensures
            num_features == self@.num_features,
    {
        self.num_features
    }

    /// The entries of the feature table, in file order.
    pub fn features(&self) -> (features: &Vec<FeatureEntry>)
        ensures
            feature_views(features@) == self@.features,
    {
        &self.features
    }
}

impl AtomLike for PrflAtom {
    open spec fn header_view(&self) -> HeaderView {
        self@.header
    }

    fn atom_size(&self) -> (size: u64) {
        self.atom_header.atom_size()
    }

    fn atom_type(&self) -> (text: String) {
        self.atom_header.atom_type()
    }

    fn atom_location(&self) -> (location: u64) {
        self.atom_header.atom_location()
    }

    fn header_size(&self) -> (header_size: u32) {
        self.atom_header.header_size()
    }
}

} // verus!
