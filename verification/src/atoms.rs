//! Atoms: the header that every atom begins with, and the tree of atoms
//! that a source decodes to.

pub mod containers;
pub mod ftyp;
pub mod full_atom;
pub mod leaves;
pub mod mvhd;
pub mod nesting;
pub mod prfl;
pub mod tree;

use crate::bytes::{
    be_bytes_u32, be_bytes_u64, be_u32, be_u64, lemma_be_u32_round_trip, lemma_be_u64_round_trip,
    u32_from_be, u64_from_be,
};
use crate::error::{result_view, short_read_text, ErrorView, ParseError};
use crate::source::{span, ByteSource};
use crate::text::{code_string, code_text, decimal, push_code, push_decimal};
use vstd::prelude::*;
use vstd::string::*;

verus! {

/// The type code `ftyp` of the file-type atom.
pub const FTYP: u32 = 0x6674_7970;

/// The type code `free` of an atom that only takes up room.
pub const FREE: u32 = 0x6672_6565;

/// The type code `wide` of the atom that leaves room for an extended size.
pub const WIDE: u32 = 0x7769_6465;

/// The type code `mdat` of the atom that holds the media data.
pub const MDAT: u32 = 0x6D64_6174;

/// The type code `mvhd` of the movie header.
pub const MVHD: u32 = 0x6D76_6864;

/// The type code `prfl` of the profile atom with its table of features.
pub const PRFL: u32 = 0x7072_666C;

/// The type code `moov` of the movie atom, a container.
pub const MOOV: u32 = 0x6D6F_6F76;

/// The length of a header with a 32-bit size.
pub const SHORT_HEADER: u32 = 8;

/// The length of a header with an extended, 64-bit size.
pub const LONG_HEADER: u32 = 16;

/// What an [`AtomHeader`] is to a contract.
pub struct HeaderView {
    /// The length of the whole atom, header included.
    pub size: nat,
    /// The four bytes that name the atom's kind.
    pub type_code: Seq<u8>,
    /// The offset of the header's first byte in the source.
    pub location: nat,
    /// The length of the header itself.
    pub header_size: nat,
}

impl HeaderView {
    /// The type code as one number, its first byte the most significant.
    pub open spec fn kind(self) -> nat {
        be_u32(self.type_code, 0)
    }

    /// The offset of the first byte after the header.
    pub open spec fn payload_start(self) -> nat {
        self.location + self.header_size
    }

    /// The offset of the first byte after the atom.
    pub open spec fn end(self) -> nat {
        self.location + self.size
    }

    /// The number of bytes between the header and the end of the atom.
    pub open spec fn payload_len(self) -> nat {
        if self.size >= self.header_size {
            (self.size - self.header_size) as nat
        } else {
            0
        }
    }

    /// Whether the atom is at least as long as its own header.
    pub open spec fn covers_header(self) -> bool {
        self.size >= self.header_size
    }
}

/// The header with every field zero.
pub open spec fn zero_header() -> HeaderView {
    HeaderView { size: 0, type_code: seq![0u8, 0u8, 0u8, 0u8], location: 0, header_size: 0 }
}

/// The header that stands for a whole source of `size` bytes: it bears the
/// name `root`, begins at offset 0 and has no header bytes of its own. It is
/// made for the parser and read from no file.
pub open spec fn root_header(size: nat) -> HeaderView {
    HeaderView { size, type_code: seq![0x72u8, 0x6F, 0x6F, 0x74], location: 0, header_size: 0 }
}

/// The header that begins at offset `position` of `data`, if the bytes for
/// one are there.
///
/// The first four bytes are the size, the next four the type code. A size of
/// exactly 1 announces an extended header: the true size is the 64-bit number
/// in the eight bytes that follow.
pub open spec fn header_at(data: Seq<u8>, position: nat) -> Option<HeaderView> {
    if position + 8 > data.len() {
        None
    } else if be_u32(data, position as int) != 1 {
        Some(
            HeaderView {
                size: be_u32(data, position as int),
                type_code: data.subrange(position as int + 4, position as int + 8),
                location: position,
                header_size: 8,
            },
        )
    } else if position + 16 > data.len() {
        None
    } else {
        Some(
            HeaderView {
                size: be_u64(data, position as int + 8),
                type_code: data.subrange(position as int + 4, position as int + 8),
                location: position,
                header_size: 16,
            },
        )
    }
}

/// A header written with a 32-bit size reads back as it was written: for
/// every size but 1, the bytes of the size followed by the four bytes of the
/// type code decode, wherever they lie in a source, to a header of eight
/// bytes with that size, that type code and the offset at which they begin.
pub proof fn lemma_short_header_round_trip(
    before: Seq<u8>,
    size: nat,
    type_code: Seq<u8>,
    after: Seq<u8>,
)
    requires
        size <= u32::MAX,
        size != 1,
        type_code.len() == 4,
    ensures
        header_at(before + be_bytes_u32(size) + type_code + after, before.len()) == Some(
            HeaderView { size, type_code, location: before.len(), header_size: 8 },
        ),
{
    let data = before + be_bytes_u32(size) + type_code + after;
    let at = before.len() as int;
    lemma_be_u32_round_trip(size);
    assert(data.subrange(at + 4, at + 8) =~= type_code);
}

/// A header written with an extended size reads back as it was written: the
/// 32-bit number 1, the four bytes of the type code and the eight bytes of
/// the true size decode, wherever they lie in a source, to a header of
/// sixteen bytes with the true size, that type code and the offset at which
/// they begin.
pub proof fn lemma_extended_header_round_trip(
    before: Seq<u8>,
    type_code: Seq<u8>,
    true_size: nat,
    after: Seq<u8>,
)
    requires
        true_size <= u64::MAX,
        type_code.len() == 4,
    ensures
        header_at(
            before + be_bytes_u32(1) + type_code + be_bytes_u64(true_size) + after,
            before.len(),
        ) == Some(
            HeaderView { size: true_size, type_code, location: before.len(), header_size: 16 },
        ),
{
    let data = before + be_bytes_u32(1) + type_code + be_bytes_u64(true_size) + after;
    let at = before.len() as int;
    lemma_be_u32_round_trip(1);
    lemma_be_u64_round_trip(true_size);
    assert(data.subrange(at + 4, at + 8) =~= type_code);
}

/// Where the cursor stands after an attempt to read a header at `position`:
/// past the header that was read, or, where the source ended first, where
/// the last read left it.
pub open spec fn position_after_header(data: Seq<u8>, position: nat) -> nat {
    match header_at(data, position) {
        Some(header) => position + header.header_size,
        None => if position >= data.len() {
            position
        } else {
            data.len()
        },
    }
}

/// The text of a header: its four fields by name.
pub open spec fn header_text(header: HeaderView) -> Seq<char> {
    "atom_size: "@ + decimal(header.size) + ", atom_type: "@ + code_text(header.type_code)
        + ", atom_location: "@ + decimal(header.location) + ", header_size: "@ + decimal(
        header.header_size,
    )
}

/// The bytes of the atom that `header` describes, as far as `data` holds
/// them.
pub open spec fn atom_bytes(data: Seq<u8>, header: HeaderView) -> Seq<u8> {
    span(data, header.location, header.size)
}

/// Where the cursor stands after the whole atom was read: past the bytes
/// of the atom that were there.
pub open spec fn position_after_atom(data: Seq<u8>, header: HeaderView) -> nat {
    header.location + atom_bytes(data, header).len()
}

/// What reading the whole atom yields: its bytes, or the error that names
/// the atom, the size it declares and the number of bytes that were there.
pub open spec fn read_atom_of(data: Seq<u8>, header: HeaderView) -> Result<Seq<u8>, ErrorView> {
    let bytes = atom_bytes(data, header);
    if bytes.len() == header.size {
        Ok(bytes)
    } else {
        Err(ErrorView::FailedToReadOutAtom(code_text(header.type_code), header.size, bytes.len()))
    }
}

/// The error of a decoder whose fields do not fit the atom: it names the
/// atom's type code.
pub open spec fn layout_error(header: HeaderView) -> ErrorView {
    ErrorView::AtomParseFailed(code_text(header.type_code))
}

/// The views of a run of headers.
pub open spec fn header_views(headers: Seq<AtomHeader>) -> Seq<HeaderView> {
    Seq::new(headers.len(), |i: int| headers[i]@)
}

/// The headers of the atoms that lie one after the other from offset
/// `position` up to offset `end`, in file order.
///
/// Each header is read where the atom before it ends. The run stops at
/// `end`. It also stops, without the atom in question, where no header can be
/// read, where an atom is shorter than its own header, and where an atom
/// would reach past `end`.
pub open spec fn child_headers(data: Seq<u8>, position: nat, end: nat) -> Seq<HeaderView>
    decreases end - position,
{
    if position >= end {
        Seq::empty()
    } else {
        match header_at(data, position) {
            None => Seq::empty(),
            Some(header) => if !header.covers_header() || header.end() > end {
                Seq::empty()
            } else {
                seq![header] + child_headers(data, header.end(), end)
            },
        }
    }
}

/// Where the run of children is not empty, its first header is the one read
/// at `position`, it lies within the bounds, and the rest of the run begins
/// where that atom ends.
pub proof fn lemma_first_child(data: Seq<u8>, position: nat, end: nat)
    requires
        child_headers(data, position, end).len() > 0,
    ensures
        position < end,
        header_at(data, position) == Some(child_headers(data, position, end)[0]),
        child_headers(data, position, end)[0].location == position,
        child_headers(data, position, end)[0].header_size >= 8,
        child_headers(data, position, end)[0].covers_header(),
        child_headers(data, position, end)[0].end() <= end,
        child_headers(data, position, end) == seq![child_headers(data, position, end)[0]]
            + child_headers(data, child_headers(data, position, end)[0].end(), end),
{
}

/// Anything that begins with an atom header.
pub trait AtomLike {
    /// The header of the atom.
    spec fn header_view(&self) -> HeaderView;

    /// The length of the whole atom in bytes, header included.
    fn atom_size(&self) -> (size: u64)
        ensures
            size == self.header_view().size,
    ;

    /// The type code as text.
    fn atom_type(&self) -> (text: String)
        ensures
            text@ == code_text(self.header_view().type_code),
    ;

    /// The offset of the atom's first byte in the source.
    fn atom_location(&self) -> (location: u64)
        ensures
            location == self.header_view().location,
    ;

    /// The length of the header in bytes.
    fn header_size(&self) -> (header_size: u32)
        ensures
            header_size == self.header_view().header_size,
    ;
}

/// The header of one atom: its size, its type code, where it lies and how
/// long the header itself is.
#[derive(Debug, Clone, Copy, PartialEq, Eq)]
pub struct AtomHeader {
    atom_size: u64,
    atom_type: [u8; 4],
    atom_location: u64,
    header_size: u32,
}

impl View for AtomHeader {
    type V = HeaderView;

    closed spec fn view(&self) -> HeaderView {
        HeaderView {
            size: self.atom_size as nat,
            type_code: self.atom_type@,
            location: self.atom_location as nat,
            header_size: self.header_size as nat,
        }
    }
}

impl Default for AtomHeader {
    /// The header of an empty atom without a name: every field zero.
    fn default() -> (header: AtomHeader)
        ensures
            header@ == zero_header(),
    {
        AtomHeader {
            atom_size: 0,
            atom_type: [0, 0, 0, 0],
            atom_location: 0,
            header_size: 0,
        }
    }
}

impl AtomHeader {
    /// Reads the header that begins at the cursor and moves the cursor past
    /// it.
    ///
    /// Fails where the source ends before the header does; the cursor then
    /// stands where the last read left it.
    pub fn new(file: &mut ByteSource) -> (result: Result<AtomHeader, ParseError>)
        ensures
            final(file)@.bytes == old(file)@.bytes,
            final(file)@.position == position_after_header(
                old(file)@.bytes,
                old(file)@.position,
            ),
            match header_at(old(file)@.bytes, old(file)@.position) {
                Some(header) => result matches Ok(decoded) && decoded@ == header,
                None => result matches Err(error) && error@ == ErrorView::IoError(
                    short_read_text(),
                ),
            },
    {
        let ghost data = file@.bytes;
        let atom_location: u64 = file.position();
        let first: Vec<u8> = file.read(8);
        if first.len() < 8 {
            return Err(ParseError::short_read());
        }
        let provisional: u32 = u32_from_be(first.as_slice(), 0);
        let atom_type: [u8; 4] = [first[4], first[5], first[6], first[7]];
        assert(atom_type@ =~= data.subrange(atom_location + 4, atom_location + 8));
        if provisional != 1 {
            return Ok(
                AtomHeader {
                    atom_size: provisional as u64,
                    atom_type,
                    atom_location,
                    header_size: SHORT_HEADER,
                },
            );
        }
        let second: Vec<u8> = file.read(8);
        if second.len() < 8 {
            return Err(ParseError::short_read());
        }
        let atom_size: u64 = u64_from_be(second.as_slice(), 0);
        Ok(AtomHeader { atom_size, atom_type, atom_location, header_size: LONG_HEADER })
    }

    /// The header that stands for a whole source of `size` bytes: named
    /// `root`, at offset 0, with no header bytes of its own.
    pub fn root(size: u64) -> (header: AtomHeader)
        ensures
            header@ == root_header(size as nat),
    {
        AtomHeader {
            atom_size: size,
            atom_type: [0x72, 0x6F, 0x6F, 0x74],
            atom_location: 0,
            header_size: 0,
        }
    }

    /// The four bytes that name the atom's kind.
    pub fn type_code(&self) -> (code: [u8; 4])
        ensures
            code@ == self@.type_code,
    {
        self.atom_type
    }

    /// The type code as one number, its first byte the most significant.
    pub fn kind(&self) -> (kind: u32)
        ensures
            kind == self@.kind(),
    {
        u32_from_be(self.atom_type.as_slice(), 0)
    }

    /// Reads the whole atom, header and payload, from its first byte.
    ///
    /// Fails where the source holds fewer bytes than the atom declares.
    pub fn read_atom(&self, file: &mut ByteSource) -> (result: Result<Vec<u8>, ParseError>)
        ensures
            final(file)@.bytes == old(file)@.bytes,
            final(file)@.position == position_after_atom(old(file)@.bytes, self@),
            result_view(result) == read_atom_of(old(file)@.bytes, self@),
    {
        file.seek(self.atom_location);
        let bytes: Vec<u8> = file.read(self.atom_size);
        if bytes.len() as u64 == self.atom_size {
            Ok(bytes)
        } else {
            Err(
                ParseError::FailedToReadOutAtom(
                    code_string(&self.atom_type),
                    self.atom_size,
                    bytes.len(),
                ),
            )
        }
    }

    /// Reads the headers of the atoms that lie in the payload of this one,
    /// in file order. Nothing but headers is read. Never fails: the run of
    /// children ends where the payload ends or where no further child can be
    /// made out. The cursor is left where it was.
    pub fn parse_children(&self, file: &mut ByteSource) -> (result: Result<
        Vec<AtomHeader>,
        ParseError,
    >)
        ensures
            final(file)@ == old(file)@,
            result matches Ok(children) && header_views(children@) == child_headers(
                old(file)@.bytes,
                self@.payload_start(),
                self@.end(),
            ),
    {
        let ghost data = file@.bytes;
        let cursor: u64 = file.position();
        let len: u64 = file.len();
        let end: u128 = self.atom_location as u128 + self.atom_size as u128;
        let start: u128 = self.atom_location as u128 + self.header_size as u128;
        let mut position: u128 = start;
        let mut children: Vec<AtomHeader> = Vec::new();
        let mut done: bool = false;
        while position < end && !done
            invariant
                file@.bytes == data,
                data.len() == len,
                end <= 2 * u64::MAX,
                header_views(children@) + child_headers(data, position as nat, end as nat)
                    == child_headers(data, start as nat, end as nat),
                done ==> child_headers(data, position as nat, end as nat) == Seq::<
                    HeaderView,
                >::empty(),
            decreases
                    if done {
                        0
                    } else {
                        end - position + 1
                    },
        {
            if position > u64::MAX as u128 {
                done = true;
            } else {
                file.seek(position as u64);
                match AtomHeader::new(file) {
                    Err(_) => {
                        done = true;
                    },
                    Ok(child) => {
                        let child_end: u128 = position + child.atom_size as u128;
                        if child.atom_size < child.header_size as u64 || child_end > end {
                            done = true;
                        } else {
                            children.push(child);
                            position = child_end;
                        }
                    },
                }
            }
        }
        file.seek(cursor);
        Ok(children)
    }

    /// The header as text: its four fields by name.
    pub fn to_text(&self) -> (text: String)
        ensures
            text@ == header_text(self@),
    {
        let mut text = String::from_str("atom_size: ");
        push_decimal(&mut text, self.atom_size);
        text.append(", atom_type: ");
        push_code(&mut text, &self.atom_type);
        text.append(", atom_location: ");
        push_decimal(&mut text, self.atom_location);
        text.append(", header_size: ");
        push_decimal(&mut text, self.header_size as u64);
        text
    }
}

impl AtomLike for AtomHeader {
    open spec fn header_view(&self) -> HeaderView {
        self@
    }

    fn atom_size(&self) -> (size: u64) {
        self.atom_size
    }

    fn atom_type(&self) -> (text: String) {
        code_string(&self.atom_type)
    }

    fn atom_location(&self) -> (location: u64) {
        self.atom_location
    }

    fn header_size(&self) -> (header_size: u32) {
        self.header_size
    }
}

} // verus!
