//! The movie header.

use crate::atoms::full_atom::{full_atom_in, FullAtom, FullAtomView};
use crate::atoms::{
    header_text, layout_error, read_atom_of, zero_header, AtomHeader, AtomLike, HeaderView,
};
use crate::bytes::{be_u16, be_u32, copy_range, u16_from_be, u32_from_be};
use crate::error::{result_view, ErrorView, ParseError};
use crate::source::ByteSource;
use vstd::prelude::*;
use vstd::string::*;

verus! {

/// The number of payload bytes that a movie header holds after the atom
/// header: version and flags, five 32-bit fields, the volume, the matrix and
/// seven more 32-bit fields.
pub const MVHD_PAYLOAD: u64 = 90;

/// What an [`MvhdAtom`] is to a contract.
pub struct MvhdView {
    pub header: HeaderView,
    pub full_atom: FullAtomView,
    pub creation_time: nat,
    pub modification_time: nat,
    pub time_scale: nat,
    pub duration: nat,
    pub preferred_rate: nat,
    pub preferred_vol: nat,
    pub matrix: Seq<u8>,
    pub preview_time: nat,
    pub preview_duration: nat,
    pub poster_time: nat,
    pub selection_time: nat,
    pub selection_duration: nat,
    pub current_time: nat,
    pub next_track_id: nat,
}

/// The fields of the movie header whose bytes are `raw`: after the header
/// version and flags, then in this order the creation and modification
/// times, the time scale, the duration and the preferred rate (32 bits
/// each), the preferred volume (16 bits), the 36 bytes of the matrix, and
/// the preview time and duration, the poster time, the selection time and
/// duration, the current time and the next track identifier (32 bits each).
pub open spec fn mvhd_fields(raw: Seq<u8>, header: HeaderView) -> Result<MvhdView, ErrorView> {
    let start = header.header_size as int;
    if header.size < header.header_size + 90 {
        Err(layout_error(header))
    } else {
        Ok(
            MvhdView {
                header,
                full_atom: full_atom_in(raw, start),
                creation_time: be_u32(raw, start + 4),
                modification_time: be_u32(raw, start + 8),
                time_scale: be_u32(raw, start + 12),
                duration: be_u32(raw, start + 16),
                preferred_rate: be_u32(raw, start + 20),
                preferred_vol: be_u16(raw, start + 24),
                matrix: raw.subrange(start + 26, start + 62),
                preview_time: be_u32(raw, start + 62),
                preview_duration: be_u32(raw, start + 66),
                poster_time: be_u32(raw, start + 70),
                selection_time: be_u32(raw, start + 74),
                selection_duration: be_u32(raw, start + 78),
                current_time: be_u32(raw, start + 82),
                next_track_id: be_u32(raw, start + 86),
            },
        )
    }
}

/// The movie header that `header` describes in `data`: the whole atom is
/// read first, then its fields are taken from those bytes.
pub open spec fn mvhd_of(data: Seq<u8>, header: HeaderView) -> Result<MvhdView, ErrorView> {
    match read_atom_of(data, header) {
        Ok(raw) => mvhd_fields(raw, header),
        Err(error) => Err(error),
    }
}

/// The text of a movie header: a label and the header's fields.
pub open spec fn mvhd_text(atom: MvhdView) -> Seq<char> {
    "Mvhd: "@ + header_text(atom.header)
}

/// The movie header: times, scale and preferences of the whole movie.
#[derive(Debug)]
pub struct MvhdAtom {
    atom_header: AtomHeader,
    full_atom: FullAtom,
    creation_time: u32,
    modification_time: u32,
    time_scale: u32,
    duration: u32,
    preferred_rate: u32,
    preferred_vol: u16,
    matrix: Vec<u8>,
    preview_time: u32,
    preview_duration: u32,
    poster_time: u32,
    selection_time: u32,
    selection_duration: u32,
    current_time: u32,
    next_track_id: u32,
}

impl View for MvhdAtom {
    type V = MvhdView;

    closed spec fn view(&self) -> MvhdView {
        MvhdView {
            header: self.atom_header@,
            full_atom: self.full_atom@,
            creation_time: self.creation_time as nat,
            modification_time: self.modification_time as nat,
            time_scale: self.time_scale as nat,
            duration: self.duration as nat,
            preferred_rate: self.preferred_rate as nat,
            preferred_vol: self.preferred_vol as nat,
            matrix: self.matrix@,
            preview_time: self.preview_time as nat,
            preview_duration: self.preview_duration as nat,
            poster_time: self.poster_time as nat,
            selection_time: self.selection_time as nat,
            selection_duration: self.selection_duration as nat,
            current_time: self.current_time as nat,
            next_track_id: self.next_track_id as nat,
        }
    }
}

impl Clone for MvhdAtom {
    /// A copy with the same fields.
    fn clone(&self) -> (copy: MvhdAtom)
        ensures
            copy@ == self@,
    {
        let matrix: Vec<u8> = self.matrix.clone();
        MvhdAtom {
            atom_header: self.atom_header,
            full_atom: self.full_atom,
            creation_time: self.creation_time,
            modification_time: self.modification_time,
            time_scale: self.time_scale,
            duration: self.duration,
            preferred_rate: self.preferred_rate,
            preferred_vol: self.preferred_vol,
            matrix,
            preview_time: self.preview_time,
            preview_duration: self.preview_duration,
            poster_time: self.poster_time,
            selection_time: self.selection_time,
            selection_duration: self.selection_duration,
            current_time: self.current_time,
            next_track_id: self.next_track_id,
        }
    }
}

impl Default for MvhdAtom {
    /// The atom with every field zero and an empty matrix.
    fn default() -> (atom: MvhdAtom)
        ensures
            atom@ == (MvhdView {
                header: zero_header(),
                full_atom: FullAtomView { version: 0, flags: 0 },
                creation_time: 0,
                modification_time: 0,
                time_scale: 0,
                duration: 0,
                preferred_rate: 0,
                preferred_vol: 0,
                matrix: Seq::empty(),
                preview_time: 0,
                preview_duration: 0,
                poster_time: 0,
                selection_time: 0,
                selection_duration: 0,
                current_time: 0,
                next_track_id: 0,
            }),
    {
        MvhdAtom {
            atom_header: AtomHeader::default(),
            full_atom: FullAtom::default(),
            creation_time: 0,
            modification_time: 0,
            time_scale: 0,
            duration: 0,
            preferred_rate: 0,
            preferred_vol: 0,
            matrix: Vec::new(),
            preview_time: 0,
            preview_duration: 0,
            poster_time: 0,
            selection_time: 0,
            selection_duration: 0,
            current_time: 0,
            next_track_id: 0,
        }
    }
}

impl MvhdAtom {
    /// Decodes the movie header that `header` describes. The whole atom is
    /// read; the cursor is left where it was.
    ///
    /// Fails where the source ends before the atom does, and where the atom
    /// is too short for the fields of a movie header.
    pub fn new(header: AtomHeader, file: &mut ByteSource) -> (result: Result<MvhdAtom, ParseError>)
        ensures
            final(file)@ == old(file)@,
            result_view(result) == mvhd_of(old(file)@.bytes, header@),
    {
        let cursor: u64 = file.position();
        let read: Result<Vec<u8>, ParseError> = header.read_atom(file);
        file.seek(cursor);
        let raw: Vec<u8> = match read {
            Ok(raw) => raw,
            Err(error) => {
                return Err(error);
            },
        };
        let size: u64 = header.atom_size();
        let start: u64 = header.header_size() as u64;
        if size < start + MVHD_PAYLOAD {
            return Err(ParseError::AtomParseFailed(header.atom_type()));
        }
        let mut atom = ByteSource::new(raw);
        atom.seek(start);
        let full_atom: FullAtom = match FullAtom::new(&mut atom) {
            Ok(full_atom) => full_atom,
            Err(_) => {
                return Err(ParseError::AtomParseFailed(header.atom_type()));
            },
        };
        let bytes: &[u8] = atom.as_slice();
        let len: usize = bytes.len();
        let first: usize = start as usize;
        assert(first + MVHD_PAYLOAD <= len);
        Ok(
            MvhdAtom {
                atom_header: header,
                full_atom,
                creation_time: u32_from_be(bytes, first + 4),
                modification_time: u32_from_be(bytes, first + 8),
                time_scale: u32_from_be(bytes, first + 12),
                duration: u32_from_be(bytes, first + 16),
                preferred_rate: u32_from_be(bytes, first + 20),
                preferred_vol: u16_from_be(bytes, first + 24),
                matrix: copy_range(bytes, first + 26, first + 62),
                preview_time: u32_from_be(bytes, first + 62),
                preview_duration: u32_from_be(bytes, first + 66),
                poster_time: u32_from_be(bytes, first + 70),
                selection_time: u32_from_be(bytes, first + 74),
                selection_duration: u32_from_be(bytes, first + 78),
                current_time: u32_from_be(bytes, first + 82),
                next_track_id: u32_from_be(bytes, first + 86),
            },
        )
    }

    /// The atom as text.
    pub fn to_text(&self) -> (text: String)
        ensures
            text@ == mvhd_text(self@),
    {
        let mut text: String = String::from_str("Mvhd: ");
        let header: String = self.atom_header.to_text();
        text.append(header.as_str());
        text
    }

    /// The header of the atom.
    pub fn header(&self) -> (header: &AtomHeader)
        ensures
            header@ == self@.header,
    {
        &self.atom_header
    }

    /// Version and flags of the atom.
    pub fn full_atom(&self) -> (full_atom: &FullAtom)
        ensures
            full_atom@ == self@.full_atom,
    {
        &self.full_atom
    }

    /// When the movie was made, in seconds since the first day of 1904.
    pub fn creation_time(&self) -> (creation_time: u32)
        ensures
            creation_time == self@.creation_time,
    {
        self.creation_time
    }

    /// When the movie was last changed, in seconds since the first day of 1904.
    pub fn modification_time(&self) -> (modification_time: u32)
        ensures
            modification_time == self@.modification_time,
    {
        self.modification_time
    }

    /// The number of time units in one second.
    pub fn time_scale(&self) -> (time_scale: u32)
        ensures
            time_scale == self@.time_scale,
    {
        self.time_scale
    }

    /// The length of the movie in time units.
    pub fn duration(&self) -> (duration: u32)
        ensures
            duration == self@.duration,
    {
        self.duration
    }

    /// The rate at which to play the movie, as a 16.16 fixed-point number.
    pub fn preferred_rate(&self) -> (preferred_rate: u32)
        ensures
            preferred_rate == self@.preferred_rate,
    {
        self.preferred_rate
    }

    /// How loud to play the movie, as an 8.8 fixed-point number.
    pub fn preferred_vol(&self) -> (preferred_vol: u16)
        ensures
            preferred_vol == self@.preferred_vol,
    {
        self.preferred_vol
    }

    /// Where the preview begins, in time units.
    pub fn preview_time(&self) -> (preview_time: u32)
        ensures
            preview_time == self@.preview_time,
    {
        self.preview_time
    }

    /// The length of the preview in time units.
    pub fn preview_duration(&self) -> (preview_duration: u32)
        ensures
            preview_duration == self@.preview_duration,
    {
        self.preview_duration
    }

    /// The time of the poster frame.
    pub fn poster_time(&self) -> (poster_time: u32)
        ensures
            poster_time == self@.poster_time,
    {
        self.poster_time
    }

    /// Where the selection begins, in time units.
    pub fn selection_time(&self) -> (selection_time: u32)
        ensures
            selection_time == self@.selection_time,
    {
        self.selection_time
    }

    /// The length of the selection in time units.
    pub fn selection_duration(&self) -> (selection_duration: u32)
        ensures
            selection_duration == self@.selection_duration,
    {
        self.selection_duration
    }

    /// The time at which the movie stands.
    pub fn current_time(&self) -> (current_time: u32)
        ensures
            current_time == self@.current_time,
    {
        self.current_time
    }

    /// The identifier that the next new track gets.
    pub fn next_track_id(&self) -> (next_track_id: u32)
        ensures
            next_track_id == self@.next_track_id,
    {
        self.next_track_id
    }

    /// The 36 bytes of the matrix that maps the movie onto the screen.
    pub fn matrix(&self) -> (matrix: &Vec<u8>)
        ensures
            matrix@ == self@.matrix,
    {
        &self.matrix
    }
}

impl AtomLike for MvhdAtom {
    open spec fn header_view(&self) -> HeaderView {
        self@.header
    }

    fn atom_size(&self) -> (size: u64) {
        self.atom_header.atom_size()
    }

    fn atom_type(&self) -> (text: String) {
        self.atom_header.atom_type()
    }

    fn atom_location(&self) -> (location: u64) {
        self.atom_header.atom_location()
    }

    fn header_size(&self) -> (header_size: u32) {
        self.atom_header.header_size()
    }
}

} // verus!
