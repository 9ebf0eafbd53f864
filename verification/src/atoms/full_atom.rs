//! Version and flags: the four bytes that begin the payload of many atoms.

use crate::bytes::{be_u24, u24_from_be};
use crate::error::{short_read_text, ErrorView, ParseError};
use crate::source::{span, ByteSource};
use crate::text::{decimal, push_decimal, push_upper_hex, upper_hex};
use vstd::prelude::*;
use vstd::string::*;

verus! {

/// What a [`FullAtom`] is to a contract.
pub struct FullAtomView {
    pub version: nat,
    pub flags: nat,
}

/// The version and flags that the four bytes at offset `at` of `data` stand
/// for: the first is the version, the other three are the flags.
pub open spec fn full_atom_in(data: Seq<u8>, at: int) -> FullAtomView {
    FullAtomView { version: data[at] as nat, flags: be_u24(data, at + 1) }
}

/// The version and flags at offset `at` of `data`, if four bytes are there.
pub open spec fn full_atom_at(data: Seq<u8>, at: nat) -> Option<FullAtomView> {
    if at + 4 > data.len() {
        None
    } else {
        Some(full_atom_in(data, at as int))
    }
}

/// The text of version and flags: the version in decimal, the flags in
/// hexadecimal.
pub open spec fn full_atom_text(full_atom: FullAtomView) -> Seq<char> {
    "version: "@ + decimal(full_atom.version) + ", flags: "@ + upper_hex(full_atom.flags)
}

/// The version byte and the three flag bytes that begin the payload of many
/// atoms.
#[derive(Debug, Clone, Copy, PartialEq, Eq)]
pub struct FullAtom {
    version: u8,
    flags: u32,
}

impl View for FullAtom {
    type V = FullAtomView;

    closed spec fn view(&self) -> FullAtomView {
        FullAtomView { version: self.version as nat, flags: self.flags as nat }
    }
}

impl Default for FullAtom {
    /// Version 0 without flags.
    fn default() -> (full_atom: FullAtom)
        ensures
            full_atom@ == (FullAtomView { version: 0, flags: 0 }),
    {
        FullAtom { version: 0, flags: 0 }
    }
}

impl FullAtom {
    /// Reads version and flags at the cursor and moves the cursor past the
    /// bytes that were there, four where it succeeds.
    ///
    /// Fails where fewer than four bytes are left.
    pub fn new(file: &mut ByteSource) -> (result: Result<FullAtom, ParseError>)
        ensures
            final(file)@.bytes == old(file)@.bytes,
            final(file)@.position == old(file)@.position + span(
                old(file)@.bytes,
                old(file)@.position,
                4,
            ).len(),
            match full_atom_at(old(file)@.bytes, old(file)@.position) {
                Some(full_atom) => result matches Ok(decoded) && decoded@ == full_atom,
                None => result matches Err(error) && error@ == ErrorView::IoError(
                    short_read_text(),
                ),
            },
    {
        let bytes: Vec<u8> = file.read(4);
        if bytes.len() < 4 {
            return Err(ParseError::short_read());
        }
        Ok(FullAtom { version: bytes[0], flags: u24_from_be(bytes.as_slice(), 1) })
    }

    /// Version and flags as text.
    pub fn to_text(&self) -> (text: String)
        ensures
            text@ == full_atom_text(self@),
    {
        let mut text: String = String::from_str("version: ");
        push_decimal(&mut text, self.version as u64);
        text.append(", flags: ");
        push_upper_hex(&mut text, self.flags as u64);
        text
    }

    /// The version of the atom's layout.
    pub fn version(&self) -> (version: u8)
        ensures
            version == self@.version,
    {
        self.version
    }

    /// The 24 flag bits.
    pub fn flags(&self) -> (flags: u32)
        ensures
            flags == self@.flags,
            flags <= 0xff_ffff,
    {
        proof {
            use_type_invariant(self);
        }
        self.flags
    }

    #[verifier::type_invariant]
    spec fn flags_fit(self) -> bool {
        self.flags <= 0xff_ffff
    }
}

} // verus!
