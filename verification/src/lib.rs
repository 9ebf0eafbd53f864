//! A reader for QuickTime / MP4 atom files: it decodes the nested,
//! self-describing records of such a file into a tree and renders the tree as
//! text.

pub mod atoms;
pub mod bytes;
pub mod error;
pub mod parse_state;
pub mod source;
pub mod text;

pub use atoms::containers::{AtomNodes, Container, ContainerAtoms, MoovAtom, RootAtom};
pub use atoms::ftyp::FtypAtom;
pub use atoms::full_atom::FullAtom;
pub use atoms::leaves::{Atoms, FreeAtom, MdatAtom, WideAtom};
pub use atoms::mvhd::MvhdAtom;
pub use atoms::prfl::{FeatureEntry, PrflAtom};
pub use atoms::{AtomHeader, AtomLike};
pub use error::ParseError;
pub use parse_state::{ParseResults, Parser};
pub use source::ByteSource;

use parse_state::{parse_of, MIN_FILE_READ};
use vstd::prelude::*;
use vstd::string::*;

verus! {

/// What to parse: the name of the file.
#[derive(Debug)]
pub struct Config {
    filename: String,
}

impl View for Config {
    type V = Seq<char>;

    closed spec fn view(&self) -> Seq<char> {
        self.filename@
    }
}

impl Config {
    /// The configuration for parsing the file named `filename`.
    pub fn new(filename: &str) -> (config: Config)
        ensures
            config@ == filename@,
    {
        Config { filename: String::from_str(filename) }
    }

    /// The name of the file.
    pub fn filename(&self) -> (filename: &str)
        ensures
            filename@ == self@,
    {
        self.filename.as_str()
    }
}

/// Parses the file that `config` names, given its bytes `contents`.
///
/// The file must hold at least one atom header.
pub fn run(config: Config, contents: Vec<u8>) -> (results: ParseResults)
    requires
        contents@.len() >= MIN_FILE_READ,
    ensures
        results@ == parse_of(contents@),
{
    match Parser::new(config.filename(), contents) {
        Ok(mut parser) => parser.parse(),
        Err(error) => ParseResults::new(Err(error)),
    }
}

} // verus!
