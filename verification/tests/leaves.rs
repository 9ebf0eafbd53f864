use media_atoms::{
    AtomHeader, AtomLike, Atoms, ByteSource, FeatureEntry, FreeAtom, FtypAtom, FullAtom, MdatAtom,
    MvhdAtom, ParseError, PrflAtom, WideAtom,
};

fn atom(code: &[u8; 4], payload: &[u8]) -> Vec<u8> {
    let mut bytes = Vec::new();
    bytes.extend_from_slice(&((payload.len() as u32 + 8).to_be_bytes()));
    bytes.extend_from_slice(code);
    bytes.extend_from_slice(payload);
    bytes
}

fn header_of(file: &mut ByteSource, at: u64) -> AtomHeader {
    file.seek(at);
    AtomHeader::new(file).unwrap()
}

fn mvhd_payload() -> Vec<u8> {
    let mut payload = vec![1, 0x00, 0x02, 0x03];
    for value in [1u32, 2, 600, 1200, 0x0001_0000] {
        payload.extend_from_slice(&value.to_be_bytes());
    }
    payload.extend_from_slice(&0x0100u16.to_be_bytes());
    payload.extend((0u8..36).map(|i| 100 + i));
    for value in [3u32, 4, 5, 6, 7, 8, 9] {
        payload.extend_from_slice(&value.to_be_bytes());
    }
    assert_eq!(payload.len(), 90);
    payload
}

fn prfl_payload() -> Vec<u8> {
    let mut payload = vec![2, 0x0A, 0x0B, 0x0C];
    payload.extend_from_slice(&2u32.to_be_bytes());
    payload.extend_from_slice(&0x1Au32.to_be_bytes());
    payload.extend_from_slice(b"abcd");
    payload.extend_from_slice(&7u32.to_be_bytes());
    payload.extend_from_slice(&0xFFu32.to_be_bytes());
    payload.extend_from_slice(b"wxyz");
    payload.extend_from_slice(&300u32.to_be_bytes());
    payload
}

#[test]
fn file_type_atom_of_twenty_bytes() {
    let bytes = vec![
        0x00, 0x00, 0x00, 0x14, 0x66, 0x74, 0x79, 0x70, 0x69, 0x73, 0x6F, 0x6D, 0x00, 0x00, 0x02,
        0x00, 0x69, 0x73, 0x6F, 0x32,
    ];
    let mut file = ByteSource::new(bytes);
    let header = AtomHeader::new(&mut file).unwrap();
    assert_eq!(header.atom_size(), 20);
    assert_eq!(header.atom_type(), "ftyp");
    match Atoms::new(header, &mut file) {
        Ok(Atoms::Ftyp(ftyp)) => {
            assert_eq!(ftyp.major_brand(), u32::from_be_bytes(*b"isom"));
            assert_eq!(ftyp.major_brand().to_be_bytes(), *b"isom");
            assert_eq!(ftyp.minor_version(), 512);
            assert_eq!(ftyp.compatible_brands(), &vec![u32::from_be_bytes(*b"iso2")]);
            assert_eq!(ftyp.atom_size(), 20);
            assert_eq!(ftyp.atom_type(), "ftyp");
            assert_eq!(ftyp.atom_location(), 0);
            assert_eq!(ftyp.header_size(), 8);
            assert_eq!(
                ftyp.to_text(),
                "Ftyp - Major: isom, Minor: \0\0\u{2}\0, Compatible = [iso2,]"
            );
        }
        other => panic!("expected a file-type atom, got {:?}", other),
    }
}

#[test]
fn file_type_atom_counts_whole_brands_only() {
    let mut payload = Vec::new();
    payload.extend_from_slice(b"qt  ");
    payload.extend_from_slice(&0x2005_0300u32.to_be_bytes());
    payload.extend_from_slice(b"qt  ");
    payload.extend_from_slice(b"mp42");
    payload.extend_from_slice(b"is");
    let mut file = ByteSource::new(atom(b"ftyp", &payload));
    let header = header_of(&mut file, 0);
    let ftyp = FtypAtom::new(header, &mut file).unwrap();
    assert_eq!(ftyp.minor_version(), 0x2005_0300);
    assert_eq!(
        ftyp.compatible_brands(),
        &vec![u32::from_be_bytes(*b"qt  "), u32::from_be_bytes(*b"mp42")]
    );

    let mut file = ByteSource::new(atom(b"ftyp", &payload[..8]));
    let header = header_of(&mut file, 0);
    let ftyp = FtypAtom::new(header, &mut file).unwrap();
    assert!(ftyp.compatible_brands().is_empty());
    assert_eq!(ftyp.to_text(), "Ftyp - Major: qt  , Minor:  \u{5}\u{3}\0, Compatible = []");
}

#[test]
fn file_type_atom_with_an_extended_header() {
    let mut bytes = vec![9, 9];
    bytes.extend_from_slice(&1u32.to_be_bytes());
    bytes.extend_from_slice(b"ftyp");
    bytes.extend_from_slice(&28u64.to_be_bytes());
    bytes.extend_from_slice(b"isom");
    bytes.extend_from_slice(&1u32.to_be_bytes());
    bytes.extend_from_slice(b"avc1");
    let mut file = ByteSource::new(bytes);
    let header = header_of(&mut file, 2);
    let ftyp = FtypAtom::new(header, &mut file).unwrap();
    assert_eq!(ftyp.header_size(), 16);
    assert_eq!(ftyp.atom_location(), 2);
    assert_eq!(ftyp.major_brand(), u32::from_be_bytes(*b"isom"));
    assert_eq!(ftyp.minor_version(), 1);
    assert_eq!(ftyp.compatible_brands(), &vec![u32::from_be_bytes(*b"avc1")]);
}

#[test]
fn file_type_atom_too_short_for_its_fields() {
    for len in 0..8usize {
        let mut file = ByteSource::new(atom(b"ftyp", &vec![b'a'; len]));
        let header = header_of(&mut file, 0);
        match FtypAtom::new(header, &mut file) {
            Err(ParseError::AtomParseFailed(code)) => assert_eq!(code, "ftyp"),
            other => panic!("expected AtomParseFailed, got {:?}", other),
        }
    }
}

#[test]
fn file_type_atom_that_the_source_cuts_short() {
    let mut bytes = atom(b"ftyp", &[b'a'; 12]);
    bytes.truncate(17);
    let mut file = ByteSource::new(bytes);
    let header = header_of(&mut file, 0);
    match FtypAtom::new(header, &mut file) {
        Err(ParseError::FailedToReadOutAtom(code, size, read)) => {
            assert_eq!((code.as_str(), size, read), ("ftyp", 20, 17));
        }
        other => panic!("expected FailedToReadOutAtom, got {:?}", other),
    }
}

#[test]
fn placeholders_keep_the_header_and_read_nothing() {
    let mut bytes = atom(b"wide", &[]);
    bytes.extend_from_slice(&atom(b"free", &[0; 3]));
    bytes.extend_from_slice(&[0, 0, 0x10, 0]);
    bytes.extend_from_slice(b"mdat");
    let mut file = ByteSource::new(bytes);

    let header = header_of(&mut file, 0);
    let wide = WideAtom::new(header).unwrap();
    assert_eq!((wide.atom_size(), wide.atom_location(), wide.header_size()), (8, 0, 8));
    assert_eq!(wide.atom_type(), "wide");
    assert_eq!(
        wide.to_text(),
        "Wide: atom_size: 8, atom_type: wide, atom_location: 0, header_size: 8"
    );

    let header = header_of(&mut file, 8);
    let free = FreeAtom::new(header).unwrap();
    assert_eq!((free.atom_size(), free.atom_location(), free.header_size()), (11, 8, 8));
    assert_eq!(
        free.to_text(),
        "Free: atom_size: 11, atom_type: free, atom_location: 8, header_size: 8"
    );

    let header = header_of(&mut file, 19);
    let position = file.position();
    let mdat = MdatAtom::new(header).unwrap();
    assert_eq!((mdat.atom_size(), mdat.atom_location(), mdat.header_size()), (4096, 19, 8));
    assert_eq!(
        mdat.to_text(),
        "mdia: atom_size: 4096, atom_type: mdat, atom_location: 19, header_size: 8"
    );
    assert!(matches!(Atoms::new(header, &mut file), Ok(Atoms::Mdat(_))));
    assert_eq!(file.position(), position);
}

#[test]
fn should_read_an_mvhd_atom() {
    let mut file = ByteSource::new(atom(b"mvhd", &mvhd_payload()));
    let header = AtomHeader::new(&mut file).unwrap();
    MvhdAtom::new(header, &mut file).unwrap();
}

#[test]
fn movie_header_fields_in_their_order() {
    let mut bytes = vec![0xEE; 7];
    bytes.extend_from_slice(&atom(b"mvhd", &mvhd_payload()));
    bytes.extend_from_slice(&[0xEE; 5]);
    let mut file = ByteSource::new(bytes);
    let header = header_of(&mut file, 7);
    let mvhd = MvhdAtom::new(header, &mut file).unwrap();
    assert_eq!(mvhd.header(), &header);
    assert_eq!(mvhd.full_atom().version(), 1);
    assert_eq!(mvhd.full_atom().flags(), 0x0203);
    assert_eq!(mvhd.creation_time(), 1);
    assert_eq!(mvhd.modification_time(), 2);
    assert_eq!(mvhd.time_scale(), 600);
    assert_eq!(mvhd.duration(), 1200);
    assert_eq!(mvhd.preferred_rate(), 0x0001_0000);
    assert_eq!(mvhd.preferred_vol(), 0x0100);
    assert_eq!(mvhd.matrix(), &(100u8..136).collect::<Vec<u8>>());
    assert_eq!(mvhd.preview_time(), 3);
    assert_eq!(mvhd.preview_duration(), 4);
    assert_eq!(mvhd.poster_time(), 5);
    assert_eq!(mvhd.selection_time(), 6);
    assert_eq!(mvhd.selection_duration(), 7);
    assert_eq!(mvhd.current_time(), 8);
    assert_eq!(mvhd.next_track_id(), 9);
    assert_eq!((mvhd.atom_size(), mvhd.atom_location(), mvhd.header_size()), (98, 7, 8));
    assert_eq!(mvhd.atom_type(), "mvhd");
    assert_eq!(
        mvhd.to_text(),
        "Mvhd: atom_size: 98, atom_type: mvhd, atom_location: 7, header_size: 8"
    );
    assert!(matches!(Atoms::new(header, &mut file), Ok(Atoms::Mvhd(_))));
}

#[test]
fn movie_header_too_short_for_its_fields() {
    let payload = mvhd_payload();
    for len in [0usize, 4, 26, 62, 89] {
        let mut file = ByteSource::new(atom(b"mvhd", &payload[..len]));
        let header = header_of(&mut file, 0);
        match MvhdAtom::new(header, &mut file) {
            Err(ParseError::AtomParseFailed(code)) => assert_eq!(code, "mvhd"),
            other => panic!("expected AtomParseFailed, got {:?}", other),
        }
    }
    let mut bytes = atom(b"mvhd", &payload);
    bytes.pop();
    let mut file = ByteSource::new(bytes);
    let header = header_of(&mut file, 0);
    match MvhdAtom::new(header, &mut file) {
        Err(ParseError::FailedToReadOutAtom(code, size, read)) => {
            assert_eq!((code.as_str(), size, read), ("mvhd", 98, 97));
        }
        other => panic!("expected FailedToReadOutAtom, got {:?}", other),
    }
}

#[test]
fn profile_atom_reads_as_many_entries_as_it_announces() {
    let mut payload = prfl_payload();
    payload.extend_from_slice(&[0xAB; 5]);
    let mut file = ByteSource::new(atom(b"prfl", &payload));
    let header = header_of(&mut file, 0);
    let prfl = PrflAtom::new(header, &mut file).unwrap();
    assert_eq!(prfl.full_atom().version(), 2);
    assert_eq!(prfl.full_atom().flags(), 0x0A0B0C);
    assert_eq!(prfl.num_features(), 2);
    let features = prfl.features();
    assert_eq!(features.len(), 2);
    assert_eq!(features[0].part_id(), 0x1A);
    assert_eq!(features[0].feature_code(), "abcd");
    assert_eq!(features[0].feature_value(), 7);
    assert_eq!(features[1].part_id(), 0xFF);
    assert_eq!(features[1].feature_code(), "wxyz");
    assert_eq!(features[1].feature_value(), 300);
    assert_eq!(features[1].to_text(), "part_id: FF, (code, value): (wxyz, 300)");
    assert_eq!(prfl.to_text(), "Prfl: num_features: 2");
    assert_eq!((prfl.atom_size(), prfl.atom_location(), prfl.header_size()), (45, 0, 8));
    assert_eq!(prfl.atom_type(), "prfl");
    assert!(matches!(Atoms::new(header, &mut file), Ok(Atoms::Prfl(_))));
}

#[test]
fn profile_atom_without_features() {
    let mut file = ByteSource::new(atom(b"prfl", &[0, 0, 0, 0, 0, 0, 0, 0]));
    let header = header_of(&mut file, 0);
    let prfl = PrflAtom::new(header, &mut file).unwrap();
    assert_eq!(prfl.num_features(), 0);
    assert!(prfl.features().is_empty());
}

#[test]
fn profile_atom_too_short_for_its_entries() {
    let payload = prfl_payload();
    for len in [0usize, 4, 7, 8, 20, 31] {
        let mut file = ByteSource::new(atom(b"prfl", &payload[..len]));
        let header = header_of(&mut file, 0);
        match PrflAtom::new(header, &mut file) {
            Err(ParseError::AtomParseFailed(code)) => assert_eq!(code, "prfl"),
            other => panic!("expected AtomParseFailed, got {:?}", other),
        }
    }
    let mut huge = vec![0, 0, 0, 0];
    huge.extend_from_slice(&u32::MAX.to_be_bytes());
    huge.extend_from_slice(&[0; 24]);
    let mut file = ByteSource::new(atom(b"prfl", &huge));
    let header = header_of(&mut file, 0);
    assert!(matches!(PrflAtom::new(header, &mut file), Err(ParseError::AtomParseFailed(_))));
}

#[test]
fn version_and_flags_take_four_bytes() {
    let mut file = ByteSource::new(vec![0xFF, 3, 0x12, 0xAB, 0xCD, 9]);
    file.seek(1);
    let full_atom = FullAtom::new(&mut file).unwrap();
    assert_eq!(full_atom.version(), 3);
    assert_eq!(full_atom.flags(), 0x12ABCD);
    assert_eq!(full_atom.to_text(), "version: 3, flags: 12ABCD");
    assert_eq!(file.position(), 5);
    assert!(matches!(FullAtom::new(&mut file), Err(ParseError::IoError(_))));
    assert_eq!(file.position(), 6);
    assert_eq!(FullAtom::default().to_text(), "version: 0, flags: 0");
}

#[test]
fn feature_entry_takes_twelve_bytes() {
    let mut bytes = vec![0x55];
    bytes.extend_from_slice(&0xDEAD_BEEFu32.to_be_bytes());
    bytes.extend_from_slice(b"code");
    bytes.extend_from_slice(&u32::MAX.to_be_bytes());
    bytes.extend_from_slice(&[1, 2, 3]);
    let mut file = ByteSource::new(bytes);
    file.seek(1);
    let entry = FeatureEntry::new(&mut file).unwrap();
    assert_eq!(entry.part_id(), 0xDEAD_BEEF);
    assert_eq!(entry.feature_code(), "code");
    assert_eq!(entry.feature_value(), u32::MAX);
    assert_eq!(entry.to_text(), "part_id: DEADBEEF, (code, value): (code, 4294967295)");
    assert_eq!(file.position(), 13);
    match FeatureEntry::new(&mut file) {
        Err(ParseError::IoError(description)) => {
            assert_eq!(description, "failed to fill whole buffer")
        }
        other => panic!("expected IoError, got {:?}", other),
    }
    assert_eq!(file.position(), 16);
}

#[test]
fn unknown_type_code_is_no_failure() {
    for code in [*b"trak", *b"udta", *b"FTYP", [0, 0, 0, 0], [0xFF, 0xFE, 0x80, 0x01]] {
        let mut bytes = vec![0, 0, 0x03, 0xE8];
        bytes.extend_from_slice(&code);
        let mut file = ByteSource::new(bytes);
        let header = header_of(&mut file, 0);
        match Atoms::new(header, &mut file) {
            Ok(Atoms::UnknownAtom(kept)) => assert_eq!(kept, header),
            other => panic!("expected an unknown leaf, got {:?}", other),
        }
    }
    let mut file = ByteSource::new(atom(b"trak", &[1, 2, 3, 4]));
    let header = header_of(&mut file, 0);
    let leaf = Atoms::new(header, &mut file).unwrap();
    assert_eq!((leaf.atom_size(), leaf.atom_location(), leaf.header_size()), (12, 0, 8));
    assert_eq!(leaf.atom_type(), "trak");
    assert_eq!(
        leaf.to_text(),
        "Unknown: atom_size: 12, atom_type: trak, atom_location: 0, header_size: 8"
    );
}

#[test]
fn leaves_by_default_are_all_zero() {
    assert_eq!(
        FtypAtom::default().to_text(),
        "Ftyp - Major: \0\0\0\0, Minor: \0\0\0\0, Compatible = []"
    );
    assert_eq!(PrflAtom::default().num_features(), 0);
    assert!(MvhdAtom::default().matrix().is_empty());
    assert_eq!(WideAtom::default().atom_size(), 0);
    assert_eq!(FreeAtom::default().header_size(), 0);
    assert_eq!(MdatAtom::default().atom_location(), 0);
    assert_eq!(FeatureEntry::default().to_text(), "part_id: 0, (code, value): (\0\0\0\0, 0)");
}
