use media_atoms::{AtomHeader, AtomLike, ByteSource, ParseError};

fn atom(code: &[u8; 4], payload: &[u8]) -> Vec<u8> {
    let mut bytes = Vec::new();
    bytes.extend_from_slice(&((payload.len() as u32 + 8).to_be_bytes()));
    bytes.extend_from_slice(code);
    bytes.extend_from_slice(payload);
    bytes
}

#[test]
fn should_parse_a_header() {
    let mut file = ByteSource::new(atom(b"free", &[0; 16]));
    assert!(AtomHeader::new(&mut file).is_ok());
}

#[test]
fn short_header_keeps_the_size_as_given() {
    for size in [0u32, 2, 7, 8, 9, 24, 0x0102_0304, u32::MAX] {
        let mut bytes = vec![0xAA, 0xBB, 0xCC];
        bytes.extend_from_slice(&size.to_be_bytes());
        bytes.extend_from_slice(b"abcd");
        bytes.extend_from_slice(&[1, 2, 3, 4, 5, 6, 7, 8, 9]);
        let mut file = ByteSource::new(bytes);
        file.seek(3);
        let header = AtomHeader::new(&mut file).unwrap();
        assert_eq!(header.atom_size(), size as u64);
        assert_eq!(header.header_size(), 8);
        assert_eq!(header.atom_location(), 3);
        assert_eq!(header.atom_type(), "abcd");
        assert_eq!(header.type_code(), *b"abcd");
        assert_eq!(file.position(), 11);
    }
}

#[test]
fn size_one_announces_an_extended_header() {
    for size in [0u64, 1, 16, 17, 0x0102_0304_0506_0708, u64::MAX] {
        let mut bytes = Vec::new();
        bytes.extend_from_slice(&1u32.to_be_bytes());
        bytes.extend_from_slice(b"mdat");
        bytes.extend_from_slice(&size.to_be_bytes());
        bytes.extend_from_slice(&[9, 9]);
        let mut file = ByteSource::new(bytes);
        let header = AtomHeader::new(&mut file).unwrap();
        assert_eq!(header.atom_size(), size);
        assert_eq!(header.header_size(), 16);
        assert_eq!(header.atom_location(), 0);
        assert_eq!(header.atom_type(), "mdat");
        assert_eq!(file.position(), 16);
    }
}

#[test]
fn header_that_the_source_cuts_short_is_an_io_error() {
    let mut file = ByteSource::new(vec![0, 0, 0, 8, b'f', b'r', b'e']);
    match AtomHeader::new(&mut file) {
        Err(ParseError::IoError(description)) => {
            assert_eq!(description, "failed to fill whole buffer")
        }
        other => panic!("expected IoError, got {:?}", other),
    }
    assert_eq!(file.position(), 7);

    let mut extended = vec![0, 0, 0, 1];
    extended.extend_from_slice(b"mdat");
    extended.extend_from_slice(&[0, 0, 0, 0, 0, 0, 0]);
    let mut file = ByteSource::new(extended);
    assert!(matches!(AtomHeader::new(&mut file), Err(ParseError::IoError(_))));
    assert_eq!(file.position(), 15);

    let mut file = ByteSource::new(vec![1, 2, 3]);
    file.seek(10);
    assert!(matches!(AtomHeader::new(&mut file), Err(ParseError::IoError(_))));
    assert_eq!(file.position(), 10);
}

#[test]
fn type_code_need_not_be_text() {
    let mut file = ByteSource::new(vec![0, 0, 0, 8, 0xFF, 0x00, 0x41, 0xE9]);
    let header = AtomHeader::new(&mut file).unwrap();
    assert_eq!(header.type_code(), [0xFF, 0x00, 0x41, 0xE9]);
    assert_eq!(header.atom_type(), "\u{FF}\u{0}A\u{E9}");
    assert_eq!(header.kind(), 0xFF00_41E9);
}

#[test]
fn root_header_spans_the_source() {
    let header = AtomHeader::root(1234);
    assert_eq!(header.atom_size(), 1234);
    assert_eq!(header.atom_type(), "root");
    assert_eq!(header.atom_location(), 0);
    assert_eq!(header.header_size(), 0);
}

#[test]
fn header_text_names_the_four_fields() {
    let mut bytes = vec![0; 5];
    bytes.extend_from_slice(&atom(b"ftyp", &[0; 12]));
    let mut file = ByteSource::new(bytes);
    file.seek(5);
    let header = AtomHeader::new(&mut file).unwrap();
    assert_eq!(
        header.to_text(),
        "atom_size: 20, atom_type: ftyp, atom_location: 5, header_size: 8"
    );
    assert_eq!(
        AtomHeader::default().to_text(),
        "atom_size: 0, atom_type: \0\0\0\0, atom_location: 0, header_size: 0"
    );
}

#[test]
fn test_read_of_ftyp() {
    let mut payload = Vec::new();
    payload.extend_from_slice(b"isom");
    payload.extend_from_slice(&0x200u32.to_be_bytes());
    payload.extend_from_slice(b"iso2");
    let mut file = ByteSource::new(atom(b"ftyp", &payload));
    let header = AtomHeader::new(&mut file).unwrap();
    let atom = header.read_atom(&mut file).unwrap();
    assert_eq!(header.atom_size() as usize, atom.len());
}

#[test]
fn read_atom_reports_how_much_was_there() {
    let mut bytes = atom(b"ftyp", &[7; 12]);
    bytes[3] = 40;
    let mut file = ByteSource::new(bytes.clone());
    let header = AtomHeader::new(&mut file).unwrap();
    match header.read_atom(&mut file) {
        Err(ParseError::FailedToReadOutAtom(code, size, read)) => {
            assert_eq!(code, "ftyp");
            assert_eq!(size, 40);
            assert_eq!(read, 20);
        }
        other => panic!("expected FailedToReadOutAtom, got {:?}", other),
    }
    assert_eq!(file.position(), 20);

    bytes[3] = 12;
    let mut file = ByteSource::new(bytes);
    let header = AtomHeader::new(&mut file).unwrap();
    assert_eq!(
        header.read_atom(&mut file).unwrap(),
        vec![0, 0, 0, 12, b'f', b't', b'y', b'p', 7, 7, 7, 7]
    );
    assert_eq!(file.position(), 12);
}

#[test]
fn child_headers_stop_at_the_end_of_the_payload() {
    let mut payload = atom(b"free", &[0; 4]);
    payload.extend_from_slice(&atom(b"wide", &[]));
    payload.extend_from_slice(&atom(b"abcd", &[1, 2, 3]));
    let mut bytes = atom(b"moov", &payload);
    bytes.extend_from_slice(&atom(b"free", &[]));
    let mut file = ByteSource::new(bytes);
    let header = AtomHeader::new(&mut file).unwrap();
    let children = header.parse_children(&mut file).unwrap();
    let seen: Vec<(String, u64, u64)> = children
        .iter()
        .map(|child| (child.atom_type(), child.atom_location(), child.atom_size()))
        .collect();
    assert_eq!(
        seen,
        vec![
            ("free".to_string(), 8, 12),
            ("wide".to_string(), 20, 8),
            ("abcd".to_string(), 28, 11)
        ]
    );
}
