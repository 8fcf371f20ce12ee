use mpls::{ErrorField, MplsHeader, MplsHeaderSlice, ReadError, ValueError};

fn header(label: u32, tc: u8, s: bool, ttl: u8) -> MplsHeader {
    MplsHeader { label, tc, s, ttl }
}

#[test]
fn from_bytes_field_layout() {
    // label bits 31..12, tc bits 11..9, flag bit 8, ttl bits 7..0
    let h = MplsHeader::from_bytes([0xAB, 0xCD, 0xEB, 0x40]);
    assert_eq!(h, header(0xABCDE, 5, true, 0x40));
}

#[test]
fn concrete_vector_decodes_and_reencodes() {
    let bytes = [0x00, 0x10, 0x2A, 0xFF];
    let h = MplsHeader::from_bytes(bytes);
    assert_eq!(h.label, 0x102);
    assert_eq!(h.tc, 5);
    assert!(!h.s);
    assert_eq!(h.ttl, 255);
    assert_eq!(h.to_bytes(), Ok(bytes));
}

#[test]
fn to_bytes_exact_layout() {
    assert_eq!(header(1, 0, true, 64).to_bytes(), Ok([0x00, 0x00, 0x11, 64]));
    assert_eq!(header(0xFFFFF, 7, true, 0xFF).to_bytes(), Ok([0xFF, 0xFF, 0xFF, 0xFF]));
    assert_eq!(header(0, 0, false, 0).to_bytes(), Ok([0, 0, 0, 0]));
    assert_eq!(header(0x12345, 3, false, 9).to_bytes(), Ok([0x12, 0x34, 0x56, 9]));
}

#[test]
fn round_trip_value_first() {
    let cases = [
        header(0, 0, false, 0),
        header(0xFFFFF, 7, true, 255),
        header(0x12345, 3, false, 9),
        header(1, 6, true, 1),
        header(0x80000, 1, false, 128),
    ];
    for h in cases {
        let b = h.to_bytes().unwrap();
        assert_eq!(MplsHeader::from_bytes(b), h);
    }
}

#[test]
fn round_trip_wire_first() {
    let cases: [[u8; 4]; 5] = [
        [0, 0, 0, 0],
        [0xFF, 0xFF, 0xFF, 0xFF],
        [0x00, 0x10, 0x2A, 0xFF],
        [0x12, 0x34, 0x5F, 0x01],
        [0x80, 0x01, 0x0E, 0x7F],
    ];
    for b in cases {
        assert_eq!(MplsHeader::from_bytes(b).to_bytes(), Ok(b));
    }
}

#[test]
fn decode_encode_decode_is_stable() {
    for b in [[0x9Au8, 0xBC, 0xD3, 0x21], [0x00, 0x00, 0x01, 0x00]] {
        let first = MplsHeader::from_bytes(b);
        let second = MplsHeader::from_bytes(first.to_bytes().unwrap());
        assert_eq!(first, second);
    }
}

#[test]
fn view_matches_from_bytes() {
    for b in [[0xAB, 0xCD, 0xEB, 0x40], [0x00, 0x10, 0x2A, 0xFF], [0xFF, 0xFF, 0xFF, 0xFF]] {
        let v = MplsHeaderSlice::from_slice(&b).unwrap();
        let h = MplsHeader::from_bytes(b);
        assert_eq!(v.label(), h.label);
        assert_eq!(v.tc(), h.tc);
        assert_eq!(v.s(), h.s);
        assert_eq!(v.ttl(), h.ttl);
        assert_eq!(v.to_header(), h);
    }
}

#[test]
fn view_binds_first_four_bytes() {
    let buf = [1u8, 2, 3, 4, 5, 6];
    let v = MplsHeaderSlice::from_slice(&buf).unwrap();
    assert_eq!(v.slice(), &[1u8, 2, 3, 4][..]);
    assert_eq!(v.ttl(), 4);
}

#[test]
fn view_truncated() {
    for n in 0..4 {
        let buf = vec![0xFFu8; n];
        assert_eq!(
            MplsHeaderSlice::from_slice(&buf),
            Err(ReadError::UnexpectedEndOfSlice(4))
        );
    }
}

#[test]
fn from_slice_truncated() {
    for n in 0..4 {
        let buf = vec![0u8; n];
        assert_eq!(
            MplsHeader::from_slice(&buf),
            Err(ReadError::UnexpectedEndOfSlice(4))
        );
    }
}

#[test]
fn from_slice_returns_rest() {
    let buf = [0x00, 0x10, 0x2A, 0xFF, 7, 8, 9];
    let (h, rest) = MplsHeader::from_slice(&buf).unwrap();
    assert_eq!(h, MplsHeader::from_bytes([0x00, 0x10, 0x2A, 0xFF]));
    assert_eq!(rest, &[7u8, 8, 9][..]);

    let exact = [0x00, 0x00, 0x11, 0x40];
    let (h, rest) = MplsHeader::from_slice(&exact).unwrap();
    assert_eq!(h, header(1, 0, true, 0x40));
    assert!(rest.is_empty());
}

#[test]
fn to_bytes_label_out_of_range() {
    assert_eq!(
        header(0x100000, 0, false, 0).to_bytes(),
        Err(ValueError::U32TooLarge { value: 0x100000, max: 0xFFFFF, field: ErrorField::MplsLabel })
    );
}

#[test]
fn to_bytes_tc_out_of_range() {
    assert_eq!(
        header(0, 8, false, 0).to_bytes(),
        Err(ValueError::U8TooLarge { value: 8, max: 7, field: ErrorField::MplsTc })
    );
}

#[test]
fn to_bytes_checks_tc_before_label() {
    assert_eq!(
        header(u32::MAX, 255, true, 0).to_bytes(),
        Err(ValueError::U8TooLarge { value: 255, max: 7, field: ErrorField::MplsTc })
    );
}

#[test]
fn header_len_is_four() {
    assert_eq!(header(5, 1, false, 2).header_len(), 4);
    assert_eq!(MplsHeader::default().header_len(), 4);
}

#[test]
fn default_is_all_zero() {
    assert_eq!(MplsHeader::default(), header(0, 0, false, 0));
    assert_eq!(MplsHeader::default().to_bytes(), Ok([0, 0, 0, 0]));
}
