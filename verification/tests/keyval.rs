use mutter::keyval::{keyval_convert_case, keyval_name};

#[test]
fn latin1_lowercase() {
    let (lower, upper) = keyval_convert_case(0x41);
    assert_eq!(lower, 0x61);
    assert_eq!(upper, 0x41);
}

#[test]
fn latin1_uppercase() {
    let (lower, upper) = keyval_convert_case(0x61);
    assert_eq!(lower, 0x61);
    assert_eq!(upper, 0x41);
}

#[test]
fn ucs_pass_through() {
    let sym = 0x01000041;
    let (lower, upper) = keyval_convert_case(sym);
    assert_eq!(lower, sym);
    assert_eq!(upper, sym);
}

#[test]
fn keyval_name_unimplemented() {
    assert_eq!(keyval_name(0x41), None);
}

#[test]
fn latin2_greek_cyrillic_pairs() {
    assert_eq!(keyval_convert_case(0x0104), (0x0105, 0x0104));
    assert_eq!(keyval_convert_case(0x0105), (0x0105, 0x0104));
    assert_eq!(keyval_convert_case(0x03ac), (0x03ac, 0x0386));
    assert_eq!(keyval_convert_case(0x0650), (0x064e, 0x0650));
    assert_eq!(keyval_convert_case(0x0681), (0x0681, 0x0683));
    assert_eq!(keyval_convert_case(0x0745), (0x0746, 0x0745));
}

#[test]
fn unmapped_symbols_map_to_themselves() {
    assert_eq!(keyval_convert_case(0x20), (0x20, 0x20));
    assert_eq!(keyval_convert_case(0xd7), (0xd7, 0xd7));
    assert_eq!(keyval_convert_case(0x0500), (0x0500, 0x0500));
    assert_eq!(keyval_convert_case(0xff0d), (0xff0d, 0xff0d));
}

#[test]
fn ascii_round_trip() {
    for s in 0x41u32..=0x5a {
        let (lower, _) = keyval_convert_case(s);
        assert_eq!(keyval_convert_case(lower).1, s);
    }
}

#[test]
fn latin1_symbols_without_partner_stay() {
    assert_eq!(keyval_convert_case(0xdf), (0xdf, 0xdf));
    assert_eq!(keyval_convert_case(0xd7), (0xd7, 0xd7));
    assert_eq!(keyval_convert_case(0xf7), (0xf7, 0xf7));
    assert_eq!(keyval_convert_case(0xe0), (0xe0, 0xc0));
    assert_eq!(keyval_convert_case(0xc0), (0xe0, 0xc0));
}
