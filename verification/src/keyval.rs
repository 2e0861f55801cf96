//! Case conversion of key symbols, and key symbol names.
use vstd::prelude::*;

verus! {

/// Whether `symbol` directly encodes a 24-bit UCS character.
pub open spec fn is_ucs_keysym(symbol: u32) -> bool {
    (symbol & 0xff000000u32) == 0x01000000u32
}

/// The (lower, upper) pair of a keysym on page 0.
pub open spec fn case_page_0(symbol: u32) -> (u32, u32) {
    if (symbol >= 0x41) && (symbol <= 0x5a) {
        ((symbol + 0x20) as u32, symbol)
    } else if (symbol >= 0x61) && (symbol <= 0x7a) {
        (symbol, (symbol - 0x20) as u32)
    } else if (symbol >= 0xc0) && (symbol <= 0xd6) {
        ((symbol + 0x20) as u32, symbol)
    } else if (symbol >= 0xd8) && (symbol <= 0xde) {
        ((symbol + 0x20) as u32, symbol)
    } else if (symbol >= 0xe0) && (symbol <= 0xf6) {
        (symbol, (symbol - 0x20) as u32)
    } else if (symbol >= 0xf8) && (symbol <= 0xfe) {
        (symbol, (symbol - 0x20) as u32)
    } else {
        (symbol, symbol)
    }
}

/// The (lower, upper) pair of a keysym on page 1.
pub open spec fn case_page_1(symbol: u32) -> (u32, u32) {
    if symbol == 0x0104 {
        (0x0105, symbol)
    } else if (symbol >= 0x0139) && (symbol <= 0x0146) {
        ((symbol + 0x01) as u32, symbol)
    } else if (symbol >= 0x0147) && (symbol <= 0x0148) {
        ((symbol + 0x01) as u32, symbol)
    } else if (symbol >= 0x0150) && (symbol <= 0x0176) {
        ((symbol + 0x01) as u32, symbol)
    } else if (symbol >= 0x0177) && (symbol <= 0x0178) {
        (symbol, (symbol - 0x01) as u32)
    } else if (symbol >= 0x0179) && (symbol <= 0x017c) {
        ((symbol + 0x01) as u32, symbol)
    } else if (symbol >= 0x017d) && (symbol <= 0x0182) {
        (symbol, (symbol - 0x01) as u32)
    } else if symbol == 0x0105 {
        (symbol, 0x0104)
    } else if (symbol >= 0x0140) && (symbol <= 0x0148) {
        (symbol, (symbol - 0x01) as u32)
    } else if (symbol >= 0x0149) && (symbol <= 0x0176) {
        (symbol, (symbol - 0x01) as u32)
    } else if (symbol >= 0x0178) && (symbol <= 0x0179) {
        ((symbol + 0x01) as u32, symbol)
    } else if (symbol >= 0x017a) && (symbol <= 0x017c) {
        (symbol, (symbol - 0x01) as u32)
    } else if (symbol >= 0x017e) && (symbol <= 0x0182) {
        ((symbol + 0x01) as u32, symbol)
    } else {
        (symbol, symbol)
    }
}

/// The (lower, upper) pair of a keysym on page 2.
pub open spec fn case_page_2(symbol: u32) -> (u32, u32) {
    if (symbol >= 0x0243) && (symbol <= 0x0246) {
        ((symbol + 0x01) as u32, symbol)
    } else if (symbol >= 0x0247) && (symbol <= 0x0250) {
        ((symbol + 0x01) as u32, symbol)
    } else if (symbol >= 0x0251) && (symbol <= 0x0254) {
        (symbol, (symbol - 0x01) as u32)
    } else if (symbol >= 0x0255) && (symbol <= 0x0260) {
        (symbol, (symbol - 0x01) as u32)
    } else if (symbol >= 0x0261) && (symbol <= 0x0266) {
        ((symbol + 0x01) as u32, symbol)
    } else if (symbol >= 0x0267) && (symbol <= 0x0270) {
        (symbol, (symbol - 0x01) as u32)
    } else {
        (symbol, symbol)
    }
}

/// The (lower, upper) pair of a keysym on page 3.
pub open spec fn case_page_3(symbol: u32) -> (u32, u32) {
    if (symbol >= 0x0343) && (symbol <= 0x0374) {
        ((symbol + 0x01) as u32, symbol)
    } else if (symbol >= 0x0375) && (symbol <= 0x0376) {
        (symbol, (symbol - 0x01) as u32)
    } else if (symbol >= 0x0377) && (symbol <= 0x0398) {
        ((symbol + 0x01) as u32, symbol)
    } else if (symbol >= 0x0399) && (symbol <= 0x03a1) {
        (symbol, (symbol - 0x01) as u32)
    } else if (symbol >= 0x03a2) && (symbol <= 0x03ab) {
        ((symbol + 0x01) as u32, symbol)
    } else if symbol == 0x03ac {
        (symbol, 0x0386)
    } else if (symbol >= 0x03ad) && (symbol <= 0x03af) {
        (symbol, (symbol - 0x01) as u32)
    } else if (symbol >= 0x03b0) && (symbol <= 0x03ce) {
        (symbol, (symbol - 0x20) as u32)
    } else {
        (symbol, symbol)
    }
}

/// The (lower, upper) pair of a keysym on page 6.
pub open spec fn case_page_6(symbol: u32) -> (u32, u32) {
    if (symbol >= 0x0643) && (symbol <= 0x0644) {
        ((symbol - 0x01) as u32, symbol)
    } else if (symbol >= 0x0645) && (symbol <= 0x0648) {
        (symbol, (symbol + 0x01) as u32)
    } else if (symbol >= 0x0649) && (symbol <= 0x0680) {
        ((symbol - 0x02) as u32, symbol)
    } else if (symbol >= 0x0681) && (symbol <= 0x0682) {
        (symbol, (symbol + 0x02) as u32)
    } else {
        (symbol, symbol)
    }
}

/// The (lower, upper) pair of a keysym on page 7.
pub open spec fn case_page_7(symbol: u32) -> (u32, u32) {
    if (symbol >= 0x0745) && (symbol <= 0x0748) {
        ((symbol + 0x01) as u32, symbol)
    } else if (symbol >= 0x0749) && (symbol <= 0x074a) {
        (symbol, (symbol - 0x01) as u32)
    } else if (symbol >= 0x074b) && (symbol <= 0x076a) {
        ((symbol + 0x01) as u32, symbol)
    } else if (symbol >= 0x076b) && (symbol <= 0x076c) {
        (symbol, (symbol - 0x01) as u32)
    } else if (symbol >= 0x076d) && (symbol <= 0x0770) {
        ((symbol + 0x01) as u32, symbol)
    } else if (symbol >= 0x0771) && (symbol <= 0x0774) {
        (symbol, (symbol - 0x01) as u32)
    } else {
        (symbol, symbol)
    }
}

/// The (lower, upper) pair of a key symbol: UCS-encoded symbols and
/// symbols outside the Latin 1-4, Cyrillic and Greek tables map to
/// themselves; otherwise the table of the symbol's page decides.
pub open spec fn spec_convert_case(symbol: u32) -> (u32, u32) {
    if is_ucs_keysym(symbol) {
        (symbol, symbol)
    } else {
        let page = symbol >> 8u32;
        if page == 0 {
            case_page_0(symbol)
        } else if page == 1 {
            case_page_1(symbol)
        } else if page == 2 {
            case_page_2(symbol)
        } else if page == 3 {
            case_page_3(symbol)
        } else if page == 6 {
            case_page_6(symbol)
        } else if page == 7 {
            case_page_7(symbol)
        } else {
            (symbol, symbol)
        }
    }
}

/// Converts a key symbol to its lowercase and uppercase variants,
/// returned as `(lower, upper)`.
pub fn keyval_convert_case(symbol: u32) -> (r: (u32, u32))
    ensures
        r == spec_convert_case(symbol),
{
    let mut xlower: u32 = symbol;
    let mut xupper: u32 = symbol;

    if (symbol & 0xff000000) == 0x01000000 {
        return (xlower, xupper);
    }

    match symbol >> 8 {
        0 => {
            if (symbol >= 0x41) && (symbol <= 0x5a) {
                xlower = symbol + 0x20;
            } else if (symbol >= 0x61) && (symbol <= 0x7a) {
                xupper = symbol - 0x20;
            } else if (symbol >= 0xc0) && (symbol <= 0xd6) {
                xlower += 0x20;
            } else if (symbol >= 0xd8) && (symbol <= 0xde) {
                xlower += 0x20;
            } else if (symbol >= 0xe0) && (symbol <= 0xf6) {
                xupper -= 0x20;
            } else if (symbol >= 0xf8) && (symbol <= 0xfe) {
                xupper -= 0x20;
            }
        }
        1 => {
            if symbol == 0x0104 {
                xlower = 0x0105;
            } else if (symbol >= 0x0139) && (symbol <= 0x0146) {
                xlower += 0x01;
            } else if (symbol >= 0x0147) && (symbol <= 0x0148) {
                xlower += 0x01;
            } else if (symbol >= 0x0150) && (symbol <= 0x0176) {
                xlower += 0x01;
            } else if (symbol >= 0x0177) && (symbol <= 0x0178) {
                xupper -= 0x01;
            } else if (symbol >= 0x0179) && (symbol <= 0x017c) {
                xlower += 0x01;
            } else if (symbol >= 0x017d) && (symbol <= 0x0182) {
                xupper -= 0x01;
            } else if symbol == 0x0105 {
                xupper = 0x0104;
            } else if (symbol >= 0x0140) && (symbol <= 0x0148) {
                xupper -= 0x01;
            } else if (symbol >= 0x0149) && (symbol <= 0x0176) {
                xupper -= 0x01;
            } else if (symbol >= 0x0178) && (symbol <= 0x0179) {
                xlower += 0x01;
            } else if (symbol >= 0x017a) && (symbol <= 0x017c) {
                xupper -= 0x01;
            } else if (symbol >= 0x017e) && (symbol <= 0x0182) {
                xlower += 0x01;
            }
        }
        2 => {
            if (symbol >= 0x0243) && (symbol <= 0x0246) {
                xlower += 0x01;
            } else if (symbol >= 0x0247) && (symbol <= 0x0250) {
                xlower += 0x01;
            } else if (symbol >= 0x0251) && (symbol <= 0x0254) {
                xupper -= 0x01;
            } else if (symbol >= 0x0255) && (symbol <= 0x0260) {
                xupper -= 0x01;
            } else if (symbol >= 0x0261) && (symbol <= 0x0266) {
                xlower += 0x01;
            } else if (symbol >= 0x0267) && (symbol <= 0x0270) {
                xupper -= 0x01;
            }
        }
        3 => {
            if (symbol >= 0x0343) && (symbol <= 0x0374) {
                xlower += 0x01;
            } else if (symbol >= 0x0375) && (symbol <= 0x0376) {
                xupper -= 0x01;
            } else if (symbol >= 0x0377) && (symbol <= 0x0398) {
                xlower += 0x01;
            } else if (symbol >= 0x0399) && (symbol <= 0x03a1) {
                xupper -= 0x01;
            } else if (symbol >= 0x03a2) && (symbol <= 0x03ab) {
                xlower += 0x01;
            } else if symbol == 0x03ac {
                xupper = 0x0386;
            } else if (symbol >= 0x03ad) && (symbol <= 0x03af) {
                xupper -= 0x01;
            } else if (symbol >= 0x03b0) && (symbol <= 0x03ce) {
                xupper -= 0x20;
            }
        }
        6 => {
            if (symbol >= 0x0643) && (symbol <= 0x0644) {
                xlower -= 0x01;
            } else if (symbol >= 0x0645) && (symbol <= 0x0648) {
                xupper += 0x01;
            } else if (symbol >= 0x0649) && (symbol <= 0x0680) {
                xlower -= 0x02;
            } else if (symbol >= 0x0681) && (symbol <= 0x0682) {
                xupper += 0x02;
            }
        }
        7 => {
            if (symbol >= 0x0745) && (symbol <= 0x0748) {
                xlower += 0x01;
            } else if (symbol >= 0x0749) && (symbol <= 0x074a) {
                xupper -= 0x01;
            } else if (symbol >= 0x074b) && (symbol <= 0x076a) {
                xlower += 0x01;
            } else if (symbol >= 0x076b) && (symbol <= 0x076c) {
                xupper -= 0x01;
            } else if (symbol >= 0x076d) && (symbol <= 0x0770) {
                xlower += 0x01;
            } else if (symbol >= 0x0771) && (symbol <= 0x0774) {
                xupper -= 0x01;
            }
        }
        _ => {}
    }

    (xlower, xupper)
}

/// The symbolic name of a key symbol. The name tables are not part of
/// this library, so no symbol has a name.
pub fn keyval_name(_keyval: u32) -> (r: Option<&'static str>)
    ensures
        r is None,
{
    None
}

/// Conversion changes at most one side of the pair: the other is the
/// symbol itself.
pub proof fn law_convert_case_one_side(symbol: u32)
    ensures
        spec_convert_case(symbol).0 == symbol || spec_convert_case(symbol).1 == symbol,
{
}

/// UCS-encoded symbols pass through unchanged.
pub proof fn law_convert_case_ucs(symbol: u32)
    requires
        is_ucs_keysym(symbol),
    ensures
        spec_convert_case(symbol) == (symbol, symbol),
{
}

/// On ASCII letters, lowering an uppercase letter and raising the result
/// gives the letter back, and the reverse.
pub proof fn law_ascii_round_trip(symbol: u32)
    requires
        0x41 <= symbol <= 0x5a,
    ensures
        spec_convert_case(symbol) == ((symbol + 0x20) as u32, symbol),
        spec_convert_case((symbol + 0x20) as u32) == ((symbol + 0x20) as u32, symbol),
{
    let l = (symbol + 0x20) as u32;
    assert(symbol >> 8u32 == 0 && !is_ucs_keysym(symbol)) by (bit_vector)
        requires
            0x41 <= symbol <= 0x5a,
    ;
    assert(l >> 8u32 == 0 && !is_ucs_keysym(l)) by (bit_vector)
        requires
            0x61 <= l <= 0x7a,
    ;
}

/// Latin-1 capitals and their small letters give each other, and the
/// Latin-1 symbols without a case partner (the sharp s, the multiplication
/// and division signs) stay themselves.
pub proof fn law_latin1_round_trip(symbol: u32)
    requires
        (0xc0 <= symbol <= 0xd6) || (0xd8 <= symbol <= 0xde),
    ensures
        spec_convert_case(symbol) == ((symbol + 0x20) as u32, symbol),
        spec_convert_case((symbol + 0x20) as u32) == ((symbol + 0x20) as u32, symbol),
        spec_convert_case(0xdf) == (0xdfu32, 0xdfu32),
        spec_convert_case(0xd7) == (0xd7u32, 0xd7u32),
        spec_convert_case(0xf7) == (0xf7u32, 0xf7u32),
{
    let l = (symbol + 0x20) as u32;
    assert(symbol >> 8u32 == 0 && !is_ucs_keysym(symbol)) by (bit_vector)
        requires
            0xc0 <= symbol <= 0xde,
    ;
    assert(l >> 8u32 == 0 && !is_ucs_keysym(l)) by (bit_vector)
        requires
            0xe0 <= l <= 0xfe,
    ;
    assert(0xdfu32 >> 8u32 == 0 && !is_ucs_keysym(0xdfu32)) by (bit_vector);
    assert(0xd7u32 >> 8u32 == 0 && !is_ucs_keysym(0xd7u32)) by (bit_vector);
    assert(0xf7u32 >> 8u32 == 0 && !is_ucs_keysym(0xf7u32)) by (bit_vector);
}

} // verus!
