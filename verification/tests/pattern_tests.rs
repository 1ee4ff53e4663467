use eighty::pattern::{Pattern, PatternError, Range, Ternary, TernaryByte};

fn tb(s: &str) -> TernaryByte {
    TernaryByte::from_str(s).unwrap()
}

#[test]
fn parses_fixed_patterns() {
    let t = tb("0011_1111");
    assert!(t.matches(0x3F));
    assert!(!t.matches(0x3E));
    assert!(!t.matches(0xBF));
}

#[test]
fn parses_wildcards_and_captures() {
    let t = tb("01dd_dsss");
    // every byte with the top bits 01 matches
    assert!(t.matches(0x40));
    assert!(t.matches(0x76));
    assert!(t.matches(0x7F));
    assert!(!t.matches(0x3F));
    assert!(!t.matches(0x80));
    let u = tb("1100_?011");
    assert!(u.matches(0xC3));
    assert!(u.matches(0xCB));
    assert!(!u.matches(0xC7));
}

#[test]
fn underscores_are_ignored() {
    let a = tb("00111111");
    let b = tb("0011_1111");
    for byte in 0..=255u8 {
        assert_eq!(a.matches(byte), b.matches(byte));
    }
}

#[test]
fn rejects_too_many_digits() {
    assert_eq!(TernaryByte::from_str("0_0000_0000"), Err(PatternError::TooManyDigits));
}

#[test]
fn rejects_invalid_characters() {
    assert_eq!(TernaryByte::from_str("0101_01!1"), Err(PatternError::InvalidCharacter(b'!')));
    assert_eq!(TernaryByte::from_str("0101_0 11"), Err(PatternError::InvalidCharacter(b' ')));
}

#[test]
fn byte_pattern_matches_exactly_one_value() {
    let t = TernaryByte::byte(0x76);
    for b in 0..=255u8 {
        assert_eq!(t.matches(b), b == 0x76);
    }
}

#[test]
fn captures_found_with_positions() {
    // 01dd_dsss: d occupies bits 3..=5, s occupies bits 0..=2
    let caps = tb("01dd_dsss").captures().unwrap();
    assert_eq!(caps.len(), 2);
    assert!(caps.contains(&(b's', Range { start: 0, end: 2 })));
    assert!(caps.contains(&(b'd', Range { start: 3, end: 5 })));
    // 000p_0010: p is the single bit 4
    let caps = tb("000p_0010").captures().unwrap();
    assert_eq!(caps, vec![(b'p', Range { start: 4, end: 4 })]);
    // no captures at all
    assert_eq!(tb("0011_1111").captures().unwrap(), vec![]);
}

#[test]
fn split_captures_are_a_structural_error() {
    // d appears in two separate runs
    assert_eq!(tb("0dd0_dd00").captures(), Err(b'd'));
    assert_eq!(tb("d0d0_0000").captures(), Err(b'd'));
}

#[test]
fn captured_value_is_shift_and_mask() {
    // for the MOV pattern, the d field of opcode 0x51 (MOV D,C) is 2
    let caps = tb("01dd_dsss").captures().unwrap();
    let opcode = 0x51u8;
    for (name, range) in caps {
        let width = range.len();
        let mask = ((1u16 << width) - 1) as u8;
        let value = (opcode >> range.start) & mask;
        match name {
            b'd' => assert_eq!(value, 0b010),
            b's' => assert_eq!(value, 0b001),
            _ => panic!("unexpected capture"),
        }
    }
}

#[test]
fn fill_with_counter_enumerates_free_positions() {
    let t = tb("1100_?011");
    // one wildcard at bit 3: counter 0 leaves it clear, counter 1 sets it
    assert_eq!(t.fill_with_counter(0), 0xC3);
    assert_eq!(t.fill_with_counter(1), 0xCB);
    // fixed patterns ignore the counter
    assert_eq!(tb("0111_0110").fill_with_counter(0), 0x76);
    assert_eq!(tb("0111_0110").fill_with_counter(0xFF), 0x76);
}

#[test]
fn possibilities_enumerate_coverage() {
    let t = tb("1100_?011");
    assert_eq!(t.possibilities(), vec![0xCB, 0xC3]);
    let u = tb("000p_0010");
    assert_eq!(u.possibilities(), vec![0x12, 0x02]);
    // all possibilities of a pattern match it
    let m = tb("01dd_dsss");
    let all = m.possibilities();
    assert_eq!(all.len(), 64);
    for b in &all {
        assert!(m.matches(*b));
    }
}

fn plain(s: &str) -> Pattern {
    Pattern { matcher: tb(s), exclusions: vec![] }
}

#[test]
fn overlapping_patterns_are_reported() {
    let patterns = vec![plain("0000_00??"), plain("0000_0010")];
    let conflict = eighty::pattern::find_conflict(&patterns);
    assert_eq!(conflict, Some((0, 1, 0x02)));
}

#[test]
fn exclusions_subtract_coverage() {
    // MOV covers 0x40..=0x7F except 0x76, which HALT takes
    let mov = Pattern { matcher: tb("01dd_dsss"), exclusions: vec![tb("0111_0110")] };
    assert!(mov.covers(0x41));
    assert!(!mov.covers(0x76));
    let halt = plain("0111_0110");
    assert_eq!(eighty::pattern::find_conflict(&vec![mov, halt]), None);
}

#[test]
fn the_full_opcode_table_has_no_conflicts() {
    let mut patterns: Vec<Pattern> = Vec::new();
    for s in [
        "0011_1111", "0011_0111", "0010_1111", "0010_0111", "0000_0000", "1110_1011", "1110_0011",
        "1111_1001", "1110_1001", "1111_1011", "1111_0011", "1101_1011", "1101_0011", "0111_0110",
        "00xx_x100", "00xx_x101",
    ] {
        patterns.push(plain(s));
    }
    patterns.push(Pattern { matcher: tb("01dd_dsss"), exclusions: vec![tb("0111_0110")] });
    for s in [
        "000p_0010", "000p_1010", "10oo_orrr", "000o_o111", "11pp_0101", "11pp_0001", "00pp_1001",
        "00pp_0011", "00pp_1011", "00pp_0001", "00rr_r110", "11oo_o110", "001o_o010", "11ee_e111",
        "0000_1000", "0001_0000", "0001_1000", "0010_0000", "0010_1000", "0011_0000", "0011_1000",
        "11oo_o010", "1100_?011", "11oo_o100", "11??_1101", "11oo_o000", "110?_1001",
    ] {
        patterns.push(plain(s));
    }
    assert_eq!(eighty::pattern::find_conflict(&patterns), None);
    // and the set is complete: every byte is covered by exactly one pattern
    for b in 0..=255u8 {
        let covering = patterns.iter().filter(|p| p.covers(b)).count();
        assert_eq!(covering, 1, "byte {b:#04x} covered {covering} times");
    }
}

#[test]
fn is_wild_distinguishes_fixed_bits() {
    assert!(!Ternary::True.is_wild());
    assert!(!Ternary::False.is_wild());
    assert!(Ternary::Wild.is_wild());
    assert!(Ternary::Capture(b'x').is_wild());
}

#[test]
fn range_len_is_inclusive() {
    assert_eq!(Range { start: 3, end: 5 }.len(), 3);
    assert_eq!(Range { start: 4, end: 4 }.len(), 1);
    assert_eq!(Range { start: 0, end: 7 }.len(), 8);
}
