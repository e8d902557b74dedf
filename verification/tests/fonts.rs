//! Font table and glyph header tests.

use guilib::fonts::{bold, regular, small, Font, GlyphHeader, GlyphSet};

#[test]
fn lib_bold_font_at_sign() {
    let offset = bold::get_glyph_pattern_offset('@');
    assert_eq!(offset, 197);
    assert_eq!(bold::data_at(offset), 0x00121008);
}

#[test]
fn lib_regular_font_at_sign() {
    let offset = regular::get_glyph_pattern_offset('@');
    assert_eq!(offset, 182);
    assert_eq!(regular::data_at(offset), 0x00101008);
}

#[test]
fn lib_small_font_at_sign() {
    let offset = small::get_glyph_pattern_offset('@');
    assert_eq!(offset, 143);
    assert_eq!(small::data_at(offset), 0x000e1006);
}

#[test]
fn blit_bold_font_at_sign() {
    let offset = bold::get_glyph_pattern_offset('@');
    assert_eq!(offset, 197);
    assert_eq!(bold::data_at(offset), 0x00121008);
}

#[test]
fn blit_regular_font_at_sign() {
    let offset = regular::get_glyph_pattern_offset('@');
    assert_eq!(offset, 182);
    assert_eq!(regular::data_at(offset), 0x00101008);
}

#[test]
fn blit_small_font_at_sign() {
    let offset = small::get_glyph_pattern_offset('@');
    assert_eq!(offset, 143);
    assert_eq!(small::data_at(offset), 0x000e1006);
}

#[test]
fn one() {
    assert_eq!(1, 1);
}

#[test]
fn all_built_in_fonts_pass_their_check() {
    assert!(Font::new(GlyphSet::Bold).is_some());
    assert!(Font::new(GlyphSet::Regular).is_some());
    assert!(Font::new(GlyphSet::Small).is_some());
}

#[test]
fn glyph_header_unpacks_three_byte_fields() {
    let gh = GlyphHeader::new(0x00121008);
    assert_eq!(gh.w, 0x12);
    assert_eq!(gh.h, 0x10);
    assert_eq!(gh.y_offset, 0x08);
    let gh = GlyphHeader::new(0xffffffff);
    assert_eq!(gh.w, 0xff);
    assert_eq!(gh.h, 0xff);
    assert_eq!(gh.y_offset, 0xff);
}

#[test]
fn glyph_offset_is_stable_and_headers_stay_bounded() {
    let samples = [
        ' ', '!', '@', 'A', 'Z', 'a', 'z', '0', '9', '~', '\u{a0}', '\u{e9}', '\u{ff}',
        '\u{152}', '\u{153}', '\u{2018}', '\u{2022}', '\u{20ac}', '\u{fffd}', '\u{e700}', '\n',
    ];
    for set in [GlyphSet::Bold, GlyphSet::Regular, GlyphSet::Small] {
        let f = Font::new(set).unwrap();
        let max_height = guilib::fonts::font_max_height(set) as usize;
        for c in samples {
            let first = guilib::fonts::glyph_pattern_offset(set, c);
            let again = guilib::fonts::glyph_pattern_offset(set, c);
            assert_eq!(first, again);
            let gh = GlyphHeader::new(guilib::fonts::glyph_data(set, first));
            assert!(gh.w <= 32);
            assert!(gh.h + gh.y_offset <= max_height);
            assert_eq!(guilib::blit::char_width(c, f), gh.w);
        }
    }
}

#[test]
fn unmapped_characters_fall_back_to_the_replacement_glyph() {
    let fallback = bold::get_glyph_pattern_offset('\u{fffd}');
    assert_eq!(bold::get_glyph_pattern_offset('\u{e700}'), fallback);
    assert_eq!(bold::get_glyph_pattern_offset('\n'), fallback);
    assert_eq!(bold::get_glyph_pattern_offset('\u{4e00}'), fallback);
}
