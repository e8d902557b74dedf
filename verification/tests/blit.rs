//! Blitter tests: region operations, glyph draws, line fills, outline.

use guilib::blit::{
    char_width, clear_region, invert_region, line_fill_clear, line_fill_pattern, outline_region,
    string_bold_left, string_width, xor_char, ClipRegion, LcdFB, YRegion, LCD_FRAME_BUF_SIZE,
    LCD_LINES, LCD_WORDS_PER_LINE,
};
use guilib::fonts::{Font, GlyphSet};

fn zeroed() -> Box<LcdFB> {
    Box::new([0u32; LCD_FRAME_BUF_SIZE])
}

fn patterned() -> Box<LcdFB> {
    let mut fb = zeroed();
    for i in 0..LCD_FRAME_BUF_SIZE {
        fb[i] = (i as u32).wrapping_mul(0x9e3779b9);
    }
    fb
}

#[test]
fn clear_region_two_destination_words() {
    // Columns 30..36 of line 0 touch word 0 (bits 30, 31) and word 1
    // (bits 32..35 of the line).
    let mut fb = zeroed();
    clear_region(&mut fb, ClipRegion { x0: 30, x1: 36, y0: 0, y1: 1 });
    assert_eq!(fb[0], 0x0000_0003);
    assert_eq!(fb[1], 0xf000_0000);
    for i in 2..LCD_FRAME_BUF_SIZE {
        assert_eq!(fb[i], 0);
    }
}

#[test]
fn invert_region_two_destination_words() {
    let mut fb = patterned();
    let before0 = fb[0];
    let before1 = fb[1];
    let snapshot: Vec<u32> = fb.iter().copied().collect();
    invert_region(&mut fb, ClipRegion { x0: 30, x1: 36, y0: 0, y1: 1 });
    // Exactly the pixels 30..35 flip; no other bit of either word moves.
    assert_eq!(fb[0], before0 ^ 0x0000_0003);
    assert_eq!(fb[1], before1 ^ 0xf000_0000);
    for i in 2..LCD_FRAME_BUF_SIZE {
        assert_eq!(fb[i], snapshot[i]);
    }
}

#[test]
fn clear_region_single_word() {
    let mut fb = zeroed();
    clear_region(&mut fb, ClipRegion { x0: 2, x1: 6, y0: 3, y1: 4 });
    assert_eq!(fb[3 * LCD_WORDS_PER_LINE], 0x3c00_0000);
    for i in 0..LCD_FRAME_BUF_SIZE {
        if i != 3 * LCD_WORDS_PER_LINE {
            assert_eq!(fb[i], 0);
        }
    }
}

#[test]
fn region_ops_reject_malformed_bounds() {
    let mut fb = patterned();
    let snapshot: Vec<u32> = fb.iter().copied().collect();
    clear_region(&mut fb, ClipRegion { x0: 6, x1: 2, y0: 0, y1: 1 });
    clear_region(&mut fb, ClipRegion { x0: 0, x1: 337, y0: 0, y1: 1 });
    clear_region(&mut fb, ClipRegion { x0: 0, x1: 8, y0: 5, y1: 5 });
    clear_region(&mut fb, ClipRegion { x0: 0, x1: 8, y0: 0, y1: 537 });
    invert_region(&mut fb, ClipRegion { x0: 6, x1: 2, y0: 0, y1: 1 });
    invert_region(&mut fb, ClipRegion { x0: 0, x1: 8, y0: 9, y1: 2 });
    for i in 0..LCD_FRAME_BUF_SIZE {
        assert_eq!(fb[i], snapshot[i]);
    }
}

#[test]
fn clear_then_invert_forces_the_region_to_foreground() {
    let mut fb = patterned();
    let snapshot: Vec<u32> = fb.iter().copied().collect();
    let cr = ClipRegion { x0: 30, x1: 70, y0: 2, y1: 5 };
    clear_region(&mut fb, cr);
    invert_region(&mut fb, cr);
    // Every pixel of the region is now foreground (0); all else is as
    // if nothing had happened.
    for y in 0..LCD_LINES {
        for k in 0..LCD_WORDS_PER_LINE {
            let i = y * LCD_WORDS_PER_LINE + k;
            let mut mask: u32 = 0;
            if (2..5).contains(&y) {
                for b in 0..32 {
                    let x = k * 32 + b;
                    if (30..70).contains(&x) {
                        mask |= 1 << (31 - b);
                    }
                }
            }
            assert_eq!(fb[i], snapshot[i] & !mask);
        }
    }
}

#[test]
fn xor_char_double_draw_restores_the_frame_buffer() {
    let f = Font::new(GlyphSet::Bold).unwrap();
    let mut fb = patterned();
    let snapshot: Vec<u32> = fb.iter().copied().collect();
    let cr = ClipRegion { x0: 10, x1: 336, y0: 20, y1: 120 };
    let adv = xor_char(&mut fb, cr, '@', f);
    assert_eq!(adv, char_width('@', f) + 3);
    assert!(fb.iter().zip(snapshot.iter()).any(|(a, b)| a != b));
    let adv2 = xor_char(&mut fb, cr, '@', f);
    assert_eq!(adv2, adv);
    for i in 0..LCD_FRAME_BUF_SIZE {
        assert_eq!(fb[i], snapshot[i]);
    }
}

#[test]
fn xor_char_rejects_and_reports_zero_advance() {
    let f = Font::new(GlyphSet::Regular).unwrap();
    let mut fb = zeroed();
    // Inverted x bounds.
    assert_eq!(xor_char(&mut fb, ClipRegion { x0: 8, x1: 4, y0: 0, y1: 30 }, 'A', f), 0);
    // Region past the buffer.
    assert_eq!(xor_char(&mut fb, ClipRegion { x0: 0, x1: 336, y0: 0, y1: 537 }, 'A', f), 0);
    // Padded glyph would cross the end of the line.
    assert_eq!(xor_char(&mut fb, ClipRegion { x0: 334, x1: 336, y0: 0, y1: 30 }, 'W', f), 0);
    for i in 0..LCD_FRAME_BUF_SIZE {
        assert_eq!(fb[i], 0);
    }
}

#[test]
fn xor_char_clips_rows_at_the_region_bottom() {
    let f = Font::new(GlyphSet::Regular).unwrap();
    let mut fb = zeroed();
    // 'A' in the regular font starts 6 lines below the anchor; a region
    // only 8 lines tall draws just the first rows of the glyph.
    let adv = xor_char(&mut fb, ClipRegion { x0: 0, x1: 336, y0: 0, y1: 8 }, 'A', f);
    assert!(adv > 0);
    for y in 8..LCD_LINES {
        for k in 0..LCD_WORDS_PER_LINE {
            assert_eq!(fb[y * LCD_WORDS_PER_LINE + k], 0);
        }
    }
    assert!(fb.iter().any(|w| *w != 0));
}

#[test]
fn string_width_matches_the_advance_formula() {
    let f = Font::new(GlyphSet::Regular).unwrap();
    let wa = char_width('A', f);
    let wb = char_width('b', f);
    assert_eq!(string_width("A", f), wa + 3 - 1);
    assert_eq!(string_width("Ab", f), wa + 3 + wb + 3 - 1);
    assert_eq!(string_width("", f), 0);
}

#[test]
fn string_draw_advances_by_per_character_widths() {
    let f = Font::new(GlyphSet::Bold).unwrap();
    let mut fb = zeroed();
    let mut expected = zeroed();
    let cr = ClipRegion { x0: 12, x1: 336, y0: 40, y1: 100 };
    string_bold_left(&mut fb, cr, "ok");
    let adv = xor_char(&mut expected, cr, 'o', f);
    let cr2 = ClipRegion { x0: 12 + adv, x1: 336, y0: 40, y1: 100 };
    xor_char(&mut expected, cr2, 'k', f);
    for i in 0..LCD_FRAME_BUF_SIZE {
        assert_eq!(fb[i], expected[i]);
    }
}

#[test]
fn line_fill_clear_writes_one_blank_line() {
    let mut fb = zeroed();
    line_fill_clear(&mut fb, 100);
    for k in 0..10 {
        assert_eq!(fb[100 * LCD_WORDS_PER_LINE + k], 0xffff_ffff);
    }
    assert_eq!(fb[100 * LCD_WORDS_PER_LINE + 10], 0xffff_0000);
    for i in 0..100 * LCD_WORDS_PER_LINE {
        assert_eq!(fb[i], 0);
    }
    for i in 101 * LCD_WORDS_PER_LINE..LCD_FRAME_BUF_SIZE {
        assert_eq!(fb[i], 0);
    }
    // A line index past the screen is ignored.
    let mut fb2 = zeroed();
    line_fill_clear(&mut fb2, LCD_LINES);
    assert!(fb2.iter().all(|w| *w == 0));
}

#[test]
fn line_fill_pattern_stamps_the_row_verbatim() {
    let mut fb = zeroed();
    let row = [1u32, 2, 3, 4, 5, 6, 7, 8, 9, 10, 11];
    line_fill_pattern(&mut fb, 7, &row);
    for k in 0..11 {
        assert_eq!(fb[7 * LCD_WORDS_PER_LINE + k], row[k]);
    }
}

#[test]
fn outline_region_too_short_is_a_no_op() {
    let mut fb = patterned();
    let snapshot: Vec<u32> = fb.iter().copied().collect();
    outline_region(&mut fb, YRegion(10, 15));
    outline_region(&mut fb, YRegion(10, 11));
    outline_region(&mut fb, YRegion(100, 100));
    outline_region(&mut fb, YRegion(531, 538));
    for i in 0..LCD_FRAME_BUF_SIZE {
        assert_eq!(fb[i], snapshot[i]);
    }
}

#[test]
fn outline_region_at_height_six_draws_the_minimal_box() {
    // Six lines is the minimum that fits the border pattern: two
    // cleared lines, two solid rules back to back, two cleared lines.
    let mut fb = zeroed();
    outline_region(&mut fb, YRegion(10, 16));
    let w = LCD_WORDS_PER_LINE;
    for y in [10, 11, 14, 15] {
        assert_eq!(fb[y * w], 0xffff_ffff);
        assert_eq!(fb[y * w + 10], 0xffff_0000);
    }
    for y in [12, 13] {
        assert_eq!(fb[y * w], 0xc000_0000);
        assert_eq!(fb[y * w + 5], 0x0000_0000);
        assert_eq!(fb[y * w + 10], 0x0003_0000);
    }
    for y in [9, 16] {
        for k in 0..w {
            assert_eq!(fb[y * w + k], 0);
        }
    }
}

#[test]
fn outline_region_draws_the_border_box() {
    let mut fb = zeroed();
    outline_region(&mut fb, YRegion(10, 20));
    let w = LCD_WORDS_PER_LINE;
    // Lines 10, 11, 18, 19: cleared.
    for y in [10, 11, 18, 19] {
        assert_eq!(fb[y * w], 0xffff_ffff);
        assert_eq!(fb[y * w + 10], 0xffff_0000);
    }
    // Lines 12 and 17: solid rule, inset 2 px.
    for y in [12, 17] {
        assert_eq!(fb[y * w], 0xc000_0000);
        assert_eq!(fb[y * w + 5], 0x0000_0000);
        assert_eq!(fb[y * w + 10], 0x0003_0000);
    }
    // Lines 13..17: bordered background.
    for y in 13..17 {
        assert_eq!(fb[y * w], 0xdfff_ffff);
        assert_eq!(fb[y * w + 5], 0xffff_ffff);
        assert_eq!(fb[y * w + 10], 0xfffb_0000);
    }
    // Nothing outside the band.
    for y in [9, 20] {
        for k in 0..w {
            assert_eq!(fb[y * w + k], 0);
        }
    }
}

/// Read pixel (x, y) of the frame buffer (MSB of a word is leftmost).
fn fb_pixel(fb: &LcdFB, x: usize, y: usize) -> bool {
    (fb[y * LCD_WORDS_PER_LINE + x / 32] >> (31 - (x % 32))) & 1 == 1
}

/// Read payload bit `k` of the glyph record at `gpo` in the bold font.
fn bold_glyph_bit(gpo: usize, k: usize) -> bool {
    (guilib::fonts::bold::data_at(gpo + 1 + k / 32) >> (31 - (k % 32))) & 1 == 1
}

#[test]
fn xor_char_places_every_payload_bit_at_its_pixel() {
    // The bold '@' is 18 px wide and 16 tall, so its rows straddle
    // payload word boundaries; anchors at columns 40 and 30 exercise
    // the one- and two-destination-word paths.
    let f = Font::new(GlyphSet::Bold).unwrap();
    let gpo = guilib::fonts::bold::get_glyph_pattern_offset('@');
    let header = guilib::fonts::bold::data_at(gpo);
    let (w, h, yo) =
        ((header >> 16 & 0xff) as usize, (header >> 8 & 0xff) as usize, (header & 0xff) as usize);
    for anchor in [40usize, 30] {
        let mut fb = zeroed();
        let cr = ClipRegion { x0: anchor, x1: 336, y0: 0, y1: 536 };
        assert_eq!(xor_char(&mut fb, cr, '@', f), w + 3);
        let left = anchor + 1;  // 1 px pad
        for y in 0..LCD_LINES {
            for x in 0..336 {
                let inside = (yo..yo + h).contains(&y) && (left..left + w).contains(&x);
                let expected = inside && bold_glyph_bit(gpo, (y - yo) * w + (x - left));
                assert_eq!(fb_pixel(&fb, x, y), expected, "pixel ({}, {})", x, y);
            }
        }
    }
}

#[test]
fn region_ops_reach_the_last_line_and_column() {
    let mut fb = zeroed();
    clear_region(&mut fb, ClipRegion { x0: 320, x1: 336, y0: 535, y1: 536 });
    assert_eq!(fb[535 * LCD_WORDS_PER_LINE + 10], 0xffff_0000);
    for i in 0..535 * LCD_WORDS_PER_LINE + 10 {
        assert_eq!(fb[i], 0);
    }
}
