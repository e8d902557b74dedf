//! Screen layout: the home screen with its status bar, main content box
//! and on-screen keyboard, and the helpers that position keycap labels.

use vstd::prelude::*;

use crate::blit;
use crate::blit::{
    bit_y, clear_row_word, spec_clear_region, spec_invert_region, spec_outline_region, spec_string_bold, spec_string_regular, spec_string_small,
    spec_string_width_sum, spec_xor_char_regular, BlitRow, ClipRegion, YRegion, LCD_LINES,
    LCD_PX_PER_LINE, LCD_WORDS_PER_LINE,
};
use crate::fonts;
use crate::fonts::{font_wf, pua, Font, GlyphSet};
use crate::kbd;
use crate::kbd::{spec_cur_map, spec_map_lut, Layout, ModKey, R, MAP_SIZE};
use crate::state::{Context, FrameBuf};

verus! {

/// Screen width in pixels.
pub const SCREEN_W: usize = LCD_PX_PER_LINE;

/// Screen height in lines.
pub const SCREEN_H: usize = LCD_LINES;

/// Status bar height: the bold font's maximum glyph height.
pub const STATUS_H: usize = 30;

pub const STATUS_Y0: usize = 0;

pub const STATUS_Y1: usize = STATUS_Y0 + STATUS_H;

/// Height of one on-screen keyboard key.
pub const KBD_KEY_H: usize = 33;

/// Height of the whole on-screen keyboard.
pub const KBD_H: usize = (KBD_KEY_H * 6) + 1;

pub const KBD_Y0: usize = SCREEN_H - KBD_H;

pub const KBD_Y1: usize = SCREEN_H;

/// Main content area between status bar and keyboard.
pub const MAIN_H: usize = KBD_Y0 - STATUS_Y1;

pub const MAIN_Y0: usize = STATUS_Y1;

pub const MAIN_Y1: usize = KBD_Y0;

/// The label rectangle of a key at grid position `(col, row)` spanning
/// `width` key cells, with the keyboard's gutters applied: keys right
/// of the center gutter shift 1 px, and a span crossing it widens 1 px.
pub open spec fn spec_keypos(col: int, row: int, width: int) -> ClipRegion {
    let x0 = 1 + col * 33 + (if col >= 5 {
        1int
    } else {
        0int
    });
    let x1 = x0 + width * 33 + (if col < 5 && col + width > 5 {
        1int
    } else {
        0int
    });
    let y0 = 2 + row * 33;
    ClipRegion { x0: x0 as usize, x1: x1 as usize, y0: y0 as usize, y1: (y0 + 33) as usize }
}

/// Compute a key label rectangle from its grid position.
pub fn keypos(col: usize, row: usize, width: usize) -> (cr: ClipRegion)
    requires
        col < 10,
        row < 6,
        width <= 10,
    ensures
        cr == spec_keypos(col as int, row as int, width as int),
{
    let mut x0 = 1 + (col * KBD_KEY_H);
    if col >= 5 {
        x0 = x0 + 1;
    }
    let mut x1 = x0 + (width * KBD_KEY_H);
    if col < 5 && col + width > 5 {
        x1 = x1 + 1;
    }
    let y0 = 2 + row * KBD_KEY_H;
    ClipRegion { x0, x1, y0, y1: y0 + KBD_KEY_H }
}

/// The label rectangle for key index `i`, or `None` for the navigation
/// keys, which carry no on-screen label.
pub open spec fn spec_key_label_cr(i: int) -> Option<ClipRegion> {
    if i == 4 {
        Some(spec_keypos(0, 0, 2))
    } else if i == 5 {
        Some(spec_keypos(2, 0, 2))
    } else if i == 7 {
        Some(spec_keypos(6, 0, 2))
    } else if i == 8 {
        Some(spec_keypos(8, 0, 2))
    } else if 9 <= i < 49 {
        Some(spec_keypos((i - 9) % 10, 1 + (i - 9) / 10, 1))
    } else if i == 49 {
        Some(spec_keypos(1, 5, 1))
    } else if i == 50 {
        Some(spec_keypos(2, 5, 1))
    } else if i == 51 {
        Some(spec_keypos(3, 5, 4))
    } else if i == 52 {
        Some(spec_keypos(7, 5, 1))
    } else if i == 53 {
        Some(spec_keypos(8, 5, 1))
    } else {
        None
    }
}

/// Label rectangle for key index `i`: the function keys span two cells,
/// the spacebar four, and the four rows of character keys one each.
pub fn key_label_cr(i: usize) -> (r: Option<ClipRegion>)
    ensures
        r == spec_key_label_cr(i as int),
        r matches Some(cr) ==> 1 <= cr.x0 && cr.x0 + 33 <= cr.x1 && cr.x1 <= 333 && 2 <= cr.y0
            && cr.y1 == cr.y0 + 33 && cr.y1 <= 202,
{
    if i == 4 {
        Some(keypos(0, 0, 2))
    } else if i == 5 {
        Some(keypos(2, 0, 2))
    } else if i == 7 {
        Some(keypos(6, 0, 2))
    } else if i == 8 {
        Some(keypos(8, 0, 2))
    } else if 9 <= i && i < 49 {
        Some(keypos((i - 9) % 10, 1 + (i - 9) / 10, 1))
    } else if i == 49 {
        Some(keypos(1, 5, 1))
    } else if i == 50 {
        Some(keypos(2, 5, 1))
    } else if i == 51 {
        Some(keypos(3, 5, 4))
    } else if i == 52 {
        Some(keypos(7, 5, 1))
    } else if i == 53 {
        Some(keypos(8, 5, 1))
    } else {
        None
    }
}

/// The rectangle `keyboard_invert_key` flips for key `i`: the key's
/// label cell shrunk 3 px at the left and bottom so its outline stays.
pub open spec fn spec_invert_key_cr(cr: ClipRegion) -> ClipRegion {
    ClipRegion {
        x0: (cr.x0 + 3) as usize,
        x1: cr.x1,
        y0: (KBD_Y0 + cr.y0) as usize,
        y1: (KBD_Y0 + cr.y1 - 3) as usize,
    }
}

/// The frame buffer after `keyboard_invert_key` for key `i`.
pub open spec fn spec_keyboard_invert(fbw: Seq<u32>, i: int) -> Seq<u32> {
    match spec_key_label_cr(i) {
        Some(cr) => spec_invert_region(fbw, spec_invert_key_cr(cr)),
        None => fbw,
    }
}

/// Invert a key's cell (minus a border) to show it is pressed; a key
/// index past the map leaves the frame buffer and flag untouched.
pub fn keyboard_invert_key(fb: &mut FrameBuf, key_index: usize)
    ensures
        key_index >= MAP_SIZE ==> *final(fb) == *old(fb),
        key_index < MAP_SIZE ==> final(fb).buf@ == spec_keyboard_invert(
            old(fb).buf@,
            key_index as int,
        ) && final(fb).dirty_flag() == 1,
{
    if key_index >= MAP_SIZE {
        return ;
    }
    if let Some(cr_rel) = key_label_cr(key_index) {
        let cr = ClipRegion {
            x0: cr_rel.x0 + 3,
            x1: cr_rel.x1,
            y0: KBD_Y0 + cr_rel.y0,
            y1: KBD_Y0 + cr_rel.y1 - 3,
        };
        blit::invert_region(&mut fb.buf, cr);
    }
    fb.set_dirty();
}

/// The test pattern for line `y` of `stripes`: the seed word rotated
/// right once per line.
pub open spec fn spec_stripe_pattern(y: int) -> u32
    decreases y,
{
    if y <= 0 {
        0xffffff03u32
    } else {
        let p = spec_stripe_pattern(y - 1);
        (p >> 1u32) | (p << 31u32)
    }
}

/// The frame buffer after `stripes`: every line filled with the rotating
/// diagonal pattern, the final half word masked to the visible pixels.
pub open spec fn spec_stripes(fbw: Seq<u32>) -> Seq<u32> {
    Seq::new(
        fbw.len(),
        |wi: int|
            if wi % (LCD_WORDS_PER_LINE as int) == 10 {
                spec_stripe_pattern(bit_y(wi)) & 0xffff0000u32
            } else {
                spec_stripe_pattern(bit_y(wi))
            },
    )
}

/// Draw a test pattern of diagonal stripes over the whole screen.
pub fn stripes(fb: &mut FrameBuf)
    ensures
        final(fb).buf@ == spec_stripes(old(fb).buf@),
        final(fb).dirty_flag() == 1,
{
    let mut i: usize = 0;
    let mut pattern: u32 = 0xffffff03;
    let mut line: usize = 0;
    while line < LCD_LINES
        invariant
            0 <= line <= LCD_LINES,
            i == line * 11,
            pattern == spec_stripe_pattern(line as int),
            fb.buf@.len() == blit::LCD_FRAME_BUF_SIZE,
            forall|wi: int|
                0 <= wi < blit::LCD_FRAME_BUF_SIZE ==> #[trigger] fb.buf@[wi] == (if bit_y(wi)
                    < line {
                    spec_stripes(old(fb).buf@)[wi]
                } else {
                    old(fb).buf@[wi]
                }),
            fb.dirty_flag() == old(fb).dirty_flag(),
        decreases LCD_LINES - line,
    {
        proof {
            assert(line * 11 + 10 < blit::LCD_FRAME_BUF_SIZE) by (nonlinear_arith)
                requires
                    line < 536,
            ;
        }
        let mut word: usize = 0;
        while word < LCD_WORDS_PER_LINE - 1
            invariant
                0 <= word <= 10,
                line < LCD_LINES,
                i == line * 11 + word,
                i < blit::LCD_FRAME_BUF_SIZE,
                line * 11 + 10 < blit::LCD_FRAME_BUF_SIZE,
                pattern == spec_stripe_pattern(line as int),
                fb.buf@.len() == blit::LCD_FRAME_BUF_SIZE,
                forall|wi: int|
                    0 <= wi < blit::LCD_FRAME_BUF_SIZE ==> #[trigger] fb.buf@[wi] == (if bit_y(wi)
                        < line || (bit_y(wi) == line && wi - line * 11 < word) {
                        spec_stripes(old(fb).buf@)[wi]
                    } else {
                        old(fb).buf@[wi]
                    }),
                fb.dirty_flag() == old(fb).dirty_flag(),
            decreases 10 - word,
        {
            proof {
                crate::blit::lemma_line_word_index(line as int, word as int);
            }
            fb.buf[i] = pattern;
            i = i + 1;
            word = word + 1;
        }
        proof {
            crate::blit::lemma_line_word_index(line as int, 10);
        }
        fb.buf[i] = pattern & 0xffff0000;
        i = i + 1;
        pattern = (pattern >> 1) | (pattern << 31);
        line = line + 1;
        proof {
            assert forall|wi: int|
                0 <= wi < blit::LCD_FRAME_BUF_SIZE && bit_y(wi) == line - 1 implies #[trigger] fb.buf@[wi]
                == spec_stripes(old(fb).buf@)[wi] by {
                assert(wi % 11 == wi - (line - 1) * 11);
            };
        }
    }
    fb.set_dirty();
    proof {
        assert(fb.buf@ =~= spec_stripes(old(fb).buf@));
    }
}

/// Word `k` of the f-key row texture.
pub open spec fn fkey_row_word(k: int) -> u32 {
    if k == 0 {
        0xe0000000u32
    } else if k == 2 {
        0x08000000u32
    } else if k == 4 {
        0x03ffffffu32
    } else if k == 5 {
        0xffffffffu32
    } else if k == 6 {
        0xffc00000u32
    } else if k == 8 {
        0x00100000u32
    } else if k == 10 {
        0x0007ffffu32
    } else {
        0x00000000u32
    }
}

/// Word `k` of the alphanumeric key row texture.
pub open spec fn alnum_row_word(k: int) -> u32 {
    if k == 0 {
        0xe0000000u32
    } else if k == 1 {
        0x10000000u32
    } else if k == 2 {
        0x08000000u32
    } else if k == 3 {
        0x04000000u32
    } else if k == 4 {
        0x02000000u32
    } else if k == 5 {
        0x01800000u32
    } else if k == 6 {
        0x00400000u32
    } else if k == 7 {
        0x00200000u32
    } else if k == 8 {
        0x00100000u32
    } else if k == 9 {
        0x00080000u32
    } else {
        0x0007ffffu32
    }
}

/// Word `k` of the spacebar row texture.
pub open spec fn spacebar_row_word(k: int) -> u32 {
    if k == 0 {
        0xffffffffu32
    } else if k == 1 {
        0xf0000000u32
    } else if k == 2 {
        0x08000000u32
    } else if k == 3 {
        0x04000000u32
    } else if k == 7 {
        0x00200000u32
    } else if k == 8 {
        0x00100000u32
    } else if k == 9 {
        0x000fffffu32
    } else if k == 10 {
        0xffffffffu32
    } else {
        0x00000000u32
    }
}

/// Word `k` of keyboard line `rel` (relative to the keyboard's top):
/// every 33rd line is cleared, and the blocks between carry the f-key,
/// alphanumeric or spacebar texture.
pub open spec fn kbd_row_word(rel: int, k: int) -> u32 {
    if rel % 33 == 0 {
        clear_row_word(k)
    } else if rel / 33 == 0 {
        fkey_row_word(k)
    } else if rel / 33 == 5 {
        spacebar_row_word(k)
    } else {
        alnum_row_word(k)
    }
}

/// The frame buffer after the keyboard's row textures are stamped over
/// the band starting at line `y0`.
pub open spec fn spec_kbd_rows(fbw: Seq<u32>, y0: int) -> Seq<u32> {
    Seq::new(
        fbw.len(),
        |wi: int|
            if y0 <= bit_y(wi) < y0 + KBD_H {
                kbd_row_word(bit_y(wi) - y0, wi % (LCD_WORDS_PER_LINE as int))
            } else {
                fbw[wi]
            },
    )
}

/// The label text drawn for a non-character key result.
pub open spec fn spec_key_label_text(r: R) -> Seq<char> {
    match r {
        R::Shift => "shift"@,
        R::AltL => pua::SHIFT_ARROW@,
        R::AltR => pua::SHIFT_ARROW@,
        R::Enter => pua::ENTER_SYMBOL@,
        R::Bksp => pua::BACKSPACE_SYMBOL@,
        _ => ""@,
    }
}

/// The label text drawn for a non-character key result.
pub fn key_label_text(r: R) -> (s: &'static str)
    ensures
        s@ == spec_key_label_text(r),
        s@.len() <= 5,
{
    proof {
        reveal_strlit("shift");
        reveal_strlit("\u{E70A}");
        reveal_strlit("\u{E70B}");
        reveal_strlit("\u{E70C}");
        reveal_strlit("");
    }
    match r {
        R::Shift => "shift",
        R::AltL => pua::SHIFT_ARROW,
        R::AltR => pua::SHIFT_ARROW,
        R::Enter => pua::ENTER_SYMBOL,
        R::Bksp => pua::BACKSPACE_SYMBOL,
        _ => "",
    }
}

/// One keycap label draw: the label is centered over the key cell and
/// drawn with XOR in the regular font; a key with no label cell, or a
/// label wider than twice its center offset, draws nothing.
pub open spec fn spec_key_cap_one(fbw: Seq<u32>, lut: Seq<R>, yr: YRegion, i: int) -> Seq<u32> {
    match spec_key_label_cr(i) {
        Some(rel) => {
            let center = rel.x0 + (rel.x1 - rel.x0) / 2;
            match lut[i] {
                R::C(c) => {
                    let hw = (crate::blit::char_w(fonts::regular::model(), c) as int) / 2;
                    if center >= hw {
                        spec_xor_char_regular(
                            fbw,
                            ClipRegion {
                                x0: (center - hw) as usize,
                                x1: SCREEN_W,
                                y0: (yr.0 + rel.y0) as usize,
                                y1: yr.1,
                            },
                            c,
                        )
                    } else {
                        fbw
                    }
                },
                r => {
                    let label = spec_key_label_text(r);
                    let wsum = if label.len() > 0 {
                        spec_string_width_sum(label, fonts::regular::model()) - 1
                    } else {
                        0
                    };
                    let hw = wsum / 2;
                    if center >= hw {
                        spec_string_regular(
                            fbw,
                            ClipRegion {
                                x0: (center - hw) as usize,
                                x1: SCREEN_W,
                                y0: (yr.0 + rel.y0) as usize,
                                y1: yr.1,
                            },
                            label,
                        )
                    } else {
                        fbw
                    }
                },
            }
        },
        None => fbw,
    }
}

/// The first `n` keycap labels drawn in key order.
pub open spec fn spec_key_caps_upto(fbw: Seq<u32>, lut: Seq<R>, yr: YRegion, n: int) -> Seq<u32>
    decreases n,
{
    if n <= 0 {
        fbw
    } else {
        spec_key_cap_one(spec_key_caps_upto(fbw, lut, yr, n - 1), lut, yr, n - 1)
    }
}

/// The frame buffer after all keycap labels: identity when the band is
/// not exactly keyboard-sized or the regular font failed its check.
pub open spec fn spec_key_caps(fbw: Seq<u32>, lo: Layout, mk: ModKey, yr: YRegion) -> Seq<u32> {
    if yr.1 - yr.0 == KBD_H && yr.1 <= LCD_LINES && font_wf(fonts::regular::model()) {
        spec_key_caps_upto(fbw, spec_map_lut(spec_cur_map(lo, mk)), yr, MAP_SIZE as int)
    } else {
        fbw
    }
}

/// Label the keycaps of the on-screen keyboard with XOR draws.
pub fn keyboard_key_caps(fb: &mut FrameBuf, ctx: &Context, yr: YRegion)
    ensures
        final(fb).buf@ == spec_key_caps(old(fb).buf@, ctx.kbd_layout, ctx.kbd_modkey, yr),
        final(fb).dirty_flag() == old(fb).dirty_flag(),
{
    if yr.1 < yr.0 || yr.1 - yr.0 != KBD_H || yr.1 > LCD_LINES {
        return ;
    }
    let fopt = Font::new(GlyphSet::Regular);
    let f = match fopt {
        Some(f) => f,
        None => {
            return ;
        },
    };
    let lut = kbd::cur_map_lut(ctx);
    let ghost entry = fb.buf@;
    let ghost lutv = lut@;
    let mut i: usize = 0;
    while i < MAP_SIZE
        invariant
            0 <= i <= MAP_SIZE,
            font_wf(f@),
            f.glyph_set == GlyphSet::Regular,
            yr.1 - yr.0 == KBD_H && yr.1 <= LCD_LINES,
            lutv == lut@,
            lutv == spec_map_lut(spec_cur_map(ctx.kbd_layout, ctx.kbd_modkey)),
            lut@.len() == MAP_SIZE,
            fb.buf@ == spec_key_caps_upto(entry, lutv, yr, i as int),
            fb.dirty_flag() == old(fb).dirty_flag(),
        decreases MAP_SIZE - i,
    {
        let ghost before = fb.buf@;
        if let Some(rel) = key_label_cr(i) {
            let half = (rel.x1 - rel.x0) >> 1;
            proof {
                let d: usize = (rel.x1 - rel.x0) as usize;
                assert(d >> 1 == d / 2) by (bit_vector);
            }
            let center = rel.x0 + half;
            match lut[i] {
                R::C(c) => {
                    let w = blit::char_width(c, f);
                    let hw = w >> 1;
                    proof {
                        assert(w >> 1 == w / 2) by (bit_vector);
                    }
                    if center >= hw {
                        let cr = ClipRegion {
                            x0: center - hw,
                            x1: SCREEN_W,
                            y0: yr.0 + rel.y0,
                            y1: yr.1,
                        };
                        blit::xor_char(&mut fb.buf, cr, c, f);
                    }
                },
                other => {
                    let label = key_label_text(other);
                    proof {
                        crate::blit::lemma_string_width_sum_bounds(label@, f@);
                    }
                    let w = blit::string_width(label, f);
                    let hw = w >> 1;
                    proof {
                        assert(w >> 1 == w / 2) by (bit_vector);
                    }
                    if center >= hw {
                        let cr = ClipRegion {
                            x0: center - hw,
                            x1: SCREEN_W,
                            y0: yr.0 + rel.y0,
                            y1: yr.1,
                        };
                        blit::string_regular_left(&mut fb.buf, cr, label);
                    }
                },
            }
        }
        proof {
            assert(fb.buf@ == spec_key_cap_one(before, lutv, yr, i as int));
        }
        i = i + 1;
    }
}

/// The frame buffer after the whole on-screen keyboard: row textures,
/// then keycap labels. A band that is not exactly keyboard-sized is
/// rejected and changes nothing.
pub open spec fn spec_keyboard(fbw: Seq<u32>, lo: Layout, mk: ModKey, yr: YRegion) -> Seq<u32> {
    if yr.1 - yr.0 == KBD_H && yr.1 <= LCD_LINES {
        spec_key_caps(spec_kbd_rows(fbw, yr.0 as int), lo, mk, yr)
    } else {
        fbw
    }
}

/// Fill a full-width band with a blank keyboard and its keycap labels.
pub fn keyboard(fb: &mut FrameBuf, ctx: &Context, yr: YRegion)
    ensures
        final(fb).buf@ == spec_keyboard(old(fb).buf@, ctx.kbd_layout, ctx.kbd_modkey, yr),
        (yr.1 - yr.0 == KBD_H && yr.1 <= LCD_LINES) ==> final(fb).dirty_flag() == 1,
        !(yr.1 - yr.0 == KBD_H && yr.1 <= LCD_LINES) ==> *final(fb) == *old(fb),
{
    if yr.1 < yr.0 || yr.1 - yr.0 != KBD_H || yr.1 > LCD_LINES {
        return ;
    }
    // Textures for the three styles of key rows.
    let fkey_row: BlitRow = [
        0xe0000000,
        0x00000000,
        0x08000000,
        0x00000000,
        0x03ffffff,
        0xffffffff,
        0xffc00000,
        0x00000000,
        0x00100000,
        0x00000000,
        0x0007ffff,
    ];
    let alphanumeric_row: BlitRow = [
        0xe0000000,
        0x10000000,
        0x08000000,
        0x04000000,
        0x02000000,
        0x01800000,
        0x00400000,
        0x00200000,
        0x00100000,
        0x00080000,
        0x0007ffff,
    ];
    let spacebar_row: BlitRow = [
        0xffffffff,
        0xf0000000,
        0x08000000,
        0x04000000,
        0x00000000,
        0x00000000,
        0x00000000,
        0x00200000,
        0x00100000,
        0x000fffff,
        0xffffffff,
    ];
    let mut rel: usize = 0;
    while rel < KBD_H
        invariant
            0 <= rel <= KBD_H,
            yr.1 - yr.0 == KBD_H && yr.1 <= LCD_LINES,
            fkey_row@ =~= Seq::new(11, |k: int| fkey_row_word(k)),
            alphanumeric_row@ =~= Seq::new(11, |k: int| alnum_row_word(k)),
            spacebar_row@ =~= Seq::new(11, |k: int| spacebar_row_word(k)),
            fb.buf@.len() == blit::LCD_FRAME_BUF_SIZE,
            forall|wi: int|
                0 <= wi < blit::LCD_FRAME_BUF_SIZE ==> #[trigger] fb.buf@[wi] == (if yr.0 <= bit_y(
                    wi,
                ) < yr.0 + rel {
                    kbd_row_word(bit_y(wi) - yr.0, wi % 11)
                } else {
                    old(fb).buf@[wi]
                }),
            fb.dirty_flag() == old(fb).dirty_flag(),
        decreases KBD_H - rel,
    {
        let y = yr.0 + rel;
        if rel % 33 == 0 {
            blit::line_fill_clear(&mut fb.buf, y);
        } else if rel / 33 == 0 {
            blit::line_fill_pattern(&mut fb.buf, y, &fkey_row);
        } else if rel / 33 == 5 {
            blit::line_fill_pattern(&mut fb.buf, y, &spacebar_row);
        } else {
            blit::line_fill_pattern(&mut fb.buf, y, &alphanumeric_row);
        }
        rel = rel + 1;
    }
    proof {
        assert(fb.buf@ =~= spec_kbd_rows(old(fb).buf@, yr.0 as int));
    }
    keyboard_key_caps(fb, ctx, yr);
    fb.set_dirty();
}

/// The frame buffer after a whole home screen repaint: status bar with
/// title, battery and radio icons and clock; an outlined main content
/// box with the sample note in all three fonts and the typed text; and
/// the on-screen keyboard.
#[verifier::opaque]
pub open spec fn spec_home_screen<'a>(fbw: Seq<u32>, ctx: Context<'a>) -> Seq<u32> {
    let status = spec_clear_region(
        fbw,
        ClipRegion { x0: 0, x1: SCREEN_W, y0: STATUS_Y0, y1: STATUS_Y1 },
    );
    let titled = spec_string_bold(
        status,
        ClipRegion { x0: 4, x1: SCREEN_W, y0: STATUS_Y0, y1: STATUS_Y1 },
        ctx.status_title@,
    );
    let batt = spec_string_bold(
        titled,
        ClipRegion { x0: 192, x1: SCREEN_W, y0: STATUS_Y0, y1: STATUS_Y1 },
        Context::spec_battery_icon(ctx.status_battery),
    );
    let radio = spec_string_bold(
        batt,
        ClipRegion { x0: 228, x1: SCREEN_W, y0: STATUS_Y0, y1: STATUS_Y1 },
        Context::spec_radio_icon(ctx.status_radio),
    );
    let clock = spec_string_bold(
        radio,
        ClipRegion { x0: 262, x1: SCREEN_W, y0: STATUS_Y0, y1: STATUS_Y1 },
        ctx.status_time@,
    );
    let boxed = spec_outline_region(clock, YRegion(MAIN_Y0, MAIN_Y1));
    let n1 = spec_string_bold(
        boxed,
        ClipRegion { x0: 5, x1: SCREEN_W, y0: 35, y1: MAIN_Y1 },
        ctx.note@,
    );
    let n2 = spec_string_regular(
        n1,
        ClipRegion { x0: 5, x1: SCREEN_W, y0: 65, y1: MAIN_Y1 },
        ctx.note@,
    );
    let n3 = spec_string_small(
        n2,
        ClipRegion { x0: 5, x1: SCREEN_W, y0: 95, y1: MAIN_Y1 },
        ctx.note@,
    );
    let typed = spec_string_regular(
        n3,
        ClipRegion { x0: 5, x1: SCREEN_W, y0: 143, y1: MAIN_Y1 },
        ctx.text_model(),
    );
    spec_keyboard(typed, ctx.kbd_layout, ctx.kbd_modkey, YRegion(KBD_Y0, KBD_Y1))
}

/// Paint the home screen: status bar, outlined content box with the
/// note in three fonts and the typed text, and the on-screen keyboard.
pub fn home_screen(fb: &mut FrameBuf, ctx: &mut Context)
    requires
        old(ctx).wf(),
    ensures
        final(fb).buf@ == spec_home_screen(old(fb).buf@, *old(ctx)),
        final(fb).dirty_flag() == 1,
        *final(ctx) == *old(ctx),
{
    // Status bar: view title, battery and radio icons, clock.
    let mut cr = ClipRegion { x0: 0, x1: SCREEN_W, y0: STATUS_Y0, y1: STATUS_Y1 };
    blit::clear_region(&mut fb.buf, cr);
    cr.x0 = 4;
    blit::string_bold_left(&mut fb.buf, cr, ctx.status_title);
    cr.x0 = 33 * 6 - 6;
    let batt = ctx.battery_icon();
    blit::string_bold_left(&mut fb.buf, cr, batt);
    cr.x0 = 33 * 7 - 3;
    let radio = ctx.radio_icon();
    blit::string_bold_left(&mut fb.buf, cr, radio);
    cr.x0 = 33 * 8 - 2;
    blit::string_bold_left(&mut fb.buf, cr, ctx.status_time);
    // Main content area: outlined box, sample note, typed text.
    blit::outline_region(&mut fb.buf, YRegion(MAIN_Y0, MAIN_Y1));
    let mut cr2 = ClipRegion { x0: 5, x1: SCREEN_W, y0: MAIN_Y0 + 5, y1: MAIN_Y1 };
    blit::string_bold_left(&mut fb.buf, cr2, ctx.note);
    cr2.y0 = cr2.y0 + (fonts::bold::MAX_HEIGHT as usize);
    blit::string_regular_left(&mut fb.buf, cr2, ctx.note);
    cr2.y0 = cr2.y0 + (fonts::regular::MAX_HEIGHT as usize);
    blit::string_small_left(&mut fb.buf, cr2, ctx.note);
    cr2.y0 = cr2.y0 + (fonts::small::MAX_HEIGHT as usize) * 2;
    let typed = ctx.buffer();
    blit::string_regular_left(&mut fb.buf, cr2, typed.as_str());
    // On-screen keyboard.
    keyboard(fb, ctx, YRegion(KBD_Y0, KBD_Y1));
    fb.set_dirty();
    proof {
        reveal(spec_home_screen);
        assert(fb.buf@ == spec_home_screen(old(fb).buf@, *old(ctx)));
    }
}

} // verus!
