//! Word-aligned blit engine for the LCD frame buffer.
//!
//! The frame buffer packs one bit per pixel, 32 pixels per word, with the
//! most significant bit of a word holding the leftmost of its 32 pixels.
//! A set bit is background ("blank"); a clear bit is foreground (ink).
//! Every operation takes pixel coordinates that need not align with the
//! word grid, so each one builds partial-word masks for the edge words it
//! touches and whole-word writes for the interior.

use vstd::prelude::*;

use crate::fonts::{
    font_wf, glyph_data, glyph_pattern_offset, header_h, header_w, header_yo,
    lemma_offset_entry_ok, offset_of, record_words, Font, FontModel, GlyphHeader,
};

verus! {

/// Words of storage per LCD line.
pub const LCD_WORDS_PER_LINE: usize = 11;

/// Pixels per LCD line (the last line word is only half used).
pub const LCD_PX_PER_LINE: usize = 336;

/// Number of LCD lines.
pub const LCD_LINES: usize = 536;

/// Total words in the frame buffer.
pub const LCD_FRAME_BUF_SIZE: usize = LCD_WORDS_PER_LINE * LCD_LINES;

/// A whole LCD frame buffer.
pub type LcdFB = [u32; LCD_FRAME_BUF_SIZE];

/// One full-width line pattern.
pub type BlitRow = [u32; LCD_WORDS_PER_LINE];

/// A vertical band of lines, `self.0` included through `self.1` excluded.
#[derive(Copy, Clone)]
pub struct YRegion(pub usize, pub usize);

/// A pixel rectangle: columns `x0..x1` of lines `y0..y1` (half-open).
#[derive(Copy, Clone)]
pub struct ClipRegion {
    pub x0: usize,
    pub x1: usize,
    pub y0: usize,
    pub y1: usize,
}

/// True when bit `i` of word `w` is set, counting bit 0 as the most
/// significant bit, the word's leftmost pixel.
pub open spec fn word_bit(w: u32, i: u32) -> bool
    recommends
        i < 32,
{
    (w >> ((31 - i) as u32)) & 1u32 == 1u32
}

/// The pixel column shown by bit `i` of the word at index `wi`.
pub open spec fn bit_x(wi: int, i: u32) -> int {
    (wi % (LCD_WORDS_PER_LINE as int)) * 32 + i
}

/// The line shown by the word at index `wi`.
pub open spec fn bit_y(wi: int) -> int {
    wi / (LCD_WORDS_PER_LINE as int)
}

/// The region invariant every drawing operation enforces: bounds inside
/// the frame buffer and a non-empty rectangle.
pub open spec fn region_valid(cr: ClipRegion) -> bool {
    &&& cr.x0 < cr.x1
    &&& cr.x1 <= LCD_PX_PER_LINE
    &&& cr.y0 < cr.y1
    &&& cr.y1 <= LCD_LINES
}

/// True when pixel `(x, y)` lies inside `cr`.
pub open spec fn in_region(cr: ClipRegion, x: int, y: int) -> bool {
    &&& cr.x0 <= x < cr.x1
    &&& cr.y0 <= y < cr.y1
}

/// A word with bits `lo..hi` (from the MSB) set and all others clear.
pub open spec fn span_mask(lo: u32, hi: u32) -> u32
    recommends
        lo < hi <= 32,
{
    if hi >= 32 {
        0xffff_ffffu32 >> lo
    } else {
        (0xffff_ffffu32 >> lo) & !(0xffff_ffffu32 >> hi)
    }
}

/// The mask of pixels of word `wi` that lie inside region `cr`
/// (all zeros when the region is rejected or misses the word).
pub open spec fn region_mask_word(cr: ClipRegion, wi: int) -> u32 {
    let y = bit_y(wi);
    let k = wi % (LCD_WORDS_PER_LINE as int);
    if region_valid(cr) && cr.y0 <= y < cr.y1 {
        let lo = if cr.x0 > k * 32 {
            cr.x0 - k * 32
        } else {
            0
        };
        let hi = if cr.x1 < k * 32 + 32 {
            cr.x1 - k * 32
        } else {
            32
        };
        if lo < hi {
            span_mask(lo as u32, hi as u32)
        } else {
            0u32
        }
    } else {
        0u32
    }
}

/// The frame buffer after `clear_region`: every pixel of `cr` forced to
/// background (1), everything else untouched.
pub open spec fn spec_clear_region(fb: Seq<u32>, cr: ClipRegion) -> Seq<u32> {
    Seq::new(fb.len(), |wi: int| fb[wi] | region_mask_word(cr, wi))
}

/// The frame buffer after `invert_region`: every pixel of `cr` flipped,
/// everything else untouched.
pub open spec fn spec_invert_region(fb: Seq<u32>, cr: ClipRegion) -> Seq<u32> {
    Seq::new(fb.len(), |wi: int| fb[wi] ^ region_mask_word(cr, wi))
}

/// `span_mask(lo, hi)` holds exactly the bits `lo..hi`.
proof fn lemma_span_mask_bits(lo: u32, hi: u32)
    by (bit_vector)
    requires
        lo < hi <= 32,
    ensures
        forall|i: u32| i < 32 ==> (#[trigger] word_bit(span_mask(lo, hi), i)) == (lo <= i < hi),
{
}

/// Bitwise reading of an OR update: a set mask bit forces the bit on.
proof fn lemma_or_bits(w: u32, m: u32)
    by (bit_vector)
    ensures
        forall|i: u32| i < 32 ==> (#[trigger] word_bit(w | m, i)) == (word_bit(w, i) || word_bit(
            m,
            i,
        )),
{
}

/// Bitwise reading of an XOR update: a set mask bit flips the bit.
proof fn lemma_xor_bits(w: u32, m: u32)
    by (bit_vector)
    ensures
        forall|i: u32| i < 32 ==> (#[trigger] word_bit(w ^ m, i)) == (word_bit(w, i) != word_bit(
            m,
            i,
        )),
{
}

/// `region_mask_word` puts a set bit exactly on the pixels of the region:
/// the word-and-mask addressing scheme reaches precisely the requested
/// rectangle, never a neighbouring pixel.
pub proof fn lemma_region_mask_word_bits(cr: ClipRegion, wi: int, i: u32)
    requires
        0 <= wi < LCD_FRAME_BUF_SIZE,
        i < 32,
        region_valid(cr),
    ensures
        word_bit(region_mask_word(cr, wi), i) == in_region(cr, bit_x(wi, i), bit_y(wi)),
{
    let k = wi % (LCD_WORDS_PER_LINE as int);
    let y = bit_y(wi);
    let x = bit_x(wi, i);
    assert(0 <= k < 11) by {
        assert(wi % 11 >= 0 && wi % 11 < 11) by (nonlinear_arith)
            requires
                wi >= 0,
        ;
    };
    if cr.y0 <= y < cr.y1 {
        let lo = if cr.x0 > k * 32 {
            cr.x0 - k * 32
        } else {
            0
        };
        let hi = if cr.x1 < k * 32 + 32 {
            cr.x1 - k * 32
        } else {
            32
        };
        if lo < hi {
            lemma_span_mask_bits(lo as u32, hi as u32);
            assert(word_bit(span_mask(lo as u32, hi as u32), i) == (lo <= i < hi));
            assert((lo <= i < hi) == (cr.x0 <= x < cr.x1));
        } else {
            assert(region_mask_word(cr, wi) == 0u32);
            assert(!word_bit(0u32, i)) by (bit_vector);
            assert(!(cr.x0 <= x < cr.x1));
        }
    } else {
        assert(region_mask_word(cr, wi) == 0u32);
        assert(!word_bit(0u32, i)) by (bit_vector);
    }
}

/// `wi = y * LCD_WORDS_PER_LINE + k` decomposes as quotient `y`, rest `k`.
pub proof fn lemma_line_word_index(y: int, k: int)
    requires
        0 <= y,
        0 <= k < LCD_WORDS_PER_LINE,
    ensures
        (y * (LCD_WORDS_PER_LINE as int) + k) / (LCD_WORDS_PER_LINE as int) == y,
        (y * (LCD_WORDS_PER_LINE as int) + k) % (LCD_WORDS_PER_LINE as int) == k,
{
    assert((y * 11 + k) / 11 == y && (y * 11 + k) % 11 == k) by (nonlinear_arith)
        requires
            0 <= y,
            0 <= k < 11,
    ;
}

/// Set every pixel of `cr` to background (1). Malformed bounds draw
/// nothing at all.
pub fn clear_region(fb: &mut LcdFB, cr: ClipRegion)
    ensures
        final(fb)@ == spec_clear_region(old(fb)@, cr),
{
    region_op(fb, cr, false)
}

/// Flip every pixel of `cr`. Malformed bounds draw nothing at all.
pub fn invert_region(fb: &mut LcdFB, cr: ClipRegion)
    ensures
        final(fb)@ == spec_invert_region(old(fb)@, cr),
{
    region_op(fb, cr, true)
}

/// Shared body of `clear_region` (OR) and `invert_region` (XOR): the two
/// operations touch identical words with identical masks.
fn region_op(fb: &mut LcdFB, cr: ClipRegion, flip: bool)
    ensures
        flip ==> final(fb)@ == spec_invert_region(old(fb)@, cr),
        !flip ==> final(fb)@ == spec_clear_region(old(fb)@, cr),
{
    if cr.y1 > LCD_LINES || cr.y0 >= cr.y1 || cr.x1 > LCD_PX_PER_LINE || cr.x0 >= cr.x1 {
        proof {
            assert forall|wi: int| 0 <= wi < old(fb)@.len() implies old(fb)@[wi] == old(fb)@[wi]
                | region_mask_word(cr, wi) && old(fb)@[wi] == old(fb)@[wi] ^ region_mask_word(
                cr,
                wi,
            ) by {
                assert(region_mask_word(cr, wi) == 0u32);
                let w = old(fb)@[wi];
                assert(w | 0u32 == w && w ^ 0u32 == w) by (bit_vector);
            };
            assert(final(fb)@ =~= spec_clear_region(old(fb)@, cr));
            assert(final(fb)@ =~= spec_invert_region(old(fb)@, cr));
        }
        return ;
    }
    let dlw = cr.x0 >> 5;
    let dhw = (cr.x1 - 1) >> 5;
    proof {
        let x0 = cr.x0;
        let xm = (cr.x1 - 1) as usize;
        let x1 = cr.x1;
        assert(x0 >> 5 == x0 / 32 && x0 & 31 == x0 % 32) by (bit_vector);
        assert(xm >> 5 == xm / 32) by (bit_vector);
        assert(x1 & 31 == x1 % 32) by (bit_vector);
        assert(dlw <= dhw && dhw < 11) by (nonlinear_arith)
            requires
                dlw == cr.x0 / 32 && dhw == (cr.x1 - 1) / 32 && cr.x0 < cr.x1 <= 336,
        ;
    }
    // Mask for the leftmost touched word: pixels x0 % 32 and rightward.
    let low_mask: u32 = 0xffff_ffffu32 >> ((cr.x0 & 31) as u32);
    // Mask for the rightmost touched word: pixels leftward of x1 % 32.
    let high_mask: u32 = if cr.x1 & 31 == 0 {
        0xffff_ffffu32
    } else {
        !(0xffff_ffffu32 >> ((cr.x1 & 31) as u32))
    };
    proof {
        lemma_masks_match(cr, dlw as int, dhw as int, low_mask, high_mask);
    }
    let mut y = cr.y0;
    while y < cr.y1
        invariant
            region_valid(cr),
            cr.y0 <= y <= cr.y1,
            dlw == cr.x0 / 32,
            dhw == (cr.x1 - 1) / 32,
            dlw <= dhw < 11,
            forall|k: int|
                dlw <= k <= dhw ==> #[trigger] region_mask_for(cr, k) == mask_value(
                    dlw as int,
                    dhw as int,
                    low_mask,
                    high_mask,
                    k,
                ),
            fb@.len() == LCD_FRAME_BUF_SIZE,
            forall|wi: int|
                0 <= wi < LCD_FRAME_BUF_SIZE ==> #[trigger] fb@[wi] == (if cr.y0 <= bit_y(wi) < y {
                    apply_mask(old(fb)@[wi], region_mask_word(cr, wi), flip)
                } else {
                    old(fb)@[wi]
                }),
        decreases cr.y1 - y,
    {
        let base = y * LCD_WORDS_PER_LINE;
        proof {
            assert(base + 10 < LCD_FRAME_BUF_SIZE) by (nonlinear_arith)
                requires
                    base == y * 11 && y < 536,
            ;
        }
        proof {
            // Words of line y left of dlw carry a zero mask, so the row's
            // starting state already matches the processed form.
            assert forall|wi: int|
                0 <= wi < LCD_FRAME_BUF_SIZE && bit_y(wi) == y && wi - base < dlw implies fb@[wi]
                == apply_mask(old(fb)@[wi], region_mask_word(cr, wi), flip) by {
                assert(wi % 11 == wi - base);
                lemma_zero_mask_off_span(cr, wi, dlw as int, dhw as int);
                let w = old(fb)@[wi];
                assert(w | 0u32 == w && w ^ 0u32 == w) by (bit_vector);
            };
        }
        let mut k = dlw;
        while k <= dhw
            invariant
                region_valid(cr),
                cr.y0 <= y < cr.y1,
                base == y * 11,
                base + 10 < LCD_FRAME_BUF_SIZE,
                dlw == cr.x0 / 32,
                dhw == (cr.x1 - 1) / 32,
                dlw <= k <= dhw + 1,
                dhw < 11,
                forall|j: int|
                    dlw <= j <= dhw ==> #[trigger] region_mask_for(cr, j) == mask_value(
                        dlw as int,
                        dhw as int,
                        low_mask,
                        high_mask,
                        j,
                    ),
                fb@.len() == LCD_FRAME_BUF_SIZE,
                forall|wi: int|
                    0 <= wi < LCD_FRAME_BUF_SIZE ==> #[trigger] fb@[wi] == (if cr.y0 <= bit_y(wi)
                        < y || (bit_y(wi) == y && wi - base < k) {
                        apply_mask(old(fb)@[wi], region_mask_word(cr, wi), flip)
                    } else {
                        old(fb)@[wi]
                    }),
            decreases dhw + 1 - k,
        {
            let m: u32 = if k == dlw && k == dhw {
                low_mask & high_mask
            } else if k == dlw {
                low_mask
            } else if k == dhw {
                high_mask
            } else {
                0xffff_ffffu32
            };
            proof {
                lemma_line_word_index(y as int, k as int);
                assert(region_mask_word(cr, base + k) == region_mask_for(cr, k as int));
                assert(m == mask_value(dlw as int, dhw as int, low_mask, high_mask, k as int));
            }
            if flip {
                fb[base + k] = fb[base + k] ^ m;
            } else {
                fb[base + k] = fb[base + k] | m;
            }
            proof {
                assert forall|wi: int| 0 <= wi < LCD_FRAME_BUF_SIZE && wi != base + k implies bit_y(
                    wi,
                ) == bit_y(wi) by {};
                assert forall|wi: int|
                    0 <= wi < LCD_FRAME_BUF_SIZE && !(cr.y0 <= bit_y(wi) < y || (bit_y(wi) == y
                        && wi - base < k + 1)) implies wi != base + k by {
                    lemma_line_word_index(y as int, k as int);
                };
            }
            k = k + 1;
        }
        proof {
            // Words of line y outside dlw..=dhw carry a zero mask.
            assert forall|wi: int|
                0 <= wi < LCD_FRAME_BUF_SIZE && bit_y(wi) == y && !(dlw <= wi - base
                    <= dhw) implies #[trigger] region_mask_word(cr, wi) == 0u32 && apply_mask(
                old(fb)@[wi],
                0u32,
                flip,
            ) == old(fb)@[wi] by {
                lemma_zero_mask_off_span(cr, wi, dlw as int, dhw as int);
                let w = old(fb)@[wi];
                assert(w | 0u32 == w && w ^ 0u32 == w) by (bit_vector);
            };
        }
        y = y + 1;
    }
    proof {
        assert forall|wi: int| 0 <= wi < LCD_FRAME_BUF_SIZE implies #[trigger] fb@[wi]
            == apply_mask(old(fb)@[wi], region_mask_word(cr, wi), flip) by {
            if !(cr.y0 <= bit_y(wi) < cr.y1) {
                assert(region_mask_word(cr, wi) == 0u32);
                let w = old(fb)@[wi];
                assert(w | 0u32 == w && w ^ 0u32 == w) by (bit_vector);
            }
        };
        if flip {
            assert(fb@ =~= spec_invert_region(old(fb)@, cr));
        } else {
            assert(fb@ =~= spec_clear_region(old(fb)@, cr));
        }
    }
}

/// The region mask of column word `k` on any line the region covers.
spec fn region_mask_for(cr: ClipRegion, k: int) -> u32 {
    region_mask_word(cr, cr.y0 * (LCD_WORDS_PER_LINE as int) + k)
}

/// The mask `region_op` writes at column word `k`.
spec fn mask_value(dlw: int, dhw: int, low_mask: u32, high_mask: u32, k: int) -> u32 {
    if k == dlw && k == dhw {
        low_mask & high_mask
    } else if k == dlw {
        low_mask
    } else if k == dhw {
        high_mask
    } else {
        0xffff_ffffu32
    }
}

/// OR or XOR of one mask word, as `region_op` applies it.
spec fn apply_mask(w: u32, m: u32, flip: bool) -> u32 {
    if flip {
        w ^ m
    } else {
        w | m
    }
}

/// On a covered line, the computed edge and interior masks agree with
/// `region_mask_word`.
proof fn lemma_masks_match(cr: ClipRegion, dlw: int, dhw: int, low_mask: u32, high_mask: u32)
    requires
        region_valid(cr),
        dlw == cr.x0 / 32,
        dhw == (cr.x1 - 1) / 32,
        low_mask == 0xffff_ffffu32 >> ((cr.x0 % 32) as u32),
        high_mask == (if cr.x1 % 32 == 0 {
            0xffff_ffffu32
        } else {
            !(0xffff_ffffu32 >> ((cr.x1 % 32) as u32))
        }),
    ensures
        forall|k: int|
            dlw <= k <= dhw ==> #[trigger] region_mask_for(cr, k) == mask_value(
                dlw,
                dhw,
                low_mask,
                high_mask,
                k,
            ),
{
    assert forall|k: int| dlw <= k <= dhw implies #[trigger] region_mask_for(cr, k) == mask_value(
        dlw,
        dhw,
        low_mask,
        high_mask,
        k,
    ) by {
        let wi = cr.y0 * 11 + k;
        assert(0 <= k < 11 && 0 <= dlw && dhw < 11) by (nonlinear_arith)
            requires
                dlw == cr.x0 / 32 && dhw == (cr.x1 - 1) / 32 && cr.x0 < cr.x1 <= 336 && dlw <= k
                    <= dhw,
        ;
        lemma_line_word_index(cr.y0 as int, k);
        assert(bit_y(wi) == cr.y0);
        let lo = if cr.x0 > k * 32 {
            cr.x0 - k * 32
        } else {
            0
        };
        let hi = if cr.x1 < k * 32 + 32 {
            cr.x1 - k * 32
        } else {
            32
        };
        assert(dlw * 32 <= cr.x0 < dlw * 32 + 32 && dhw * 32 < cr.x1 <= dhw * 32 + 32)
            by (nonlinear_arith)
            requires
                dlw == cr.x0 / 32 && dhw == (cr.x1 - 1) / 32 && 0 < cr.x1,
        ;
        if k == dlw && k == dhw {
            assert(lo == cr.x0 % 32 && (hi == 32 <==> cr.x1 % 32 == 0) && (cr.x1 % 32 != 0 ==> hi
                == cr.x1 % 32)) by (nonlinear_arith)
                requires
                    k == cr.x0 / 32 && k == (cr.x1 - 1) / 32 && lo == cr.x0 - k * 32 && 0 < cr.x1
                        && (hi == if cr.x1 < k * 32 + 32 {
                        cr.x1 - k * 32
                    } else {
                        32
                    }),
            ;
            assert(lo < hi);
            lemma_span_low_high(lo as u32, hi as u32);
        } else if k == dlw {
            assert(lo == cr.x0 % 32 && hi == 32) by (nonlinear_arith)
                requires
                    k == cr.x0 / 32 && k < (cr.x1 - 1) / 32 && lo == (if cr.x0 > k * 32 {
                        cr.x0 - k * 32
                    } else {
                        0
                    }) && (hi == if cr.x1 < k * 32 + 32 {
                        cr.x1 - k * 32
                    } else {
                        32
                    }),
            ;
            assert(span_mask(lo as u32, 32) == low_mask);
        } else if k == dhw {
            assert(lo == 0 && (hi == 32 <==> cr.x1 % 32 == 0) && (cr.x1 % 32 != 0 ==> hi == cr.x1
                % 32)) by (nonlinear_arith)
                requires
                    cr.x0 / 32 < k && k == (cr.x1 - 1) / 32 && 0 < cr.x1 && lo == (if cr.x0 > k
                        * 32 {
                        cr.x0 - k * 32
                    } else {
                        0
                    }) && (hi == if cr.x1 < k * 32 + 32 {
                        cr.x1 - k * 32
                    } else {
                        32
                    }),
            ;
            assert(0 < hi);
            lemma_span_low_zero(hi as u32);
        } else {
            assert(lo == 0 && hi == 32) by (nonlinear_arith)
                requires
                    cr.x0 / 32 < k && k < (cr.x1 - 1) / 32 && lo == (if cr.x0 > k * 32 {
                        cr.x0 - k * 32
                    } else {
                        0
                    }) && (hi == if cr.x1 < k * 32 + 32 {
                        cr.x1 - k * 32
                    } else {
                        32
                    }),
            ;
            assert(span_mask(0, 32) == 0xffff_ffffu32) by (bit_vector);
        }
    };
}

/// A single-word region mask is the AND of its two edge masks.
proof fn lemma_span_low_high(lo: u32, hi: u32)
    by (bit_vector)
    requires
        lo < hi <= 32,
    ensures
        span_mask(lo, hi) == (0xffff_ffffu32 >> lo) & (if hi % 32 == 0 {
            0xffff_ffffu32
        } else {
            !(0xffff_ffffu32 >> hi)
        }),
{
}

/// A rightmost-word mask starts at the word's first pixel.
proof fn lemma_span_low_zero(hi: u32)
    by (bit_vector)
    requires
        0 < hi <= 32,
    ensures
        span_mask(0, hi) == (if hi % 32 == 0 {
            0xffff_ffffu32
        } else {
            !(0xffff_ffffu32 >> hi)
        }),
{
}

/// Offset of the glyph record that font `m` uses for `c`.
pub open spec fn char_gpo(m: FontModel, c: char) -> int {
    offset_of(m, c)
}

/// Pixel width of the glyph for `c`.
pub open spec fn char_w(m: FontModel, c: char) -> u32 {
    header_w(m.data[char_gpo(m, c)])
}

/// Pixel height of the glyph for `c`.
pub open spec fn char_h(m: FontModel, c: char) -> u32 {
    header_h(m.data[char_gpo(m, c)])
}

/// Vertical offset of the glyph for `c`.
pub open spec fn char_yo(m: FontModel, c: char) -> u32 {
    header_yo(m.data[char_gpo(m, c)])
}

/// When a glyph draw is carried out rather than rejected: the region
/// invariant holds, the glyph is at most 32 pixels wide, and the padded
/// glyph fits within the line.
pub open spec fn char_accepted(cr: ClipRegion, c: char, m: FontModel) -> bool {
    &&& region_valid(cr)
    &&& char_w(m, c) <= 32
    &&& cr.x0 + 1 + char_w(m, c) <= LCD_PX_PER_LINE
}

/// Top line the glyph for `c` is drawn on: the anchor plus the glyph's
/// own vertical offset, which always applies in full.
pub open spec fn char_y0(cr: ClipRegion, c: char, m: FontModel) -> int {
    cr.y0 + char_yo(m, c)
}

/// Rows of the glyph actually drawn: the full height, clipped so that no
/// row lands on or past the region's bottom edge.
pub open spec fn char_rows(cr: ClipRegion, c: char, m: FontModel) -> int {
    let y0 = char_y0(cr, c, m);
    if y0 + char_h(m, c) <= cr.y1 {
        char_h(m, c) as int
    } else if y0 < cr.y1 {
        cr.y1 - y0
    } else {
        0
    }
}

/// Row `r` of a glyph's pixels, extracted from the packed payload and
/// left-justified: bit `j` from the MSB is the row's pixel `j`. The row
/// starts `r * w` bits into the payload, so it may straddle two payload
/// words; the straddling case concatenates the tail of the low word with
/// the head of the high word.
pub open spec fn glyph_row_pattern(data: Seq<u32>, gpo: int, w: u32, r: int) -> u32
    recommends
        1 <= w <= 32,
        r >= 0,
{
    let po = r * (w as int);
    let lw = gpo + 1 + po / 32;
    let s = (po % 32) as u32;
    if w <= 32 - s {
        (data[lw] >> ((32 - s - w) as u32)) << ((32 - w) as u32)
    } else {
        (data[lw] << s) | ((data[lw + 1] >> ((64 - s - w) as u32)) << ((32 - w) as u32))
    }
}

/// The XOR mask a glyph draw applies to the word at index `wi`: zero
/// except on the one or two words per drawn row that the glyph's column
/// run touches.
#[verifier::opaque]
pub open spec fn char_mask(m: FontModel, cr: ClipRegion, c: char, wi: int) -> u32 {
    let y = bit_y(wi);
    let k = wi % (LCD_WORDS_PER_LINE as int);
    let w = char_w(m, c);
    let y0 = char_y0(cr, c, m);
    let x0 = cr.x0 + 1;
    let d = (x0 % 32) as u32;
    let dlw = x0 / 32;
    if char_accepted(cr, c, m) && w > 0 && y0 <= y < y0 + char_rows(cr, c, m) {
        let p = glyph_row_pattern(m.data, char_gpo(m, c), w, y - y0);
        if k == dlw {
            p >> d
        } else if k == dlw + 1 && 32 - d < w {
            p << ((32 - d) as u32)
        } else {
            0u32
        }
    } else {
        0u32
    }
}

/// The frame buffer after `xor_char`: each word XORed with the glyph's
/// mask when the draw is accepted, untouched when it is rejected.
pub open spec fn spec_xor_char(fb: Seq<u32>, cr: ClipRegion, c: char, m: FontModel) -> Seq<u32> {
    if char_accepted(cr, c, m) {
        Seq::new(fb.len(), |wi: int| fb[wi] ^ char_mask(m, cr, c, wi))
    } else {
        fb
    }
}

/// Horizontal advance `xor_char` reports: glyph width plus 1 px left pad
/// and 2 px right pad when accepted, zero when rejected.
pub open spec fn spec_char_advance(cr: ClipRegion, c: char, m: FontModel) -> int {
    if char_accepted(cr, c, m) {
        char_w(m, c) + 3
    } else {
        0
    }
}

/// On a drawn row, the word holding the run's first pixel receives the
/// row pattern shifted right to the pixel's bit position.
proof fn lemma_char_mask_low(m: FontModel, cr: ClipRegion, c: char, wi: int)
    requires
        char_accepted(cr, c, m),
        char_w(m, c) >= 1,
        char_y0(cr, c, m) <= bit_y(wi) < char_y0(cr, c, m) + char_rows(cr, c, m),
        wi % (LCD_WORDS_PER_LINE as int) == (cr.x0 + 1) / 32,
    ensures
        char_mask(m, cr, c, wi) == glyph_row_pattern(
            m.data,
            char_gpo(m, c),
            char_w(m, c),
            bit_y(wi) - char_y0(cr, c, m),
        ) >> (((cr.x0 + 1) % 32) as u32),
{
    reveal(char_mask);
}

/// On a drawn row whose run crosses a word boundary, the next word
/// receives the pattern's remaining low-order bits at its left edge.
proof fn lemma_char_mask_high(m: FontModel, cr: ClipRegion, c: char, wi: int)
    requires
        char_accepted(cr, c, m),
        char_w(m, c) >= 1,
        char_y0(cr, c, m) <= bit_y(wi) < char_y0(cr, c, m) + char_rows(cr, c, m),
        wi % (LCD_WORDS_PER_LINE as int) == (cr.x0 + 1) / 32 + 1,
        32 - ((cr.x0 + 1) % 32) < char_w(m, c),
    ensures
        char_mask(m, cr, c, wi) == glyph_row_pattern(
            m.data,
            char_gpo(m, c),
            char_w(m, c),
            bit_y(wi) - char_y0(cr, c, m),
        ) << ((32 - ((cr.x0 + 1) % 32)) as u32),
{
    reveal(char_mask);
}

/// Every word off the drawn rows, or on them but outside the run's one
/// or two words, carries a zero mask.
proof fn lemma_char_mask_zero(m: FontModel, cr: ClipRegion, c: char, wi: int)
    requires
        !{
            &&& char_accepted(cr, c, m)
            &&& char_w(m, c) >= 1
            &&& char_y0(cr, c, m) <= bit_y(wi) < char_y0(cr, c, m) + char_rows(cr, c, m)
            &&& {
                ||| wi % (LCD_WORDS_PER_LINE as int) == (cr.x0 + 1) / 32
                ||| (wi % (LCD_WORDS_PER_LINE as int) == (cr.x0 + 1) / 32 + 1 && 32 - ((cr.x0 + 1)
                    % 32) < char_w(m, c))
            }
        },
    ensures
        char_mask(m, cr, c, wi) == 0u32,
{
    reveal(char_mask);
}

/// Words whose column lies outside `dlw..=dhw` get no region pixels.
proof fn lemma_zero_mask_off_span(cr: ClipRegion, wi: int, dlw: int, dhw: int)
    requires
        region_valid(cr),
        0 <= wi,
        dlw == cr.x0 / 32,
        dhw == (cr.x1 - 1) / 32,
        !(dlw <= wi % (LCD_WORDS_PER_LINE as int) <= dhw),
    ensures
        region_mask_word(cr, wi) == 0u32,
{
    let k = wi % (LCD_WORDS_PER_LINE as int);
    assert(0 <= k < 11) by (nonlinear_arith)
        requires
            wi >= 0 && k == wi % 11,
    ;
    if region_valid(cr) && cr.y0 <= bit_y(wi) < cr.y1 {
        let lo = if cr.x0 > k * 32 {
            cr.x0 - k * 32
        } else {
            0
        };
        let hi = if cr.x1 < k * 32 + 32 {
            cr.x1 - k * 32
        } else {
            32
        };
        assert(!(lo < hi)) by (nonlinear_arith)
            requires
                !(dlw <= k <= dhw) && dlw == cr.x0 / 32 && dhw == (cr.x1 - 1) / 32 && 0 < cr.x1
                    && 0 <= k && lo == (if cr.x0 > k * 32 {
                    cr.x0 - k * 32
                } else {
                    0
                }) && (hi == if cr.x1 < k * 32 + 32 {
                    cr.x1 - k * 32
                } else {
                    32
                }),
        ;
    }
}

/// XOR is its own inverse, word by word.
proof fn lemma_xor_involution(w: u32, m: u32)
    by (bit_vector)
    ensures
        (w ^ m) ^ m == w,
        w ^ 0u32 == w,
{
}

/// Draw the glyph for `c` with XOR compositing, anchored at the region's
/// top left corner with a 1 px left pad, clipped at the region's bottom
/// edge. Returns the horizontal advance (width + 3 px of padding), or 0
/// when the draw was rejected and nothing was written.
pub fn xor_char(fb: &mut LcdFB, cr: ClipRegion, c: char, f: Font) -> (adv: usize)
    requires
        font_wf(f@),
    ensures
        final(fb)@ == spec_xor_char(old(fb)@, cr, c, f@),
        adv == spec_char_advance(cr, c, f@),
{
    if cr.y1 > LCD_LINES || cr.y0 >= cr.y1 || cr.x1 > LCD_PX_PER_LINE || cr.x0 >= cr.x1 {
        return 0;
    }
    proof {
        lemma_offset_entry_ok(f@, c);
    }
    // Look up the glyph and unpack its header.
    let gpo = glyph_pattern_offset(f.glyph_set, c);
    let gh = GlyphHeader::new(glyph_data(f.glyph_set, gpo));
    if gh.w > 32 {
        return 0;
    }
    // 1 px pad to the left of the glyph.
    if cr.x0 + 1 + gh.w > LCD_PX_PER_LINE {
        return 0;
    }
    xor_char_rows(fb, cr, c, f, gpo, gh);
    gh.w + 3
}

/// The row loop of `xor_char`, entered once the draw is accepted.
fn xor_char_rows(fb: &mut LcdFB, cr: ClipRegion, c: char, f: Font, gpo: usize, gh: GlyphHeader)
    requires
        font_wf(f@),
        char_accepted(cr, c, f@),
        gpo == char_gpo(f@, c),
        gh.w == char_w(f@, c),
        gh.h == char_h(f@, c),
        gh.y_offset == char_yo(f@, c),
    ensures
        final(fb)@ == spec_xor_char(old(fb)@, cr, c, f@),
{
    let ghost m = f@;
    if gh.w == 0 {
        // A zero-width glyph has no pixels; only the padding advances.
        proof {
            assert forall|wi: int| 0 <= wi < old(fb)@.len() implies old(fb)@[wi] == old(fb)@[wi]
                ^ char_mask(f@, cr, c, wi) by {
                lemma_char_mask_zero(f@, cr, c, wi);
                lemma_xor_involution(old(fb)@[wi], 0u32);
            };
            assert(final(fb)@ =~= spec_xor_char(old(fb)@, cr, c, f@));
        }
        return ;
    }
    // Word alignment for the destination.
    let x0 = cr.x0 + 1;
    let dlw = x0 >> 5;
    let d: u32 = (x0 & 31) as u32;
    proof {
        assert(x0 >> 5 == x0 / 32 && x0 & 31 == x0 % 32) by (bit_vector);
        assert(dlw <= 10) by (nonlinear_arith)
            requires
                dlw == x0 / 32 && x0 <= 336,
        ;
        lemma_entry_bounds(m, c);
    }
    // Clip so that no row is drawn on or past the region's bottom edge.
    let y0 = cr.y0 + gh.y_offset;
    let y_max = if y0 + gh.h <= cr.y1 {
        gh.h
    } else if y0 < cr.y1 {
        cr.y1 - y0
    } else {
        0
    };
    let mut row: usize = 0;
    while row < y_max
        invariant
            font_wf(m),
            m == f@,
            char_accepted(cr, c, m),
            gpo == char_gpo(m, c),
            gh.w == char_w(m, c) && gh.h == char_h(m, c) && gh.y_offset == char_yo(m, c),
            1 <= gh.w <= 32,
            gh.h <= 255,
            x0 == cr.x0 + 1,
            x0 + gh.w <= 336,
            dlw == x0 / 32 && dlw <= 10,
            d == (x0 % 32) as u32,
            y0 == char_y0(cr, c, m),
            y_max == char_rows(cr, c, m),
            y_max <= gh.h,
            y_max > 0 ==> y0 + y_max <= cr.y1,
            cr.y1 <= 536,
            gpo + 1 + record_words(gh.w as int, gh.h as int) <= m.data.len(),
            0 <= row <= y_max,
            fb@.len() == LCD_FRAME_BUF_SIZE,
            forall|wi: int|
                0 <= wi < LCD_FRAME_BUF_SIZE ==> #[trigger] fb@[wi] == (if y0 <= bit_y(wi) < y0
                    + row {
                    old(fb)@[wi] ^ char_mask(m, cr, c, wi)
                } else {
                    old(fb)@[wi]
                }),
        decreases y_max - row,
    {
        let ghost prev = fb@;
        xor_char_one_row(fb, cr, c, f, gpo, gh, x0, dlw, d, y0, row);
        proof {
            assert forall|wi: int| 0 <= wi < LCD_FRAME_BUF_SIZE implies #[trigger] fb@[wi] == (
            if y0 <= bit_y(wi) < y0 + row + 1 {
                old(fb)@[wi] ^ char_mask(m, cr, c, wi)
            } else {
                old(fb)@[wi]
            }) by {
                if bit_y(wi) == y0 + row {
                    assert(prev[wi] == old(fb)@[wi]);
                } else {
                    assert(fb@[wi] == prev[wi]);
                }
            };
        }
        row = row + 1;
    }
    proof {
        assert forall|wi: int| 0 <= wi < LCD_FRAME_BUF_SIZE implies #[trigger] fb@[wi] == old(
            fb,
        )@[wi] ^ char_mask(m, cr, c, wi) by {
            if !(y0 <= bit_y(wi) < y0 + y_max) {
                lemma_char_mask_zero(m, cr, c, wi);
                lemma_xor_involution(old(fb)@[wi], 0u32);
            }
        };
        assert(fb@ =~= spec_xor_char(old(fb)@, cr, c, f@));
    }
}

/// In a well-formed font the glyph record for `c` lies fully inside the
/// data array.
proof fn lemma_entry_bounds(m: FontModel, c: char)
    requires
        font_wf(m),
    ensures
        0 <= char_gpo(m, c),
        char_gpo(m, c) + 1 + record_words(char_w(m, c) as int, char_h(m, c) as int)
            <= m.data.len(),
        char_h(m, c) + char_yo(m, c) <= m.max_height,
{
    lemma_offset_entry_ok(m, c);
}

/// Draw one glyph row: extract its `w` pixels from the packed payload
/// and XOR them into the one or two destination words they touch. Only
/// the words of line `y0 + row` change.
fn xor_char_one_row(
    fb: &mut LcdFB,
    cr: ClipRegion,
    c: char,
    f: Font,
    gpo: usize,
    gh: GlyphHeader,
    x0: usize,
    dlw: usize,
    d: u32,
    y0: usize,
    row: usize,
)
    requires
        font_wf(f@),
        char_accepted(cr, c, f@),
        gpo == char_gpo(f@, c),
        gh.w == char_w(f@, c) && gh.h == char_h(f@, c),
        1 <= gh.w <= 32,
        gh.h <= 255,
        x0 == cr.x0 + 1,
        x0 + gh.w <= 336,
        dlw == x0 / 32 && dlw <= 10,
        d == (x0 % 32) as u32,
        y0 == char_y0(cr, c, f@),
        0 <= row < char_rows(cr, c, f@),
        y0 + char_rows(cr, c, f@) <= cr.y1,
        cr.y1 <= 536,
        gpo + 1 + record_words(gh.w as int, gh.h as int) <= f@.data.len(),
        old(fb)@.len() == LCD_FRAME_BUF_SIZE,
    ensures
        final(fb)@.len() == LCD_FRAME_BUF_SIZE,
        forall|wi: int|
            0 <= wi < LCD_FRAME_BUF_SIZE ==> #[trigger] final(fb)@[wi] == (if bit_y(wi) == y0
                + row {
                old(fb)@[wi] ^ char_mask(f@, cr, c, wi)
            } else {
                old(fb)@[wi]
            }),
{
    let ghost m = f@;
    let w32: u32 = gh.w as u32;
    proof {
        assert(row < char_rows(cr, c, m) <= gh.h);
        assert(row * gh.w <= 254 * 32 && row * gh.w + gh.w <= gh.w * gh.h) by (nonlinear_arith)
            requires
                row < gh.h <= 255 && 1 <= gh.w <= 32,
        ;
    }
    // Extract this row's `w` pixels, left-justified, from the packed
    // payload. The row starts `row * w` bits into the payload.
    let px_offset = row * gh.w;
    proof {
        assert(px_offset >> 5 == px_offset / 32 && px_offset & 31 == px_offset % 32)
            by (bit_vector);
        assert(px_offset / 32 < record_words(gh.w as int, gh.h as int)) by (nonlinear_arith)
            requires
                record_words(gh.w as int, gh.h as int) == (gh.w * gh.h + 31) / 32 && px_offset
                    + gh.w <= gh.w * gh.h && 1 <= gh.w,
        ;
    }
    let low_word = gpo + 1 + (px_offset >> 5);
    let s: u32 = (px_offset & 31) as u32;
    let d0 = glyph_data(f.glyph_set, low_word);
    let pat: u32 = if w32 <= 32 - s {
        // All pixels of this row sit inside the low payload word.
        (d0 >> (32 - s - w32)) << (32 - w32)
    } else {
        // The row straddles a payload word boundary.
        proof {
            assert(px_offset / 32 + 2 <= (gh.w * gh.h + 31) / 32 + 1) by (nonlinear_arith)
                requires
                    px_offset % 32 + gh.w > 32 && px_offset + gh.w <= gh.w * gh.h && px_offset >= 0
                        && gh.w >= 1,
            ;
        }
        let d1 = glyph_data(f.glyph_set, low_word + 1);
        (d0 << s) | ((d1 >> (64 - s - w32)) << (32 - w32))
    };
    proof {
        assert(pat == glyph_row_pattern(m.data, gpo as int, w32, row as int));
    }
    // XOR the pattern into the one or two destination words.
    let base = (y0 + row) * LCD_WORDS_PER_LINE;
    proof {
        assert(base + 10 < LCD_FRAME_BUF_SIZE) by (nonlinear_arith)
            requires
                base == (y0 + row) * 11 && y0 + row < 536,
        ;
        lemma_line_word_index((y0 + row) as int, dlw as int);
        lemma_char_mask_low(m, cr, c, base + dlw as int);
        assert(char_mask(m, cr, c, base + dlw) == pat >> d);
    }
    fb[base + dlw] = fb[base + dlw] ^ (pat >> d);
    if 32 - d < w32 {
        proof {
            assert(dlw <= 9) by (nonlinear_arith)
                requires
                    x0 == dlw * 32 + (x0 % 32) && (x0 % 32) + w32 > 32 && x0 + w32 <= 336 && w32
                        <= 32,
            ;
            lemma_line_word_index((y0 + row) as int, dlw as int + 1);
            lemma_char_mask_high(m, cr, c, base + dlw as int + 1);
            assert(char_mask(m, cr, c, base + dlw + 1) == pat << ((32 - d) as u32));
        }
        fb[base + dlw + 1] = fb[base + dlw + 1] ^ (pat << (32 - d));
    }
    proof {
        assert forall|wi: int|
            0 <= wi < LCD_FRAME_BUF_SIZE && bit_y(wi) == y0 + row && fb@[wi] == old(
                fb,
            )@[wi] implies fb@[wi] == old(fb)@[wi] ^ char_mask(m, cr, c, wi) by {
            assert(wi % 11 == wi - (y0 + row) * 11);
            if wi != base + dlw && !(wi == base + dlw + 1 && 32 - d < w32) {
                lemma_char_mask_zero(m, cr, c, wi);
                lemma_xor_involution(old(fb)@[wi], 0u32);
            }
        };
    }
}

/// Width in pixels of the glyph for `c`.
pub fn char_width(c: char, f: Font) -> (w: usize)
    requires
        font_wf(f@),
    ensures
        w == char_w(f@, c),
{
    proof {
        lemma_offset_entry_ok(f@, c);
    }
    let gpo = glyph_pattern_offset(f.glyph_set, c);
    let gh = GlyphHeader::new(glyph_data(f.glyph_set, gpo));
    gh.w
}

/// Total advance of a string: for each character its glyph width plus
/// 3 px of padding.
pub open spec fn spec_string_width_sum(s: Seq<char>, m: FontModel) -> int
    decreases s.len(),
{
    if s.len() == 0 {
        0
    } else {
        spec_string_width_sum(s.drop_last(), m) + char_w(m, s.last()) + 3
    }
}

/// Each character contributes at least 3 and at most 258 to the sum.
pub proof fn lemma_string_width_sum_bounds(s: Seq<char>, m: FontModel)
    ensures
        3 * s.len() <= spec_string_width_sum(s, m) <= 258 * s.len(),
    decreases s.len(),
{
    if s.len() > 0 {
        lemma_string_width_sum_bounds(s.drop_last(), m);
        let h = m.data[char_gpo(m, s.last())];
        assert((h >> 16u32) & 0xffu32 <= 255) by (bit_vector);
    }
}

/// A prefix of a string never advances further than the whole string.
proof fn lemma_string_width_sum_take_le(s: Seq<char>, m: FontModel, i: int)
    requires
        0 <= i <= s.len(),
    ensures
        spec_string_width_sum(s.take(i), m) <= spec_string_width_sum(s, m),
    decreases s.len() - i,
{
    if i < s.len() {
        lemma_string_width_sum_take_le(s, m, i + 1);
        assert(s.take(i + 1).drop_last() =~= s.take(i));
    } else {
        assert(s.take(i) =~= s);
    }
}

/// Width in pixels of a whole string: glyph widths plus 3 px between
/// characters, minus 1 px to cancel the final character's outer pad.
/// The formula has no meaning for an empty string; that case is
/// explicitly defined to return 0, and callers that care must treat an
/// empty string themselves. The precondition is the machine limit: the
/// summed advance must fit in a `usize`.
pub fn string_width(s: &str, f: Font) -> (w: usize)
    requires
        font_wf(f@),
        spec_string_width_sum(s@, f@) <= usize::MAX,
    ensures
        s@.len() > 0 ==> w == spec_string_width_sum(s@, f@) - 1,
        s@.len() == 0 ==> w == 0,
{
    let mut total: usize = 0;
    for c in it: s.chars()
        invariant
            font_wf(f@),
            it.seq() == s@,
            spec_string_width_sum(s@, f@) <= usize::MAX,
            total == spec_string_width_sum(s@.take(it.index() as int), f@),
        decreases s@.len() - it.index(),
    {
        let ghost i = it.index() as int;
        proof {
            lemma_offset_entry_ok(f@, c);
            assert(s@.take(i + 1).drop_last() =~= s@.take(i));
            assert(s@.take(i + 1).last() == s@[i]);
            lemma_string_width_sum_take_le(s@, f@, i + 1);
        }
        total = total + (char_width(c, f) + 3);
    }
    proof {
        assert(s@.take(s@.len() as int) =~= s@);
        if s@.len() > 0 {
            lemma_string_width_sum_bounds(s@, f@);
        }
    }
    if total == 0 {
        0
    } else {
        total - 1
    }
}

/// The frame buffer after drawing a string left-to-right from `cr`'s
/// top-left corner: each character is drawn with `xor_char` and the
/// anchor advances by the width the draw reported.
pub open spec fn spec_string_left(fb: Seq<u32>, cr: ClipRegion, s: Seq<char>, m: FontModel) -> Seq<
    u32,
>
    decreases s.len(),
{
    if s.len() == 0 {
        fb
    } else {
        let fb1 = spec_xor_char(fb, cr, s[0], m);
        let cr1 = ClipRegion {
            x0: (cr.x0 + spec_char_advance(cr, s[0], m)) as usize,
            x1: cr.x1,
            y0: cr.y0,
            y1: cr.y1,
        };
        spec_string_left(fb1, cr1, s.skip(1), m)
    }
}

/// Draw each character of `s` with XOR compositing, advancing the
/// anchor; a rejected character advances by 0 and the rest still draw.
fn string_left(fb: &mut LcdFB, cr: ClipRegion, s: &str, f: Font)
    requires
        font_wf(f@),
    ensures
        final(fb)@ == spec_string_left(old(fb)@, cr, s@, f@),
{
    let mut cur = cr;
    proof {
        assert(s@.skip(0) =~= s@);
    }
    for c in it: s.chars()
        invariant
            font_wf(f@),
            it.seq() == s@,
            cur.x1 == cr.x1 && cur.y0 == cr.y0 && cur.y1 == cr.y1,
            spec_string_left(old(fb)@, cr, s@, f@) == spec_string_left(
                fb@,
                cur,
                s@.skip(it.index() as int),
                f@,
            ),
        decreases s@.len() - it.index(),
    {
        let ghost i = it.index() as int;
        let ghost rem = s@.skip(i);
        proof {
            assert(rem[0] == s@[i]);
            lemma_offset_entry_ok(f@, c);
        }
        let adv = xor_char(fb, cur, c, f);
        cur.x0 = cur.x0 + adv;
        proof {
            assert(rem.skip(1) =~= s@.skip(i + 1));
        }
    }
    proof {
        assert(s@.skip(s@.len() as int) =~= Seq::<char>::empty());
    }
}

/// Drawing a string in the bold font: a left-to-right fold of glyph
/// draws, or the identity if the bold tables failed their check.
pub open spec fn spec_string_bold(fb: Seq<u32>, cr: ClipRegion, s: Seq<char>) -> Seq<u32> {
    if font_wf(crate::fonts::bold::model()) {
        spec_string_left(fb, cr, s, crate::fonts::bold::model())
    } else {
        fb
    }
}

/// Drawing a string in the regular font, as `spec_string_bold`.
pub open spec fn spec_string_regular(fb: Seq<u32>, cr: ClipRegion, s: Seq<char>) -> Seq<u32> {
    if font_wf(crate::fonts::regular::model()) {
        spec_string_left(fb, cr, s, crate::fonts::regular::model())
    } else {
        fb
    }
}

/// Drawing a string in the small font, as `spec_string_bold`.
pub open spec fn spec_string_small(fb: Seq<u32>, cr: ClipRegion, s: Seq<char>) -> Seq<u32> {
    if font_wf(crate::fonts::small::model()) {
        spec_string_left(fb, cr, s, crate::fonts::small::model())
    } else {
        fb
    }
}

/// Drawing one character in the regular font, or the identity if the
/// regular tables failed their check.
pub open spec fn spec_xor_char_regular(fb: Seq<u32>, cr: ClipRegion, c: char) -> Seq<u32> {
    if font_wf(crate::fonts::regular::model()) {
        spec_xor_char(fb, cr, c, crate::fonts::regular::model())
    } else {
        fb
    }
}

/// Draw `s` in the bold font, aligned left at `cr`'s top-left corner.
pub fn string_bold_left(fb: &mut LcdFB, cr: ClipRegion, s: &str)
    ensures
        final(fb)@ == spec_string_bold(old(fb)@, cr, s@),
{
    if let Some(f) = Font::new(crate::fonts::GlyphSet::Bold) {
        string_left(fb, cr, s, f);
    }
}

/// Draw `s` in the regular font, aligned left at `cr`'s top-left corner.
pub fn string_regular_left(fb: &mut LcdFB, cr: ClipRegion, s: &str)
    ensures
        final(fb)@ == spec_string_regular(old(fb)@, cr, s@),
{
    if let Some(f) = Font::new(crate::fonts::GlyphSet::Regular) {
        string_left(fb, cr, s, f);
    }
}

/// Draw `s` in the small font, aligned left at `cr`'s top-left corner.
pub fn string_small_left(fb: &mut LcdFB, cr: ClipRegion, s: &str)
    ensures
        final(fb)@ == spec_string_small(old(fb)@, cr, s@),
{
    if let Some(f) = Font::new(crate::fonts::GlyphSet::Small) {
        string_left(fb, cr, s, f);
    }
}

/// Word `k` of a cleared (all background) line.
pub open spec fn clear_row_word(k: int) -> u32 {
    if k == 10 {
        0xffff_0000u32
    } else {
        0xffff_ffffu32
    }
}

/// Word `k` of a solid black line inset 2 px at either end.
pub open spec fn solid_row_word(k: int) -> u32 {
    if k == 0 {
        0xc000_0000u32
    } else if k == 10 {
        0x0003_0000u32
    } else {
        0x0000_0000u32
    }
}

/// Word `k` of a background line with a 1 px black border at either
/// end, inset 2 px.
pub open spec fn border_row_word(k: int) -> u32 {
    if k == 0 {
        0xdfff_ffffu32
    } else if k == 10 {
        0xfffb_0000u32
    } else {
        0xffff_ffffu32
    }
}

/// The frame buffer after one whole line `y` is overwritten with `row`:
/// line `y`'s words take the pattern verbatim, all else is untouched.
/// An out-of-range `y` changes nothing.
pub open spec fn spec_line_fill(fb: Seq<u32>, y: int, row: Seq<u32>) -> Seq<u32> {
    if 0 <= y < LCD_LINES {
        Seq::new(
            fb.len(),
            |wi: int|
                if bit_y(wi) == y {
                    row[wi % (LCD_WORDS_PER_LINE as int)]
                } else {
                    fb[wi]
                },
        )
    } else {
        fb
    }
}

/// Overwrite line `y` with a caller-supplied full-width word pattern.
pub fn line_fill_pattern(fb: &mut LcdFB, y: usize, pattern: &BlitRow)
    ensures
        final(fb)@ == spec_line_fill(old(fb)@, y as int, pattern@),
{
    if y >= LCD_LINES {
        return ;
    }
    let base = y * LCD_WORDS_PER_LINE;
    proof {
        assert(base + 10 < LCD_FRAME_BUF_SIZE) by (nonlinear_arith)
            requires
                base == y * 11 && y < 536,
        ;
    }
    let mut k: usize = 0;
    while k < LCD_WORDS_PER_LINE
        invariant
            y < LCD_LINES,
            base == y * 11,
            base + 10 < LCD_FRAME_BUF_SIZE,
            0 <= k <= 11,
            fb@.len() == LCD_FRAME_BUF_SIZE,
            forall|wi: int|
                0 <= wi < LCD_FRAME_BUF_SIZE ==> #[trigger] fb@[wi] == (if bit_y(wi) == y && wi
                    - base < k {
                    pattern@[wi - base]
                } else {
                    old(fb)@[wi]
                }),
        decreases 11 - k,
    {
        proof {
            lemma_line_word_index(y as int, k as int);
        }
        fb[base + k] = pattern[k];
        proof {
            assert forall|wi: int|
                0 <= wi < LCD_FRAME_BUF_SIZE && bit_y(wi) == y implies wi - base == wi % 11 by {
                assert(wi % 11 == wi - (y as int) * 11);
            };
        }
        k = k + 1;
    }
    proof {
        assert forall|wi: int|
            0 <= wi < LCD_FRAME_BUF_SIZE && bit_y(wi) == y as int implies wi - base == wi
            % 11 by {
            assert(wi % 11 == wi - (y as int) * 11);
        };
        assert(fb@ =~= spec_line_fill(old(fb)@, y as int, pattern@));
    }
}

/// Clear one whole line to background.
pub fn line_fill_clear(fb: &mut LcdFB, y: usize)
    ensures
        final(fb)@ == spec_line_fill(old(fb)@, y as int, Seq::new(11, |k: int| clear_row_word(k))),
{
    let row: BlitRow = [
        0xffff_ffff,
        0xffff_ffff,
        0xffff_ffff,
        0xffff_ffff,
        0xffff_ffff,
        0xffff_ffff,
        0xffff_ffff,
        0xffff_ffff,
        0xffff_ffff,
        0xffff_ffff,
        0xffff_0000,
    ];
    proof {
        assert(row@ =~= Seq::new(11, |k: int| clear_row_word(k)));
    }
    line_fill_pattern(fb, y, &row);
}

/// Fill one line with black, padded 2 px with background at each end.
pub fn line_fill_padded_solid(fb: &mut LcdFB, y: usize)
    ensures
        final(fb)@ == spec_line_fill(old(fb)@, y as int, Seq::new(11, |k: int| solid_row_word(k))),
{
    let row: BlitRow = [
        0xc000_0000,
        0x0000_0000,
        0x0000_0000,
        0x0000_0000,
        0x0000_0000,
        0x0000_0000,
        0x0000_0000,
        0x0000_0000,
        0x0000_0000,
        0x0000_0000,
        0x0003_0000,
    ];
    proof {
        assert(row@ =~= Seq::new(11, |k: int| solid_row_word(k)));
    }
    line_fill_pattern(fb, y, &row);
}

/// Fill one line with background, bordered 1 px by black at each end,
/// inset 2 px.
pub fn line_fill_padded_border(fb: &mut LcdFB, y: usize)
    ensures
        final(fb)@ == spec_line_fill(old(fb)@, y as int, Seq::new(11, |k: int| border_row_word(k))),
{
    let row: BlitRow = [
        0xdfff_ffff,
        0xffff_ffff,
        0xffff_ffff,
        0xffff_ffff,
        0xffff_ffff,
        0xffff_ffff,
        0xffff_ffff,
        0xffff_ffff,
        0xffff_ffff,
        0xffff_ffff,
        0xfffb_0000,
    ];
    proof {
        assert(row@ =~= Seq::new(11, |k: int| border_row_word(k)));
    }
    line_fill_pattern(fb, y, &row);
}

/// The word pattern `outline_region` leaves on line `y` of a band
/// `y0..y1`: two cleared lines, a solid rule, bordered fill, a solid
/// rule, two cleared lines.
pub open spec fn outline_row_word(y0: int, y1: int, y: int, k: int) -> u32 {
    if y < y0 + 2 || y >= y1 - 2 {
        clear_row_word(k)
    } else if y == y0 + 2 || y == y1 - 3 {
        solid_row_word(k)
    } else {
        border_row_word(k)
    }
}

/// The frame buffer after `outline_region` on the band `yr`: a titled
/// box built from fixed-pattern lines. Bands shorter than the 6 lines
/// the border pattern needs, or ending past the buffer, are rejected
/// and change nothing.
pub open spec fn spec_outline_region(fb: Seq<u32>, yr: YRegion) -> Seq<u32> {
    if yr.1 <= LCD_LINES && yr.0 + 6 <= yr.1 {
        Seq::new(
            fb.len(),
            |wi: int|
                if yr.0 <= bit_y(wi) < yr.1 {
                    outline_row_word(
                        yr.0 as int,
                        yr.1 as int,
                        bit_y(wi),
                        wi % (LCD_WORDS_PER_LINE as int),
                    )
                } else {
                    fb[wi]
                },
        )
    } else {
        fb
    }
}

/// Outline a full-width band with 2 px of cleared padding, a 1 px black
/// border box, and background fill between the rules.
pub fn outline_region(fb: &mut LcdFB, yr: YRegion)
    ensures
        final(fb)@ == spec_outline_region(old(fb)@, yr),
{
    if yr.1 > LCD_LINES || yr.1 < yr.0 || yr.1 - yr.0 < 6 {
        return ;
    }
    let ghost y0 = yr.0 as int;
    let ghost y1 = yr.1 as int;
    line_fill_clear(fb, yr.0);
    line_fill_clear(fb, yr.0 + 1);
    line_fill_padded_solid(fb, yr.0 + 2);
    let mut y = yr.0 + 3;
    while y < yr.1 - 3
        invariant
            yr.1 <= LCD_LINES,
            y0 == yr.0 && y1 == yr.1,
            y0 + 6 <= y1,
            y0 + 3 <= y <= y1 - 3,
            fb@.len() == LCD_FRAME_BUF_SIZE,
            forall|wi: int|
                0 <= wi < LCD_FRAME_BUF_SIZE ==> #[trigger] fb@[wi] == (if y0 <= bit_y(wi) < y {
                    outline_row_word(y0, y1, bit_y(wi), wi % 11)
                } else {
                    old(fb)@[wi]
                }),
        decreases yr.1 - y,
    {
        line_fill_padded_border(fb, y);
        y = y + 1;
    }
    line_fill_padded_solid(fb, yr.1 - 3);
    line_fill_clear(fb, yr.1 - 2);
    line_fill_clear(fb, yr.1 - 1);
    proof {
        assert(fb@ =~= spec_outline_region(old(fb)@, yr));
    }
}

/// An outline asked of a band under six lines high is a no-op: the
/// border pattern cannot fit, so the frame buffer is left untouched.
pub proof fn lemma_outline_region_too_short(fb: Seq<u32>, yr: YRegion)
    requires
        yr.1 - yr.0 < 6,
    ensures
        spec_outline_region(fb, yr) == fb,
{
}

/// Clearing a region and then inverting the same region yields the
/// all-foreground pattern there - every pixel of the region ends 0, as
/// if the inversion had been applied to an all-background region - and
/// leaves every other bit of every word exactly as it was.
pub proof fn lemma_clear_then_invert(fb: Seq<u32>, cr: ClipRegion)
    ensures
        spec_invert_region(spec_clear_region(fb, cr), cr) == Seq::new(
            fb.len(),
            |wi: int| fb[wi] & !region_mask_word(cr, wi),
        ),
{
    let cleared = spec_clear_region(fb, cr);
    let out = spec_invert_region(cleared, cr);
    assert forall|wi: int| 0 <= wi < fb.len() implies out[wi] == fb[wi] & !region_mask_word(
        cr,
        wi,
    ) by {
        let w = fb[wi];
        let m = region_mask_word(cr, wi);
        assert((w | m) ^ m == w & !m) by (bit_vector);
    };
    assert(out =~= Seq::new(fb.len(), |wi: int| fb[wi] & !region_mask_word(cr, wi)));
}


/// Pixel-level reading of `clear_region`: a pixel inside the region is
/// forced to background, every other bit of every word is untouched.
pub proof fn lemma_clear_region_pixels(fb: Seq<u32>, cr: ClipRegion, wi: int, i: u32)
    requires
        fb.len() == LCD_FRAME_BUF_SIZE,
        0 <= wi < LCD_FRAME_BUF_SIZE,
        i < 32,
        region_valid(cr),
    ensures
        word_bit(spec_clear_region(fb, cr)[wi], i) == (word_bit(fb[wi], i) || in_region(
            cr,
            bit_x(wi, i),
            bit_y(wi),
        )),
{
    lemma_or_bits(fb[wi], region_mask_word(cr, wi));
    lemma_region_mask_word_bits(cr, wi, i);
}

/// Pixel-level reading of `invert_region`: a pixel inside the region is
/// flipped, every other bit of every word is untouched.
pub proof fn lemma_invert_region_pixels(fb: Seq<u32>, cr: ClipRegion, wi: int, i: u32)
    requires
        fb.len() == LCD_FRAME_BUF_SIZE,
        0 <= wi < LCD_FRAME_BUF_SIZE,
        i < 32,
        region_valid(cr),
    ensures
        word_bit(spec_invert_region(fb, cr)[wi], i) == (word_bit(fb[wi], i) != in_region(
            cr,
            bit_x(wi, i),
            bit_y(wi),
        )),
{
    lemma_xor_bits(fb[wi], region_mask_word(cr, wi));
    lemma_region_mask_word_bits(cr, wi, i);
}

/// Pixel `(col, row)` of a glyph's payload: bit `row * w + col` of the
/// packed bit stream that follows the header word, rows back to back
/// with no padding.
pub open spec fn glyph_pixel(data: Seq<u32>, gpo: int, w: u32, col: int, row: int) -> bool
    recommends
        0 <= col < w,
        0 <= row,
{
    let k = row * (w as int) + col;
    word_bit(data[gpo + 1 + k / 32], (k % 32) as u32)
}

/// Bits of a right shift, counted from the MSB: the run moves right by
/// `d` and the vacated left bits are clear.
proof fn lemma_shr_bits(p: u32, d: u32)
    by (bit_vector)
    requires
        d < 32,
    ensures
        forall|i: u32| d <= i < 32 ==> (#[trigger] word_bit(p >> d, i)) == word_bit(p, (i - d) as u32),
        forall|i: u32| i < d ==> !(#[trigger] word_bit(p >> d, i)),
{
}

/// Bits of a left shift, counted from the MSB: the run moves left by
/// `t` and the vacated right bits are clear.
proof fn lemma_shl_bits(p: u32, t: u32)
    by (bit_vector)
    requires
        t < 32,
    ensures
        forall|i: u32| i + t < 32 ==> (#[trigger] word_bit(p << t, i)) == word_bit(p, (i + t) as u32),
        forall|i: u32| i < 32 && i + t >= 32 ==> !(#[trigger] word_bit(p << t, i)),
{
}

/// The extracted row pattern holds exactly the row's payload bits,
/// left-justified: bit `j` of the pattern is glyph pixel `(j, r)`, and
/// bits at or past the width are clear, whether the row sat inside one
/// payload word or straddled two.
proof fn lemma_glyph_row_pattern_bits(data: Seq<u32>, gpo: int, w: u32, r: int, j: u32)
    requires
        1 <= w <= 32,
        0 <= r,
        j < 32,
    ensures
        word_bit(glyph_row_pattern(data, gpo, w, r), j) == (j < w && glyph_pixel(
            data,
            gpo,
            w,
            j as int,
            r,
        )),
{
    let po = r * (w as int);
    assert(po >= 0) by (nonlinear_arith)
        requires
            r >= 0 && w >= 1 && po == r * (w as int),
    ;
    let q = po / 32;
    let s = (po % 32) as u32;
    let lw = gpo + 1 + q;
    let d0 = data[lw];
    let d1 = data[lw + 1];
    let p = glyph_row_pattern(data, gpo, w, r);
    let k = po + j;
    // Locate payload bit k relative to the row start: while s + j stays
    // inside the low word the quotient is unchanged, past it the bit
    // lives in the next word.
    if s + j < 32 {
        assert(k / 32 == q && k % 32 == s + j) by (nonlinear_arith)
            requires
                po == 32 * q + s && 0 <= s + j < 32 && k == po + j && 0 <= j,
        ;
    } else {
        assert(k / 32 == q + 1 && k % 32 == s + j - 32) by (nonlinear_arith)
            requires
                po == 32 * q + s && s < 32 && 32 <= s + j && j < 32 && k == po + j,
        ;
    }
    assert(word_bit(p, j) == (j < w && (if s + j < 32 {
        word_bit(d0, (s + j) as u32)
    } else {
        word_bit(d1, (s + j - 32) as u32)
    }))) by (bit_vector)
        requires
            s < 32,
            1 <= w <= 32,
            j < 32,
            p == (if w <= 32 - s {
                (d0 >> ((32 - s - w) as u32)) << ((32 - w) as u32)
            } else {
                (d0 << s) | ((d1 >> ((64 - s - w) as u32)) << ((32 - w) as u32))
            }),
    ;
}

/// The XOR mask of a glyph draw carries exactly the glyph's pixels: bit
/// `i` of the mask word `wi` is set when pixel `(bit_x, bit_y)` lies in
/// the drawn rows, within the run of `w` columns starting 1 px right of
/// the anchor, and the corresponding payload bit is set.
proof fn lemma_char_mask_pixel(m: FontModel, cr: ClipRegion, c: char, wi: int, i: u32)
    requires
        0 <= wi < LCD_FRAME_BUF_SIZE,
        i < 32,
        char_accepted(cr, c, m),
    ensures
        word_bit(char_mask(m, cr, c, wi), i) == {
            let x = bit_x(wi, i);
            let y = bit_y(wi);
            let x0 = cr.x0 + 1;
            let y0 = char_y0(cr, c, m);
            &&& y0 <= y < y0 + char_rows(cr, c, m)
            &&& x0 <= x < x0 + char_w(m, c)
            &&& glyph_pixel(m.data, char_gpo(m, c), char_w(m, c), x - x0, y - y0)
        },
{
    reveal(char_mask);
    let k = wi % (LCD_WORDS_PER_LINE as int);
    let y = bit_y(wi);
    let x = bit_x(wi, i);
    let w = char_w(m, c);
    let y0 = char_y0(cr, c, m);
    let x0 = cr.x0 + 1;
    let d = (x0 % 32) as u32;
    let dlw = x0 / 32;
    assert(0 <= k < 11) by (nonlinear_arith)
        requires
            wi >= 0 && k == wi % 11,
    ;
    assert(x0 == 32 * dlw + d);
    if char_accepted(cr, c, m) && w > 0 && y0 <= y < y0 + char_rows(cr, c, m) {
        let r = y - y0;
        let p = glyph_row_pattern(m.data, char_gpo(m, c), w, r);
        if k == dlw {
            lemma_shr_bits(p, d);
            if d <= i {
                lemma_glyph_row_pattern_bits(m.data, char_gpo(m, c), w, r, (i - d) as u32);
                assert(x - x0 == i - d);
            } else {
                assert(!word_bit(p >> d, i));
                assert(x < x0);
            }
        } else if k == dlw + 1 && 32 - d < w {
            lemma_shl_bits(p, (32 - d) as u32);
            if i + 32 - d < 32 {
                lemma_glyph_row_pattern_bits(m.data, char_gpo(m, c), w, r, (i + 32 - d) as u32);
                assert(x - x0 == i + 32 - d);
            } else {
                assert(!word_bit(p << ((32 - d) as u32), i));
                assert(x - x0 >= 32 >= w);
            }
        } else {
            assert(!word_bit(0u32, i)) by (bit_vector);
            // Any other word of the line lies wholly outside the run.
            if k < dlw {
                assert(x < x0);
            } else if k > dlw + 1 {
                assert(x >= 32 * (dlw + 2) + 0);
                assert(x >= x0 + w);
            } else {
                assert(k == dlw + 1 && 32 - d >= w);
                assert(x >= 32 * (dlw + 1));
                assert(x - x0 >= 32 - d >= w);
            }
        }
    } else {
        assert(!word_bit(0u32, i)) by (bit_vector);
        if w == 0 {
            assert(!(x0 <= x < x0 + w));
        }
    }
}

/// Pixel-level reading of an accepted glyph draw: pixels covered by a
/// set payload bit of the drawn rows flip, and every other bit of every
/// word - in the touched words and elsewhere - is untouched.
pub proof fn lemma_xor_char_pixels(fb: Seq<u32>, cr: ClipRegion, c: char, m: FontModel, wi: int, i: u32)
    requires
        fb.len() == LCD_FRAME_BUF_SIZE,
        0 <= wi < LCD_FRAME_BUF_SIZE,
        i < 32,
        char_accepted(cr, c, m),
    ensures
        word_bit(spec_xor_char(fb, cr, c, m)[wi], i) == (word_bit(fb[wi], i) != {
            let x = bit_x(wi, i);
            let y = bit_y(wi);
            let x0 = cr.x0 + 1;
            let y0 = char_y0(cr, c, m);
            &&& y0 <= y < y0 + char_rows(cr, c, m)
            &&& x0 <= x < x0 + char_w(m, c)
            &&& glyph_pixel(m.data, char_gpo(m, c), char_w(m, c), x - x0, y - y0)
        }),
{
    lemma_xor_bits(fb[wi], char_mask(m, cr, c, wi));
    lemma_char_mask_pixel(m, cr, c, wi, i);
}

/// In a well-formed font every character, mapped or fallback, decodes
/// to a sound glyph: the offset is stable (a function of the character
/// alone), the record lies inside the data array, the width is at most
/// 32 pixels, and height plus vertical offset stays within the font's
/// declared maximum height.
pub proof fn lemma_glyph_header_bounded(m: FontModel, c: char)
    requires
        font_wf(m),
    ensures
        char_w(m, c) <= 32,
        char_h(m, c) + char_yo(m, c) <= m.max_height,
        0 <= char_gpo(m, c),
        char_gpo(m, c) + 1 + record_words(char_w(m, c) as int, char_h(m, c) as int)
            <= m.data.len(),
{
    lemma_offset_entry_ok(m, c);
}

/// Drawing the same glyph twice at the same anchor with XOR compositing
/// restores the frame buffer exactly: each touched word is XORed with
/// the same mask both times.
pub proof fn lemma_xor_char_self_cancels(fb: Seq<u32>, cr: ClipRegion, c: char, m: FontModel)
    ensures
        spec_xor_char(spec_xor_char(fb, cr, c, m), cr, c, m) == fb,
{
    if char_accepted(cr, c, m) {
        let once = spec_xor_char(fb, cr, c, m);
        let twice = spec_xor_char(once, cr, c, m);
        assert forall|wi: int| 0 <= wi < fb.len() implies twice[wi] == fb[wi] by {
            lemma_xor_involution(fb[wi], char_mask(m, cr, c, wi));
        };
        assert(twice =~= fb);
    }
}

} // verus!
