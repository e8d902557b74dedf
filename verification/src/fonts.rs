//! Glyph store: maps a character to a packed glyph record and decodes
//! the record header.
//!
//! A font is an immutable set of tables compiled into the crate: one
//! offset table per supported Unicode block, plus a packed word array of
//! glyph records. A record starts with a header word holding `width`,
//! `height` and `y_offset` as three 8-bit fields, followed by
//! `ceil(width * height / 32)` words of row-major, MSB-first pixels.

use vstd::prelude::*;

pub mod bold;
pub mod pua;
pub mod regular;
pub mod small;

verus! {

/// The three built-in glyph sets.
#[derive(Copy, Clone, PartialEq, Eq, Structural)]
pub enum GlyphSet {
    Bold,
    Regular,
    Small,
}

/// Width field of a glyph header word.
pub open spec fn header_w(h: u32) -> u32 {
    (h >> 16u32) & 0xffu32
}

/// Height field of a glyph header word.
pub open spec fn header_h(h: u32) -> u32 {
    (h >> 8u32) & 0xffu32
}

/// Vertical-offset field of a glyph header word.
pub open spec fn header_yo(h: u32) -> u32 {
    h & 0xffu32
}

/// Decoded header of one glyph: pixel width, height, and the downward
/// displacement that aligns the glyph to the font's common baseline.
#[derive(Copy, Clone)]
pub struct GlyphHeader {
    pub w: usize,
    pub h: usize,
    pub y_offset: usize,
}

impl GlyphHeader {
    /// Unpack a header word of format `(w:u8) << 16 | (h:u8) << 8 | y_offset:u8`.
    pub fn new(header: u32) -> (gh: GlyphHeader)
        ensures
            gh.w == header_w(header),
            gh.h == header_h(header),
            gh.y_offset == header_yo(header),
            gh.w <= 255 && gh.h <= 255 && gh.y_offset <= 255,
    {
        let w = ((header << 8) >> 24) as usize;
        let h = ((header << 16) >> 24) as usize;
        let y_offset = ((header << 24) >> 24) as usize;
        proof {
            assert((header << 8u32) >> 24u32 == header_w(header) && (header << 16u32) >> 24u32
                == header_h(header) && (header << 24u32) >> 24u32 == header_yo(header)
                && header_w(header) <= 255 && header_h(header) <= 255 && header_yo(header) <= 255)
                by (bit_vector);
        }
        GlyphHeader { w, h, y_offset }
    }
}

/// One font's tables as mathematical sequences.
pub ghost struct FontModel {
    pub basic_latin: Seq<u16>,
    pub latin_1: Seq<u16>,
    pub latin_extended_a: Seq<u16>,
    pub general_punctuation: Seq<u16>,
    pub currency_symbols: Seq<u16>,
    pub specials: Seq<u16>,
    pub data: Seq<u32>,
    pub max_height: u8,
}

/// Offset of the glyph record for `c`: each supported Unicode block has
/// its own offset table, and anything unmapped falls back to the
/// replacement glyph.
pub open spec fn offset_of(m: FontModel, c: char) -> int {
    let cp = c as u32;
    if 0x20 <= cp <= 0x7E {
        m.basic_latin[cp - 0x20] as int
    } else if 0xA0 <= cp <= 0xFF {
        m.latin_1[cp - 0xA0] as int
    } else if 0x152 <= cp <= 0x153 {
        m.latin_extended_a[cp - 0x152] as int
    } else if 0x2018 <= cp <= 0x2022 {
        m.general_punctuation[cp - 0x2018] as int
    } else if cp == 0x20AC {
        m.currency_symbols[0] as int
    } else {
        m.specials[0] as int
    }
}

/// Payload words of a glyph record: `ceil(w * h / 32)`.
pub open spec fn record_words(w: int, h: int) -> int {
    (w * h + 31) / 32
}

/// A sound table entry: the header and every payload word lie inside the
/// data array, the glyph is at most 32 pixels wide (one row spans at most
/// two payload words), and it fits the font's declared maximum height.
pub open spec fn entry_ok(data: Seq<u32>, off: int, max_height: int) -> bool {
    &&& 0 <= off
    &&& off + 1 <= data.len()
    &&& off + 1 + record_words(header_w(data[off]) as int, header_h(data[off]) as int)
        <= data.len()
    &&& header_w(data[off]) <= 32
    &&& header_h(data[off]) + header_yo(data[off]) <= max_height
}

/// Every entry of one block's offset table is sound.
pub open spec fn block_ok(data: Seq<u32>, tbl: Seq<u16>, max_height: int) -> bool {
    forall|i: int| 0 <= i < tbl.len() ==> entry_ok(data, #[trigger] tbl[i] as int, max_height)
}

/// Well-formedness of a whole font: the blocks have their fixed sizes
/// and every reachable glyph record is sound.
pub open spec fn font_wf(m: FontModel) -> bool {
    &&& m.basic_latin.len() == 95
    &&& m.latin_1.len() == 96
    &&& m.latin_extended_a.len() == 2
    &&& m.general_punctuation.len() == 11
    &&& m.currency_symbols.len() == 1
    &&& m.specials.len() == 1
    &&& block_ok(m.data, m.basic_latin, m.max_height as int)
    &&& block_ok(m.data, m.latin_1, m.max_height as int)
    &&& block_ok(m.data, m.latin_extended_a, m.max_height as int)
    &&& block_ok(m.data, m.general_punctuation, m.max_height as int)
    &&& block_ok(m.data, m.currency_symbols, m.max_height as int)
    &&& block_ok(m.data, m.specials, m.max_height as int)
}

/// The tables of one built-in glyph set.
pub open spec fn font_model(set: GlyphSet) -> FontModel {
    match set {
        GlyphSet::Bold => bold::model(),
        GlyphSet::Regular => regular::model(),
        GlyphSet::Small => small::model(),
    }
}

/// In a well-formed font, every character resolves to a sound glyph
/// record: its width is at most 32 and its height plus vertical offset
/// stays within the font's declared maximum height.
pub proof fn lemma_offset_entry_ok(m: FontModel, c: char)
    requires
        font_wf(m),
    ensures
        entry_ok(m.data, offset_of(m, c), m.max_height as int),
{
    let cp = c as u32;
    if 0x20 <= cp <= 0x7E {
        assert(0 <= cp - 0x20 < 95);
    } else if 0xA0 <= cp <= 0xFF {
        assert(0 <= cp - 0xA0 < 96);
    } else if 0x152 <= cp <= 0x153 {
        assert(0 <= cp - 0x152 < 2);
    } else if 0x2018 <= cp <= 0x2022 {
        assert(0 <= cp - 0x2018 < 11);
    }
}

/// A handle on one of the built-in fonts. Obtaining one through
/// `Font::new` guarantees that the font's tables are well formed.
#[derive(Copy, Clone)]
pub struct Font {
    pub glyph_set: GlyphSet,
}

impl View for Font {
    type V = FontModel;

    open spec fn view(&self) -> FontModel {
        font_model(self.glyph_set)
    }
}

impl Font {
    /// Check the chosen glyph set's tables and hand out a handle when
    /// they are well formed (the compiled-in tables always are; the check
    /// makes the blitter's assumptions explicit instead of trusted).
    pub fn new(set: GlyphSet) -> (r: Option<Font>)
        ensures
            r is Some <==> font_wf(font_model(set)),
            r matches Some(f) ==> f.glyph_set == set && font_wf(f@),
    {
        if check_font(set) {
            Some(Font { glyph_set: set })
        } else {
            None
        }
    }
}

/// Total words of packed glyph data in one glyph set.
pub fn font_data_len(set: GlyphSet) -> (n: usize)
    ensures
        n == font_model(set).data.len(),
{
    proof {
        reveal(bold::model);
        reveal(regular::model);
        reveal(small::model);
        bold::lemma_data_len();
        regular::lemma_data_len();
        small::lemma_data_len();
    }
    match set {
        GlyphSet::Bold => bold::DATA_LEN,
        GlyphSet::Regular => regular::DATA_LEN,
        GlyphSet::Small => small::DATA_LEN,
    }
}

/// Word `i` of one glyph set's packed data.
pub fn glyph_data(set: GlyphSet, i: usize) -> (w: u32)
    requires
        i < font_model(set).data.len(),
    ensures
        w == font_model(set).data[i as int],
{
    proof {
        reveal(bold::model);
        reveal(regular::model);
        reveal(small::model);
        bold::lemma_data_len();
        regular::lemma_data_len();
        small::lemma_data_len();
    }
    match set {
        GlyphSet::Bold => bold::data_at(i),
        GlyphSet::Regular => regular::data_at(i),
        GlyphSet::Small => small::data_at(i),
    }
}

/// Offset of the glyph record for `c` in one glyph set.
pub fn glyph_pattern_offset(set: GlyphSet, c: char) -> (off: usize)
    ensures
        off == offset_of(font_model(set), c),
{
    match set {
        GlyphSet::Bold => bold::get_glyph_pattern_offset(c),
        GlyphSet::Regular => regular::get_glyph_pattern_offset(c),
        GlyphSet::Small => small::get_glyph_pattern_offset(c),
    }
}

/// Declared maximum glyph height of one glyph set.
pub fn font_max_height(set: GlyphSet) -> (h: u8)
    ensures
        h == font_model(set).max_height,
{
    proof {
        reveal(bold::model);
        reveal(regular::model);
        reveal(small::model);
    }
    match set {
        GlyphSet::Bold => bold::MAX_HEIGHT,
        GlyphSet::Regular => regular::MAX_HEIGHT,
        GlyphSet::Small => small::MAX_HEIGHT,
    }
}

/// Check one offset table: every entry must name a sound glyph record.
fn check_block(set: GlyphSet, tbl: &[u16]) -> (ok: bool)
    ensures
        ok == block_ok(font_model(set).data, tbl@, font_model(set).max_height as int),
{
    let data_len = font_data_len(set);
    let max_height = font_max_height(set);
    let n = tbl.len();
    let mut i: usize = 0;
    while i < n
        invariant
            n == tbl@.len(),
            0 <= i <= n,
            data_len == font_model(set).data.len(),
            max_height == font_model(set).max_height,
            forall|j: int|
                0 <= j < i ==> entry_ok(
                    font_model(set).data,
                    #[trigger] tbl@[j] as int,
                    font_model(set).max_height as int,
                ),
        decreases n - i,
    {
        let off = tbl[i] as usize;
        if off >= data_len {
            return false;
        }
        let gh = GlyphHeader::new(glyph_data(set, off));
        if gh.w > 32 {
            return false;
        }
        if gh.h + gh.y_offset > max_height as usize {
            return false;
        }
        proof {
            assert(gh.w * gh.h <= 255 * 255) by (nonlinear_arith)
                requires
                    gh.w <= 255 && gh.h <= 255,
            ;
        }
        if (gh.w * gh.h + 31) / 32 > data_len - off - 1 {
            return false;
        }
        i = i + 1;
    }
    true
}

/// Check every block table of one glyph set.
fn check_font(set: GlyphSet) -> (ok: bool)
    ensures
        ok == font_wf(font_model(set)),
{
    proof {
        reveal(bold::model);
        reveal(regular::model);
        reveal(small::model);
    }
    let (bl, l1, lea, gp, cs, sp): ([u16; 95], [u16; 96], [u16; 2], [u16; 11], [u16; 1], [u16; 1]) =
        match set {
        GlyphSet::Bold => (
            bold::BASIC_LATIN,
            bold::LATIN_1,
            bold::LATIN_EXTENDED_A,
            bold::GENERAL_PUNCTUATION,
            bold::CURRENCY_SYMBOLS,
            bold::SPECIALS,
        ),
        GlyphSet::Regular => (
            regular::BASIC_LATIN,
            regular::LATIN_1,
            regular::LATIN_EXTENDED_A,
            regular::GENERAL_PUNCTUATION,
            regular::CURRENCY_SYMBOLS,
            regular::SPECIALS,
        ),
        GlyphSet::Small => (
            small::BASIC_LATIN,
            small::LATIN_1,
            small::LATIN_EXTENDED_A,
            small::GENERAL_PUNCTUATION,
            small::CURRENCY_SYMBOLS,
            small::SPECIALS,
        ),
    };
    let ok = check_block(set, bl.as_slice()) && check_block(set, l1.as_slice()) && check_block(
        set,
        lea.as_slice(),
    ) && check_block(set, gp.as_slice()) && check_block(set, cs.as_slice()) && check_block(
        set,
        sp.as_slice(),
    );
    ok
}

} // verus!
