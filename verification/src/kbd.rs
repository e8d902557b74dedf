//! Keyboard model: layouts, modifier-key state, and the lookup tables
//! that map a physical key index to a character or named action.

use vstd::prelude::*;

use crate::state::Context;

verus! {

/// Physical keyboard layouts (the labels on the physical keys).
#[derive(Copy, Clone, PartialEq, Eq, Structural)]
pub enum Layout {
    Azerty,
    Qwerty,
}

/// Modifier key states reached by sequences of modifier presses.
#[derive(Copy, Clone, PartialEq, Eq, Structural)]
pub enum ModKey {
    Base,
    Shift,
    AltL,
    AltR,
    AltRS,
}

/// The possible keystroke-to-result mappings (one per layout and
/// modifier combination that changes the mapping).
#[derive(Copy, Clone, PartialEq, Eq, Structural)]
pub enum KeyMap {
    Azerty,
    AzertyS,
    AzertyAltL,
    AzertyAltR,
    AzertyAltRS,
    Qwerty,
    QwertyS,
    QwertyAlt,
}

/// The result of one keystroke: a character or a named action.
#[derive(Copy, Clone, PartialEq, Eq, Structural)]
pub enum R {
    Nop,
    Up,
    Left,
    Click,
    Right,
    Down,
    F1,
    F2,
    F3,
    F4,
    C(char),
    Bksp,
    Enter,
    AltL,
    Symbol,
    Emoji,
    AltR,
    Shift,
}

/// Every keyboard map lookup table has 54 keys.
pub const MAP_SIZE: usize = 54;

/// One keyboard map lookup table.
pub type MapResultLUT = [R; MAP_SIZE];

/// The mapping selected by a layout and modifier state.
pub open spec fn spec_cur_map(lo: Layout, mk: ModKey) -> KeyMap {
    match lo {
        Layout::Azerty => match mk {
            ModKey::Base => KeyMap::Azerty,
            ModKey::Shift => KeyMap::AzertyS,
            ModKey::AltL => KeyMap::AzertyAltL,
            ModKey::AltR => KeyMap::AzertyAltR,
            ModKey::AltRS => KeyMap::AzertyAltRS,
        },
        Layout::Qwerty => match mk {
            ModKey::Base => KeyMap::Qwerty,
            ModKey::Shift => KeyMap::QwertyS,
            ModKey::AltL => KeyMap::QwertyAlt,
            ModKey::AltR => KeyMap::QwertyAlt,
            ModKey::AltRS => KeyMap::QwertyAlt,
        },
    }
}

/// Determine the current mapping of keystrokes to results.
pub fn cur_map_enum(ctx: &Context) -> (m: KeyMap)
    ensures
        m == spec_cur_map(ctx.kbd_layout, ctx.kbd_modkey),
{
    match ctx.kbd_layout {
        Layout::Azerty => match ctx.kbd_modkey {
            ModKey::Base => KeyMap::Azerty,
            ModKey::Shift => KeyMap::AzertyS,
            ModKey::AltL => KeyMap::AzertyAltL,
            ModKey::AltR => KeyMap::AzertyAltR,
            ModKey::AltRS => KeyMap::AzertyAltRS,
        },
        Layout::Qwerty => match ctx.kbd_modkey {
            ModKey::Base => KeyMap::Qwerty,
            ModKey::Shift => KeyMap::QwertyS,
            ModKey::AltL => KeyMap::QwertyAlt,
            ModKey::AltR => KeyMap::QwertyAlt,
            ModKey::AltRS => KeyMap::QwertyAlt,
        },
    }
}

/// The index a host runtime uses to name each mapping.
pub open spec fn spec_map_index(m: KeyMap) -> i32 {
    match m {
        KeyMap::Azerty => 0,
        KeyMap::AzertyS => 1,
        KeyMap::AzertyAltL => 2,
        KeyMap::AzertyAltR => 3,
        KeyMap::AzertyAltRS => 4,
        KeyMap::Qwerty => 5,
        KeyMap::QwertyS => 6,
        KeyMap::QwertyAlt => 7,
    }
}

/// Index of the current keyboard map, for handing to a host runtime.
pub fn cur_map_index(ctx: &Context) -> (i: i32)
    ensures
        i == spec_map_index(spec_cur_map(ctx.kbd_layout, ctx.kbd_modkey)),
{
    match cur_map_enum(ctx) {
        KeyMap::Azerty => 0,
        KeyMap::AzertyS => 1,
        KeyMap::AzertyAltL => 2,
        KeyMap::AzertyAltR => 3,
        KeyMap::AzertyAltRS => 4,
        KeyMap::Qwerty => 5,
        KeyMap::QwertyS => 6,
        KeyMap::QwertyAlt => 7,
    }
}

/// The lookup table of each mapping.
pub open spec fn spec_map_lut(m: KeyMap) -> Seq<R> {
    match m {
        KeyMap::Azerty => spec_map_azerty_base(),
        KeyMap::AzertyS => spec_map_azerty_shift(),
        KeyMap::AzertyAltL => spec_map_azerty_altl(),
        KeyMap::AzertyAltR => spec_map_azerty_altr(),
        KeyMap::AzertyAltRS => spec_map_azerty_altrs(),
        KeyMap::Qwerty => spec_map_qwerty_base(),
        KeyMap::QwertyS => spec_map_qwerty_shift(),
        KeyMap::QwertyAlt => spec_map_qwerty_alt(),
    }
}

/// The result the current mapping gives for key index `key`.
pub open spec fn spec_key_result(lo: Layout, mk: ModKey, key: int) -> R {
    spec_map_lut(spec_cur_map(lo, mk))[key]
}

/// Lookup table of the current keyboard map.
pub fn cur_map_lut(ctx: &Context) -> (lut: MapResultLUT)
    ensures
        lut@ == spec_map_lut(spec_cur_map(ctx.kbd_layout, ctx.kbd_modkey)),
{
    match cur_map_enum(ctx) {
        KeyMap::Azerty => map_azerty_base(),
        KeyMap::AzertyS => map_azerty_shift(),
        KeyMap::AzertyAltL => map_azerty_altl(),
        KeyMap::AzertyAltR => map_azerty_altr(),
        KeyMap::AzertyAltRS => map_azerty_altrs(),
        KeyMap::Qwerty => map_qwerty_base(),
        KeyMap::QwertyS => map_qwerty_shift(),
        KeyMap::QwertyAlt => map_qwerty_alt(),
    }
}

/// Change the current keyboard layout.
pub fn set_layout(ctx: &mut Context, lo: Layout)
    ensures
        *final(ctx) == (Context { kbd_layout: lo, ..*old(ctx) }),
{
    ctx.kbd_layout = lo;
}

/// Change the current modifier key state.
pub fn set_modkey(ctx: &mut Context, mk: ModKey)
    ensures
        *final(ctx) == (Context { kbd_modkey: mk, ..*old(ctx) }),
{
    ctx.kbd_modkey = mk;
}

/// The modifier state after a modifier key press: Azerty keeps separate
/// AltL and AltR states (AltR composes with Shift); Qwerty has a single
/// Alt state, so either Alt key toggles it.
pub open spec fn spec_modkey_next(lo: Layout, mk: ModKey, r: R) -> ModKey {
    match lo {
        Layout::Azerty => match r {
            R::AltL => match mk {
                ModKey::AltL => ModKey::Base,
                _ => ModKey::AltL,
            },
            R::AltR => match mk {
                ModKey::Shift => ModKey::AltRS,
                ModKey::AltR => ModKey::Base,
                ModKey::AltRS => ModKey::Shift,
                _ => ModKey::AltR,
            },
            R::Shift => match mk {
                ModKey::Base => ModKey::Shift,
                ModKey::Shift => ModKey::Base,
                ModKey::AltR => ModKey::AltRS,
                ModKey::AltRS => ModKey::AltR,
                _ => mk,
            },
            _ => mk,
        },
        Layout::Qwerty => match r {
            R::AltL => match mk {
                ModKey::Base => ModKey::AltL,
                ModKey::Shift => ModKey::AltL,
                _ => ModKey::Base,
            },
            R::AltR => match mk {
                ModKey::Base => ModKey::AltR,
                ModKey::Shift => ModKey::AltR,
                _ => ModKey::Base,
            },
            R::Shift => match mk {
                ModKey::Base => ModKey::Shift,
                ModKey::Shift => ModKey::Base,
                _ => mk,
            },
            _ => mk,
        },
    }
}

/// Handle a modifier key press event.
pub fn modkey_down(ctx: &mut Context, r: &R)
    ensures
        *final(ctx) == (Context {
            kbd_modkey: spec_modkey_next(old(ctx).kbd_layout, old(ctx).kbd_modkey, *r),
            ..*old(ctx)
        }),
{
    match ctx.kbd_layout {
        Layout::Azerty => match r {
            R::AltL => match ctx.kbd_modkey {
                ModKey::AltL => ctx.kbd_modkey = ModKey::Base,
                _ => ctx.kbd_modkey = ModKey::AltL,
            },
            R::AltR => match ctx.kbd_modkey {
                ModKey::Shift => ctx.kbd_modkey = ModKey::AltRS,
                ModKey::AltR => ctx.kbd_modkey = ModKey::Base,
                ModKey::AltRS => ctx.kbd_modkey = ModKey::Shift,
                _ => ctx.kbd_modkey = ModKey::AltR,
            },
            R::Shift => match ctx.kbd_modkey {
                ModKey::Base => ctx.kbd_modkey = ModKey::Shift,
                ModKey::Shift => ctx.kbd_modkey = ModKey::Base,
                ModKey::AltR => ctx.kbd_modkey = ModKey::AltRS,
                ModKey::AltRS => ctx.kbd_modkey = ModKey::AltR,
                _ => (),
            },
            _ => (),
        },
        Layout::Qwerty => match r {
            R::AltL => match ctx.kbd_modkey {
                ModKey::Base => ctx.kbd_modkey = ModKey::AltL,
                ModKey::Shift => ctx.kbd_modkey = ModKey::AltL,
                _ => ctx.kbd_modkey = ModKey::Base,
            },
            R::AltR => match ctx.kbd_modkey {
                ModKey::Base => ctx.kbd_modkey = ModKey::AltR,
                ModKey::Shift => ctx.kbd_modkey = ModKey::AltR,
                _ => ctx.kbd_modkey = ModKey::Base,
            },
            R::Shift => match ctx.kbd_modkey {
                ModKey::Base => ctx.kbd_modkey = ModKey::Shift,
                ModKey::Shift => ctx.kbd_modkey = ModKey::Base,
                _ => (),
            },
            _ => (),
        },
    }
}

/// Pressing the same modifier key twice from the base state returns the
/// modifier machine to the base state, in either layout.
pub proof fn lemma_modkey_double_press(lo: Layout, r: R)
    requires
        r == R::Shift || r == R::AltL || r == R::AltR,
    ensures
        spec_modkey_next(lo, spec_modkey_next(lo, ModKey::Base, r), r) == ModKey::Base,
{
}

/// Keyboard map for Azerty with no active modifier keys.
pub open spec fn spec_map_azerty_base() -> Seq<R> {
    seq![
        R::Up,  // P2 Nav and function keys
        R::Left,  // P5
        R::Click,  // PC
        R::Right,  // P6
        R::F1,  // P3
        R::Shift,  // P4
        R::Down,  // P9
        R::F3,  // P7
        R::F4,  // P8
        R::C('1'),  // P13 Number row
        R::C('2'),  // P14
        R::C('3'),  // P15
        R::C('4'),  // P16
        R::C('5'),  // P17
        R::C('6'),  // P18
        R::C('7'),  // P19
        R::C('8'),  // P20
        R::C('9'),  // P21
        R::C('0'),  // P22
        R::C('a'),  // P23 Upper letter row
        R::C('z'),  // P24
        R::C('e'),  // P25
        R::C('r'),  // P26
        R::C('t'),  // P27
        R::C('y'),  // P28
        R::C('u'),  // P29
        R::C('i'),  // P30
        R::C('o'),  // P31
        R::C('p'),  // P32
        R::C('q'),  // P33 Home letter row
        R::C('s'),  // P34
        R::C('d'),  // P35
        R::C('f'),  // P36
        R::C('g'),  // P37
        R::C('h'),  // P38
        R::C('j'),  // P39
        R::C('k'),  // P40
        R::C('l'),  // P41
        R::C('m'),  // P42
        R::Nop,  // P43 Lower letter row
        R::C('w'),  // P44
        R::C('x'),  // P45
        R::C('c'),  // P46
        R::C('v'),  // P47
        R::C('b'),  // P48
        R::C('n'),  // P49
        R::C(':'),  // P50
        R::C(';'),  // P51
        R::Nop,  // P52
        R::AltL,  // P53 Bottom row
        R::C(','),  // P54
        R::C(' '),  // P55
        R::C('.'),  // P56
        R::AltR,  // P57
    ]
}

/// Keyboard map for Azerty with no active modifier keys.
pub fn map_azerty_base() -> (m: MapResultLUT)
    ensures
        m@ == spec_map_azerty_base(),
{
    let m: MapResultLUT = [
        R::Up,  // P2 Nav and function keys
        R::Left,  // P5
        R::Click,  // PC
        R::Right,  // P6
        R::F1,  // P3
        R::Shift,  // P4
        R::Down,  // P9
        R::F3,  // P7
        R::F4,  // P8
        R::C('1'),  // P13 Number row
        R::C('2'),  // P14
        R::C('3'),  // P15
        R::C('4'),  // P16
        R::C('5'),  // P17
        R::C('6'),  // P18
        R::C('7'),  // P19
        R::C('8'),  // P20
        R::C('9'),  // P21
        R::C('0'),  // P22
        R::C('a'),  // P23 Upper letter row
        R::C('z'),  // P24
        R::C('e'),  // P25
        R::C('r'),  // P26
        R::C('t'),  // P27
        R::C('y'),  // P28
        R::C('u'),  // P29
        R::C('i'),  // P30
        R::C('o'),  // P31
        R::C('p'),  // P32
        R::C('q'),  // P33 Home letter row
        R::C('s'),  // P34
        R::C('d'),  // P35
        R::C('f'),  // P36
        R::C('g'),  // P37
        R::C('h'),  // P38
        R::C('j'),  // P39
        R::C('k'),  // P40
        R::C('l'),  // P41
        R::C('m'),  // P42
        R::Nop,  // P43 Lower letter row
        R::C('w'),  // P44
        R::C('x'),  // P45
        R::C('c'),  // P46
        R::C('v'),  // P47
        R::C('b'),  // P48
        R::C('n'),  // P49
        R::C(':'),  // P50
        R::C(';'),  // P51
        R::Nop,  // P52
        R::AltL,  // P53 Bottom row
        R::C(','),  // P54
        R::C(' '),  // P55
        R::C('.'),  // P56
        R::AltR,  // P57
    ];
    proof {
        assert(m@ =~= spec_map_azerty_base());
    }
    m
}

/// Keyboard map for Azerty with shift.
pub open spec fn spec_map_azerty_shift() -> Seq<R> {
    seq![
        R::Up,  // P2 Nav and function keys
        R::Left,  // P5
        R::Click,  // PC
        R::Right,  // P6
        R::F1,  // P3
        R::Shift,  // P4
        R::Down,  // P9
        R::F3,  // P7
        R::F4,  // P8
        R::C('1'),  // P13 Number row
        R::C('2'),  // P14
        R::C('3'),  // P15
        R::C('4'),  // P16
        R::C('5'),  // P17
        R::C('6'),  // P18
        R::C('7'),  // P19
        R::C('8'),  // P20
        R::C('9'),  // P21
        R::C('0'),  // P22
        R::C('A'),  // P23 Upper letter row
        R::C('Z'),  // P24
        R::C('E'),  // P25
        R::C('R'),  // P26
        R::C('T'),  // P27
        R::C('Y'),  // P28
        R::C('U'),  // P29
        R::C('I'),  // P30
        R::C('O'),  // P31
        R::C('P'),  // P32
        R::C('Q'),  // P33 Home letter row
        R::C('S'),  // P34
        R::C('D'),  // P35
        R::C('F'),  // P36
        R::C('G'),  // P37
        R::C('H'),  // P38
        R::C('J'),  // P39
        R::C('K'),  // P40
        R::C('L'),  // P41
        R::C('M'),  // P42
        R::Nop,  // P43 Lower letter row
        R::C('W'),  // P44
        R::C('X'),  // P45
        R::C('C'),  // P46
        R::C('V'),  // P47
        R::C('B'),  // P48
        R::C('N'),  // P49
        R::C(':'),  // P50
        R::C(';'),  // P51
        R::Nop,  // P52
        R::AltL,  // P53 Bottom row
        R::C(','),  // P54
        R::C(' '),  // P55
        R::C('.'),  // P56
        R::AltR,  // P57
    ]
}

/// Keyboard map for Azerty with shift.
pub fn map_azerty_shift() -> (m: MapResultLUT)
    ensures
        m@ == spec_map_azerty_shift(),
{
    let m: MapResultLUT = [
        R::Up,  // P2 Nav and function keys
        R::Left,  // P5
        R::Click,  // PC
        R::Right,  // P6
        R::F1,  // P3
        R::Shift,  // P4
        R::Down,  // P9
        R::F3,  // P7
        R::F4,  // P8
        R::C('1'),  // P13 Number row
        R::C('2'),  // P14
        R::C('3'),  // P15
        R::C('4'),  // P16
        R::C('5'),  // P17
        R::C('6'),  // P18
        R::C('7'),  // P19
        R::C('8'),  // P20
        R::C('9'),  // P21
        R::C('0'),  // P22
        R::C('A'),  // P23 Upper letter row
        R::C('Z'),  // P24
        R::C('E'),  // P25
        R::C('R'),  // P26
        R::C('T'),  // P27
        R::C('Y'),  // P28
        R::C('U'),  // P29
        R::C('I'),  // P30
        R::C('O'),  // P31
        R::C('P'),  // P32
        R::C('Q'),  // P33 Home letter row
        R::C('S'),  // P34
        R::C('D'),  // P35
        R::C('F'),  // P36
        R::C('G'),  // P37
        R::C('H'),  // P38
        R::C('J'),  // P39
        R::C('K'),  // P40
        R::C('L'),  // P41
        R::C('M'),  // P42
        R::Nop,  // P43 Lower letter row
        R::C('W'),  // P44
        R::C('X'),  // P45
        R::C('C'),  // P46
        R::C('V'),  // P47
        R::C('B'),  // P48
        R::C('N'),  // P49
        R::C(':'),  // P50
        R::C(';'),  // P51
        R::Nop,  // P52
        R::AltL,  // P53 Bottom row
        R::C(','),  // P54
        R::C(' '),  // P55
        R::C('.'),  // P56
        R::AltR,  // P57
    ];
    proof {
        assert(m@ =~= spec_map_azerty_shift());
    }
    m
}

/// Keyboard map for Azerty with AltL.
pub open spec fn spec_map_azerty_altl() -> Seq<R> {
    seq![
        R::Up,  // P2 Nav and function keys
        R::Left,  // P5
        R::Click,  // PC
        R::Right,  // P6
        R::F1,  // P3
        R::F2,  // P4
        R::Down,  // P9
        R::F3,  // P7
        R::F4,  // P8
        R::C('\u{a7}'),  // P13 Number row
        R::Nop,  // P14
        R::Nop,  // P15
        R::Nop,  // P16
        R::C('['),  // P17
        R::C(']'),  // P18
        R::Nop,  // P19
        R::C('_'),  // P20
        R::C('\''),  // P21
        R::C('"'),  // P22
        R::Nop,  // P23 Upper letter row
        R::Nop,  // P24
        R::Nop,  // P25
        R::Nop,  // P26
        R::Nop,  // P27
        R::Nop,  // P28
        R::Nop,  // P29
        R::Nop,  // P30
        R::Nop,  // P31
        R::Nop,  // P32
        R::Nop,  // P33 Home letter row
        R::Nop,  // P34
        R::Nop,  // P35
        R::Nop,  // P36
        R::Nop,  // P37
        R::Nop,  // P38
        R::Nop,  // P39
        R::C('/'),  // P40
        R::Nop,  // P41
        R::Nop,  // P42
        R::Nop,  // P43 Lower letter row
        R::Nop,  // P44
        R::Nop,  // P45
        R::Nop,  // P46
        R::Nop,  // P47
        R::Nop,  // P48
        R::Nop,  // P49
        R::C('\u{bf}'),  // P50
        R::C('\u{a1}'),  // P51
        R::Nop,  // P52
        R::AltL,  // P53 Bottom row
        R::Nop,  // P54
        R::C(' '),  // P55
        R::Nop,  // P56
        R::AltR,  // P57
    ]
}

/// Keyboard map for Azerty with AltL.
pub fn map_azerty_altl() -> (m: MapResultLUT)
    ensures
        m@ == spec_map_azerty_altl(),
{
    let m: MapResultLUT = [
        R::Up,  // P2 Nav and function keys
        R::Left,  // P5
        R::Click,  // PC
        R::Right,  // P6
        R::F1,  // P3
        R::F2,  // P4
        R::Down,  // P9
        R::F3,  // P7
        R::F4,  // P8
        R::C('\u{a7}'),  // P13 Number row
        R::Nop,  // P14
        R::Nop,  // P15
        R::Nop,  // P16
        R::C('['),  // P17
        R::C(']'),  // P18
        R::Nop,  // P19
        R::C('_'),  // P20
        R::C('\''),  // P21
        R::C('"'),  // P22
        R::Nop,  // P23 Upper letter row
        R::Nop,  // P24
        R::Nop,  // P25
        R::Nop,  // P26
        R::Nop,  // P27
        R::Nop,  // P28
        R::Nop,  // P29
        R::Nop,  // P30
        R::Nop,  // P31
        R::Nop,  // P32
        R::Nop,  // P33 Home letter row
        R::Nop,  // P34
        R::Nop,  // P35
        R::Nop,  // P36
        R::Nop,  // P37
        R::Nop,  // P38
        R::Nop,  // P39
        R::C('/'),  // P40
        R::Nop,  // P41
        R::Nop,  // P42
        R::Nop,  // P43 Lower letter row
        R::Nop,  // P44
        R::Nop,  // P45
        R::Nop,  // P46
        R::Nop,  // P47
        R::Nop,  // P48
        R::Nop,  // P49
        R::C('\u{bf}'),  // P50
        R::C('\u{a1}'),  // P51
        R::Nop,  // P52
        R::AltL,  // P53 Bottom row
        R::Nop,  // P54
        R::C(' '),  // P55
        R::Nop,  // P56
        R::AltR,  // P57
    ];
    proof {
        assert(m@ =~= spec_map_azerty_altl());
    }
    m
}

/// Keyboard map for Azerty with AltR.
pub open spec fn spec_map_azerty_altr() -> Seq<R> {
    seq![
        R::Up,  // P2 Nav and function keys
        R::Left,  // P5
        R::Click,  // PC
        R::Right,  // P6
        R::F1,  // P3
        R::Shift,  // P4
        R::Down,  // P9
        R::F3,  // P7
        R::F4,  // P8
        R::C('\u{e0}'),  // P13 Number row
        R::C('\u{e9}'),  // P14
        R::C('\u{e8}'),  // P15
        R::C('\u{ea}'),  // P16
        R::C('('),  // P17
        R::C(')'),  // P18
        R::C('&'),  // P19
        R::C('*'),  // P20
        R::C('\u{ab}'),  // P21
        R::C('\u{bb}'),  // P22
        R::C('\u{e6}'),  // P23 Upper letter row
        R::C('\u{a3}'),  // P24
        R::C('\u{20ac}'),  // P25
        R::C('`'),  // P26
        R::C('{'),  // P27
        R::C('}'),  // P28
        R::C('\u{f9}'),  // P29
        R::C('\u{ef}'),  // P30
        R::C('\u{153}'),  // P31
        R::C('%'),  // P32
        R::C('@'),  // P33 Home letter row
        R::C('\u{df}'),  // P34
        R::C('$'),  // P35
        R::C('\u{a4}'),  // P36
        R::C('\u{b5}'),  // P37
        R::C('-'),  // P38
        R::C('+'),  // P39
        R::C('\\'),  // P40
        R::C('|'),  // P41
        R::C('#'),  // P42
        R::Bksp,  // P43 Lower letter row
        R::C('<'),  // P44
        R::C('>'),  // P45
        R::C('\u{e7}'),  // P46
        R::C('^'),  // P47
        R::C('='),  // P48
        R::C('~'),  // P49
        R::C('?'),  // P50
        R::C('!'),  // P51
        R::Enter,  // P52
        R::AltL,  // P53 Bottom row
        R::Symbol,  // P54
        R::C(' '),  // P55
        R::Emoji,  // P56
        R::AltR,  // P57
    ]
}

/// Keyboard map for Azerty with AltR.
pub fn map_azerty_altr() -> (m: MapResultLUT)
    ensures
        m@ == spec_map_azerty_altr(),
{
    let m: MapResultLUT = [
        R::Up,  // P2 Nav and function keys
        R::Left,  // P5
        R::Click,  // PC
        R::Right,  // P6
        R::F1,  // P3
        R::Shift,  // P4
        R::Down,  // P9
        R::F3,  // P7
        R::F4,  // P8
        R::C('\u{e0}'),  // P13 Number row
        R::C('\u{e9}'),  // P14
        R::C('\u{e8}'),  // P15
        R::C('\u{ea}'),  // P16
        R::C('('),  // P17
        R::C(')'),  // P18
        R::C('&'),  // P19
        R::C('*'),  // P20
        R::C('\u{ab}'),  // P21
        R::C('\u{bb}'),  // P22
        R::C('\u{e6}'),  // P23 Upper letter row
        R::C('\u{a3}'),  // P24
        R::C('\u{20ac}'),  // P25
        R::C('`'),  // P26
        R::C('{'),  // P27
        R::C('}'),  // P28
        R::C('\u{f9}'),  // P29
        R::C('\u{ef}'),  // P30
        R::C('\u{153}'),  // P31
        R::C('%'),  // P32
        R::C('@'),  // P33 Home letter row
        R::C('\u{df}'),  // P34
        R::C('$'),  // P35
        R::C('\u{a4}'),  // P36
        R::C('\u{b5}'),  // P37
        R::C('-'),  // P38
        R::C('+'),  // P39
        R::C('\\'),  // P40
        R::C('|'),  // P41
        R::C('#'),  // P42
        R::Bksp,  // P43 Lower letter row
        R::C('<'),  // P44
        R::C('>'),  // P45
        R::C('\u{e7}'),  // P46
        R::C('^'),  // P47
        R::C('='),  // P48
        R::C('~'),  // P49
        R::C('?'),  // P50
        R::C('!'),  // P51
        R::Enter,  // P52
        R::AltL,  // P53 Bottom row
        R::Symbol,  // P54
        R::C(' '),  // P55
        R::Emoji,  // P56
        R::AltR,  // P57
    ];
    proof {
        assert(m@ =~= spec_map_azerty_altr());
    }
    m
}

/// Keyboard map for Azerty with AltR and shift.
pub open spec fn spec_map_azerty_altrs() -> Seq<R> {
    seq![
        R::Up,  // P2 Nav and function keys
        R::Left,  // P5
        R::Click,  // PC
        R::Right,  // P6
        R::F1,  // P3
        R::Shift,  // P4
        R::Down,  // P9
        R::F3,  // P7
        R::F4,  // P8
        R::C('\u{c0}'),  // P13 Number row
        R::C('\u{c9}'),  // P14
        R::C('\u{c8}'),  // P15
        R::C('\u{ca}'),  // P16
        R::C('('),  // P17
        R::C(')'),  // P18
        R::C('&'),  // P19
        R::C('*'),  // P20
        R::C('\u{ab}'),  // P21
        R::C('\u{bb}'),  // P22
        R::C('\u{c6}'),  // P23 Upper letter row
        R::C('\u{a3}'),  // P24
        R::C('\u{20ac}'),  // P25
        R::C('`'),  // P26
        R::C('{'),  // P27
        R::C('}'),  // P28
        R::C('\u{d9}'),  // P29
        R::C('\u{cf}'),  // P30
        R::C('\u{152}'),  // P31
        R::C('%'),  // P32
        R::C('@'),  // P33 Home letter row
        R::C('\u{df}'),  // P34
        R::C('$'),  // P35
        R::C('\u{a4}'),  // P36
        R::C('\u{b5}'),  // P37
        R::C('-'),  // P38
        R::C('+'),  // P39
        R::C('\\'),  // P40
        R::C('|'),  // P41
        R::C('#'),  // P42
        R::Bksp,  // P43 Lower letter row
        R::C('<'),  // P44
        R::C('>'),  // P45
        R::C('\u{c7}'),  // P46
        R::C('^'),  // P47
        R::C('='),  // P48
        R::C('~'),  // P49
        R::C('?'),  // P50
        R::C('!'),  // P51
        R::Enter,  // P52
        R::AltL,  // P53 Bottom row
        R::Symbol,  // P54
        R::C(' '),  // P55
        R::Emoji,  // P56
        R::AltR,  // P57
    ]
}

/// Keyboard map for Azerty with AltR and shift.
pub fn map_azerty_altrs() -> (m: MapResultLUT)
    ensures
        m@ == spec_map_azerty_altrs(),
{
    let m: MapResultLUT = [
        R::Up,  // P2 Nav and function keys
        R::Left,  // P5
        R::Click,  // PC
        R::Right,  // P6
        R::F1,  // P3
        R::Shift,  // P4
        R::Down,  // P9
        R::F3,  // P7
        R::F4,  // P8
        R::C('\u{c0}'),  // P13 Number row
        R::C('\u{c9}'),  // P14
        R::C('\u{c8}'),  // P15
        R::C('\u{ca}'),  // P16
        R::C('('),  // P17
        R::C(')'),  // P18
        R::C('&'),  // P19
        R::C('*'),  // P20
        R::C('\u{ab}'),  // P21
        R::C('\u{bb}'),  // P22
        R::C('\u{c6}'),  // P23 Upper letter row
        R::C('\u{a3}'),  // P24
        R::C('\u{20ac}'),  // P25
        R::C('`'),  // P26
        R::C('{'),  // P27
        R::C('}'),  // P28
        R::C('\u{d9}'),  // P29
        R::C('\u{cf}'),  // P30
        R::C('\u{152}'),  // P31
        R::C('%'),  // P32
        R::C('@'),  // P33 Home letter row
        R::C('\u{df}'),  // P34
        R::C('$'),  // P35
        R::C('\u{a4}'),  // P36
        R::C('\u{b5}'),  // P37
        R::C('-'),  // P38
        R::C('+'),  // P39
        R::C('\\'),  // P40
        R::C('|'),  // P41
        R::C('#'),  // P42
        R::Bksp,  // P43 Lower letter row
        R::C('<'),  // P44
        R::C('>'),  // P45
        R::C('\u{c7}'),  // P46
        R::C('^'),  // P47
        R::C('='),  // P48
        R::C('~'),  // P49
        R::C('?'),  // P50
        R::C('!'),  // P51
        R::Enter,  // P52
        R::AltL,  // P53 Bottom row
        R::Symbol,  // P54
        R::C(' '),  // P55
        R::Emoji,  // P56
        R::AltR,  // P57
    ];
    proof {
        assert(m@ =~= spec_map_azerty_altrs());
    }
    m
}

/// Keyboard map for Qwerty with no active modifier keys.
pub open spec fn spec_map_qwerty_base() -> Seq<R> {
    seq![
        R::Up,  // P2 Nav and function keys
        R::Left,  // P5
        R::Click,  // PC
        R::Right,  // P6
        R::F1,  // P3
        R::Shift,  // P4
        R::Down,  // P9
        R::F3,  // P7
        R::F4,  // P8
        R::C('1'),  // P13 Number row
        R::C('2'),  // P14
        R::C('3'),  // P15
        R::C('4'),  // P16
        R::C('5'),  // P17
        R::C('6'),  // P18
        R::C('7'),  // P19
        R::C('8'),  // P20
        R::C('9'),  // P21
        R::C('0'),  // P22
        R::C('q'),  // P23 Upper letter row
        R::C('w'),  // P24
        R::C('e'),  // P25
        R::C('r'),  // P26
        R::C('t'),  // P27
        R::C('y'),  // P28
        R::C('u'),  // P29
        R::C('i'),  // P30
        R::C('o'),  // P31
        R::C('p'),  // P32
        R::C('a'),  // P33 Home letter row
        R::C('s'),  // P34
        R::C('d'),  // P35
        R::C('f'),  // P36
        R::C('g'),  // P37
        R::C('h'),  // P38
        R::C('j'),  // P39
        R::C('k'),  // P40
        R::C('l'),  // P41
        R::Bksp,  // P42
        R::C('!'),  // P43 Lower letter row
        R::C('z'),  // P44
        R::C('x'),  // P45
        R::C('c'),  // P46
        R::C('v'),  // P47
        R::C('b'),  // P48
        R::C('n'),  // P49
        R::C('m'),  // P50
        R::C('?'),  // P51
        R::Enter,  // P52
        R::AltL,  // P53 Bottom row
        R::C(','),  // P54
        R::C(' '),  // P55
        R::C('.'),  // P56
        R::AltR,  // P57
    ]
}

/// Keyboard map for Qwerty with no active modifier keys.
pub fn map_qwerty_base() -> (m: MapResultLUT)
    ensures
        m@ == spec_map_qwerty_base(),
{
    let m: MapResultLUT = [
        R::Up,  // P2 Nav and function keys
        R::Left,  // P5
        R::Click,  // PC
        R::Right,  // P6
        R::F1,  // P3
        R::Shift,  // P4
        R::Down,  // P9
        R::F3,  // P7
        R::F4,  // P8
        R::C('1'),  // P13 Number row
        R::C('2'),  // P14
        R::C('3'),  // P15
        R::C('4'),  // P16
        R::C('5'),  // P17
        R::C('6'),  // P18
        R::C('7'),  // P19
        R::C('8'),  // P20
        R::C('9'),  // P21
        R::C('0'),  // P22
        R::C('q'),  // P23 Upper letter row
        R::C('w'),  // P24
        R::C('e'),  // P25
        R::C('r'),  // P26
        R::C('t'),  // P27
        R::C('y'),  // P28
        R::C('u'),  // P29
        R::C('i'),  // P30
        R::C('o'),  // P31
        R::C('p'),  // P32
        R::C('a'),  // P33 Home letter row
        R::C('s'),  // P34
        R::C('d'),  // P35
        R::C('f'),  // P36
        R::C('g'),  // P37
        R::C('h'),  // P38
        R::C('j'),  // P39
        R::C('k'),  // P40
        R::C('l'),  // P41
        R::Bksp,  // P42
        R::C('!'),  // P43 Lower letter row
        R::C('z'),  // P44
        R::C('x'),  // P45
        R::C('c'),  // P46
        R::C('v'),  // P47
        R::C('b'),  // P48
        R::C('n'),  // P49
        R::C('m'),  // P50
        R::C('?'),  // P51
        R::Enter,  // P52
        R::AltL,  // P53 Bottom row
        R::C(','),  // P54
        R::C(' '),  // P55
        R::C('.'),  // P56
        R::AltR,  // P57
    ];
    proof {
        assert(m@ =~= spec_map_qwerty_base());
    }
    m
}

/// Keyboard map for Qwerty with shift.
pub open spec fn spec_map_qwerty_shift() -> Seq<R> {
    seq![
        R::Up,  // P2 Nav and function keys
        R::Left,  // P5
        R::Click,  // PC
        R::Right,  // P6
        R::F1,  // P3
        R::Shift,  // P4
        R::Down,  // P9
        R::F3,  // P7
        R::F4,  // P8
        R::C('1'),  // P13 Number row
        R::C('2'),  // P14
        R::C('3'),  // P15
        R::C('4'),  // P16
        R::C('5'),  // P17
        R::C('6'),  // P18
        R::C('7'),  // P19
        R::C('8'),  // P20
        R::C('9'),  // P21
        R::C('0'),  // P22
        R::C('Q'),  // P23 Upper letter row
        R::C('W'),  // P24
        R::C('E'),  // P25
        R::C('R'),  // P26
        R::C('T'),  // P27
        R::C('Y'),  // P28
        R::C('U'),  // P29
        R::C('I'),  // P30
        R::C('O'),  // P31
        R::C('P'),  // P32
        R::C('A'),  // P33 Home letter row
        R::C('S'),  // P34
        R::C('D'),  // P35
        R::C('F'),  // P36
        R::C('G'),  // P37
        R::C('H'),  // P38
        R::C('J'),  // P39
        R::C('K'),  // P40
        R::C('L'),  // P41
        R::Bksp,  // P42
        R::C('!'),  // P43 Lower letter row
        R::C('Z'),  // P44
        R::C('X'),  // P45
        R::C('C'),  // P46
        R::C('V'),  // P47
        R::C('B'),  // P48
        R::C('N'),  // P49
        R::C('M'),  // P50
        R::C('?'),  // P51
        R::Enter,  // P52
        R::AltL,  // P53 Bottom row
        R::C(','),  // P54
        R::C(' '),  // P55
        R::C('.'),  // P56
        R::AltR,  // P57
    ]
}

/// Keyboard map for Qwerty with shift.
pub fn map_qwerty_shift() -> (m: MapResultLUT)
    ensures
        m@ == spec_map_qwerty_shift(),
{
    let m: MapResultLUT = [
        R::Up,  // P2 Nav and function keys
        R::Left,  // P5
        R::Click,  // PC
        R::Right,  // P6
        R::F1,  // P3
        R::Shift,  // P4
        R::Down,  // P9
        R::F3,  // P7
        R::F4,  // P8
        R::C('1'),  // P13 Number row
        R::C('2'),  // P14
        R::C('3'),  // P15
        R::C('4'),  // P16
        R::C('5'),  // P17
        R::C('6'),  // P18
        R::C('7'),  // P19
        R::C('8'),  // P20
        R::C('9'),  // P21
        R::C('0'),  // P22
        R::C('Q'),  // P23 Upper letter row
        R::C('W'),  // P24
        R::C('E'),  // P25
        R::C('R'),  // P26
        R::C('T'),  // P27
        R::C('Y'),  // P28
        R::C('U'),  // P29
        R::C('I'),  // P30
        R::C('O'),  // P31
        R::C('P'),  // P32
        R::C('A'),  // P33 Home letter row
        R::C('S'),  // P34
        R::C('D'),  // P35
        R::C('F'),  // P36
        R::C('G'),  // P37
        R::C('H'),  // P38
        R::C('J'),  // P39
        R::C('K'),  // P40
        R::C('L'),  // P41
        R::Bksp,  // P42
        R::C('!'),  // P43 Lower letter row
        R::C('Z'),  // P44
        R::C('X'),  // P45
        R::C('C'),  // P46
        R::C('V'),  // P47
        R::C('B'),  // P48
        R::C('N'),  // P49
        R::C('M'),  // P50
        R::C('?'),  // P51
        R::Enter,  // P52
        R::AltL,  // P53 Bottom row
        R::C(','),  // P54
        R::C(' '),  // P55
        R::C('.'),  // P56
        R::AltR,  // P57
    ];
    proof {
        assert(m@ =~= spec_map_qwerty_shift());
    }
    m
}

/// Keyboard map for Qwerty with either Alt.
pub open spec fn spec_map_qwerty_alt() -> Seq<R> {
    seq![
        R::Up,  // P2 Nav and function keys
        R::Left,  // P5
        R::Click,  // PC
        R::Right,  // P6
        R::F1,  // P3
        R::F2,  // P4
        R::Down,  // P9
        R::F3,  // P7
        R::F4,  // P8
        R::Nop,  // P13 Number row
        R::Nop,  // P14
        R::Nop,  // P15
        R::Nop,  // P16
        R::Nop,  // P17
        R::Nop,  // P18
        R::Nop,  // P19
        R::Nop,  // P20
        R::Nop,  // P21
        R::Nop,  // P22
        R::C('%'),  // P23 Upper letter row
        R::C('^'),  // P24
        R::C('~'),  // P25
        R::C('|'),  // P26
        R::C('['),  // P27
        R::C(']'),  // P28
        R::C('<'),  // P29
        R::C('>'),  // P30
        R::C('{'),  // P31
        R::C('}'),  // P32
        R::C('@'),  // P33 Home letter row
        R::C('#'),  // P34
        R::C('&'),  // P35
        R::C('*'),  // P36
        R::C('-'),  // P37
        R::C('+'),  // P38
        R::C('='),  // P39
        R::C('('),  // P40
        R::C(')'),  // P41
        R::Bksp,  // P42
        R::C('`'),  // P43 Lower letter row
        R::C('_'),  // P44
        R::C('$'),  // P45
        R::C('"'),  // P46
        R::C('\''),  // P47
        R::C(':'),  // P48
        R::C(';'),  // P49
        R::C('/'),  // P50
        R::C('\\'),  // P51
        R::Enter,  // P52
        R::AltL,  // P53 Bottom row
        R::Symbol,  // P54
        R::C(' '),  // P55
        R::Emoji,  // P56
        R::AltR,  // P57
    ]
}

/// Keyboard map for Qwerty with either Alt.
pub fn map_qwerty_alt() -> (m: MapResultLUT)
    ensures
        m@ == spec_map_qwerty_alt(),
{
    let m: MapResultLUT = [
        R::Up,  // P2 Nav and function keys
        R::Left,  // P5
        R::Click,  // PC
        R::Right,  // P6
        R::F1,  // P3
        R::F2,  // P4
        R::Down,  // P9
        R::F3,  // P7
        R::F4,  // P8
        R::Nop,  // P13 Number row
        R::Nop,  // P14
        R::Nop,  // P15
        R::Nop,  // P16
        R::Nop,  // P17
        R::Nop,  // P18
        R::Nop,  // P19
        R::Nop,  // P20
        R::Nop,  // P21
        R::Nop,  // P22
        R::C('%'),  // P23 Upper letter row
        R::C('^'),  // P24
        R::C('~'),  // P25
        R::C('|'),  // P26
        R::C('['),  // P27
        R::C(']'),  // P28
        R::C('<'),  // P29
        R::C('>'),  // P30
        R::C('{'),  // P31
        R::C('}'),  // P32
        R::C('@'),  // P33 Home letter row
        R::C('#'),  // P34
        R::C('&'),  // P35
        R::C('*'),  // P36
        R::C('-'),  // P37
        R::C('+'),  // P38
        R::C('='),  // P39
        R::C('('),  // P40
        R::C(')'),  // P41
        R::Bksp,  // P42
        R::C('`'),  // P43 Lower letter row
        R::C('_'),  // P44
        R::C('$'),  // P45
        R::C('"'),  // P46
        R::C('\''),  // P47
        R::C(':'),  // P48
        R::C(';'),  // P49
        R::C('/'),  // P50
        R::C('\\'),  // P51
        R::Enter,  // P52
        R::AltL,  // P53 Bottom row
        R::Symbol,  // P54
        R::C(' '),  // P55
        R::Emoji,  // P56
        R::AltR,  // P57
    ];
    proof {
        assert(m@ =~= spec_map_qwerty_alt());
    }
    m
}

} // verus!
