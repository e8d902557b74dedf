//! UI demonstration: a scripted animation that exercises the event
//! entry points, standing in for unimplemented UI events.

use vstd::prelude::*;

use vstd::arithmetic::div_mod::lemma_add_mod_noop;

use crate::api::{kbd_set_layout_qwerty, keydown, keyup, repaint};
use crate::kbd::{Layout, ModKey};
use crate::state::{Context, FrameBuf};
use crate::views::spec_home_screen;

verus! {

/// Step the demonstration animation by one tick: the frame counter
/// advances modulo 171, and each frame number triggers one scripted
/// event. Frames 0-4 cycle the radio level and repaint, frames 5-9
/// cycle the battery level and repaint, frame 10 switches to the
/// Qwerty layout; the frames after that type a scripted sentence on
/// the on-screen keyboard, touching only the keyboard state, the text
/// buffer and the frame buffer.
pub fn tick(fb: &mut FrameBuf, ctx: &mut Context)
    requires
        old(ctx).wf(),
    ensures
        final(ctx).wf(),
        final(ctx).demo_frame == (old(ctx).demo_frame + 1) % 171,
        old(ctx).demo_frame < 5 ==> *final(ctx) == (Context {
            status_radio: Context::spec_next_radio(old(ctx).status_radio),
            demo_frame: final(ctx).demo_frame,
            ..*old(ctx)
        }) && final(fb).buf@ == spec_home_screen(old(fb).buf@, *final(ctx))
            && final(fb).dirty_flag() == 1,
        5 <= old(ctx).demo_frame < 10 ==> *final(ctx) == (Context {
            status_battery: Context::spec_next_battery(old(ctx).status_battery),
            demo_frame: final(ctx).demo_frame,
            ..*old(ctx)
        }) && final(fb).buf@ == spec_home_screen(old(fb).buf@, *final(ctx))
            && final(fb).dirty_flag() == 1,
        old(ctx).demo_frame == 10 ==> *final(ctx) == (Context {
            kbd_layout: Layout::Qwerty,
            kbd_modkey: ModKey::Base,
            demo_frame: final(ctx).demo_frame,
            ..*old(ctx)
        }) && final(fb).buf@ == spec_home_screen(old(fb).buf@, *final(ctx))
            && final(fb).dirty_flag() == 1,
        10 < old(ctx).demo_frame ==> final(ctx).status_battery == old(ctx).status_battery
            && final(ctx).status_radio == old(ctx).status_radio
            && final(ctx).kbd_layout == old(ctx).kbd_layout
            && final(ctx).status_title == old(ctx).status_title
            && final(ctx).status_time == old(ctx).status_time
            && final(ctx).note == old(ctx).note,
{
    let fr = ctx.demo_frame;
    ctx.demo_frame = (fr % 171 + 1) % 171;
    proof {
        lemma_add_mod_noop(fr as int, 1, 171);
    }
    match fr {
        0..=4 => {
            ctx.cycle_radio();
            repaint(fb, ctx);
        },
        5..=9 => {
            ctx.cycle_battery();
            repaint(fb, ctx);
        },
        10 => kbd_set_layout_qwerty(fb, ctx),
        11 => keydown(fb, ctx, 5),  // shift (F2)
        12 => keyup(fb, ctx, 5),  // shift (F2)
        13 => keydown(fb, ctx, 20),  // W
        14 => keyup(fb, ctx, 20),  // W
        15 => keydown(fb, ctx, 5),  // shift (F2)
        16 => keyup(fb, ctx, 5),  // shift (F2)
        17 => keydown(fb, ctx, 34),  // h
        18 => keyup(fb, ctx, 34),  // h
        19 => keydown(fb, ctx, 29),  // a
        20 => keyup(fb, ctx, 29),  // a
        21 => keydown(fb, ctx, 23),  // t
        22 => keyup(fb, ctx, 23),  // t
        23 => keydown(fb, ctx, 51),
        24 => keyup(fb, ctx, 51),
        25 => keydown(fb, ctx, 26),  // i
        26 => keyup(fb, ctx, 26),  // i
        27 => keydown(fb, ctx, 30),  // s
        28 => keyup(fb, ctx, 30),  // s
        29 => keydown(fb, ctx, 51),
        30 => keyup(fb, ctx, 51),
        31 => keydown(fb, ctx, 26),  // i
        32 => keyup(fb, ctx, 26),  // i
        33 => keydown(fb, ctx, 23),  // t
        34 => keyup(fb, ctx, 23),  // t
        35 => keydown(fb, ctx, 51),
        36 => keyup(fb, ctx, 51),
        37 => keydown(fb, ctx, 24),  // y
        38 => keyup(fb, ctx, 24),  // y
        39 => keydown(fb, ctx, 27),  // o
        40 => keyup(fb, ctx, 27),  // o
        41 => keydown(fb, ctx, 25),  // u
        42 => keyup(fb, ctx, 25),  // u
        43 => keydown(fb, ctx, 51),
        44 => keyup(fb, ctx, 51),
        45 => keydown(fb, ctx, 20),  // w
        46 => keyup(fb, ctx, 20),  // w
        47 => keydown(fb, ctx, 27),  // o
        48 => keyup(fb, ctx, 27),  // o
        49 => keydown(fb, ctx, 25),  // u
        50 => keyup(fb, ctx, 25),  // u
        51 => keydown(fb, ctx, 37),  // l
        52 => keyup(fb, ctx, 37),  // l
        53 => keydown(fb, ctx, 31),  // d
        54 => keyup(fb, ctx, 31),  // d
        55 => keydown(fb, ctx, 51),
        56 => keyup(fb, ctx, 51),
        57 => keydown(fb, ctx, 30),  // s
        58 => keyup(fb, ctx, 30),  // s
        59 => keydown(fb, ctx, 21),  // e
        60 => keyup(fb, ctx, 21),  // e
        61 => keydown(fb, ctx, 21),  // e
        62 => keyup(fb, ctx, 21),  // e
        63 => keydown(fb, ctx, 47),  // ?
        64 => keyup(fb, ctx, 47),  // ?
        65 => keydown(fb, ctx, 51),
        66 => keyup(fb, ctx, 51),
        67 => keydown(fb, ctx, 5),  // shift (F2)
        68 => keyup(fb, ctx, 5),  // shift (F2)
        69 => keydown(fb, ctx, 26),  // I
        70 => keyup(fb, ctx, 26),  // I
        71 => keydown(fb, ctx, 5),  // shift (F2)
        72 => keyup(fb, ctx, 5),  // shift (F2)
        73 => keydown(fb, ctx, 32),  // f
        74 => keyup(fb, ctx, 32),  // f
        75 => keydown(fb, ctx, 51),
        76 => keyup(fb, ctx, 51),
        77 => keydown(fb, ctx, 29),  // a
        78 => keyup(fb, ctx, 29),  // a
        79 => keydown(fb, ctx, 25),  // u
        80 => keyup(fb, ctx, 25),  // u
        81 => keydown(fb, ctx, 33),  // g
        82 => keyup(fb, ctx, 33),  // g
        83 => keydown(fb, ctx, 34),  // h
        84 => keyup(fb, ctx, 34),  // h
        85 => keydown(fb, ctx, 23),  // t
        86 => keyup(fb, ctx, 23),  // t
        87 => keydown(fb, ctx, 51),
        88 => keyup(fb, ctx, 51),
        89 => keydown(fb, ctx, 27),  // o
        90 => keyup(fb, ctx, 27),  // o
        91 => keydown(fb, ctx, 32),  // f
        92 => keyup(fb, ctx, 32),  // f
        93 => keydown(fb, ctx, 51),
        94 => keyup(fb, ctx, 51),
        95 => keydown(fb, ctx, 20),  // w
        96 => keyup(fb, ctx, 20),  // w
        97 => keydown(fb, ctx, 27),  // o
        98 => keyup(fb, ctx, 27),  // o
        99 => keydown(fb, ctx, 21),  // e
        100 => keyup(fb, ctx, 21),  // e
        101 => keydown(fb, ctx, 51),
        102 => keyup(fb, ctx, 51),
        103 => keydown(fb, ctx, 27),  // o
        104 => keyup(fb, ctx, 27),  // o
        105 => keydown(fb, ctx, 22),  // r
        106 => keyup(fb, ctx, 22),  // r
        107 => keydown(fb, ctx, 51),
        108 => keyup(fb, ctx, 51),
        109 => keydown(fb, ctx, 20),  // w
        110 => keyup(fb, ctx, 20),  // w
        111 => keydown(fb, ctx, 27),  // o
        112 => keyup(fb, ctx, 27),  // o
        113 => keydown(fb, ctx, 45),  // n
        114 => keyup(fb, ctx, 45),  // n
        115 => keydown(fb, ctx, 31),  // d
        116 => keyup(fb, ctx, 31),  // d
        117 => keydown(fb, ctx, 21),  // e
        118 => keyup(fb, ctx, 21),  // e
        119 => keydown(fb, ctx, 22),  // r
        120 => keyup(fb, ctx, 22),  // r
        121 => keydown(fb, ctx, 50),  // ,
        122 => keyup(fb, ctx, 50),  // ,
        123 => keydown(fb, ctx, 51),
        124 => keyup(fb, ctx, 51),
        125 => keydown(fb, ctx, 42),  // c
        126 => keyup(fb, ctx, 42),  // c
        127 => keydown(fb, ctx, 21),  // e
        128 => keyup(fb, ctx, 21),  // e
        129 => keydown(fb, ctx, 29),  // a
        130 => keyup(fb, ctx, 29),  // a
        131 => keydown(fb, ctx, 30),  // s
        132 => keyup(fb, ctx, 30),  // s
        133 => keydown(fb, ctx, 21),  // e
        134 => keyup(fb, ctx, 21),  // e
        135 => keydown(fb, ctx, 51),
        136 => keyup(fb, ctx, 51),
        137 => keydown(fb, ctx, 24),  // y
        138 => keyup(fb, ctx, 24),  // y
        139 => keydown(fb, ctx, 27),  // o
        140 => keyup(fb, ctx, 27),  // o
        141 => keydown(fb, ctx, 25),  // u
        142 => keyup(fb, ctx, 25),  // u
        143 => keydown(fb, ctx, 22),  // r
        144 => keyup(fb, ctx, 22),  // r
        145 => keydown(fb, ctx, 51),
        146 => keyup(fb, ctx, 51),
        147 => keydown(fb, ctx, 30),  // s
        148 => keyup(fb, ctx, 30),  // s
        149 => keydown(fb, ctx, 21),  // e
        150 => keyup(fb, ctx, 21),  // e
        151 => keydown(fb, ctx, 29),  // a
        152 => keyup(fb, ctx, 29),  // a
        153 => keydown(fb, ctx, 22),  // r
        154 => keyup(fb, ctx, 22),  // r
        155 => keydown(fb, ctx, 42),  // c
        156 => keyup(fb, ctx, 42),  // c
        157 => keydown(fb, ctx, 34),  // h
        158 => keyup(fb, ctx, 34),  // h
        159 => keydown(fb, ctx, 52),  // .
        160 => keyup(fb, ctx, 52),  // .
        161 => keydown(fb, ctx, 51),
        162 => keyup(fb, ctx, 51),
        163 => keydown(fb, ctx, 51),
        164 => keyup(fb, ctx, 51),
        165 => keydown(fb, ctx, 51),
        166 => keyup(fb, ctx, 51),
        167 => keydown(fb, ctx, 51),
        168 => keyup(fb, ctx, 51),
        169 => keydown(fb, ctx, 51),
        170 => keyup(fb, ctx, 51),
        _ => (),
    }}

} // verus!
