//! Entry points for keyboard and screen events: every one takes the
//! frame buffer and context by reference, so the caller owns all state.

use vstd::prelude::*;

use crate::blit::{LCD_LINES, LCD_PX_PER_LINE, LCD_WORDS_PER_LINE};
use crate::kbd;
use crate::kbd::{spec_key_result, spec_modkey_next, R, MAP_SIZE};
use crate::state::{Context, FrameBuf};
use crate::views;
use crate::views::{spec_home_screen, spec_keyboard_invert};

verus! {

/// True of the key results that act as modifier keys.
pub open spec fn is_mod_result(r: R) -> bool {
    r == R::AltL || r == R::AltR || r == R::Shift
}

/// Repaint the active view.
pub fn repaint(fb: &mut FrameBuf, ctx: &mut Context)
    requires
        old(ctx).wf(),
    ensures
        final(fb).buf@ == spec_home_screen(old(fb).buf@, *old(ctx)),
        final(fb).dirty_flag() == 1,
        *final(ctx) == *old(ctx),
{
    views::home_screen(fb, ctx);
}

/// Handle a key down event: a character key buffers its character and
/// repaints, a modifier key steps the modifier machine and repaints,
/// any other key does neither; every known key is then shown inverted.
pub fn keydown(fb: &mut FrameBuf, ctx: &mut Context, key_index: u32)
    requires
        old(ctx).wf(),
    ensures
        final(ctx).wf(),
        key_index >= MAP_SIZE as u32 ==> *final(fb) == *old(fb) && *final(ctx) == *old(ctx),
        key_index < MAP_SIZE as u32 ==> final(fb).dirty_flag() == 1,
        key_index < MAP_SIZE as u32 ==> (spec_key_result(
            old(ctx).kbd_layout,
            old(ctx).kbd_modkey,
            key_index as int,
        ) matches R::C(c) ==> final(ctx).text_model() == Context::spec_buffer_after(
            old(ctx).text_model(),
            c,
        ) && *final(ctx) == (Context {
            char_buf: final(ctx).char_buf,
            char_buf_end: final(ctx).char_buf_end,
            ..*old(ctx)
        }) && final(fb).buf@ == spec_keyboard_invert(
            spec_home_screen(old(fb).buf@, *final(ctx)),
            key_index as int,
        )),
        key_index < MAP_SIZE as u32 && is_mod_result(
            spec_key_result(old(ctx).kbd_layout, old(ctx).kbd_modkey, key_index as int),
        ) ==> *final(ctx) == (Context {
            kbd_modkey: spec_modkey_next(
                old(ctx).kbd_layout,
                old(ctx).kbd_modkey,
                spec_key_result(old(ctx).kbd_layout, old(ctx).kbd_modkey, key_index as int),
            ),
            ..*old(ctx)
        }) && final(fb).buf@ == spec_keyboard_invert(
            spec_home_screen(old(fb).buf@, *final(ctx)),
            key_index as int,
        ),
        key_index < MAP_SIZE as u32 && !(spec_key_result(
            old(ctx).kbd_layout,
            old(ctx).kbd_modkey,
            key_index as int,
        ) matches R::C(_)) && !is_mod_result(
            spec_key_result(old(ctx).kbd_layout, old(ctx).kbd_modkey, key_index as int),
        ) ==> *final(ctx) == *old(ctx) && final(fb).buf@ == spec_keyboard_invert(
            old(fb).buf@,
            key_index as int,
        ),
{
    if key_index >= MAP_SIZE as u32 {
        return ;
    }
    let lut = kbd::cur_map_lut(ctx);
    let result = lut[key_index as usize];
    match result {
        R::C(c) => {
            ctx.buffer_keystroke(c);
            repaint(fb, ctx);
        },
        R::AltL => {
            kbd::modkey_down(ctx, &result);
            repaint(fb, ctx);
        },
        R::AltR => {
            kbd::modkey_down(ctx, &result);
            repaint(fb, ctx);
        },
        R::Shift => {
            kbd::modkey_down(ctx, &result);
            repaint(fb, ctx);
        },
        _ => (),
    }
    views::keyboard_invert_key(fb, key_index as usize);
}

/// Handle a key up event: show the key upright again.
pub fn keyup(fb: &mut FrameBuf, ctx: &mut Context, key_index: u32)
    ensures
        *final(ctx) == *old(ctx),
        key_index >= MAP_SIZE as u32 ==> *final(fb) == *old(fb),
        key_index < MAP_SIZE as u32 ==> final(fb).buf@ == spec_keyboard_invert(
            old(fb).buf@,
            key_index as int,
        ) && final(fb).dirty_flag() == 1,
{
    if key_index >= MAP_SIZE as u32 {
        return ;
    }
    views::keyboard_invert_key(fb, key_index as usize);
}

/// Change the keyboard layout to Azerty and repaint.
pub fn kbd_set_layout_azerty(fb: &mut FrameBuf, ctx: &mut Context)
    requires
        old(ctx).wf(),
    ensures
        *final(ctx) == (Context {
            kbd_layout: kbd::Layout::Azerty,
            kbd_modkey: kbd::ModKey::Base,
            ..*old(ctx)
        }),
        final(fb).buf@ == spec_home_screen(old(fb).buf@, *final(ctx)),
        final(fb).dirty_flag() == 1,
{
    kbd::set_layout(ctx, kbd::Layout::Azerty);
    kbd::set_modkey(ctx, kbd::ModKey::Base);
    repaint(fb, ctx);
}

/// Change the keyboard layout to Qwerty and repaint.
pub fn kbd_set_layout_qwerty(fb: &mut FrameBuf, ctx: &mut Context)
    requires
        old(ctx).wf(),
    ensures
        *final(ctx) == (Context {
            kbd_layout: kbd::Layout::Qwerty,
            kbd_modkey: kbd::ModKey::Base,
            ..*old(ctx)
        }),
        final(fb).buf@ == spec_home_screen(old(fb).buf@, *final(ctx)),
        final(fb).dirty_flag() == 1,
{
    kbd::set_layout(ctx, kbd::Layout::Qwerty);
    kbd::set_modkey(ctx, kbd::ModKey::Base);
    repaint(fb, ctx);
}

/// Step the UI demonstration animation by one tick: the frame counter
/// advances modulo 171 and the frame's scripted event runs; frames
/// past the status-cycling prologue touch only the keyboard state, the
/// text buffer and the frame buffer.
pub fn demo_tick(fb: &mut FrameBuf, ctx: &mut Context)
    requires
        old(ctx).wf(),
    ensures
        final(ctx).wf(),
        final(ctx).demo_frame == (old(ctx).demo_frame + 1) % 171,
        10 < old(ctx).demo_frame ==> final(ctx).status_battery == old(ctx).status_battery
            && final(ctx).status_radio == old(ctx).status_radio
            && final(ctx).kbd_layout == old(ctx).kbd_layout
            && final(ctx).status_title == old(ctx).status_title
            && final(ctx).status_time == old(ctx).status_time
            && final(ctx).note == old(ctx).note,
{
    crate::demo::tick(fb, ctx);
}

/// Words of frame buffer storage per LCD line.
pub fn lcd_words_per_line() -> (n: usize)
    ensures
        n == LCD_WORDS_PER_LINE,
{
    LCD_WORDS_PER_LINE
}

/// Pixels per LCD line.
pub fn lcd_px_per_line() -> (n: usize)
    ensures
        n == LCD_PX_PER_LINE,
{
    LCD_PX_PER_LINE
}

/// Lines in the LCD frame buffer.
pub fn lcd_lines() -> (n: usize)
    ensures
        n == LCD_LINES,
{
    LCD_LINES
}

/// Return nonzero when the frame buffer needs a repaint.
pub fn lcd_dirty(fb: &FrameBuf) -> (d: u32)
    ensures
        d == fb.dirty_flag(),
{
    fb.dirty()
}

/// Mark the frame buffer as needing a repaint.
pub fn lcd_set_dirty(fb: &mut FrameBuf)
    ensures
        final(fb).buf == old(fb).buf,
        final(fb).dirty_flag() == 1,
{
    fb.set_dirty();
}

/// Mark the frame buffer as clean.
pub fn lcd_clear_dirty(fb: &mut FrameBuf)
    ensures
        final(fb).buf == old(fb).buf,
        final(fb).dirty_flag() == 0,
{
    fb.clear_dirty();
}

} // verus!
