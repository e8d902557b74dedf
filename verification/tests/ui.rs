//! Keyboard, state and view tests.

use guilib::api;
use guilib::http::contains_blank_line;
use guilib::kbd;
use guilib::kbd::{Layout, ModKey, R};
use guilib::state::{Battery, Context, FrameBuf, Radio};
use guilib::trace::Code;
use guilib::views;
use guilib::views::keypos;

#[test]
fn context_defaults() {
    let ctx = Context::new();
    assert_eq!(ctx.buffer(), "");
    assert_eq!(ctx.battery_icon(), "\u{E703}");
    assert_eq!(ctx.radio_icon(), "\u{E705}");
    assert_eq!(ctx.status_title, "home");
    assert_eq!(ctx.status_time, "12:34");
    assert_eq!(ctx.note, "Hello, world!");
    assert_eq!(ctx.demo_frame, 0);
}

#[test]
fn battery_and_radio_cycle_through_all_levels() {
    let mut ctx = Context::new();
    ctx.status_battery = Battery::B05;
    let mut icons = Vec::new();
    for _ in 0..5 {
        icons.push(ctx.battery_icon());
        ctx.cycle_battery();
    }
    icons.sort();
    icons.dedup();
    assert_eq!(icons.len(), 5);
    assert_eq!(ctx.battery_icon(), "\u{E700}");
    ctx.status_radio = Radio::ROff;
    let mut icons = Vec::new();
    for _ in 0..5 {
        icons.push(ctx.radio_icon());
        ctx.cycle_radio();
    }
    icons.sort();
    icons.dedup();
    assert_eq!(icons.len(), 5);
    assert_eq!(ctx.radio_icon(), "\u{E709}");
}

#[test]
fn buffer_keystroke_keeps_the_newest_fourteen_characters() {
    let mut ctx = Context::new();
    for c in "abcdefghij".chars() {
        ctx.buffer_keystroke(c);
    }
    assert_eq!(ctx.buffer(), "abcdefghij");
    for c in "klmnop".chars() {
        ctx.buffer_keystroke(c);
    }
    // 16 typed, capacity 14: the oldest two are gone.
    assert_eq!(ctx.buffer(), "cdefghijklmnop");
}

#[test]
fn map_indices_cover_all_eight_maps() {
    let mut ctx = Context::new();
    let mut seen = Vec::new();
    for lo in [Layout::Azerty, Layout::Qwerty] {
        for mk in [ModKey::Base, ModKey::Shift, ModKey::AltL, ModKey::AltR, ModKey::AltRS] {
            ctx.kbd_layout = lo;
            ctx.kbd_modkey = mk;
            seen.push(kbd::cur_map_index(&ctx));
        }
    }
    assert_eq!(seen, vec![0, 1, 2, 3, 4, 5, 6, 7, 7, 7]);
}

#[test]
fn map_lookup_follows_layout_and_modifier() {
    let mut ctx = Context::new();
    ctx.kbd_layout = Layout::Qwerty;
    ctx.kbd_modkey = ModKey::Base;
    // Key P23 (index 19) is 'q' on qwerty, 'a' on azerty.
    assert!(matches!(kbd::cur_map_lut(&ctx)[19], R::C('q')));
    ctx.kbd_layout = Layout::Azerty;
    assert!(matches!(kbd::cur_map_lut(&ctx)[19], R::C('a')));
    ctx.kbd_modkey = ModKey::Shift;
    assert!(matches!(kbd::cur_map_lut(&ctx)[19], R::C('A')));
}

#[test]
fn modkey_transitions_match_the_machine() {
    let mut ctx = Context::new();
    ctx.kbd_layout = Layout::Azerty;
    ctx.kbd_modkey = ModKey::Base;
    kbd::modkey_down(&mut ctx, &R::Shift);
    assert!(matches!(ctx.kbd_modkey, ModKey::Shift));
    kbd::modkey_down(&mut ctx, &R::AltR);
    assert!(matches!(ctx.kbd_modkey, ModKey::AltRS));
    kbd::modkey_down(&mut ctx, &R::AltR);
    assert!(matches!(ctx.kbd_modkey, ModKey::Shift));
    kbd::modkey_down(&mut ctx, &R::Shift);
    assert!(matches!(ctx.kbd_modkey, ModKey::Base));
    // Qwerty has one Alt state: AltL then AltR turns it back off.
    ctx.kbd_layout = Layout::Qwerty;
    kbd::modkey_down(&mut ctx, &R::AltL);
    assert!(matches!(ctx.kbd_modkey, ModKey::AltL));
    kbd::modkey_down(&mut ctx, &R::AltR);
    assert!(matches!(ctx.kbd_modkey, ModKey::Base));
}

#[test]
fn keypos_places_keys_on_the_grid() {
    let cr = keypos(0, 0, 2);
    assert_eq!((cr.x0, cr.x1, cr.y0, cr.y1), (1, 67, 2, 35));
    // Right of the center gutter the cell shifts one pixel.
    let cr = keypos(6, 1, 1);
    assert_eq!((cr.x0, cr.x1, cr.y0, cr.y1), (200, 233, 35, 68));
    // A span crossing the gutter widens one pixel.
    let cr = keypos(3, 5, 4);
    assert_eq!((cr.x0, cr.x1, cr.y0, cr.y1), (100, 233, 167, 200));
}

#[test]
fn keydown_buffers_a_character_and_repaints() {
    let mut fb = Box::new(FrameBuf::new());
    let mut ctx = Context::new();
    api::kbd_set_layout_qwerty(&mut fb, &mut ctx);
    api::keydown(&mut fb, &mut ctx, 21);  // P25: 'e' on qwerty
    api::keyup(&mut fb, &mut ctx, 21);
    assert_eq!(ctx.buffer(), "e");
    assert_eq!(fb.dirty(), 1);
}

#[test]
fn keydown_shift_changes_the_modifier_and_the_next_character() {
    let mut fb = Box::new(FrameBuf::new());
    let mut ctx = Context::new();
    api::kbd_set_layout_qwerty(&mut fb, &mut ctx);
    api::keydown(&mut fb, &mut ctx, 5);  // P4: shift
    assert!(matches!(ctx.kbd_modkey, ModKey::Shift));
    api::keydown(&mut fb, &mut ctx, 21);  // 'E' with shift
    assert_eq!(ctx.buffer(), "E");
}

#[test]
fn keydown_out_of_range_changes_nothing() {
    let mut fb = Box::new(FrameBuf::new());
    let mut ctx = Context::new();
    api::keydown(&mut fb, &mut ctx, 54);
    assert_eq!(ctx.buffer(), "");
    assert_eq!(fb.dirty(), 0);
    api::keyup(&mut fb, &mut ctx, 1000);
    assert_eq!(fb.dirty(), 0);
}

#[test]
fn keyboard_invert_key_twice_restores_the_buffer() {
    let mut fb = Box::new(FrameBuf::new());
    views::keyboard_invert_key(&mut fb, 9);
    assert_eq!(fb.dirty(), 1);
    assert!(fb.buf.iter().any(|w| *w != 0));
    views::keyboard_invert_key(&mut fb, 9);
    assert!(fb.buf.iter().all(|w| *w == 0));
    // A navigation key has no label cell and flips nothing.
    views::keyboard_invert_key(&mut fb, 0);
    assert!(fb.buf.iter().all(|w| *w == 0));
}

#[test]
fn home_screen_paints_status_bar_and_content_box() {
    let mut fb = Box::new(FrameBuf::new());
    let mut ctx = Context::new();
    api::repaint(&mut fb, &mut ctx);
    assert_eq!(fb.dirty(), 1);
    let w = 11;
    // A status bar word no glyph reaches is pure background.
    assert_eq!(fb.buf[5], 0xffff_ffff);
    // The content box starts with cleared padding at MAIN_Y0, and its
    // top rule two lines later.
    assert_eq!(fb.buf[30 * w], 0xffff_ffff);
    assert_eq!(fb.buf[30 * w + 10], 0xffff_0000);
    assert_eq!(fb.buf[32 * w], 0xc000_0000);
    assert_eq!(fb.buf[32 * w + 10], 0x0003_0000);
}

#[test]
fn stripes_rotates_the_line_pattern() {
    let mut fb = Box::new(FrameBuf::new());
    views::stripes(&mut fb);
    assert_eq!(fb.dirty(), 1);
    assert_eq!(fb.buf[0], 0xffffff03);
    assert_eq!(fb.buf[10], 0xffffff03 & 0xffff0000);
    let second = 0xffffff03u32.rotate_right(1);
    assert_eq!(fb.buf[11], second);
    assert_eq!(fb.buf[21], second & 0xffff0000);
}

#[test]
fn demo_tick_advances_the_frame_counter_modulo_171() {
    let mut fb = Box::new(FrameBuf::new());
    let mut ctx = Context::new();
    api::demo_tick(&mut fb, &mut ctx);
    assert_eq!(ctx.demo_frame, 1);
    for _ in 0..170 {
        api::demo_tick(&mut fb, &mut ctx);
    }
    assert_eq!(ctx.demo_frame, 0);
    // The scripted keystrokes typed the demo text into the buffer.
    assert!(!ctx.buffer().is_empty());
}

#[test]
fn lcd_geometry() {
    assert_eq!(api::lcd_words_per_line(), 11);
    assert_eq!(api::lcd_px_per_line(), 336);
    assert_eq!(api::lcd_lines(), 536);
    let mut fb = Box::new(FrameBuf::new());
    assert_eq!(api::lcd_dirty(&fb), 0);
    api::lcd_set_dirty(&mut fb);
    assert_eq!(api::lcd_dirty(&fb), 1);
    api::lcd_clear_dirty(&mut fb);
    assert_eq!(api::lcd_dirty(&fb), 0);
}

#[test]
fn blank_line_detection() {
    assert!(contains_blank_line(b"GET / HTTP/1.1\r\nHost: x\r\n\r\n"));
    assert!(contains_blank_line(b"\r\n\r\n"));
    assert!(!contains_blank_line(b"GET / HTTP/1.1\r\nHost: x\r\n"));
    assert!(!contains_blank_line(b"\r\n\r"));
    assert!(!contains_blank_line(b""));
    assert!(!contains_blank_line(b"\n\n\n\n"));
}

#[test]
fn trace_codes() {
    assert_eq!(Code::BadKeyIndex.code(), -1);
    assert_eq!(Code::BadModkeyDownR.code(), -2);
}
