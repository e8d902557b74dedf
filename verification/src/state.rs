//! UI state: the frame buffer with its repaint flag, and the context
//! object (status bar data, typed-text buffer, keyboard state) that the
//! caller owns and passes into every entry point.

use vstd::prelude::*;

use crate::blit::{LcdFB, LCD_FRAME_BUF_SIZE};
use crate::fonts::pua;
use crate::kbd::{Layout, ModKey};

verus! {

/// Battery charge levels shown in the status bar.
#[derive(Copy, Clone, PartialEq, Eq, Structural)]
pub enum Battery {
    B05,
    B25,
    B50,
    B75,
    B99,
}

/// Radio signal strength levels shown in the status bar.
#[derive(Copy, Clone, PartialEq, Eq, Structural)]
pub enum Radio {
    R3,
    R2,
    R1,
    R0,
    ROff,
}

/// The LCD frame buffer together with its needs-repaint flag.
pub struct FrameBuf {
    pub buf: LcdFB,
    pub is_dirty: u32,
}

impl FrameBuf {
    /// The repaint flag: nonzero when the buffer needs a repaint.
    pub open spec fn dirty_flag(&self) -> u32 {
        self.is_dirty
    }

    /// A frame buffer of all-zero words, marked clean.
    pub fn new() -> (fb: FrameBuf)
        ensures
            fb.buf@.len() == LCD_FRAME_BUF_SIZE,
            forall|i: int| 0 <= i < LCD_FRAME_BUF_SIZE ==> fb.buf@[i] == 0u32,
            fb.dirty_flag() == 0,
    {
        FrameBuf { buf: [0; LCD_FRAME_BUF_SIZE], is_dirty: 0 }
    }

    /// Mark the frame buffer as needing a repaint.
    pub fn set_dirty(&mut self)
        ensures
            final(self).buf == old(self).buf,
            final(self).dirty_flag() == 1,
    {
        self.is_dirty = 1;
    }

    /// Mark the frame buffer as clean.
    pub fn clear_dirty(&mut self)
        ensures
            final(self).buf == old(self).buf,
            final(self).dirty_flag() == 0,
    {
        self.is_dirty = 0;
    }

    /// Return the repaint flag: nonzero means a repaint is needed.
    pub fn dirty(&self) -> (d: u32)
        ensures
            d == self.dirty_flag(),
    {
        self.is_dirty
    }
}

/// Capacity of the typed-character FIFO.
pub const MAX_CHARS: usize = 14;

/// Size of the buffer backing the typed-character FIFO.
pub const CHAR_BUF_SIZE: usize = MAX_CHARS;

/// Status bar data, the home screen text buffer, and keyboard state.
pub struct Context<'a> {
    pub status_battery: Battery,
    pub status_radio: Radio,
    pub status_title: &'a str,
    pub status_time: &'a str,
    pub note: &'a str,
    pub char_buf: [char; CHAR_BUF_SIZE],
    pub char_buf_end: usize,
    pub kbd_layout: Layout,
    pub kbd_modkey: ModKey,
    pub demo_frame: usize,
}

impl Context<'_> {
    /// The typed-character FIFO never claims more characters than the
    /// buffer holds.
    pub open spec fn wf(&self) -> bool {
        self.char_buf_end <= CHAR_BUF_SIZE
    }

    /// The characters typed so far, oldest first.
    pub open spec fn text_model(&self) -> Seq<char> {
        self.char_buf@.take(self.char_buf_end as int)
    }

    /// A fresh context with the default status bar and an empty buffer.
    pub fn new() -> (ctx: Context<'static>)
        ensures
            ctx.wf(),
            ctx.status_battery == Battery::B75,
            ctx.status_radio == Radio::R3,
            ctx.status_title@ == "home"@,
            ctx.status_time@ == "12:34"@,
            ctx.note@ == "Hello, world!"@,
            ctx.text_model() == Seq::<char>::empty(),
            ctx.kbd_layout == Layout::Azerty,
            ctx.kbd_modkey == ModKey::Base,
            ctx.demo_frame == 0,
    {
        let ctx = Context {
            status_battery: Battery::B75,
            status_radio: Radio::R3,
            status_title: "home",
            status_time: "12:34",
            note: "Hello, world!",
            char_buf: ['\0'; CHAR_BUF_SIZE],
            char_buf_end: 0,
            kbd_layout: Layout::Azerty,
            kbd_modkey: ModKey::Base,
            demo_frame: 0,
        };
        proof {
            assert(ctx.text_model() =~= Seq::<char>::empty());
        }
        ctx
    }

    /// The next battery level in the demonstration cycle.
    pub open spec fn spec_next_battery(b: Battery) -> Battery {
        match b {
            Battery::B05 => Battery::B25,
            Battery::B25 => Battery::B50,
            Battery::B50 => Battery::B75,
            Battery::B75 => Battery::B99,
            Battery::B99 => Battery::B05,
        }
    }

    /// The next radio level in the demonstration cycle.
    pub open spec fn spec_next_radio(r: Radio) -> Radio {
        match r {
            Radio::R3 => Radio::ROff,
            Radio::R2 => Radio::R3,
            Radio::R1 => Radio::R2,
            Radio::R0 => Radio::R1,
            Radio::ROff => Radio::R0,
        }
    }

    /// Step the battery level (for the UI demonstration).
    pub fn cycle_battery(&mut self)
        ensures
            *final(self) == (Context {
                status_battery: Self::spec_next_battery(old(self).status_battery),
                ..*old(self)
            }),
    {
        self.status_battery = match self.status_battery {
            Battery::B05 => Battery::B25,
            Battery::B25 => Battery::B50,
            Battery::B50 => Battery::B75,
            Battery::B75 => Battery::B99,
            Battery::B99 => Battery::B05,
        };
    }

    /// Step the radio signal strength (for the UI demonstration).
    pub fn cycle_radio(&mut self)
        ensures
            *final(self) == (Context {
                status_radio: Self::spec_next_radio(old(self).status_radio),
                ..*old(self)
            }),
    {
        self.status_radio = match self.status_radio {
            Radio::R3 => Radio::ROff,
            Radio::R2 => Radio::R3,
            Radio::R1 => Radio::R2,
            Radio::R0 => Radio::R1,
            Radio::ROff => Radio::R0,
        };
    }

    /// The Private Use Area icon string for a battery level.
    pub open spec fn spec_battery_icon(b: Battery) -> Seq<char> {
        match b {
            Battery::B05 => pua::BATTERY_05@,
            Battery::B25 => pua::BATTERY_25@,
            Battery::B50 => pua::BATTERY_50@,
            Battery::B75 => pua::BATTERY_75@,
            Battery::B99 => pua::BATTERY_99@,
        }
    }

    /// The Private Use Area icon string for a radio level.
    pub open spec fn spec_radio_icon(r: Radio) -> Seq<char> {
        match r {
            Radio::R3 => pua::RADIO_3@,
            Radio::R2 => pua::RADIO_2@,
            Radio::R1 => pua::RADIO_1@,
            Radio::R0 => pua::RADIO_0@,
            Radio::ROff => pua::RADIO_OFF@,
        }
    }

    /// Translate the battery level to its icon character.
    pub fn battery_icon(&self) -> (s: &'static str)
        ensures
            s@ == Self::spec_battery_icon(self.status_battery),
    {
        match self.status_battery {
            Battery::B05 => pua::BATTERY_05,
            Battery::B25 => pua::BATTERY_25,
            Battery::B50 => pua::BATTERY_50,
            Battery::B75 => pua::BATTERY_75,
            Battery::B99 => pua::BATTERY_99,
        }
    }

    /// Translate the radio level to its icon character.
    pub fn radio_icon(&self) -> (s: &'static str)
        ensures
            s@ == Self::spec_radio_icon(self.status_radio),
    {
        match self.status_radio {
            Radio::R3 => pua::RADIO_3,
            Radio::R2 => pua::RADIO_2,
            Radio::R1 => pua::RADIO_1,
            Radio::R0 => pua::RADIO_0,
            Radio::ROff => pua::RADIO_OFF,
        }
    }

    /// The text buffer after one keystroke: append while there is room,
    /// else discard the oldest character and append.
    pub open spec fn spec_buffer_after(text: Seq<char>, c: char) -> Seq<char> {
        if text.len() < CHAR_BUF_SIZE {
            text.push(c)
        } else {
            text.skip(1).push(c)
        }
    }

    /// Accumulate one typed character into the FIFO buffer.
    pub fn buffer_keystroke(&mut self, c: char)
        requires
            old(self).wf(),
        ensures
            final(self).wf(),
            final(self).text_model() == Self::spec_buffer_after(old(self).text_model(), c),
            *final(self) == (Context {
                char_buf: final(self).char_buf,
                char_buf_end: final(self).char_buf_end,
                ..*old(self)
            }),
    {
        if self.char_buf_end < CHAR_BUF_SIZE {
            // Append while the buffer is not yet full.
            self.char_buf[self.char_buf_end] = c;
            self.char_buf_end = self.char_buf_end + 1;
            proof {
                assert(self.text_model() =~= old(self).text_model().push(c));
            }
        } else {
            // When full, discard the oldest character, then append.
            let mut i: usize = 0;
            while i < CHAR_BUF_SIZE - 1
                invariant
                    0 <= i <= CHAR_BUF_SIZE - 1,
                    self.char_buf_end == CHAR_BUF_SIZE,
                    self.char_buf@.len() == CHAR_BUF_SIZE,
                    forall|j: int| 0 <= j < i ==> self.char_buf@[j] == old(self).char_buf@[j + 1],
                    forall|j: int|
                        i <= j < CHAR_BUF_SIZE ==> self.char_buf@[j] == old(self).char_buf@[j],
                    *self == (Context {
                        char_buf: self.char_buf,
                        ..*old(self)
                    }),
                decreases CHAR_BUF_SIZE - i,
            {
                self.char_buf[i] = self.char_buf[i + 1];
                i = i + 1;
            }
            self.char_buf[CHAR_BUF_SIZE - 1] = c;
            proof {
                assert(self.text_model() =~= old(self).text_model().skip(1).push(c));
            }
        }
    }

    /// The typed characters as a string, oldest first.
    pub fn buffer(&self) -> (s: String)
        requires
            self.wf(),
        ensures
            s@ == self.text_model(),
    {
        let whole = self.char_buf.as_slice();
        let typed = vstd::slice::slice_subrange(whole, 0, self.char_buf_end);
        proof {
            assert(typed@ =~= self.text_model());
        }
        chars_to_string(typed)
    }
}

/// Relies on `String`'s `FromIterator<char>` impl: collecting a slice of
/// characters yields the string of exactly those characters in order.
#[verifier::external_body]
fn chars_to_string(cs: &[char]) -> (s: String)
    ensures
        s@ == cs@,
{
    cs.iter().collect()
}

} // verus!
