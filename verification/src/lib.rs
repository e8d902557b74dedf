//! Text and UI-primitive rendering for a monochrome, word-packed LCD
//! frame buffer: glyph decoding and a word-aligned blit engine, with the
//! layout, keyboard-map and UI-state logic built on top of them.

pub mod api;
pub mod blit;
pub mod demo;
pub mod fonts;
pub mod http;
pub mod kbd;
pub mod state;
pub mod trace;
pub mod views;
