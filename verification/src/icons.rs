//! Phosphor glyphs used across the interface, grouped by where they appear.
//! Each constant holds the glyph's private-use codepoint in the Phosphor font
//! that the application registers with its renderer.

pub mod action;
pub mod game;
pub mod nav;
pub mod status;
