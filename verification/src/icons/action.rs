use vstd::prelude::*;

verus! {

pub const COLLAPSE: &'static str = "\u{E138}";
pub const EXPAND: &'static str = "\u{E13A}";
pub const CARET_DOWN: &'static str = "\u{E136}";
pub const CLOSE: &'static str = "\u{E4F6}";
pub const SEARCH: &'static str = "\u{E30C}";
pub const ADD: &'static str = "\u{E3D4}";
pub const REMOVE: &'static str = "\u{E32A}";
pub const REFRESH: &'static str = "\u{E038}";
pub const SYNC: &'static str = "\u{E094}";
pub const MENU: &'static str = "\u{E2F0}";
pub const MORE: &'static str = "\u{E1FE}";
pub const CHECK: &'static str = "\u{E182}";
pub const WARNING: &'static str = "\u{E4E0}";
pub const INFO: &'static str = "\u{E2CE}";
pub const EDIT: &'static str = "\u{E3B4}";
pub const DELETE: &'static str = "\u{E4A6}";
pub const TRACK: &'static str = "\u{E0CE}";
pub const TRACKING: &'static str = "\u{E5E8}";
pub const ARROW_LEFT: &'static str = "\u{E058}";
pub const PANEL_LEFT: &'static str = "\u{EC24}";

} // verus!
