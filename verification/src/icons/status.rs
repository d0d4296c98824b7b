use vstd::prelude::*;

verus! {

pub const VICTORY: &'static str = "\u{E67E}";
pub const DEFEAT: &'static str = "\u{E4F6}";
pub const ONLINE: &'static str = "\u{E18A}";
pub const OFFLINE: &'static str = "\u{E602}";
pub const IN_GAME: &'static str = "\u{E26E}";

} // verus!
