use vstd::prelude::*;

verus! {

pub const STRENGTH: &'static str = "\u{E1EC}";
pub const AGILITY: &'static str = "\u{E448}";
pub const INTELLIGENCE: &'static str = "\u{E1BA}";
pub const UNIVERSAL: &'static str = "\u{E46A}";
pub const GOLD: &'static str = "\u{E78E}";

} // verus!
