use vstd::prelude::*;

verus! {

pub const DASHBOARD: &'static str = "\u{E2C2}";
pub const FRIENDS: &'static str = "\u{E4D6}";
pub const FOLLOWS: &'static str = "\u{E46A}";
pub const MATCHES: &'static str = "\u{E5BA}";
pub const HEROES: &'static str = "\u{EC34}";
pub const ITEMS: &'static str = "\u{E1DA}";
pub const SETTINGS: &'static str = "\u{E270}";

} // verus!
