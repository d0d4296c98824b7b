use vstd::prelude::*;

verus! {

pub const SMALL: u8 = 6;
pub const MEDIUM: u8 = 10;
pub const LARGE: u8 = 14;
pub const ROUND: u8 = 255;

} // verus!
