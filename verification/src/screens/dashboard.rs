//! The Dashboard screen: the welcome page, which holds no state.

use vstd::prelude::*;

verus! {

pub struct DashboardScreen {}

impl DashboardScreen {
    pub fn new() -> (screen: Self)
        ensures
            screen == (DashboardScreen {}),
    {
        DashboardScreen {}
    }
}

impl Default for DashboardScreen {
    fn default() -> (screen: Self)
        ensures
            screen == (DashboardScreen {}),
    {
        Self::new()
    }
}

} // verus!
