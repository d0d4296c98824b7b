//! The window's menu bar entries.

use vstd::prelude::*;
use crate::app::Route;

verus! {

/// What a menu entry asks for.
pub enum MenuAction {
    Navigate(Route),
    OpenFeedback,
    ShowAbout,
    CheckUpdates,
    Exit,
}

} // verus!
