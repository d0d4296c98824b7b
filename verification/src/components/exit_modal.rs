//! The "really quit?" confirmation.

use vstd::prelude::*;

verus! {

#[derive(Debug, Clone, Copy, PartialEq, Eq, Structural)]
pub enum ExitAction {
    Confirm,
    Cancel,
}

#[derive(Debug, Default)]
pub struct ExitModal {
    pub visible: bool,
}

impl ExitModal {
    /// A hidden confirmation.
    pub fn new() -> (modal: Self)
        ensures
            !modal.visible,
    {
        ExitModal { visible: false }
    }

    pub fn show(&mut self)
        ensures
            final(self).visible,
    {
        self.visible = true;
    }

    pub fn close(&mut self)
        ensures
            !final(self).visible,
    {
        self.visible = false;
    }

    /// The window was asked to close: the first request is held back and the
    /// confirmation shown instead. Tells whether the close was held back.
    pub fn intercept_close(&mut self) -> (held: bool)
        ensures
            held == !old(self).visible,
            final(self).visible,
    {
        if self.visible {
            false
        } else {
            self.visible = true;
            true
        }
    }

    /// The user answered the confirmation: tells whether to quit. A cancel
    /// hides the confirmation; a confirm leaves it to the closing window.
    pub fn resolve(&mut self, action: ExitAction) -> (quit: bool)
        ensures
            quit == (action == ExitAction::Confirm),
            action == ExitAction::Cancel ==> !final(self).visible,
            action == ExitAction::Confirm ==> final(self).visible == old(self).visible,
    {
        match action {
            ExitAction::Confirm => true,
            ExitAction::Cancel => {
                self.close();
                false
            },
        }
    }
}

} // verus!
