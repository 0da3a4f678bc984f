use vstd::prelude::*;

use super::my_enum::button_enum::{ButtonStatus, ButtonType};

verus! {

/// A button of the menu or of the play page.  Its rectangle and images are
/// kept by the caller, which tells whether a click fell inside it.
#[derive(Clone, Copy, Debug)]
pub struct Button {
    /// Image shown: 0 up, 1 down.
    pub frame: usize,
    pub button_type: ButtonType,
    pub button_status: ButtonStatus,
}

impl Button {
    /// A button of the given type, up.
    pub open spec fn spec_new(btn_type: ButtonType) -> Button {
        Button { frame: 0, button_type: btn_type, button_status: ButtonStatus::ButtonUp }
    }

    pub fn new(btn_type: ButtonType) -> (b: Button)
        ensures
            b == Button::spec_new(btn_type),
    {
        Button { frame: 0, button_type: btn_type, button_status: ButtonStatus::ButtonUp }
    }

    /// A click inside the button (`inside`) presses it; returns `inside`.
    pub fn check_click(&mut self, inside: bool) -> (clicked: bool)
        ensures
            clicked == inside,
            *final(self) == (if inside {
                Button { button_status: ButtonStatus::ButtonDown, frame: 1, ..*old(self) }
            } else {
                *old(self)
            }),
    {
        if inside {
            self.button_status = ButtonStatus::ButtonDown;
            self.frame = 1;
        }
        inside
    }

    /// Releases the button.
    pub fn set_up(&mut self)
        ensures
            *final(self) == (Button { button_status: ButtonStatus::ButtonUp, frame: 0, ..*old(self) }),
    {
        self.button_status = ButtonStatus::ButtonUp;
        self.frame = 0;
    }

    pub fn be_clicked(&self) -> (r: bool)
        ensures
            r == (self.button_status == ButtonStatus::ButtonDown),
    {
        match self.button_status {
            ButtonStatus::ButtonDown => true,
            ButtonStatus::ButtonUp => false,
        }
    }
}

} // verus!
