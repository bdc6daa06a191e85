//! Keyboard handling policy of the mobile web view. When the on-screen
//! keyboard appears, the view is either resized above it (adjust) or locked
//! in place; which one the keyboard observers pick is this flag. The
//! observers themselves — native notification callbacks — live in the
//! application shell and read the policy from here.

use vstd::prelude::*;

verus! {

/// How a keyboard appearance is handled.
#[derive(Clone, Copy, Debug, PartialEq, Eq, Structural)]
pub enum KeyboardHandlingMode {
    /// No keyboard shown yet.
    Inactive,
    /// Resize the view above the keyboard.
    Adjust,
    /// Keep the view in place and lock scrolling.
    Lock,
}

/// The keyboard handling policy: whether a keyboard appearance adjusts the
/// view. Off until the front-end asks for adjustment.
pub struct KeyboardAdjustment {
    enabled: bool,
}

impl KeyboardAdjustment {
    /// The starting policy: keyboard appearances lock the view.
    pub fn new() -> (r: Self)
        ensures
            !r.enabled(),
    {
        KeyboardAdjustment { enabled: false }
    }

    /// Whether adjustment is switched on.
    pub closed spec fn enabled(&self) -> bool {
        self.enabled
    }

    /// Switches the adjustment mode; later keyboard notifications decide
    /// their strategy by this value.
    pub fn set_keyboard_adjustment(&mut self, enabled: bool)
        ensures
            final(self).enabled() == enabled,
    {
        self.enabled = enabled;
    }

    /// Reads the policy, as a keyboard notification callback does.
    pub fn should_adjust(&self) -> (r: bool)
        ensures
            r == self.enabled(),
    {
        self.enabled
    }

    /// The mode a keyboard appearance must use under the current policy.
    pub fn desired_mode(&self) -> (r: KeyboardHandlingMode)
        ensures
            r == (if self.enabled() {
                KeyboardHandlingMode::Adjust
            } else {
                KeyboardHandlingMode::Lock
            }),
    {
        if self.enabled {
            KeyboardHandlingMode::Adjust
        } else {
            KeyboardHandlingMode::Lock
        }
    }
}

} // verus!
