//! Splash-screen control on desktop targets, where the web view appears at
//! once and there is nothing to show or dismiss. On the mobile targets the
//! platform shells drive the native splash screen themselves.

use vstd::prelude::*;

verus! {

/// Shows the splash screen; nothing to do on desktop targets.
pub fn show() {
}

/// Dismisses the splash screen; nothing to do on desktop targets.
pub fn dismiss() {
}

} // verus!
