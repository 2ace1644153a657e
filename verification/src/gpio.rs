//! How a pin is used, whatever the chip.

use vstd::prelude::*;

verus! {

/// Which level of a pin counts as active.
#[derive(Clone, Copy, Debug, PartialEq, Eq, Structural)]
pub enum ActivationMode {
    ActiveHigh,
    ActiveLow,
}

/// Where a pin that nothing drives is pulled.
#[derive(Clone, Copy, Debug, PartialEq, Eq, Structural)]
pub enum FloatingState {
    PullUp,
    PullDown,
    PullNone,
}

/// A button: its pin, the level that means pressed, and the pull while it is not.
#[derive(Clone, Copy, Debug, PartialEq, Eq, Structural)]
pub struct ButtonConfig<Pin> {
    pub pin: Pin,
    pub mode: ActivationMode,
    pub floating: FloatingState,
}

/// An LED: its pin, and the level that lights it.
#[derive(Clone, Copy, Debug, PartialEq, Eq, Structural)]
pub struct LedConfig<Pin> {
    pub pin: Pin,
    pub mode: ActivationMode,
}

} // verus!
