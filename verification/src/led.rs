//! The LED resource: an on/off flag whose physical pin level is decided here
//! and driven by the surrounding program.

use vstd::prelude::*;

verus! {

/// On/off state of the board LED. One of the three shared resources; it is
/// mutated only inside a claim by the blink task and polled by the debounce
/// task.
pub struct Led {
    on: bool,
}

impl View for Led {
    type V = bool;

    closed spec fn view(&self) -> bool {
        self.on
    }
}

impl Led {
    /// A LED in the given state; at boot the LED starts off.
    pub fn new(on: bool) -> (led: Led)
        ensures
            led@ == on,
    {
        Led { on }
    }

    pub fn is_on(&self) -> (on: bool)
        ensures
            on == self@,
    {
        self.on
    }

    /// Inverts the LED state and returns the level to drive on the output
    /// pin: `true` for high (LED lit), `false` for low.
    pub fn blink(&mut self) -> (level: bool)
        ensures
            final(self)@ == !old(self)@,
            level == final(self)@,
    {
        self.on = !self.on;
        self.on
    }
}

} // verus!
