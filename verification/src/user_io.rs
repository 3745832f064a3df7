//! The input aggregator: collects raw device and window events into a
//! coalesced per-frame snapshot. The pointer delta is last-write-wins within
//! a frame; key transitions accumulate in arrival order. No GPU interaction.
//!
//! Pointer deltas arrive from the platform as 64-bit floats; they are carried
//! here by their raw bit patterns, untouched (the bit pattern of a zero delta
//! is 0).

use vstd::prelude::*;

verus! {

/// The per-frame input snapshot.
pub struct UserIO {
    keys_changed: Vec<(u32, bool)>,
    mouse_motion_delta: (u64, u64),
}

impl UserIO {
    /// Key transitions recorded so far: (platform scancode, pressed?) in
    /// arrival order.
    pub closed spec fn keys(&self) -> Seq<(u32, bool)> {
        self.keys_changed@
    }

    /// Bit patterns of the last pointer delta written, x then y.
    pub closed spec fn mouse_delta(&self) -> (u64, u64) {
        self.mouse_motion_delta
    }

    pub fn new() -> (io: UserIO)
        ensures
            io.keys() == Seq::<(u32, bool)>::empty(),
            io.mouse_delta() == (0u64, 0u64),
    {
        UserIO { keys_changed: Vec::new(), mouse_motion_delta: (0, 0) }
    }

    /// Overwrites the pointer delta: the last write within a frame wins.
    pub fn set_mouse_delta(&mut self, delta_x_bits: u64, delta_y_bits: u64)
        ensures
            final(self).mouse_delta() == (delta_x_bits, delta_y_bits),
            final(self).keys() == old(self).keys(),
    {
        self.mouse_motion_delta = (delta_x_bits, delta_y_bits);
    }

    /// Appends one key transition in arrival order.
    pub fn set_keyboard_input(&mut self, scancode: u32, pressed: bool)
        ensures
            final(self).keys() == old(self).keys().push((scancode, pressed)),
            final(self).mouse_delta() == old(self).mouse_delta(),
    {
        self.keys_changed.push((scancode, pressed));
    }

    /// Reads the last pointer delta's bit patterns.
    pub fn mouse_motion_delta(&self) -> (delta: (u64, u64))
        ensures
            delta == self.mouse_delta(),
    {
        self.mouse_motion_delta
    }

    /// Reads the key transitions recorded so far, in arrival order.
    pub fn keys_changed(&self) -> (keys: &Vec<(u32, bool)>)
        ensures
            keys@ == self.keys(),
    {
        &self.keys_changed
    }
}

} // verus!
