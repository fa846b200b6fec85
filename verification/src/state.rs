//! The levels of the machine that the sliders start from.
use crate::number::Number;
use vstd::prelude::*;

verus! {

/// The levels that the application observes, each from zero to one.
#[derive(Clone, Copy, Debug)]
pub struct State {
    /// The display backlight.
    pub brightness: Number,
    /// The keyboard backlight.
    pub kbd_illum: Number,
    /// The volume.
    pub volume: Number,
}

impl Default for State {
    fn default() -> (r: State)
        ensures
            r.brightness.represents(0),
            r.kbd_illum.represents(0),
            r.volume.represents(0),
    {
        State { brightness: Number::zero(), kbd_illum: Number::zero(), volume: Number::zero() }
    }
}

} // verus!
