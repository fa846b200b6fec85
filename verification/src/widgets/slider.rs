//! Sliders: a level that follows the finger from where it was grabbed.
use crate::action::{Action, ActionView};
use crate::key;
use crate::number::Number;
use crate::state::State;
use vstd::prelude::*;

verus! {

/// The shortest time between two drawings of a slider that is dragged, in nanoseconds.
pub const REDRAW_INTERVAL_NS: u64 = 33_000_000;

/// What a slider sets.
#[derive(Clone, Copy, Debug, PartialEq, Eq, Structural)]
pub enum SliderBackend {
    /// The display backlight.
    Brightness,
    /// The keyboard backlight.
    KbdIllum,
    /// The volume.
    Volume,
}

impl SliderBackend {
    /// The effect of setting the level.
    pub open spec fn effect(self, level: Number) -> ActionView {
        match self {
            SliderBackend::Brightness => ActionView::SetBrightness(level),
            SliderBackend::KbdIllum => ActionView::SetKbdIllum(level),
            SliderBackend::Volume => ActionView::SetVolume(level),
        }
    }

    /// The name of the state key that holds the level.
    pub open spec fn key_name(self) -> Seq<char> {
        match self {
            SliderBackend::Brightness => key::HARDWARE_BRIGHTNESS@,
            SliderBackend::KbdIllum => key::HARDWARE_KBD_ILLUM@,
            SliderBackend::Volume => key::AUDIO_VOLUME@,
        }
    }

    /// The effect of setting the level.
    pub fn apply(self, level: Number) -> (r: Action)
        ensures
            r@ == self.effect(level),
    {
        match self {
            SliderBackend::Brightness => Action::SetBrightness(level),
            SliderBackend::KbdIllum => Action::SetKbdIllum(level),
            SliderBackend::Volume => Action::SetVolume(level),
        }
    }

    /// The level that the slider starts from.
    pub fn initial_level(self, s: &State) -> (r: Number)
        ensures
            r == match self {
                SliderBackend::Brightness => s.brightness,
                SliderBackend::KbdIllum => s.kbd_illum,
                SliderBackend::Volume => s.volume,
            },
    {
        match self {
            SliderBackend::Brightness => s.brightness,
            SliderBackend::KbdIllum => s.kbd_illum,
            SliderBackend::Volume => s.volume,
        }
    }

    /// The state key that holds the level.
    pub fn state_key(self) -> (r: &'static str)
        ensures
            r@ == self.key_name(),
            key::valid_key(r@),
    {
        proof {
            key::law_built_in_keys_are_valid();
        }
        match self {
            SliderBackend::Brightness => key::HARDWARE_BRIGHTNESS,
            SliderBackend::KbdIllum => key::HARDWARE_KBD_ILLUM,
            SliderBackend::Volume => key::AUDIO_VOLUME,
        }
    }
}

/// A slider over the whole bar.
#[derive(Clone, Copy, Debug)]
pub struct Slider {
    pub backend: SliderBackend,
    /// The level, from zero to one.
    pub level: Number,
    /// Where the finger came down, and the level at that moment, while it is down.
    pub grab: Option<(Number, Number)>,
    /// Whether the slider has to be drawn again.
    pub changed: bool,
    /// The level when the slider was last drawn.
    pub drawn_level: Number,
    /// When the slider was last drawn, in nanoseconds.
    pub last_draw: u64,
}

impl Slider {
    /// A slider at level zero.
    pub open spec fn fresh(backend: SliderBackend, now: u64) -> Slider {
        Slider {
            backend,
            level: Number { bits: 0 },
            grab: None,
            changed: true,
            drawn_level: Number { bits: 0 },
            last_draw: now,
        }
    }

    /// The slider after a finger came down on it.
    pub open spec fn grabbed(self, x: Number, level: Number) -> Slider {
        Slider { grab: Some((x, level)), level, changed: true, ..self }
    }

    /// The slider after the finger moved to where the level is `new`. It has to be drawn
    /// again only if it was last drawn long enough ago.
    pub open spec fn dragged(self, new: Number, moved: bool, now: u64) -> Slider {
        if self.grab is Some && moved {
            Slider {
                level: new,
                changed: self.changed || now - self.last_draw >= REDRAW_INTERVAL_NS,
                ..self
            }
        } else {
            self
        }
    }

    /// A slider at level zero.
    pub fn new(backend: SliderBackend, now: u64) -> (r: Slider)
        ensures
            r == Slider::fresh(backend, now),
    {
        Slider {
            backend,
            level: Number::zero(),
            grab: None,
            changed: true,
            drawn_level: Number::zero(),
            last_draw: now,
        }
    }

    /// Notes where the finger came down and the level at that moment, from which the
    /// level then follows it.
    pub fn grab(&mut self, x: Number, level: Number)
        ensures
            *final(self) == old(self).grabbed(x, level),
    {
        self.grab = Some((x, level));
        self.level = level;
        self.changed = true;
    }

    /// Takes the level under the finger, where `moved` says that it is not the one there
    /// was, and gives the level.
    pub fn drag(&mut self, new: Number, moved: bool, now: u64) -> (r: Number)
        ensures
            *final(self) == old(self).dragged(new, moved, now),
            r == final(self).level,
    {
        if self.grab.is_some() && moved {
            self.level = new;
            if now.saturating_sub(self.last_draw) >= REDRAW_INTERVAL_NS {
                self.changed = true;
            }
        }
        self.level
    }

    /// Lets the slider go.
    pub fn release(&mut self)
        ensures
            *final(self) == (Slider { grab: None, ..*old(self) }),
    {
        self.grab = None;
    }

    /// Notes that the slider has been drawn.
    pub fn drawn(&mut self, now: u64)
        ensures
            *final(self) == (Slider {
                drawn_level: old(self).level,
                changed: false,
                last_draw: now,
                ..*old(self)
            }),
    {
        self.drawn_level = self.level;
        self.changed = false;
        self.last_draw = now;
    }
}

/// A slider that is not grabbed does not move.
pub proof fn law_idle_slider_stays(s: Slider, new: Number, moved: bool, now: u64)
    requires
        s.grab is None,
    ensures
        s.dragged(new, moved, now) == s,
{
}

/// Grabbing sets the level that was read, with no jump to the finger; a finger that then
/// rests leaves it.
pub proof fn law_grab_does_not_jump(s: Slider, x: Number, level: Number, new: Number, now: u64)
    ensures
        s.grabbed(x, level).level == level,
        s.grabbed(x, level).dragged(new, false, now) == s.grabbed(x, level),
{
}

} // verus!
