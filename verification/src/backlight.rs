//! The Touch Bar's brightness: lit while the machine is used, then dimmed, then off.
use crate::scan;
use crate::text;
use vstd::prelude::*;

verus! {

/// The longest that the main loop sleeps, in milliseconds.
pub const TIMEOUT_MS: i32 = 10_000;

/// How often a touch that is down is looked at, in milliseconds.
pub const TOUCH_ACTIVE_POLL_MS: i32 = 16;

/// The display's highest brightness.
pub const MAX_DISPLAY_BRIGHTNESS: u32 = 509;

/// The Touch Bar's highest brightness.
pub const MAX_TOUCH_BAR_BRIGHTNESS: u32 = 255;

/// After how long without use the Touch Bar is dimmed, in milliseconds.
pub const DIM_TIMEOUT_MS: u64 = 30_000;

/// After how long without use the Touch Bar is off, in milliseconds.
pub const OFF_TIMEOUT_MS: u64 = 60_000;

/// The brightness of the dimmed Touch Bar.
pub const DIMMED_BRIGHTNESS: u32 = 1;

/// What an input event says of the use of the machine.
#[derive(Clone, Copy, Debug, PartialEq, Eq, Structural)]
pub enum Activity {
    /// A key, a pointer, a gesture or a touch.
    Input,
    LidOpened,
    LidClosed,
    Other,
}

/// What is known of the Touch Bar's brightness.
#[derive(Clone, Copy, Debug, PartialEq, Eq, Structural)]
pub struct BacklightManager {
    /// When the machine was last used, in nanoseconds.
    pub last_active: u64,
    pub max_bl: u32,
    pub current_bl: u32,
    pub lid_closed: bool,
}

/// The smaller of two numbers.
pub open spec fn lesser(a: u32, b: u32) -> u32 {
    if a < b {
        a
    } else {
        b
    }
}

/// The brightness that follows the display's, where `scaled` is the share of the configured
/// brightness: at least one, so that the Touch Bar does not turn off.
pub open spec fn followed(scaled: u32) -> u32 {
    lesser((scaled + 1) as u32, MAX_TOUCH_BAR_BRIGHTNESS)
}

impl BacklightManager {
    /// For how long the machine has not been used, in milliseconds.
    pub open spec fn idle_ms(self, now: u64) -> u64 {
        if now < self.last_active {
            0
        } else {
            ((now - self.last_active) / 1_000_000) as u64
        }
    }

    /// The brightness to have, where `lit` is that of a Touch Bar in use.
    pub open spec fn wanted(self, lit: u32, now: u64) -> u32 {
        lesser(
            self.max_bl,
            if self.lid_closed {
                0
            } else if self.idle_ms(now) < DIM_TIMEOUT_MS {
                lit
            } else if self.idle_ms(now) < OFF_TIMEOUT_MS {
                DIMMED_BRIGHTNESS
            } else {
                0
            },
        )
    }

    /// The state after an input event.
    pub open spec fn after(self, a: Activity, now: u64) -> BacklightManager {
        match a {
            Activity::Input => BacklightManager { last_active: now, ..self },
            Activity::LidOpened => BacklightManager {
                last_active: now,
                lid_closed: false,
                ..self
            },
            Activity::LidClosed => BacklightManager { lid_closed: true, ..self },
            Activity::Other => self,
        }
    }

    /// A Touch Bar with the given brightness.
    pub fn new(max_bl: u32, current_bl: u32, now: u64) -> (r: BacklightManager)
        ensures
            r == (BacklightManager { last_active: now, max_bl, current_bl, lid_closed: false }),
    {
        BacklightManager { last_active: now, max_bl, current_bl, lid_closed: false }
    }

    /// A Touch Bar whose brightness cannot be set.
    pub fn without_device(now: u64) -> (r: BacklightManager)
        ensures
            r == (BacklightManager {
                last_active: now,
                max_bl: MAX_TOUCH_BAR_BRIGHTNESS,
                current_bl: MAX_TOUCH_BAR_BRIGHTNESS,
                lid_closed: false,
            }),
    {
        BacklightManager::new(MAX_TOUCH_BAR_BRIGHTNESS, MAX_TOUCH_BAR_BRIGHTNESS, now)
    }

    /// Takes note of an input event.
    pub fn process_event(&mut self, a: Activity, now: u64)
        ensures
            *final(self) == old(self).after(a, now),
    {
        match a {
            Activity::Input => {
                self.last_active = now;
            },
            Activity::LidOpened => {
                self.lid_closed = false;
                self.last_active = now;
            },
            Activity::LidClosed => {
                self.lid_closed = true;
            },
            Activity::Other => {},
        }
    }

    /// Takes note that the Touch Bar was touched.
    pub fn wake(&mut self, now: u64)
        ensures
            *final(self) == old(self).after(Activity::Input, now),
    {
        self.last_active = now;
    }

    /// Whether the Touch Bar is in use, so that it is neither dimmed nor off.
    pub fn is_in_use(&self, now: u64) -> (r: bool)
        ensures
            r == (!self.lid_closed && self.idle_ms(now) < DIM_TIMEOUT_MS),
    {
        !self.lid_closed && now.saturating_sub(self.last_active) / 1_000_000 < DIM_TIMEOUT_MS
    }

    /// The display's brightness, or half of what the Touch Bar can where it is not known.
    pub fn display_brightness(&self, read: Option<u32>) -> (r: u32)
        ensures
            r == match read {
                Some(b) => b,
                None => self.max_bl / 2,
            },
    {
        match read {
            Some(b) => b,
            None => self.max_bl / 2,
        }
    }

    /// Sets the brightness to have, and gives it where it is not the one there was. `lit` is
    /// the brightness of a Touch Bar in use.
    pub fn update_backlight(&mut self, lit: u32, now: u64) -> (r: Option<u32>)
        ensures
            *final(self) == (BacklightManager {
                current_bl: old(self).wanted(lit, now),
                ..*old(self)
            }),
            r == if old(self).wanted(lit, now) == old(self).current_bl {
                None
            } else {
                Some(old(self).wanted(lit, now))
            },
    {
        let idle = now.saturating_sub(self.last_active) / 1_000_000;
        let level: u32 = if self.lid_closed {
            0
        } else if idle < DIM_TIMEOUT_MS {
            lit
        } else if idle < OFF_TIMEOUT_MS {
            DIMMED_BRIGHTNESS
        } else {
            0
        };
        let new_bl: u32 = if self.max_bl < level {
            self.max_bl
        } else {
            level
        };
        if self.current_bl != new_bl {
            self.current_bl = new_bl;
            Some(new_bl)
        } else {
            None
        }
    }

    /// The Touch Bar's brightness.
    pub fn current_bl(&self) -> (r: u32)
        ensures
            r == self.current_bl,
    {
        self.current_bl
    }
}

/// The brightness that follows the display's, where `scaled` is the share of the configured
/// brightness.
pub fn display_to_touchbar(scaled: u32) -> (r: u32)
    requires
        scaled < u32::MAX,
    ensures
        r == followed(scaled),
{
    let adjusted = scaled + 1;
    if adjusted < MAX_TOUCH_BAR_BRIGHTNESS {
        adjusted
    } else {
        MAX_TOUCH_BAR_BRIGHTNESS
    }
}

/// The display brightness to set: at least one, so that the screen never goes black.
pub fn display_value(value: u32) -> (r: u32)
    ensures
        r == if value < 1 {
            1
        } else {
            value
        },
{
    if value < 1 {
        1
    } else {
        value
    }
}

/// The text that sets a brightness.
pub fn attr_text(value: u32) -> (r: String)
    ensures
        r@ == text::decimal(value as nat) + "\n"@,
{
    text::concat(text::to_decimal(value as u64).as_str(), "\n")
}

/// The number in a device's file.
pub fn parse_attr(content: &str) -> (r: Option<u32>)
    ensures
        r == text::decimal_u32(scan::trimmed(content@)),
{
    text::parse_u32(scan::trim(content).as_str())
}

/// Whether a backlight is the Touch Bar's.
pub fn is_touch_bar_backlight(name: &str) -> (r: bool)
    ensures
        r == (scan::occurs(name@, "display-pipe"@) || scan::occurs(name@, "228600000.dsi.0"@)
            || scan::occurs(name@, "appletb_backlight"@)),
{
    scan::contains(name, "display-pipe") || scan::contains(name, "228600000.dsi.0")
        || scan::contains(name, "appletb_backlight")
}

/// Whether a backlight is the display's.
pub fn is_display_backlight(name: &str) -> (r: bool)
    ensures
        r == (scan::occurs(name@, "apple-panel-bl"@) || scan::occurs(name@, "gmux_backlight"@)
            || scan::occurs(name@, "intel_backlight"@) || scan::occurs(name@, "acpi_video0"@)),
{
    scan::contains(name, "apple-panel-bl") || scan::contains(name, "gmux_backlight")
        || scan::contains(name, "intel_backlight") || scan::contains(name, "acpi_video0")
}

/// Whether a light is the keyboard's.
pub fn is_kbd_backlight(name: &str) -> (r: bool)
    ensures
        r == scan::occurs(name@, "kbd_backlight"@),
{
    scan::contains(name, "kbd_backlight")
}

/// The Touch Bar is lit after each use, never brighter than it can be, and off once it has
/// not been used for long enough or the lid is closed.
pub proof fn law_backlight(m: BacklightManager, lit: u32, now: u64)
    ensures
        m.wanted(lit, now) <= m.max_bl,
        !m.lid_closed ==> m.after(Activity::Input, now).wanted(lit, now) == lesser(m.max_bl, lit),
        m.lid_closed ==> m.wanted(lit, now) == 0,
        m.idle_ms(now) >= OFF_TIMEOUT_MS ==> m.wanted(lit, now) == 0,
        m.after(Activity::LidClosed, now).after(Activity::LidOpened, now).wanted(lit, now)
            == lesser(m.max_bl, lit),
{
}

/// A Touch Bar that follows the display is never off, and never brighter than it can be.
pub proof fn law_followed_brightness_is_bounded(scaled: u32)
    requires
        scaled < u32::MAX,
    ensures
        1 <= followed(scaled) <= MAX_TOUCH_BAR_BRIGHTNESS,
{
}

/// The longer the machine is not used, the darker the Touch Bar is.
pub proof fn law_idling_only_darkens(m: BacklightManager, lit: u32, then: u64, now: u64)
    requires
        then <= now,
        lit >= DIMMED_BRIGHTNESS,
    ensures
        m.wanted(lit, now) <= m.wanted(lit, then),
{
    assert(m.idle_ms(then) <= m.idle_ms(now));
}

/// The main loop wakes up at the moments at which the Touch Bar is dimmed and turned off,
/// and looks at a touch often enough to see it end.
pub proof fn law_timeouts_agree()
    ensures
        DIM_TIMEOUT_MS == TIMEOUT_MS * 3,
        OFF_TIMEOUT_MS == TIMEOUT_MS * 6,
        TOUCH_ACTIVE_POLL_MS * 1_000_000 <= crate::touch::RELEASE_TIMEOUT_NS,
{
}

} // verus!
