//! The Touch Bar's digitizer. Its contact signal drops as soon as a finger moves, so a touch
//! ends only when the signal is down and the position has been quiet for a while.
use crate::scan;
use crate::text;
use vstd::prelude::*;

verus! {

/// The digitizer's name.
pub const DIGITIZER_NAME: &'static str = "Apple Inc. iBridge Touchpad";

/// How long the position must be quiet before a touch counts as released, in nanoseconds.
pub const RELEASE_TIMEOUT_NS: u64 = 150_000_000;

pub const EV_SYN: i32 = 0;

pub const EV_KEY: i32 = 1;

pub const EV_ABS: i32 = 3;

pub const ABS_X: i32 = 0;

pub const BTN_TOUCH: i32 = 0x14a;

pub const SYN_REPORT: i32 = 0;

/// What a sample says of the finger.
#[derive(Clone, Copy, Debug, PartialEq, Eq, Structural)]
pub enum TouchPhase {
    Down,
    Motion,
    Up,
}

/// What the finger does, and where it is in the digitizer's units.
#[derive(Clone, Copy, Debug, PartialEq, Eq, Structural)]
pub struct TouchSample {
    pub phase: TouchPhase,
    pub abs_x: i32,
}

/// An event of the digitizer.
#[derive(Clone, Copy, Debug, PartialEq, Eq, Structural)]
pub struct RawEvent {
    pub kind: i32,
    pub code: i32,
    pub value: i32,
}

/// What is known of the finger.
#[derive(Clone, Copy, Debug, PartialEq, Eq, Structural)]
pub struct TouchReader {
    pub down: bool,
    pub btn_touch: bool,
    pub last_x: i32,
    pub pending_x: i32,
    /// When the finger was last heard of, in nanoseconds.
    pub last_activity: u64,
}

impl TouchReader {
    /// The state and the sample after the end of a report.
    pub open spec fn framed(self, now: u64) -> (TouchReader, Option<TouchSample>) {
        if self.btn_touch && !self.down {
            (
                TouchReader { down: true, last_x: self.pending_x, last_activity: now, ..self },
                Some(TouchSample { phase: TouchPhase::Down, abs_x: self.pending_x }),
            )
        } else if self.down && self.pending_x != self.last_x {
            (
                TouchReader { last_x: self.pending_x, last_activity: now, ..self },
                Some(TouchSample { phase: TouchPhase::Motion, abs_x: self.pending_x }),
            )
        } else if self.btn_touch {
            (TouchReader { last_activity: now, ..self }, None)
        } else {
            (self, None)
        }
    }

    /// The state and the sample after an event.
    pub open spec fn after(self, e: RawEvent, now: u64) -> (TouchReader, Option<TouchSample>) {
        if e.kind == EV_ABS && e.code == ABS_X {
            (TouchReader { pending_x: e.value, ..self }, None)
        } else if e.kind == EV_KEY && e.code == BTN_TOUCH {
            (TouchReader { btn_touch: e.value != 0, ..self }, None)
        } else if e.kind == EV_SYN && e.code == SYN_REPORT {
            self.framed(now)
        } else {
            (self, None)
        }
    }

    /// The state and the samples after the first `n` events.
    pub open spec fn after_all(self, events: Seq<RawEvent>, n: int, now: u64) -> (
        TouchReader,
        Seq<TouchSample>,
    )
        decreases n,
    {
        if n <= 0 {
            (self, Seq::empty())
        } else {
            let (state, samples) = self.after_all(events, n - 1, now);
            let (next, sample) = state.after(events[n - 1], now);
            (
                next,
                match sample {
                    Some(s) => samples.push(s),
                    None => samples,
                },
            )
        }
    }

    /// The state and the sample after a look at the time.
    pub open spec fn released(self, now: u64) -> (TouchReader, Option<TouchSample>) {
        if self.down && !self.btn_touch && now - self.last_activity > RELEASE_TIMEOUT_NS {
            (
                TouchReader { down: false, ..self },
                Some(TouchSample { phase: TouchPhase::Up, abs_x: self.last_x }),
            )
        } else {
            (self, None)
        }
    }

    /// No finger, where the digitizer's positions start at `minimum`.
    pub fn new(minimum: i32, now: u64) -> (r: TouchReader)
        ensures
            r == (TouchReader {
                down: false,
                btn_touch: false,
                last_x: minimum,
                pending_x: minimum,
                last_activity: now,
            }),
    {
        TouchReader {
            down: false,
            btn_touch: false,
            last_x: minimum,
            pending_x: minimum,
            last_activity: now,
        }
    }

    /// Whether a finger is down.
    pub fn is_down(&self) -> (r: bool)
        ensures
            r == self.down,
    {
        self.down
    }

    /// Takes note of the end of a report.
    fn end_frame(&mut self, now: u64) -> (r: Option<TouchSample>)
        ensures
            (*final(self), r) == old(self).framed(now),
    {
        if self.btn_touch && !self.down {
            self.down = true;
            self.last_x = self.pending_x;
            self.last_activity = now;
            Some(TouchSample { phase: TouchPhase::Down, abs_x: self.pending_x })
        } else if self.down && self.pending_x != self.last_x {
            self.last_x = self.pending_x;
            self.last_activity = now;
            Some(TouchSample { phase: TouchPhase::Motion, abs_x: self.pending_x })
        } else if self.btn_touch {
            self.last_activity = now;
            None
        } else {
            None
        }
    }

    /// Takes note of an event.
    pub fn take_event(&mut self, e: RawEvent, now: u64) -> (r: Option<TouchSample>)
        ensures
            (*final(self), r) == old(self).after(e, now),
    {
        if e.kind == EV_ABS && e.code == ABS_X {
            self.pending_x = e.value;
            None
        } else if e.kind == EV_KEY && e.code == BTN_TOUCH {
            self.btn_touch = e.value != 0;
            None
        } else if e.kind == EV_SYN && e.code == SYN_REPORT {
            self.end_frame(now)
        } else {
            None
        }
    }

    /// Takes note of events, and gives the samples that follow from them.
    pub fn poll(&mut self, events: &Vec<RawEvent>, now: u64) -> (r: Vec<TouchSample>)
        ensures
            (*final(self), r@) == old(self).after_all(events@, events@.len() as int, now),
    {
        let ghost start = *self;
        let mut out: Vec<TouchSample> = Vec::new();
        let mut i: usize = 0;
        assert(out@ =~= Seq::<TouchSample>::empty());
        while i < events.len()
            invariant
                0 <= i <= events@.len(),
                (*self, out@) == start.after_all(events@, i as int, now),
            decreases events@.len() - i,
        {
            if let Some(s) = self.take_event(events[i], now) {
                out.push(s);
            }
            i += 1;
        }
        out
    }

    /// Ends the touch where the contact signal is down and the position has been quiet for
    /// long enough.
    pub fn check_release(&mut self, now: u64) -> (r: Option<TouchSample>)
        ensures
            (*final(self), r) == old(self).released(now),
    {
        if self.down && !self.btn_touch && now.saturating_sub(self.last_activity)
            > RELEASE_TIMEOUT_NS {
            self.down = false;
            return Some(TouchSample { phase: TouchPhase::Up, abs_x: self.last_x });
        }
        None
    }
}

/// Whether a name in the list of input devices is that of an event device.
pub fn is_event_device(name: &str) -> (r: bool)
    ensures
        r == "event"@.is_prefix_of(name@),
{
    scan::starts_with(name, "event")
}

/// Whether a device's name, as it stands in its file, is the digitizer's.
pub fn is_digitizer(device_name: &str) -> (r: bool)
    ensures
        r == (scan::trimmed(device_name@) == DIGITIZER_NAME@),
{
    text::same(scan::trim(device_name).as_str(), DIGITIZER_NAME)
}

/// The file of an event device.
pub fn device_path(name: &str) -> (r: String)
    ensures
        r@ == "/dev/input/"@ + name@,
{
    text::concat("/dev/input/", name)
}

/// A finger comes down only where none is, moves and lifts only where one is, and is down
/// until it lifts.
pub proof fn law_phases_alternate(s: TouchReader, e: RawEvent, now: u64)
    ensures
        s.after(e, now).1 matches Some(t) ==> match t.phase {
            TouchPhase::Down => !s.down && s.after(e, now).0.down,
            TouchPhase::Motion => s.down && s.after(e, now).0.down,
            TouchPhase::Up => false,
        },
        s.after(e, now).1 is None ==> s.after(e, now).0.down == s.down,
        s.released(now).1 matches Some(t) ==> t.phase == TouchPhase::Up && s.down && !s.released(
            now,
        ).0.down,
        s.released(now).1 is None ==> s.released(now).0 == s,
{
}

/// A finger that keeps its contact signal is never released, however still it is.
pub proof fn law_still_hold_never_times_out(s: TouchReader, now: u64)
    requires
        s.btn_touch,
    ensures
        s.released(now) == (s, None::<TouchSample>),
{
}

/// A finger that moves is not released for a while after each move, whatever its contact
/// signal says.
pub proof fn law_moving_finger_is_not_released(s: TouchReader, x: i32, then: u64, now: u64)
    requires
        s.down,
        x != s.last_x,
        then <= now <= then + RELEASE_TIMEOUT_NS,
    ensures
        ({
            let moved = s.after(RawEvent { kind: EV_ABS, code: ABS_X, value: x }, then).0;
            let framed = moved.after(
                RawEvent { kind: EV_SYN, code: SYN_REPORT, value: 0 },
                then,
            );
            &&& framed.1 == Some(TouchSample { phase: TouchPhase::Motion, abs_x: x })
            &&& framed.0.released(now).1 is None
        }),
{
}

} // verus!
