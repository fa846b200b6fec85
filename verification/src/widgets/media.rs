//! The media widget: cover, progress, and the three controls.
use crate::action;
use crate::action::{Action, ActionView};
use crate::key;
use crate::number::Number;
use crate::scan;
use crate::store::{Store, StoreView};
use crate::text;
use crate::widgets::button;
use crate::widgets::button::Shade;
use vstd::prelude::*;

verus! {

/// What a finger on the widget is on.
#[derive(Clone, Copy, Debug, PartialEq, Eq, Structural)]
pub enum MediaPress {
    Previous,
    PlayPause,
    Next,
    Scrubber,
}

/// Where a finger is on the part of the bar that shows the progress.
#[derive(Clone, Copy, Debug)]
pub struct WellProbe {
    /// Whether the finger is on that part.
    pub inside: bool,
    /// The position in the track that the finger points at, kept within the track.
    pub seek: Number,
}

/// Where a finger is on the widget.
#[derive(Clone, Copy, Debug)]
pub struct MediaProbe {
    /// The progress, unless there is no room for it.
    pub well: Option<WellProbe>,
    /// Whether the finger is on the control to the previous track.
    pub previous: bool,
    /// Whether the finger is on the control that plays and pauses.
    pub play_pause: bool,
    /// Whether the finger is on the control to the next track.
    pub next: bool,
}

impl MediaProbe {
    /// The control under the finger, the leftmost where two meet.
    pub open spec fn control(self) -> Option<MediaPress> {
        if self.previous {
            Some(MediaPress::Previous)
        } else if self.play_pause {
            Some(MediaPress::PlayPause)
        } else if self.next {
            Some(MediaPress::Next)
        } else {
            None
        }
    }

    /// The position that the finger points at, where the track has a length.
    pub open spec fn target(self, store: StoreView) -> Option<Number> {
        match store.number_at(key::MEDIA_ACTIVE_LENGTH@) {
            Some(length) => if length.at_most_zero() || self.well is None {
                None
            } else {
                Some(self.well->0.seek)
            },
            None => None,
        }
    }

    /// The control under the finger, the leftmost where two meet.
    pub fn hit_control(&self) -> (r: Option<MediaPress>)
        ensures
            r == self.control(),
    {
        if self.previous {
            Some(MediaPress::Previous)
        } else if self.play_pause {
            Some(MediaPress::PlayPause)
        } else if self.next {
            Some(MediaPress::Next)
        } else {
            None
        }
    }

    /// The position that the finger points at, where the track has a length.
    pub fn seek_from_x(&self, store: &Store) -> (r: Option<Number>)
        requires
            store.wf(),
        ensures
            r == self.target(store@),
    {
        proof {
            key::law_built_in_keys_are_valid();
        }
        match store.number(key::MEDIA_ACTIVE_LENGTH) {
            Ok(length) => if length.is_at_most_zero() {
                None
            } else {
                match self.well {
                    Some(well) => Some(well.seek),
                    None => None,
                }
            },
            Err(_) => None,
        }
    }
}

/// The media widget.
#[derive(Clone, Copy, Debug)]
pub struct MediaWidget {
    /// Whether the widget has to be drawn again.
    pub changed: bool,
    /// What the finger is on.
    pub active: Option<MediaPress>,
}

/// The action of a control.
pub open spec fn control_action(p: MediaPress) -> ActionView {
    match p {
        MediaPress::Previous => ActionView::MediaPrevious,
        MediaPress::PlayPause => ActionView::MediaPlayPause,
        _ => ActionView::MediaNext,
    }
}

impl MediaWidget {
    /// Whether the control with the given number is pressed: the one before, the one that
    /// plays and pauses, and the one after, in this order.
    pub open spec fn presses(self, index: int) -> bool {
        match self.active {
            Some(MediaPress::Previous) => index == 0,
            Some(MediaPress::PlayPause) => index == 1,
            Some(MediaPress::Next) => index == 2,
            _ => false,
        }
    }

    /// The widget after a press, and what the press asks for.
    pub open spec fn pressed(self, probe: MediaProbe, store: StoreView) -> (
        MediaWidget,
        Option<ActionView>,
    ) {
        if probe.well is Some && probe.well->0.inside && probe.target(store) is Some {
            (
                MediaWidget { changed: true, active: Some(MediaPress::Scrubber) },
                Some(ActionView::MediaSeek(probe.target(store)->0)),
            )
        } else if probe.control() is Some {
            (
                MediaWidget { changed: true, active: probe.control() },
                Some(control_action(probe.control()->0)),
            )
        } else {
            (self, None)
        }
    }

    /// The widget after the finger moved, and what that asks for.
    pub open spec fn dragged(self, probe: MediaProbe, store: StoreView) -> (
        MediaWidget,
        Option<ActionView>,
    ) {
        if self.active == Some(MediaPress::Scrubber) {
            (
                MediaWidget { changed: true, ..self },
                match probe.target(store) {
                    Some(seek) => Some(ActionView::MediaSeek(seek)),
                    None => None,
                },
            )
        } else {
            (self, None)
        }
    }

    /// The widget after a release.
    pub open spec fn released(self) -> MediaWidget {
        MediaWidget { changed: self.changed || self.active is Some, active: None }
    }

    /// Whether the widget has to be drawn again.
    pub open spec fn stale(self, store: StoreView) -> bool {
        ||| self.changed
        ||| store.dirty.contains(key::MEDIA_ACTIVE_TITLE@)
        ||| store.dirty.contains(key::MEDIA_ACTIVE_ART_URL@)
        ||| store.dirty.contains(key::MEDIA_ACTIVE_POSITION@)
        ||| store.dirty.contains(key::MEDIA_ACTIVE_LENGTH@)
        ||| store.dirty.contains(key::MEDIA_ACTIVE_STATUS@)
    }

    /// A widget that has not been drawn.
    pub fn new() -> (r: MediaWidget)
        ensures
            r == (MediaWidget { changed: true, active: None }),
    {
        MediaWidget { changed: true, active: None }
    }

    /// Whether the widget has to be drawn again.
    pub fn needs_redraw(&self, store: &Store) -> (r: bool)
        requires
            store.wf(),
        ensures
            r == self.stale(store@),
    {
        self.changed || store.changed(key::MEDIA_ACTIVE_TITLE) || store.changed(
            key::MEDIA_ACTIVE_ART_URL,
        ) || store.changed(key::MEDIA_ACTIVE_POSITION) || store.changed(key::MEDIA_ACTIVE_LENGTH)
            || store.changed(key::MEDIA_ACTIVE_STATUS)
    }

    /// A press on the progress seeks, and one on a control acts.
    pub fn on_press(&mut self, probe: &MediaProbe, store: &Store) -> (r: Option<Action>)
        requires
            store.wf(),
        ensures
            (*final(self), action::opt_action(r)) == old(self).pressed(*probe, store@),
    {
        let inside = match probe.well {
            Some(well) => well.inside,
            None => false,
        };
        if inside {
            if let Some(seek) = probe.seek_from_x(store) {
                self.active = Some(MediaPress::Scrubber);
                self.changed = true;
                return Some(Action::MediaSeek(seek));
            }
        }
        match probe.hit_control() {
            Some(press) => {
                self.active = Some(press);
                self.changed = true;
                match press {
                    MediaPress::Previous => Some(Action::MediaPrevious),
                    MediaPress::PlayPause => Some(Action::MediaPlayPause),
                    _ => Some(Action::MediaNext),
                }
            },
            None => None,
        }
    }

    /// A finger that came down on the progress seeks as it moves.
    pub fn on_drag(&mut self, probe: &MediaProbe, store: &Store) -> (r: Option<Action>)
        requires
            store.wf(),
        ensures
            (*final(self), action::opt_action(r)) == old(self).dragged(*probe, store@),
    {
        match self.active {
            Some(MediaPress::Scrubber) => {
                self.changed = true;
                match probe.seek_from_x(store) {
                    Some(seek) => Some(Action::MediaSeek(seek)),
                    None => None,
                }
            },
            _ => None,
        }
    }

    /// Lets the widget go.
    pub fn on_release(&mut self) -> (r: Option<Action>)
        ensures
            *final(self) == old(self).released(),
            r is None,
    {
        if self.active.is_some() {
            self.active = None;
            self.changed = true;
        }
        None
    }

    /// Notes that the widget has been drawn.
    pub fn drawn(&mut self)
        ensures
            *final(self) == (MediaWidget { changed: false, ..*old(self) }),
    {
        self.changed = false;
    }

    /// Whether the control with the given number is pressed.
    pub fn is_pressed(&self, index: usize) -> (r: bool)
        ensures
            r == self.presses(index as int),
    {
        match self.active {
            Some(MediaPress::Previous) => index == 0,
            Some(MediaPress::PlayPause) => index == 1,
            Some(MediaPress::Next) => index == 2,
            _ => false,
        }
    }

    /// Whether the control in the middle offers to pause.
    pub fn offers_pause(&self, store: &Store) -> (r: bool)
        requires
            store.wf(),
        ensures
            r == (store@.text_or_empty(key::MEDIA_ACTIVE_STATUS@) == "Playing"@),
    {
        proof {
            key::law_built_in_keys_are_valid();
        }
        text::same(store.text_or_empty(key::MEDIA_ACTIVE_STATUS).as_str(), "Playing")
    }

    /// How the background of the control with the given number is filled.
    pub fn control_shade(&self, index: usize, outlines: bool) -> (r: Shade)
        ensures
            r == button::shade(self.presses(index as int), outlines),
    {
        button::shade_of(self.is_pressed(index), outlines)
    }
}

// ---------------------------------------------------------------------------
// The label
// ---------------------------------------------------------------------------

/// A length of time as minutes and seconds, or as hours, minutes and seconds.
pub open spec fn clock_text(seconds: u64, with_hours: bool) -> Seq<char> {
    let h = (seconds / 3600) as nat;
    let m = ((seconds % 3600) / 60) as nat;
    let s = (seconds % 60) as nat;
    if with_hours {
        text::two_digits(h) + ":"@ + text::two_digits(m) + ":"@ + text::two_digits(s)
    } else {
        text::two_digits(m) + ":"@ + text::two_digits(s)
    }
}

/// A length of time as minutes and seconds, or as hours, minutes and seconds.
pub fn format_time(seconds: u64, with_hours: bool) -> (r: String)
    ensures
        r@ == clock_text(seconds, with_hours),
{
    let h = text::to_two_digits(seconds / 3600);
    let m = text::to_two_digits((seconds % 3600) / 60);
    let s = text::to_two_digits(seconds % 60);
    if with_hours {
        let head = text::concat3(h.as_str(), ":", m.as_str());
        text::concat3(head.as_str(), ":", s.as_str())
    } else {
        text::concat3(m.as_str(), ":", s.as_str())
    }
}

/// The position and the length in seconds, both with hours where one needs them.
pub open spec fn time_pair(position: u64, length: u64) -> Seq<char> {
    clock_text(position, position >= 3600 || length >= 3600) + "/"@ + clock_text(
        length,
        position >= 3600 || length >= 3600,
    )
}

/// The room that a label takes, in pixels.
pub open spec fn label_width(position: u64, length: u64) -> u32 {
    if position >= 3600 || length >= 3600 {
        245
    } else {
        160
    }
}

/// The position and the length in seconds, both with hours where one needs them.
pub fn format_time_pair(position: u64, length: u64) -> (r: String)
    ensures
        r@ == time_pair(position, length),
{
    let with_hours = position >= 3600 || length >= 3600;
    text::concat3(
        format_time(position, with_hours).as_str(),
        "/",
        format_time(length, with_hours).as_str(),
    )
}

/// The room that the label of a position and a length in seconds takes, in pixels.
pub fn time_label_width(position: u64, length: u64) -> (r: u32)
    ensures
        r == label_width(position, length),
{
    if position >= 3600 || length >= 3600 {
        245
    } else {
        160
    }
}

/// The path that a `file://` address names.
pub fn file_url_to_path(url: &str) -> (r: Option<String>)
    ensures
        r is Some <==> "file://"@.is_prefix_of(url@),
        r matches Some(path) ==> "file://"@ + path@ == url@,
{
    let r = scan::strip_prefix(url, "file://");
    proof {
        if r is Some {
            assert("file://"@ + r->0@ =~= url@);
        }
    }
    r
}

/// The label shows the same moment with and without hours: without them it leaves out
/// hours that are all zero.
pub proof fn law_hours_are_only_left_out_when_zero(position: u64, length: u64)
    requires
        !(position >= 3600 || length >= 3600),
    ensures
        clock_text(position, true) == text::two_digits(0) + ":"@ + clock_text(position, false),
        clock_text(length, true) == text::two_digits(0) + ":"@ + clock_text(length, false),
{
    assert(clock_text(position, true) =~= text::two_digits(0) + ":"@ + clock_text(position, false));
    assert(clock_text(length, true) =~= text::two_digits(0) + ":"@ + clock_text(length, false));
}

/// A finger that came down on the progress seeks at once, and goes on seeking as it moves
/// as long as the track has a length.
pub proof fn law_scrubbing(w: MediaWidget, down: MediaProbe, moved: MediaProbe, store: StoreView)
    requires
        down.well is Some,
        down.well->0.inside,
        moved.well is Some,
        down.target(store) is Some,
    ensures
        w.pressed(down, store).1 == Some(ActionView::MediaSeek(down.well->0.seek)),
        w.pressed(down, store).0.dragged(moved, store).1 == Some(
            ActionView::MediaSeek(moved.well->0.seek),
        ),
        w.pressed(down, store).0.released().dragged(moved, store).1 is None,
{
}

} // verus!
