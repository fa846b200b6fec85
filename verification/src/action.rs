//! What a touch asks for. A widget turns a touch into an `Action`, and the application
//! alone carries it out.
use crate::number::Number;
use crate::text;
use vstd::prelude::*;

verus! {

/// A key, by its code in the kernel's input layer.
#[derive(Clone, Copy, Debug, PartialEq, Eq, Structural)]
pub struct Key {
    pub code: u16,
}

pub const KEY_ESC: u16 = 1;

pub const KEY_TAB: u16 = 15;

pub const KEY_LEFT_CTRL: u16 = 29;

pub const KEY_L: u16 = 38;

pub const KEY_LEFT_SHIFT: u16 = 42;

pub const KEY_M: u16 = 50;

pub const KEY_FN: u16 = 0x1d0;

/// Whether a key event is the press or the release.
#[derive(Clone, Copy, Debug, PartialEq, Eq, Structural)]
pub enum Edge {
    Press,
    Release,
}

/// The effect that a widget asks for.
#[derive(Debug)]
pub enum Action {
    /// Send the given keys.
    Key(Vec<Key>, Edge),
    /// Set the display backlight, from zero to one.
    SetBrightness(Number),
    /// Set the keyboard backlight, from zero to one.
    SetKbdIllum(Number),
    /// Set the volume, from zero to one.
    SetVolume(Number),
    /// Send the active media player to the previous track.
    MediaPrevious,
    /// Let the active media player play or pause.
    MediaPlayPause,
    /// Send the active media player to the next track.
    MediaNext,
    /// Send the active media player to a position in microseconds.
    MediaSeek(Number),
    /// Bring a browser tab to the front.
    BrowserActivateTab(String),
    /// Start an application.
    LaunchApp(String),
    /// Send an action to the selected Neovim bridge.
    NvimBridge(String),
    /// Open a query buffer for a database.
    NvimDbConnect(String),
    /// Send an action to an application's bridge, or keys where it has none.
    AppBridge { app: String, action: String, fallback_keys: Vec<Key>, edge: Edge },
    /// Open a layer over the whole bar.
    PushLayer(String),
    /// Close the layer that was opened last.
    PopLayer,
    /// Open a layer for as long as the finger stays down.
    OpenModal(String),
    /// Leave the layer that `OpenModal` opened.
    CloseModal,
}

/// An action, its texts and keys taken as sequences.
pub enum ActionView {
    Key(Seq<Key>, Edge),
    SetBrightness(Number),
    SetKbdIllum(Number),
    SetVolume(Number),
    MediaPrevious,
    MediaPlayPause,
    MediaNext,
    MediaSeek(Number),
    BrowserActivateTab(Seq<char>),
    LaunchApp(Seq<char>),
    NvimBridge(Seq<char>),
    NvimDbConnect(Seq<char>),
    AppBridge { app: Seq<char>, action: Seq<char>, fallback_keys: Seq<Key>, edge: Edge },
    PushLayer(Seq<char>),
    PopLayer,
    OpenModal(Seq<char>),
    CloseModal,
}

impl View for Action {
    type V = ActionView;

    open spec fn view(&self) -> ActionView {
        match *self {
            Action::Key(keys, edge) => ActionView::Key(keys@, edge),
            Action::SetBrightness(n) => ActionView::SetBrightness(n),
            Action::SetKbdIllum(n) => ActionView::SetKbdIllum(n),
            Action::SetVolume(n) => ActionView::SetVolume(n),
            Action::MediaPrevious => ActionView::MediaPrevious,
            Action::MediaPlayPause => ActionView::MediaPlayPause,
            Action::MediaNext => ActionView::MediaNext,
            Action::MediaSeek(n) => ActionView::MediaSeek(n),
            Action::BrowserActivateTab(s) => ActionView::BrowserActivateTab(s@),
            Action::LaunchApp(s) => ActionView::LaunchApp(s@),
            Action::NvimBridge(s) => ActionView::NvimBridge(s@),
            Action::NvimDbConnect(s) => ActionView::NvimDbConnect(s@),
            Action::AppBridge { app, action, fallback_keys, edge } => ActionView::AppBridge {
                app: app@,
                action: action@,
                fallback_keys: fallback_keys@,
                edge,
            },
            Action::PushLayer(s) => ActionView::PushLayer(s@),
            Action::PopLayer => ActionView::PopLayer,
            Action::OpenModal(s) => ActionView::OpenModal(s@),
            Action::CloseModal => ActionView::CloseModal,
        }
    }
}

/// What an optional action is.
pub open spec fn opt_action(a: Option<Action>) -> Option<ActionView> {
    match a {
        Some(a) => Some(a@),
        None => None,
    }
}

/// A copy of a list of keys.
pub fn clone_keys(keys: &Vec<Key>) -> (r: Vec<Key>)
    ensures
        r@ == keys@,
{
    let mut out: Vec<Key> = Vec::new();
    let mut i: usize = 0;
    while i < keys.len()
        invariant
            0 <= i <= keys@.len(),
            out@ == keys@.take(i as int),
        decreases keys@.len() - i,
    {
        out.push(keys[i]);
        i += 1;
        assert(keys@.take(i as int) =~= keys@.take(i - 1).push(keys@[i - 1]));
    }
    assert(keys@.take(i as int) =~= keys@);
    out
}

/// A copy of an optional text.
pub fn clone_text(t: &Option<String>) -> (r: Option<String>)
    ensures
        text::opt_text(r) == text::opt_text(*t),
{
    match t {
        Some(s) => Some(s.clone()),
        None => None,
    }
}

} // verus!
