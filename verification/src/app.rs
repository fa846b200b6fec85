//! The application: what is shown on the bar, and what a touch does.
//!
//! The application owns the state. Reading devices, drawing and sending are left to its
//! caller, which says what was read and does what the application asks for.
use crate::action;
use crate::action::{Action, ActionView, Edge, Key, KEY_FN};
use crate::backlight::{TIMEOUT_MS, TOUCH_ACTIVE_POLL_MS};
use crate::browser::BrowserTabsState;
use crate::config;
use crate::config::{Config, ConfigView};
use crate::function_layer;
use crate::function_layer::{CellView, DragProbe, FunctionLayer, HitProbe, LayerArea};
use crate::input;
use crate::input::InputEvent;
use crate::json;
use crate::key;
use crate::layer;
use crate::layer::{
    LayerStore, LayerStoreView, ResolverState, ResolverView, TouchTarget, TouchView,
};
use crate::mpris::MediaState;
use crate::number;
use crate::number::Number;
use crate::nvim_bridge;
use crate::nvim_bridge::{NvimBridgeSnapshot, NvimView};
use crate::pi_state;
use crate::pi_state::{PiState, PiView};
use crate::remote;
use crate::remote::{RemoteContext, RemoteView};
use crate::runtime;
use crate::scan;
use crate::store::{Store, StoreView, Value, ValueView};
use crate::terminal::{TerminalApp, TerminalState, TerminalView};
use crate::text;
use crate::titles;
use crate::touch::TouchPhase;
use crate::widgets::slider::SliderBackend;
use crate::widgets::{LayerError, PressProbe};
use std::collections::HashMap;
use vstd::prelude::*;

verus! {

broadcast use vstd::std_specs::hash::group_hash_axioms;

pub const GLOBAL_LEFT_LAYER: &'static str = "global-left";

pub const GLOBAL_RIGHT_LAYER: &'static str = "global-right";

pub const GLOBAL_RIGHT_MEDIA_LAYER: &'static str = "global-right-media";

pub const GLOBAL_RIGHT_TABS_LAYER: &'static str = "global-right-tabs";

pub const MEDIA_ACTIVE_LAYER: &'static str = "media-active";

pub const MEDIA_OVERLAY_LAYER: &'static str = "media-overlay";

pub const CHROMIUM_TABS_LAYER: &'static str = "chromium-tabs";

pub const TERMINAL_NVIM_LAYER: &'static str = "terminal-nvim";

pub const TERMINAL_NVIM_DEBUG_LAYER: &'static str = "terminal-nvim-debug";

pub const TERMINAL_NVIM_TEST_LAYER: &'static str = "terminal-nvim-test";

pub const TERMINAL_NVIM_DB_LAYER: &'static str = "terminal-nvim-db";

pub const TERMINAL_NVIM_DB_CONNECTIONS_LAYER: &'static str = "terminal-nvim-db-connections";

pub const TERMINAL_PI_LAYER: &'static str = "terminal-pi";

/// The room between two buttons, in pixels.
pub const BUTTON_SPACING_PX: i32 = 16;

/// What is known of the remote sessions.
#[derive(Debug)]
pub struct RemoteSnapshot {
    /// The report that came last.
    pub latest: Option<RemoteContext>,
    /// Whether any session is connected or has reported.
    pub active: bool,
}

/// The application.
pub struct App {
    store: LayerStore,
    runtime: Store,
    rstate: ResolverState,
    touches: HashMap<i32, TouchTarget>,
    remote: RemoteSnapshot,
    cfg: Config,
    width: u16,
    height: u16,
    needs_complete_redraw: bool,
    prev_active: String,
    prev_terminal: String,
    last_redraw_ts: u32,
    last: u64,
}

/// What the application holds.
pub struct AppView {
    /// The layers.
    pub store: LayerStoreView,
    /// What is known at run time.
    pub runtime: StoreView,
    /// What decides which layer is shown.
    pub rstate: ResolverView,
    /// What the finger is on.
    pub touch: Option<TouchView>,
    /// The report of a remote session that came last.
    pub remote: Option<RemoteView>,
    /// Whether any remote session is connected or has reported.
    pub remote_active: bool,
    pub cfg: ConfigView,
    pub width: u16,
    pub height: u16,
    pub needs_complete_redraw: bool,
    /// The layer that was shown last.
    pub prev_active: Seq<char>,
    /// What was last known of the terminal.
    pub prev_terminal: Seq<char>,
    /// The second or the minute at which the bar was last drawn.
    pub last_redraw_ts: u32,
    /// When Fn was last pressed, in nanoseconds.
    pub last: u64,
}

impl View for App {
    type V = AppView;

    closed spec fn view(&self) -> AppView {
        AppView {
            store: self.store@,
            runtime: self.runtime@,
            rstate: self.rstate@,
            touch: if self.touches@.contains_key(0i32) {
                Some(self.touches@[0i32]@)
            } else {
                None
            },
            remote: remote::opt_context(self.remote.latest),
            remote_active: self.remote.active,
            cfg: self.cfg@,
            width: self.width,
            height: self.height,
            needs_complete_redraw: self.needs_complete_redraw,
            prev_active: self.prev_active@,
            prev_terminal: self.prev_terminal@,
            last_redraw_ts: self.last_redraw_ts,
            last: self.last,
        }
    }
}

/// Whether the layers are such as a configuration gives them: the built-in ones are there,
/// and none is empty.
pub open spec fn sound_layers(store: LayerStoreView) -> bool {
    &&& config::has_built_in_layers(store.registry)
    &&& store.registry.contains_key(store.base)
    &&& store.registry.contains_key(store.fn_base)
    &&& forall|name: Seq<char>| #[trigger]
        store.registry.contains_key(name) ==> store.registry[name].len() > 0
}

/// Whether the layer of a slider under the finger exists.
pub open spec fn sound_touch(touch: Option<TouchView>, store: LayerStoreView) -> bool {
    touch matches Some(TouchView::Slider { layer }) ==> store.registry.contains_key(layer)
}

// ---------------------------------------------------------------------------
// What is shown
// ---------------------------------------------------------------------------

impl AppView {
    /// Whether a layer of this name exists.
    pub open spec fn has_layer(self, name: Seq<char>) -> bool {
        self.store.registry.contains_key(name)
    }

    /// The layer, where it exists.
    pub open spec fn if_there(self, name: Seq<char>) -> Option<Seq<char>> {
        if self.has_layer(name) {
            Some(name)
        } else {
            None
        }
    }

    /// Whether the layer over the whole bar exists, where there is one.
    pub open spec fn ready(self) -> bool {
        self.rstate.modal is Some ==> self.has_layer(self.rstate.modal->0)
    }

    /// The class of the focused window, in lower case.
    pub open spec fn class(self) -> Seq<char> {
        text::lowercase(self.runtime.text_or_empty(key::CONTEXT_FOCUS_CLASS@))
    }

    /// Whether Chromium is focused.
    pub open spec fn chromium_focused(self) -> bool {
        scan::occurs(self.class(), "chromium"@) || scan::occurs(self.class(), "chrome"@)
    }

    /// Whether the terminal is focused.
    pub open spec fn ghostty_focused(self) -> bool {
        scan::occurs(self.class(), "ghostty"@) || (self.runtime.is_true(key::TERMINAL_AVAILABLE@)
            && self.runtime.text_or_empty(key::TERMINAL_NAME@) == "ghostty"@)
    }

    /// Whether this program is in front in the terminal.
    pub open spec fn terminal_app(self, app: TerminalApp) -> bool {
        self.runtime.text_or_empty(key::TERMINAL_APP@) == app.name()
    }

    /// Whether a remote session is in front in the terminal.
    pub open spec fn remote_shown(self) -> bool {
        self.terminal_app(TerminalApp::Ssh) && self.remote is Some
    }

    /// Whether this program is in front in a remote session.
    pub open spec fn remote_app(self, app: TerminalApp) -> bool {
        self.remote_shown() && self.remote->0.app == app.name()
    }

    /// Whether this program is in front, here or in a remote session.
    pub open spec fn effective_app(self, app: TerminalApp) -> bool {
        self.terminal_app(app) || self.remote_app(app)
    }

    /// Whether Neovim is debugging.
    pub open spec fn debugging(self) -> bool {
        self.effective_app(TerminalApp::Nvim) && (self.runtime.is_true(key::NVIM_DAP_ACTIVE@)
            || self.runtime.is_true(key::NVIM_DAPUI_VISIBLE@))
    }

    /// Whether Neovim is testing.
    pub open spec fn testing(self) -> bool {
        self.effective_app(TerminalApp::Nvim) && self.runtime.is_true(
            key::NVIM_NEOTEST_SUMMARY_VISIBLE@,
        )
    }

    /// Whether Neovim shows databases.
    pub open spec fn browsing_databases(self) -> bool {
        self.effective_app(TerminalApp::Nvim) && (self.runtime.is_true(key::NVIM_DBUI_VISIBLE@)
            || self.runtime.is_true(key::NVIM_DBUI_IN_BUFFER@))
    }

    /// Whether the media that plays is that of the focused tab.
    pub open spec fn media_in_front(self) -> bool {
        self.chromium_focused() && self.runtime.is_true(key::CHROMIUM_MEDIA_ACTIVE@)
            && titles::probably_match(
            self.runtime.text_or_empty(key::MEDIA_ACTIVE_TITLE@),
            self.runtime.text_or_empty(key::CONTEXT_FOCUS_TITLE@),
        )
    }

    /// The layer that follows from the focused window.
    pub open spec fn focus_layer(self) -> Option<Seq<char>> {
        if self.ghostty_focused() && self.debugging() {
            self.if_there(TERMINAL_NVIM_DEBUG_LAYER@)
        } else if self.ghostty_focused() && self.testing() {
            self.if_there(TERMINAL_NVIM_TEST_LAYER@)
        } else if self.ghostty_focused() && self.browsing_databases() {
            self.if_there(TERMINAL_NVIM_DB_LAYER@)
        } else if self.ghostty_focused() && self.effective_app(TerminalApp::Nvim) {
            self.if_there(TERMINAL_NVIM_LAYER@)
        } else if self.ghostty_focused() && self.effective_app(TerminalApp::Pi) {
            self.if_there(TERMINAL_PI_LAYER@)
        } else if self.chromium_focused() {
            if self.media_in_front() {
                self.if_there(MEDIA_ACTIVE_LAYER@)
            } else {
                self.if_there(CHROMIUM_TABS_LAYER@)
            }
        } else if self.rstate.app is Some {
            self.if_there(self.rstate.app->0)
        } else {
            None
        }
    }

    /// The layer in the middle of the bar: one that was opened within the application, or
    /// else the base layer while Fn is held, or else the one that follows from the focused
    /// window.
    pub open spec fn center(self) -> Option<Seq<char>> {
        if self.rstate.substates.len() > 0 && self.has_layer(self.rstate.substates.last()) {
            Some(self.rstate.substates.last())
        } else if self.rstate.fn_pressed && self.has_layer(self.store.fn_base) {
            Some(self.store.fn_base)
        } else {
            self.focus_layer()
        }
    }

    /// Whether the button that shows the media is needed: there is media, and it is not shown
    /// anyway.
    pub open spec fn wants_media_button(self) -> bool {
        self.runtime.text_or_empty(key::MEDIA_ACTIVE_PLAYER@).len() > 0 && !self.media_in_front()
            && self.center() != Some(MEDIA_ACTIVE_LAYER@) && self.center() != Some(
            MEDIA_OVERLAY_LAYER@,
        )
    }

    /// The layer at the right end of the bar.
    pub open spec fn right(self) -> Seq<char> {
        if self.media_in_front() {
            GLOBAL_RIGHT_TABS_LAYER@
        } else if self.wants_media_button() {
            GLOBAL_RIGHT_MEDIA_LAYER@
        } else {
            GLOBAL_RIGHT_LAYER@
        }
    }
}

/// The width of a button at an end of the bar: two and a half times the bar's height, rounded
/// to the nearest, within bounds.
pub open spec fn edge_width(height: int) -> int {
    let w = (5 * height + 1) / 2;
    if w < 120 {
        120
    } else if w > 190 {
        190
    } else {
        w
    }
}

/// The parts of a bar: the left end, the middle, and the right end with `count` buttons.
pub open spec fn areas(width: u16, height: u16, count: int) -> BarAreas {
    let h = height as i32;
    let w = edge_width(height as int);
    let right = w * count + BUTTON_SPACING_PX * (count - 1);
    let rest = width - w - right - BUTTON_SPACING_PX * 2;
    BarAreas {
        left: LayerArea { left: 0, width: w as i32, height: h },
        center: LayerArea {
            left: (w + BUTTON_SPACING_PX) as i32,
            width: if rest < 1 {
                1
            } else {
                rest as i32
            },
            height: h,
        },
        right: LayerArea { left: (width - right) as i32, width: right as i32, height: h },
    }
}

/// A part of the bar.
#[derive(Clone, Copy, Debug, PartialEq, Eq, Structural)]
pub enum BarRegion {
    /// The whole bar, for a layer over it.
    Whole,
    Left,
    Center,
    Right,
}

/// The three parts of the bar.
#[derive(Clone, Copy, Debug, PartialEq, Eq, Structural)]
pub struct BarAreas {
    pub left: LayerArea,
    pub center: LayerArea,
    pub right: LayerArea,
}

/// Where a finger is, on each part of the bar.
#[derive(Debug)]
pub struct BarProbe {
    pub whole: HitProbe,
    pub left: HitProbe,
    pub center: HitProbe,
    pub right: HitProbe,
}

impl AppView {
    /// How many buttons the right end of the bar has.
    pub open spec fn right_count(self) -> int {
        if self.right() == GLOBAL_RIGHT_LAYER@ {
            2
        } else {
            3
        }
    }

    /// The part of the bar that a layer takes, where it is shown.
    pub open spec fn region_of(self, name: Seq<char>) -> Option<BarRegion> {
        if self.rstate.modal == Some(name) {
            Some(BarRegion::Whole)
        } else if name == GLOBAL_LEFT_LAYER@ {
            Some(BarRegion::Left)
        } else if name == self.right() {
            Some(BarRegion::Right)
        } else if self.center() == Some(name) {
            Some(BarRegion::Center)
        } else {
            None
        }
    }

    /// The cell of a layer that a finger hits.
    pub open spec fn hit_layer(self, name: Seq<char>, probe: BarProbe, wanted: Option<usize>) -> Option<
        usize,
    > {
        match self.region_of(name) {
            Some(BarRegion::Whole) => function_layer::hit(
                self.store.registry[name],
                probe.whole,
                wanted,
            ),
            Some(BarRegion::Left) => function_layer::hit(
                self.store.registry[name],
                probe.left,
                wanted,
            ),
            Some(BarRegion::Center) => function_layer::hit(
                self.store.registry[name],
                probe.center,
                wanted,
            ),
            Some(BarRegion::Right) => function_layer::hit(
                self.store.registry[name],
                probe.right,
                wanted,
            ),
            None => None,
        }
    }

    /// A layer and its cell that a finger hits, where it hits one.
    pub open spec fn hit_of(self, name: Seq<char>, probe: BarProbe) -> Option<(Seq<char>, usize)> {
        match self.hit_layer(name, probe, None) {
            Some(i) => Some((name, i)),
            None => None,
        }
    }

    /// The layer and the cell that a finger hits: a layer over the whole bar hides the
    /// others, which are looked at from left to right.
    pub open spec fn hit_bar(self, probe: BarProbe) -> Option<(Seq<char>, usize)> {
        if self.rstate.modal is Some {
            self.hit_of(self.rstate.modal->0, probe)
        } else if self.hit_of(GLOBAL_LEFT_LAYER@, probe) is Some {
            self.hit_of(GLOBAL_LEFT_LAYER@, probe)
        } else if self.center() is Some && self.hit_of(self.center()->0, probe) is Some {
            self.hit_of(self.center()->0, probe)
        } else {
            self.hit_of(self.right(), probe)
        }
    }

    /// Whether anything in a layer has to be drawn again.
    pub open spec fn stale(self, name: Seq<char>) -> bool {
        function_layer::stale(self.store.registry[name], self.runtime)
    }

    /// Whether a layer shows something that changes within a minute.
    pub open spec fn ticking(self, name: Seq<char>) -> bool {
        function_layer::ticks(self.store.registry[name])
    }

    /// Whether something that decides about the layers has changed.
    pub open spec fn surroundings_changed(self) -> bool {
        ||| self.runtime.dirty.contains(key::MEDIA_ACTIVE_PLAYER@)
        ||| self.runtime.dirty.contains(key::MEDIA_ACTIVE_TITLE@)
        ||| self.runtime.dirty.contains(key::CONTEXT_FOCUS_TITLE@)
        ||| self.runtime.dirty.contains(key::CHROMIUM_MEDIA_ACTIVE@)
        ||| self.runtime.dirty.contains(key::NVIM_DAP_ACTIVE@)
        ||| self.runtime.dirty.contains(key::NVIM_DAP_STATE@)
        ||| self.runtime.dirty.contains(key::NVIM_DAPUI_VISIBLE@)
        ||| self.runtime.dirty.contains(key::NVIM_NEOTEST_AVAILABLE@)
        ||| self.runtime.dirty.contains(key::NVIM_NEOTEST_SUMMARY_VISIBLE@)
        ||| self.runtime.dirty.contains(key::NVIM_DBUI_VISIBLE@)
        ||| self.runtime.dirty.contains(key::NVIM_DBUI_IN_BUFFER@)
        ||| self.runtime.dirty.contains(key::NVIM_DBUI_CONNECTIONS_JSON@)
        ||| self.runtime.dirty.contains(key::PI_MODEL@)
        ||| self.runtime.dirty.contains(key::PI_THINKING@)
        ||| self.runtime.dirty.contains(key::PI_WORKFLOW_MODE@)
    }

    /// Whether the bar has to be drawn again, where no layer is over it.
    pub open spec fn frame_stale(self) -> bool {
        ||| self.needs_complete_redraw
        ||| self.stale(GLOBAL_LEFT_LAYER@)
        ||| (self.center() is Some && self.stale(self.center()->0))
        ||| self.surroundings_changed()
        ||| self.stale(self.right())
    }

    /// Whether the bar has to be drawn again.
    pub open spec fn bar_stale(self) -> bool {
        if self.rstate.modal is Some {
            self.needs_complete_redraw || self.stale(self.rstate.modal->0)
        } else {
            self.frame_stale()
        }
    }

    /// Whether the bar shows something that changes within a minute.
    pub open spec fn frame_ticking(self) -> bool {
        ||| (self.rstate.modal is Some && self.ticking(self.rstate.modal->0))
        ||| self.ticking(GLOBAL_LEFT_LAYER@)
        ||| (self.center() is Some && self.ticking(self.center()->0))
        ||| self.ticking(self.right())
    }
}

impl App {
    /// The layers are such as a configuration gives them, what the finger is on exists, and
    /// the class of the focused window is known.
    pub closed spec fn wf(self) -> bool {
        &&& self.store.wf()
        &&& self.runtime.wf()
        &&& runtime::knows_class(self.runtime@)
        &&& sound_layers(self.store@)
        &&& sound_touch(self@.touch, self@.store)
    }

    /// An application that has just started: a complete drawing is due.
    pub fn new(
        cfg: Config,
        store: LayerStore,
        brightness: Number,
        kbd: Number,
        width: u16,
        height: u16,
        second: u32,
        minute: u32,
        now: u64,
    ) -> (r: App)
        requires
            store.wf(),
            sound_layers(store@),
        ensures
            r.wf(),
            r@.store == store@,
            r@.cfg == cfg@,
            r@.runtime.values == runtime::initial_values(
                StoreView { values: Map::empty(), dirty: Set::empty() },
                brightness,
                kbd,
            ).values,
            r@.runtime.dirty == Set::<Seq<char>>::empty(),
            r@.rstate == layer::idle(),
            r@.touch is None,
            r@.remote is None,
            !r@.remote_active,
            r@.width == width,
            r@.height == height,
            r@.needs_complete_redraw,
            r@.prev_active == Seq::<char>::empty(),
            r@.prev_terminal == Seq::<char>::empty(),
            r@.last_redraw_ts == if function_layer::ticks(store@.registry[store@.base]) {
                second
            } else {
                minute
            },
            r@.last == now,
    {
        proof {
            runtime::law_class_is_known_at_start(
                StoreView { values: Map::empty(), dirty: Set::empty() },
                brightness,
                kbd,
            );
        }
        let rstate = ResolverState::default();
        let active = store.resolve(&rstate);
        let last_redraw_ts: u32 = if store.get(active.as_str()).faster_refresh() {
            second
        } else {
            minute
        };
        let r = App {
            store,
            runtime: runtime::initial_store(brightness, kbd),
            rstate,
            touches: HashMap::new(),
            remote: RemoteSnapshot { latest: None, active: false },
            cfg,
            width,
            height,
            needs_complete_redraw: true,
            prev_active: String::new(),
            prev_terminal: String::new(),
            last_redraw_ts,
            last: now,
        };
        assert(r@.prev_active =~= Seq::<char>::empty());
        assert(r@.prev_terminal =~= Seq::<char>::empty());
        r
    }

    // -----------------------------------------------------------------------
    // What is focused
    // -----------------------------------------------------------------------

    /// The class of the focused window, in lower case.
    fn focused_class_lower(&self) -> (r: String)
        requires
            self.wf(),
        ensures
            r@ == self@.class(),
    {
        proof {
            key::law_built_in_keys_are_valid();
        }
        text::to_lowercase(self.runtime.text_or_empty(key::CONTEXT_FOCUS_CLASS).as_str())
    }

    /// Whether Chromium is focused.
    pub fn is_chromium_focused(&self) -> (r: bool)
        requires
            self.wf(),
        ensures
            r == self@.chromium_focused(),
    {
        let class = self.focused_class_lower();
        scan::contains(class.as_str(), "chromium") || scan::contains(class.as_str(), "chrome")
    }

    /// Whether the terminal is focused.
    pub fn is_ghostty_focused(&self) -> (r: bool)
        requires
            self.wf(),
        ensures
            r == self@.ghostty_focused(),
    {
        proof {
            key::law_built_in_keys_are_valid();
        }
        scan::contains(self.focused_class_lower().as_str(), "ghostty") || (self.runtime.holds_true(
            key::TERMINAL_AVAILABLE,
        ) && text::same(self.runtime.text_or_empty(key::TERMINAL_NAME).as_str(), "ghostty"))
    }

    /// Whether this program is in front in the terminal.
    pub fn terminal_app_is(&self, app: TerminalApp) -> (r: bool)
        requires
            self.wf(),
        ensures
            r == self@.terminal_app(app),
    {
        proof {
            key::law_built_in_keys_are_valid();
        }
        text::same(self.runtime.text_or_empty(key::TERMINAL_APP).as_str(), app.as_str())
    }

    /// Whether a remote session is in front in the terminal.
    pub fn remote_context_active(&self) -> (r: bool)
        requires
            self.wf(),
        ensures
            r == self@.remote_shown(),
    {
        self.terminal_app_is(TerminalApp::Ssh) && self.remote.latest.is_some()
    }

    /// Whether this program is in front in a remote session.
    pub fn remote_app_is(&self, app: TerminalApp) -> (r: bool)
        requires
            self.wf(),
        ensures
            r == self@.remote_app(app),
    {
        if !self.terminal_app_is(TerminalApp::Ssh) {
            return false;
        }
        match &self.remote.latest {
            Some(context) => text::same(context.app.as_str(), app.as_str()),
            None => false,
        }
    }

    /// Whether this program is in front, here or in a remote session.
    pub fn effective_terminal_app_is(&self, app: TerminalApp) -> (r: bool)
        requires
            self.wf(),
        ensures
            r == self@.effective_app(app),
    {
        self.terminal_app_is(app) || self.remote_app_is(app)
    }

    /// Whether Neovim is debugging.
    fn nvim_debug_surface_active(&self) -> (r: bool)
        requires
            self.wf(),
        ensures
            r == self@.debugging(),
    {
        proof {
            key::law_built_in_keys_are_valid();
        }
        self.effective_terminal_app_is(TerminalApp::Nvim) && (self.runtime.holds_true(
            key::NVIM_DAP_ACTIVE,
        ) || self.runtime.holds_true(key::NVIM_DAPUI_VISIBLE))
    }

    /// Whether Neovim is testing.
    fn nvim_test_surface_active(&self) -> (r: bool)
        requires
            self.wf(),
        ensures
            r == self@.testing(),
    {
        proof {
            key::law_built_in_keys_are_valid();
        }
        self.effective_terminal_app_is(TerminalApp::Nvim) && self.runtime.holds_true(
            key::NVIM_NEOTEST_SUMMARY_VISIBLE,
        )
    }

    /// Whether Neovim shows databases.
    fn nvim_db_surface_active(&self) -> (r: bool)
        requires
            self.wf(),
        ensures
            r == self@.browsing_databases(),
    {
        proof {
            key::law_built_in_keys_are_valid();
        }
        self.effective_terminal_app_is(TerminalApp::Nvim) && (self.runtime.holds_true(
            key::NVIM_DBUI_VISIBLE,
        ) || self.runtime.holds_true(key::NVIM_DBUI_IN_BUFFER))
    }

    /// Whether the media that plays is that of the focused tab.
    pub fn chromium_media_on_focused_tab(&self) -> (r: bool)
        requires
            self.wf(),
        ensures
            r == self@.media_in_front(),
    {
        proof {
            key::law_built_in_keys_are_valid();
        }
        if !self.is_chromium_focused() || !self.runtime.holds_true(key::CHROMIUM_MEDIA_ACTIVE) {
            return false;
        }
        titles::titles_probably_match(
            self.runtime.text_or_empty(key::MEDIA_ACTIVE_TITLE).as_str(),
            self.runtime.text_or_empty(key::CONTEXT_FOCUS_TITLE).as_str(),
        )
    }

    /// The process of Neovim in the terminal.
    pub fn terminal_nvim_pid(&self) -> (r: Option<u32>)
        requires
            self.wf(),
        ensures
            r == stored_pid(self@.runtime, key::TERMINAL_NVIM_PID@),
    {
        proof {
            key::law_built_in_keys_are_valid();
        }
        read_pid(&self.runtime, key::TERMINAL_NVIM_PID)
    }

    // -----------------------------------------------------------------------
    // Which layers are shown
    // -----------------------------------------------------------------------

    /// A layer, where it exists.
    fn existing(&self, name: &str) -> (r: Option<String>)
        requires
            self.wf(),
        ensures
            text::opt_text(r) == self@.if_there(name@),
    {
        if self.store.contains(name) {
            Some(name.to_string())
        } else {
            None
        }
    }

    /// The layer that follows from the focused window.
    fn layer_of_focus(&self) -> (r: Option<String>)
        requires
            self.wf(),
        ensures
            text::opt_text(r) == self@.focus_layer(),
    {
        let ghostty = self.is_ghostty_focused();
        if ghostty && self.nvim_debug_surface_active() {
            self.existing(TERMINAL_NVIM_DEBUG_LAYER)
        } else if ghostty && self.nvim_test_surface_active() {
            self.existing(TERMINAL_NVIM_TEST_LAYER)
        } else if ghostty && self.nvim_db_surface_active() {
            self.existing(TERMINAL_NVIM_DB_LAYER)
        } else if ghostty && self.effective_terminal_app_is(TerminalApp::Nvim) {
            self.existing(TERMINAL_NVIM_LAYER)
        } else if ghostty && self.effective_terminal_app_is(TerminalApp::Pi) {
            self.existing(TERMINAL_PI_LAYER)
        } else if self.is_chromium_focused() {
            if self.chromium_media_on_focused_tab() {
                self.existing(MEDIA_ACTIVE_LAYER)
            } else {
                self.existing(CHROMIUM_TABS_LAYER)
            }
        } else {
            match &self.rstate.app {
                Some(app) => self.existing(app.as_str()),
                None => None,
            }
        }
    }

    /// The layer in the middle of the bar.
    pub fn center_layer(&self) -> (r: Option<String>)
        requires
            self.wf(),
        ensures
            text::opt_text(r) == self@.center(),
    {
        let depth = self.rstate.substates.len();
        if depth > 0 {
            assert(self@.rstate.substates.last() == self.rstate.substates@[depth - 1]@);
            if self.store.contains(self.rstate.substates[depth - 1].as_str()) {
                return Some(self.rstate.substates[depth - 1].clone());
            }
        }
        if self.rstate.fn_pressed {
            let base = self.store.base_layer(true);
            if self.store.contains(base.as_str()) {
                return Some(base);
            }
        }
        self.layer_of_focus()
    }

    /// Whether the button that shows the media is needed.
    fn should_show_global_media_button(&self) -> (r: bool)
        requires
            self.wf(),
        ensures
            r == self@.wants_media_button(),
    {
        proof {
            key::law_built_in_keys_are_valid();
        }
        if text::is_empty(self.runtime.text_or_empty(key::MEDIA_ACTIVE_PLAYER).as_str()) {
            return false;
        }
        if self.chromium_media_on_focused_tab() {
            return false;
        }
        let center = self.center_layer();
        !text::is_text(&center, MEDIA_ACTIVE_LAYER) && !text::is_text(&center, MEDIA_OVERLAY_LAYER)
    }

    /// The layer at the right end of the bar.
    pub fn global_right_layer(&self) -> (r: &'static str)
        requires
            self.wf(),
        ensures
            r@ == self@.right(),
    {
        if self.chromium_media_on_focused_tab() {
            GLOBAL_RIGHT_TABS_LAYER
        } else if self.should_show_global_media_button() {
            GLOBAL_RIGHT_MEDIA_LAYER
        } else {
            GLOBAL_RIGHT_LAYER
        }
    }
}

/// The process identifier under a key; zero and what is no number stand for none.
pub open spec fn stored_pid(s: StoreView, key: Seq<char>) -> Option<u32> {
    match s.number_at(key) {
        Some(n) => if n.truncated() == 0 {
            None
        } else {
            Some(n.truncated())
        },
        None => None,
    }
}

/// The process identifier under a key.
fn read_pid(s: &Store, key: &str) -> (r: Option<u32>)
    requires
        s.wf(),
        key::valid_key(key@),
    ensures
        r == stored_pid(s@, key@),
{
    match s.number(key) {
        Ok(n) => {
            let pid = n.to_u32();
            if pid == 0 {
                None
            } else {
                Some(pid)
            }
        },
        Err(_) => None,
    }
}

impl App {
    // -----------------------------------------------------------------------
    // Where layers are
    // -----------------------------------------------------------------------

    /// The three parts of a bar of the given size.
    pub fn bar_areas(&self, width: u16, height: u16) -> (r: BarAreas)
        requires
            self.wf(),
        ensures
            r == areas(width, height, self@.right_count()),
    {
        let h = height as i32;
        let rounded: i32 = (5 * h + 1) / 2;
        let w: i32 = if rounded < 120 {
            120
        } else if rounded > 190 {
            190
        } else {
            rounded
        };
        let count: i32 = if text::same(self.global_right_layer(), GLOBAL_RIGHT_LAYER) {
            2
        } else {
            3
        };
        assert(w * count == w * 2 || w * count == w * 3) by (nonlinear_arith)
            requires
                count == 2 || count == 3,
        ;
        let right: i32 = if count == 2 {
            w * 2 + BUTTON_SPACING_PX
        } else {
            w * 3 + BUTTON_SPACING_PX * 2
        };
        let rest: i32 = width as i32 - w - right - BUTTON_SPACING_PX * 2;
        BarAreas {
            left: LayerArea { left: 0, width: w, height: h },
            center: LayerArea {
                left: w + BUTTON_SPACING_PX,
                width: if rest < 1 {
                    1
                } else {
                    rest
                },
                height: h,
            },
            right: LayerArea { left: width as i32 - right, width: right, height: h },
        }
    }

    /// The part of the bar that a layer takes, where it is shown.
    pub fn region(&self, name: &str) -> (r: Option<BarRegion>)
        requires
            self.wf(),
        ensures
            r == self@.region_of(name@),
    {
        if text::is_text(&self.rstate.modal, name) {
            Some(BarRegion::Whole)
        } else if text::same(name, GLOBAL_LEFT_LAYER) {
            Some(BarRegion::Left)
        } else if text::same(name, self.global_right_layer()) {
            Some(BarRegion::Right)
        } else if text::is_text(&self.center_layer(), name) {
            Some(BarRegion::Center)
        } else {
            None
        }
    }

    /// The area that a layer takes, where it is shown.
    pub fn area_for_layer(&self, name: &str) -> (r: Option<LayerArea>)
        requires
            self.wf(),
        ensures
            r == self@.area_of(name@),
    {
        let all = self.bar_areas(self.width, self.height);
        match self.region(name) {
            Some(BarRegion::Whole) => Some(
                LayerArea::full(self.width as i32, self.height as i32),
            ),
            Some(BarRegion::Left) => Some(all.left),
            Some(BarRegion::Center) => Some(all.center),
            Some(BarRegion::Right) => Some(all.right),
            None => None,
        }
    }

    /// The cell of a layer that a finger hits.
    pub fn hit_layer(&self, name: &str, probe: &BarProbe, wanted: Option<usize>) -> (r: Option<
        usize,
    >)
        requires
            self.wf(),
            self@.ready(),
        ensures
            r == self@.hit_layer(name@, *probe, wanted),
    {
        let place = match self.region(name) {
            Some(place) => place,
            None => return None,
        };
        proof {
            lemma_shown_exists(self@, name@);
        }
        let cells = self.store.get(name);
        match place {
            BarRegion::Whole => cells.hit_in(&probe.whole, wanted),
            BarRegion::Left => cells.hit_in(&probe.left, wanted),
            BarRegion::Center => cells.hit_in(&probe.center, wanted),
            BarRegion::Right => cells.hit_in(&probe.right, wanted),
        }
    }

    /// The layer and the cell that a finger hits.
    pub fn hit_bar(&self, probe: &BarProbe) -> (r: Option<(String, usize)>)
        requires
            self.wf(),
            self@.ready(),
        ensures
            match r {
                Some((name, i)) => self@.hit_bar(*probe) == Some((name@, i)),
                None => self@.hit_bar(*probe) is None,
            },
    {
        if let Some(modal) = &self.rstate.modal {
            return match self.hit_layer(modal.as_str(), probe, None) {
                Some(i) => Some((modal.clone(), i)),
                None => None,
            };
        }
        if let Some(i) = self.hit_layer(GLOBAL_LEFT_LAYER, probe, None) {
            return Some((GLOBAL_LEFT_LAYER.to_string(), i));
        }
        if let Some(center) = self.center_layer() {
            if let Some(i) = self.hit_layer(center.as_str(), probe, None) {
                return Some((center, i));
            }
        }
        let right = self.global_right_layer();
        match self.hit_layer(right, probe, None) {
            Some(i) => Some((right.to_string(), i)),
            None => None,
        }
    }

    // -----------------------------------------------------------------------
    // Drawing
    // -----------------------------------------------------------------------

    /// Whether the layer over the whole bar exists, where there is one.
    pub fn modal_exists(&self) -> (r: bool)
        requires
            self.wf(),
        ensures
            r == self@.ready(),
    {
        match &self.rstate.modal {
            Some(name) => self.store.contains(name.as_str()),
            None => true,
        }
    }

    /// The layer over the whole bar.
    pub fn modal(&self) -> (r: Option<String>)
        ensures
            text::opt_text(r) == self@.rstate.modal,
    {
        action::clone_text(&self.rstate.modal)
    }

    /// Whether something that decides about the layers has changed.
    fn surroundings_changed(&self) -> (r: bool)
        requires
            self.wf(),
        ensures
            r == self@.surroundings_changed(),
    {
        self.runtime.changed(key::MEDIA_ACTIVE_PLAYER) || self.runtime.changed(
            key::MEDIA_ACTIVE_TITLE,
        ) || self.runtime.changed(key::CONTEXT_FOCUS_TITLE) || self.runtime.changed(
            key::CHROMIUM_MEDIA_ACTIVE,
        ) || self.runtime.changed(key::NVIM_DAP_ACTIVE) || self.runtime.changed(
            key::NVIM_DAP_STATE,
        ) || self.runtime.changed(key::NVIM_DAPUI_VISIBLE) || self.runtime.changed(
            key::NVIM_NEOTEST_AVAILABLE,
        ) || self.runtime.changed(key::NVIM_NEOTEST_SUMMARY_VISIBLE) || self.runtime.changed(
            key::NVIM_DBUI_VISIBLE,
        ) || self.runtime.changed(key::NVIM_DBUI_IN_BUFFER) || self.runtime.changed(
            key::NVIM_DBUI_CONNECTIONS_JSON,
        ) || self.runtime.changed(key::PI_MODEL) || self.runtime.changed(key::PI_THINKING)
            || self.runtime.changed(key::PI_WORKFLOW_MODE)
    }

    /// Whether anything in a layer has to be drawn again.
    fn layer_stale(&self, name: &str) -> (r: bool)
        requires
            self.wf(),
            self@.has_layer(name@),
        ensures
            r == self@.stale(name@),
    {
        self.store.get(name).needs_redraw(&self.runtime)
    }

    /// Whether the bar has to be drawn again, where no layer is over it.
    pub fn frame_needs_redraw(&self) -> (r: bool)
        requires
            self.wf(),
        ensures
            r == self@.frame_stale(),
    {
        proof {
            lemma_edges_exist(self@);
        }
        if self.needs_complete_redraw || self.layer_stale(GLOBAL_LEFT_LAYER) {
            return true;
        }
        if let Some(center) = self.center_layer() {
            if self.layer_stale(center.as_str()) {
                return true;
            }
        }
        self.surroundings_changed() || self.layer_stale(self.global_right_layer())
    }

    /// Whether the bar has to be drawn again.
    pub fn needs_redraw(&self) -> (r: bool)
        requires
            self.wf(),
            self@.ready(),
        ensures
            r == self@.bar_stale(),
    {
        match &self.rstate.modal {
            Some(modal) => self.needs_complete_redraw || self.layer_stale(modal.as_str()),
            None => self.frame_needs_redraw(),
        }
    }

    /// The layers to draw on a bar of the given size, and where.
    pub fn draw_plan(&self, width: u16, height: u16) -> (r: Vec<(String, LayerArea)>)
        requires
            self.wf(),
        ensures
            plan_view(r@) == self@.plan(width, height),
    {
        let mut out: Vec<(String, LayerArea)> = Vec::new();
        if let Some(modal) = &self.rstate.modal {
            out.push((modal.clone(), LayerArea::full(width as i32, height as i32)));
            assert(plan_view(out@) =~= self@.plan(width, height));
            return out;
        }
        let all = self.bar_areas(width, height);
        out.push((GLOBAL_LEFT_LAYER.to_string(), all.left));
        if let Some(center) = self.center_layer() {
            out.push((center, all.center));
        }
        out.push((self.global_right_layer().to_string(), all.right));
        assert(plan_view(out@) =~= self@.plan(width, height));
        out
    }

    /// A layer.
    pub fn layer(&self, name: &str) -> (r: &FunctionLayer)
        requires
            self.wf(),
            self@.has_layer(name@),
        ensures
            r.wf(),
            r@ == self@.store.registry[name@],
    {
        self.store.get(name)
    }

    /// Whether a layer of this name exists.
    pub fn has_layer(&self, name: &str) -> (r: bool)
        requires
            self.wf(),
        ensures
            r == self@.has_layer(name@),
    {
        self.store.contains(name)
    }

    /// What is known at run time.
    pub fn store(&self) -> (r: &Store)
        requires
            self.wf(),
        ensures
            r.wf(),
            r@ == self@.runtime,
    {
        &self.runtime
    }

    /// The configuration.
    pub fn cfg(&self) -> (r: &Config)
        ensures
            r@ == self@.cfg,
    {
        &self.cfg
    }

    /// Whether everything has to be drawn again.
    pub fn complete_redraw(&self) -> (r: bool)
        ensures
            r == self@.needs_complete_redraw,
    {
        self.needs_complete_redraw
    }

    /// Notes that a cell of a layer has been drawn.
    pub fn cell_drawn(&mut self, name: &str, i: usize, now: u64)
        requires
            old(self).wf(),
            old(self)@.has_layer(name@),
            i < old(self)@.store.registry[name@].len(),
        ensures
            final(self).wf(),
            final(self)@ == old(self)@.with_cells(
                name@,
                function_layer::with_widget(
                    old(self)@.store.registry[name@],
                    i as int,
                    old(self)@.store.registry[name@][i as int].widget.drawn(now),
                ),
            ),
    {
        self.store.get_mut(name).drawn(i, now);
        proof {
            lemma_same_names(old(self)@, self@, name@);
        }
    }

    /// Notes that the bar has been drawn.
    pub fn frame_drawn(&mut self)
        requires
            old(self).wf(),
        ensures
            final(self).wf(),
            final(self)@ == (AppView { needs_complete_redraw: false, ..old(self)@ }),
    {
        self.needs_complete_redraw = false;
    }

    /// Notes that an error has been drawn over the bar.
    pub fn error_drawn(&mut self)
        requires
            old(self).wf(),
        ensures
            final(self).wf(),
            final(self)@ == (AppView { needs_complete_redraw: true, ..old(self)@ }),
    {
        self.needs_complete_redraw = true;
    }

    /// Notes that all changes have been seen.
    pub fn changes_seen(&mut self)
        requires
            old(self).wf(),
        ensures
            final(self).wf(),
            final(self)@ == (AppView {
                runtime: StoreView {
                    values: old(self)@.runtime.values,
                    dirty: Set::empty(),
                },
                ..old(self)@
            }),
    {
        self.runtime.clear_dirty();
    }

    // -----------------------------------------------------------------------
    // Time
    // -----------------------------------------------------------------------

    /// Whether a layer shows something that changes within a minute.
    fn layer_ticks(&self, name: &str) -> (r: bool)
        requires
            self.wf(),
            self@.has_layer(name@),
        ensures
            r == self@.ticking(name@),
    {
        self.store.get(name).faster_refresh()
    }

    /// Whether the bar shows something that changes within a minute.
    fn frame_faster_refresh(&self) -> (r: bool)
        requires
            self.wf(),
            self@.ready(),
        ensures
            r == self@.frame_ticking(),
    {
        proof {
            lemma_edges_exist(self@);
        }
        if let Some(modal) = &self.rstate.modal {
            if self.layer_ticks(modal.as_str()) {
                return true;
            }
        }
        if self.layer_ticks(GLOBAL_LEFT_LAYER) {
            return true;
        }
        if let Some(center) = self.center_layer() {
            if self.layer_ticks(center.as_str()) {
                return true;
            }
        }
        self.layer_ticks(self.global_right_layer())
    }

    /// How long the main loop may sleep, in milliseconds, at the given second of a minute.
    /// `shift` says whether the picture has to be moved and when to look again, which counts
    /// only where that is enabled.
    pub fn next_timeout(&mut self, touch_down: bool, second: u32, shift: (bool, i32)) -> (r: i32)
        requires
            old(self).wf(),
            old(self)@.ready(),
            second <= 60,
        ensures
            final(self).wf(),
            r == old(self)@.timeout(touch_down, second, shift.1),
            final(self)@ == (AppView {
                needs_complete_redraw: old(self)@.needs_complete_redraw || (
                old(self)@.cfg.enable_pixel_shift && shift.0),
                ..old(self)@
            }),
    {
        proof {
            key::law_built_in_keys_are_valid();
        }
        let mut next: i32 = lesser((60 - second) as i32 * 1000, TIMEOUT_MS);
        if self.cfg.enable_pixel_shift {
            if shift.0 {
                self.needs_complete_redraw = true;
            }
            next = lesser(next, shift.1);
        }
        if self.frame_faster_refresh() {
            next = lesser(next, 1000);
        }
        if self.is_ghostty_focused() || self.runtime.holds_true(key::NVIM_BRIDGE_AVAILABLE) {
            next = lesser(next, 500);
        }
        if self.terminal_app_is(TerminalApp::Ssh) || self.remote_context_active()
            || self.remote.active {
            next = lesser(next, 1000);
        }
        if touch_down {
            next = lesser(next, TOUCH_ACTIVE_POLL_MS);
        }
        next
    }

    /// Looks at the time: where the layer that is shown has a clock, a complete drawing is
    /// due at each second or minute.
    pub fn tick(&mut self, second: u32, minute: u32)
        requires
            old(self).wf(),
        ensures
            final(self).wf(),
            final(self)@ == old(self)@.ticked(second, minute),
    {
        proof {
            layer::law_resolved_layer_exists(self@.store, self@.rstate);
        }
        let active = self.store.resolve(&self.rstate);
        let cells = self.store.get(active.as_str());
        let current: u32 = if cells.faster_refresh() {
            second
        } else {
            minute
        };
        if cells.displays_time() && current != self.last_redraw_ts {
            self.needs_complete_redraw = true;
            self.last_redraw_ts = current;
        }
    }

    /// Notes which layer is shown, and says whether that has changed.
    pub fn resolve_and_log(&mut self) -> (r: bool)
        requires
            old(self).wf(),
        ensures
            final(self).wf(),
            final(self)@ == (AppView {
                prev_active: old(self)@.store.resolved(old(self)@.rstate),
                ..old(self)@
            }),
            r == (old(self)@.store.resolved(old(self)@.rstate) != old(self)@.prev_active),
    {
        let active = self.store.resolve(&self.rstate);
        if !text::same(active.as_str(), self.prev_active.as_str()) {
            self.prev_active = active;
            true
        } else {
            false
        }
    }
}

/// The smaller of two numbers.
pub open spec fn lower_of(a: int, b: int) -> int {
    if a < b {
        a
    } else {
        b
    }
}

/// The smaller of two numbers.
fn lesser(a: i32, b: i32) -> (r: i32)
    ensures
        r == lower_of(a as int, b as int),
{
    if a < b {
        a
    } else {
        b
    }
}

/// What is drawn, and where.
pub open spec fn plan_view(v: Seq<(String, LayerArea)>) -> Seq<(Seq<char>, LayerArea)> {
    v.map_values(|p: (String, LayerArea)| (p.0@, p.1))
}

impl AppView {
    /// The area that a layer takes, where it is shown.
    pub open spec fn area_of(self, name: Seq<char>) -> Option<LayerArea> {
        let all = areas(self.width, self.height, self.right_count());
        match self.region_of(name) {
            Some(BarRegion::Whole) => Some(
                LayerArea { left: 0, width: self.width as i32, height: self.height as i32 },
            ),
            Some(BarRegion::Left) => Some(all.left),
            Some(BarRegion::Center) => Some(all.center),
            Some(BarRegion::Right) => Some(all.right),
            None => None,
        }
    }

    /// The layers to draw, and where.
    pub open spec fn plan(self, width: u16, height: u16) -> Seq<(Seq<char>, LayerArea)> {
        let all = areas(width, height, self.right_count());
        if self.rstate.modal is Some {
            seq![
                (
                    self.rstate.modal->0,
                    LayerArea { left: 0, width: width as i32, height: height as i32 },
                ),
            ]
        } else if self.center() is Some {
            seq![
                (GLOBAL_LEFT_LAYER@, all.left),
                (self.center()->0, all.center),
                (self.right(), all.right),
            ]
        } else {
            seq![(GLOBAL_LEFT_LAYER@, all.left), (self.right(), all.right)]
        }
    }

    /// The application with the cells of a layer replaced.
    pub open spec fn with_cells(self, name: Seq<char>, cells: Seq<CellView>) -> AppView {
        AppView {
            store: LayerStoreView {
                registry: self.store.registry.insert(name, cells),
                ..self.store
            },
            ..self
        }
    }

    /// How long the main loop may sleep, in milliseconds.
    pub open spec fn timeout(self, touch_down: bool, second: u32, shift: i32) -> int {
        let a = lower_of((60 - second) * 1000, TIMEOUT_MS as int);
        let b = if self.cfg.enable_pixel_shift {
            lower_of(a, shift as int)
        } else {
            a
        };
        let c = if self.frame_ticking() {
            lower_of(b, 1000)
        } else {
            b
        };
        let d = if self.ghostty_focused() || self.runtime.is_true(key::NVIM_BRIDGE_AVAILABLE@) {
            lower_of(c, 500)
        } else {
            c
        };
        let e = if self.terminal_app(TerminalApp::Ssh) || self.remote_active {
            lower_of(d, 1000)
        } else {
            d
        };
        if touch_down {
            lower_of(e, TOUCH_ACTIVE_POLL_MS as int)
        } else {
            e
        }
    }

    /// The application after a look at the time.
    pub open spec fn ticked(self, second: u32, minute: u32) -> AppView {
        let cells = self.store.registry[self.store.resolved(self.rstate)];
        let current = if function_layer::ticks(cells) {
            second
        } else {
            minute
        };
        if function_layer::shows_time(cells) && current != self.last_redraw_ts {
            AppView { needs_complete_redraw: true, last_redraw_ts: current, ..self }
        } else {
            self
        }
    }
}

/// The layers at the ends of the bar, and the one in the middle, exist.
proof fn lemma_edges_exist(a: AppView)
    requires
        sound_layers(a.store),
    ensures
        a.has_layer(GLOBAL_LEFT_LAYER@),
        a.has_layer(a.right()),
        a.center() is Some ==> a.has_layer(a.center()->0),
{
}

/// A layer that is shown exists, and is not empty.
proof fn lemma_shown_exists(a: AppView, name: Seq<char>)
    requires
        sound_layers(a.store),
        a.ready(),
        a.region_of(name) is Some,
    ensures
        a.has_layer(name),
        a.store.registry[name].len() > 0,
{
    lemma_edges_exist(a);
}

/// Replacing the cells of a layer keeps all layers.
proof fn lemma_same_names(before: AppView, after: AppView, name: Seq<char>)
    requires
        sound_layers(before.store),
        sound_touch(before.touch, before.store),
        before.has_layer(name),
        after.store.registry[name].len() > 0,
        after == before.with_cells(name, after.store.registry[name]),
    ensures
        sound_layers(after.store),
        sound_touch(after.touch, after.store),
{
}

// ---------------------------------------------------------------------------
// News
// ---------------------------------------------------------------------------

/// What was shown before some news.
#[derive(Debug)]
pub struct Shown {
    pub center: Option<String>,
    pub right: String,
}

/// Where to ask for Neovim's state.
#[derive(Debug)]
pub enum NvimSource {
    /// Nowhere: a remote session has reported it.
    Remote(NvimBridgeSnapshot),
    /// The Neovims on this machine, that of the given process first.
    Local { preferred_pid: Option<u32> },
}

/// Where to ask for the agent's state.
#[derive(Debug)]
pub enum PiSource {
    /// Nowhere: a remote session has reported it.
    Remote(PiState),
    /// The agents on this machine, that of the given process or directory first.
    Local { preferred_pid: Option<u32>, preferred_cwd: Option<String> },
}

/// An optional number, as it is written in a log.
pub open spec fn debug_pid(pid: Option<u32>) -> Seq<char> {
    match pid {
        Some(p) => "Some("@ + text::decimal(p as nat) + ")"@,
        None => "None"@,
    }
}

/// An optional number, as it is written in a log.
fn write_debug_pid(pid: Option<u32>) -> (r: String)
    ensures
        r@ == debug_pid(pid),
{
    match pid {
        Some(p) => text::concat3("Some(", text::to_decimal(p as u64).as_str(), ")"),
        None => "None".to_string(),
    }
}

/// What a change of the terminal is told by.
pub open spec fn terminal_signature(t: TerminalView) -> Seq<char> {
    "available="@ + json::bool_text(t.available) + " terminal="@ + t.terminal + " kind="@
        + t.kind.name() + " app="@ + t.app.name() + " cmd="@ + t.command + " app_pid="@ + debug_pid(
        t.app_pid,
    ) + " nvim_pid="@ + debug_pid(t.nvim_pid) + " tmux_pane="@ + (match t.tmux {
        Some(p) => p.pane_id,
        None => Seq::empty(),
    }) + " ghostty_pid_windows="@ + text::decimal(t.ghostty_pid_window_count as nat)
        + " ambiguous="@ + json::bool_text(t.ambiguous)
}

/// What a change of the terminal is told by.
pub fn write_terminal_signature(t: &TerminalState) -> (r: String)
    ensures
        r@ == terminal_signature(t@),
{
    let mut out = "available=".to_string();
    out.append(json::write_bool(t.available));
    out.append(" terminal=");
    out.append(t.terminal.as_str());
    out.append(" kind=");
    out.append(t.kind.as_str());
    out.append(" app=");
    out.append(t.app.as_str());
    out.append(" cmd=");
    out.append(t.command.as_str());
    out.append(" app_pid=");
    out.append(write_debug_pid(t.app_pid).as_str());
    out.append(" nvim_pid=");
    out.append(write_debug_pid(t.nvim_pid).as_str());
    out.append(" tmux_pane=");
    match &t.tmux {
        Some(p) => {
            out.append(p.pane_id.as_str());
        },
        None => {
            let ghost before = out@;
            out.append("");
            proof {
                reveal_strlit("");
            }
            assert(out@ =~= before + Seq::<char>::empty());
        },
    }
    out.append(" ghostty_pid_windows=");
    out.append(text::to_decimal(t.ghostty_pid_window_count as u64).as_str());
    out.append(" ambiguous=");
    out.append(json::write_bool(t.ambiguous));
    out
}

impl AppView {
    /// The application with other values at run time.
    pub open spec fn with_runtime(self, runtime: StoreView) -> AppView {
        AppView { runtime, ..self }
    }

    /// The application after a window was focused.
    pub open spec fn focused(self, class: Seq<char>, title: Seq<char>) -> AppView {
        let a = AppView {
            runtime: runtime::with_focus(self.runtime, class, title),
            rstate: ResolverView {
                app: config::layer_for(self.cfg.app_layers, class),
                ..self.rstate
            },
            ..self
        };
        AppView {
            needs_complete_redraw: self.needs_complete_redraw || a.center() != self.center()
                || a.right() != self.right(),
            ..a
        }
    }

    /// Whether `r` says where to ask for Neovim's state: the remote session that is in front has
    /// reported it, or else the Neovims on this machine are asked.
    pub open spec fn asks_neovim(self, r: NvimSource) -> bool {
        match r {
            NvimSource::Remote(snapshot) => self.remote_shown() && self.remote->0.nvim_bridge is Some
                && snapshot.available && nvim_bridge::opt_state(snapshot.selected)
                == self.remote->0.nvim_bridge,
            NvimSource::Local { preferred_pid } => !(self.remote_shown()
                && self.remote->0.nvim_bridge is Some) && preferred_pid == stored_pid(
                self.runtime,
                key::TERMINAL_NVIM_PID@,
            ),
        }
    }

    /// Whether `r` says where to ask for the agent's state: the remote session that is in front
    /// has reported it, or else the agents on this machine are asked.
    pub open spec fn asks_agent(self, r: PiSource) -> bool {
        match r {
            PiSource::Remote(state) => self.remote_shown() && self.remote->0.pi_state == Some(
                state@,
            ),
            PiSource::Local { preferred_pid, preferred_cwd } => !(self.remote_shown()
                && self.remote->0.pi_state is Some) && preferred_pid == stored_pid(
                self.runtime,
                key::TERMINAL_APP_PID@,
            ) && text::opt_text(preferred_cwd) == if self.runtime.text_or_empty(
                key::TERMINAL_CWD@,
            ).len() == 0 {
                None
            } else {
                Some(self.runtime.text_or_empty(key::TERMINAL_CWD@))
            },
        }
    }

    /// The application after some news, where `center` and `right` were shown before: other
    /// layers are drawn completely, and so is everything where the remote sessions changed.
    pub open spec fn refreshed(
        self,
        center: Option<Seq<char>>,
        right: Seq<char>,
        remote_changed: bool,
    ) -> AppView {
        AppView {
            needs_complete_redraw: self.needs_complete_redraw || remote_changed || center
                != self.center() || right != self.right(),
            ..self
        }
    }

    /// The application after it learnt what Neovim publishes. The layer of database
    /// connections is left where Neovim shows no databases any more.
    pub open spec fn with_nvim(self, available: bool, n: Option<NvimView>) -> AppView {
        let a = self.with_runtime(runtime::with_nvim(self.runtime, available, n));
        let databases = n is Some && (n->0.dbui.visible || n->0.dbui.in_buffer);
        if !databases && self.rstate.modal == Some(TERMINAL_NVIM_DB_CONNECTIONS_LAYER@) {
            AppView {
                rstate: ResolverView { modal: None, ..self.rstate },
                needs_complete_redraw: true,
                ..a
            }
        } else {
            a
        }
    }

    /// The application after it learnt what the agent publishes. While the agent is in front,
    /// what is shown of it stays where nothing was learnt.
    pub open spec fn with_pi(self, p: Option<PiView>) -> AppView {
        if p is None && self.effective_app(TerminalApp::Pi) {
            self
        } else {
            self.with_runtime(runtime::with_pi(self.runtime, p))
        }
    }
}

impl App {
    /// What is shown, to be compared with what is shown after some news.
    pub fn shown(&self) -> (r: Shown)
        requires
            self.wf(),
        ensures
            text::opt_text(r.center) == self@.center(),
            r.right@ == self@.right(),
    {
        Shown { center: self.center_layer(), right: self.global_right_layer().to_string() }
    }

    /// Whether something else is shown than before.
    fn differs(&self, before: &Shown) -> (r: bool)
        requires
            self.wf(),
        ensures
            r == (text::opt_text(before.center) != self@.center() || before.right@
                != self@.right()),
    {
        let center = self.center_layer();
        let same_center = match (&before.center, &center) {
            (Some(a), Some(b)) => text::same(a.as_str(), b.as_str()),
            (None, None) => true,
            _ => false,
        };
        !same_center || !text::same(before.right.as_str(), self.global_right_layer())
    }

    /// Has everything drawn again where other layers are shown than before, or where the
    /// remote sessions have changed.
    pub fn end_refresh(&mut self, before: &Shown, remote_changed: bool)
        requires
            old(self).wf(),
        ensures
            final(self).wf(),
            final(self)@ == old(self)@.refreshed(
                text::opt_text(before.center),
                before.right@,
                remote_changed,
            ),
    {
        if remote_changed || self.differs(before) {
            self.needs_complete_redraw = true;
        }
    }

    /// Notes the levels of the lights.
    pub fn store_lights(&mut self, brightness: Number, kbd: Number)
        requires
            old(self).wf(),
        ensures
            final(self).wf(),
            final(self)@ == old(self)@.with_runtime(
                runtime::with_lights(old(self)@.runtime, brightness, kbd),
            ),
    {
        proof {
            runtime::lemma_lights_keep_class(self.runtime@, brightness, kbd);
        }
        runtime::store_lights(&mut self.runtime, brightness, kbd);
    }

    /// Notes the player that is shown, where there is one.
    pub fn refresh_media(&mut self, media: Option<MediaState>)
        requires
            old(self).wf(),
        ensures
            final(self).wf(),
            final(self)@ == old(self)@.with_runtime(
                match media {
                    Some(m) => runtime::with_media(old(self)@.runtime, m@),
                    None => runtime::without_media(old(self)@.runtime),
                },
            ),
    {
        proof {
            if media is Some {
                runtime::lemma_media_keep_class(self.runtime@, media->0@);
            } else {
                runtime::lemma_media_keep_class(self.runtime@, arbitrary());
            }
        }
        match media {
            Some(m) => runtime::store_media(&mut self.runtime, m),
            None => runtime::clear_media(&mut self.runtime),
        }
    }

    /// Notes the browser's tabs.
    pub fn store_chromium_tabs(&mut self, tabs: BrowserTabsState)
        requires
            old(self).wf(),
        ensures
            final(self).wf(),
            final(self)@ == old(self)@.with_runtime(
                runtime::with_tabs(old(self)@.runtime, tabs@),
            ),
    {
        proof {
            runtime::lemma_tabs_keep_class(self.runtime@, tabs@);
        }
        runtime::store_chromium_tabs(&mut self.runtime, tabs);
    }

    /// Notes what is known of the terminal, and says whether that has changed.
    pub fn store_terminal(&mut self, t: TerminalState) -> (r: bool)
        requires
            old(self).wf(),
        ensures
            final(self).wf(),
            final(self)@ == (AppView {
                runtime: runtime::with_terminal(old(self)@.runtime, t@),
                prev_terminal: terminal_signature(t@),
                ..old(self)@
            }),
            r == (terminal_signature(t@) != old(self)@.prev_terminal),
    {
        let signature = write_terminal_signature(&t);
        let changed = !text::same(signature.as_str(), self.prev_terminal.as_str());
        self.prev_terminal = signature;
        proof {
            runtime::lemma_terminal_keeps_class(self.runtime@, t@);
        }
        runtime::store_terminal(&mut self.runtime, t);
        changed
    }

    /// Notes what is known of the remote sessions.
    pub fn store_remote(&mut self, snapshot: RemoteSnapshot)
        requires
            old(self).wf(),
        ensures
            final(self).wf(),
            final(self)@ == (AppView {
                remote: remote::opt_context(snapshot.latest),
                remote_active: snapshot.active,
                ..old(self)@
            }),
    {
        self.remote = snapshot;
    }

    /// Where to ask for Neovim's state.
    pub fn nvim_source(&self) -> (r: NvimSource)
        requires
            self.wf(),
        ensures
            self@.asks_neovim(r),
    {
        if self.remote_context_active() {
            if let Some(context) = &self.remote.latest {
                if let Some(state) = &context.nvim_bridge {
                    return NvimSource::Remote(
                        NvimBridgeSnapshot { available: true, selected: Some(state.copy()) },
                    );
                }
            }
        }
        NvimSource::Local { preferred_pid: self.terminal_nvim_pid() }
    }

    /// Notes what Neovim publishes.
    pub fn store_nvim_bridge(&mut self, snapshot: NvimBridgeSnapshot)
        requires
            old(self).wf(),
        ensures
            final(self).wf(),
            final(self)@ == old(self)@.with_nvim(
                snapshot.available,
                nvim_bridge::opt_state(snapshot.selected),
            ),
    {
        let databases = match &snapshot.selected {
            Some(state) => state.dbui.visible || state.dbui.in_buffer,
            None => false,
        };
        proof {
            runtime::lemma_nvim_keeps_class(
                self.runtime@,
                snapshot.available,
                nvim_bridge::opt_state(snapshot.selected),
            );
        }
        runtime::store_nvim(&mut self.runtime, snapshot.available, snapshot.selected);
        if !databases && text::is_text(&self.rstate.modal, TERMINAL_NVIM_DB_CONNECTIONS_LAYER) {
            self.rstate.modal = None;
            self.needs_complete_redraw = true;
        }
    }

    /// Where to ask for the agent's state.
    pub fn pi_source(&self) -> (r: PiSource)
        requires
            self.wf(),
        ensures
            self@.asks_agent(r),
    {
        proof {
            key::law_built_in_keys_are_valid();
        }
        if self.remote_context_active() {
            if let Some(context) = &self.remote.latest {
                if let Some(state) = &context.pi_state {
                    return PiSource::Remote(state.copy());
                }
            }
        }
        let cwd = self.runtime.text_or_empty(key::TERMINAL_CWD);
        PiSource::Local {
            preferred_pid: read_pid(&self.runtime, key::TERMINAL_APP_PID),
            preferred_cwd: if text::is_empty(cwd.as_str()) {
                None
            } else {
                Some(cwd)
            },
        }
    }

    /// Notes what the agent publishes.
    pub fn store_pi_state(&mut self, state: Option<PiState>)
        requires
            old(self).wf(),
        ensures
            final(self).wf(),
            final(self)@ == old(self)@.with_pi(pi_state::opt_state(state)),
    {
        if state.is_none() && self.effective_terminal_app_is(TerminalApp::Pi) {
            return ;
        }
        proof {
            runtime::lemma_pi_keep_class(self.runtime@, pi_state::opt_state(state));
        }
        runtime::store_pi_state(&mut self.runtime, state);
    }

    /// A window was focused: the layer of its class takes the place of the base layer.
    pub fn on_focus(&mut self, class: &str, title: &str)
        requires
            old(self).wf(),
        ensures
            final(self).wf(),
            final(self)@ == old(self)@.focused(class@, title@),
    {
        let before = self.shown();
        proof {
            runtime::lemma_focus_keeps_class(self.runtime@, class@, title@);
        }
        runtime::store_focus(&mut self.runtime, class, title);
        self.rstate.app = self.cfg.app_layer(class);
        if self.differs(&before) {
            self.needs_complete_redraw = true;
        }
    }

    /// Takes a new configuration: nothing is held or opened any more, and everything is
    /// drawn again.
    pub fn reload(&mut self, cfg: Config, store: LayerStore)
        requires
            old(self).wf(),
            store.wf(),
            sound_layers(store@),
        ensures
            final(self).wf(),
            final(self)@ == old(self)@.reloaded(cfg@, store@),
    {
        proof {
            key::law_built_in_keys_are_valid();
        }
        let class = self.runtime.text_or_empty(key::CONTEXT_FOCUS_CLASS);
        self.cfg = cfg;
        self.store = store;
        self.rstate = ResolverState::default();
        self.rstate.app = self.cfg.app_layer(class.as_str());
        self.touches.clear();
        self.needs_complete_redraw = true;
    }

    /// A key was pressed or released. Fn selects the base layer; pressed twice in a row, it
    /// swaps the base layers.
    pub fn on_key(&mut self, code: u32, pressed: bool, now: u64)
        requires
            old(self).wf(),
        ensures
            final(self).wf(),
            final(self)@ == old(self)@.keyed(code, pressed, now),
    {
        if code != KEY_FN as u32 {
            return ;
        }
        if self.cfg.double_press_switch_layers > 0 && pressed {
            if now.saturating_sub(self.last) < self.cfg.double_press_switch_layers as u64
                * 1_000_000 {
                self.store.swap_base();
            }
            self.last = now;
        }
        if self.rstate.fn_pressed != pressed {
            self.rstate.fn_pressed = pressed;
            self.needs_complete_redraw = true;
        }
    }
}

impl AppView {
    /// The application with a new configuration.
    pub open spec fn reloaded(self, cfg: ConfigView, store: LayerStoreView) -> AppView {
        AppView {
            store,
            cfg,
            rstate: ResolverView {
                app: config::layer_for(
                    cfg.app_layers,
                    self.runtime.text_or_empty(key::CONTEXT_FOCUS_CLASS@),
                ),
                ..layer::idle()
            },
            touch: None,
            needs_complete_redraw: true,
            ..self
        }
    }

    /// The application after a key was pressed or released.
    pub open spec fn keyed(self, code: u32, pressed: bool, now: u64) -> AppView {
        if code != KEY_FN as u32 {
            self
        } else {
            let counts = self.cfg.double_press_switch_layers > 0 && pressed;
            let again = now - self.last < self.cfg.double_press_switch_layers * 1_000_000;
            AppView {
                store: if counts && again {
                    self.store.swapped()
                } else {
                    self.store
                },
                last: if counts {
                    now
                } else {
                    self.last
                },
                rstate: ResolverView { fn_pressed: pressed, ..self.rstate },
                needs_complete_redraw: self.needs_complete_redraw || self.rstate.fn_pressed
                    != pressed,
                ..self
            }
        }
    }
}

// ---------------------------------------------------------------------------
// Touches
// ---------------------------------------------------------------------------

/// Where a finger is, and what is under it.
#[derive(Debug)]
pub struct TouchProbe {
    pub bar: BarProbe,
    /// The finger on the cell that it hits.
    pub press: PressProbe,
    /// The finger on the slider that it drags.
    pub drag: DragProbe,
}

/// Why a touch cannot be followed.
#[derive(Debug)]
pub enum TouchError {
    /// The layer that the finger is on is not shown any more.
    NoArea(String),
}

/// Whether an action ends the part that the touch has in its button: a layer is opened or
/// closed, or another program is asked to do something.
pub open spec fn hands_off(a: Option<ActionView>) -> bool {
    match a {
        Some(ActionView::OpenModal(_)) => true,
        Some(ActionView::PushLayer(_)) => true,
        Some(ActionView::PopLayer) => true,
        Some(ActionView::BrowserActivateTab(_)) => true,
        Some(ActionView::NvimBridge(_)) => true,
        Some(ActionView::NvimDbConnect(_)) => true,
        _ => false,
    }
}

impl AppView {
    /// The application after a finger came down, and what is to be done.
    pub open spec fn touched(self, dark: bool, probe: TouchProbe) -> (
        AppView,
        Result<Option<ActionView>, Seq<char>>,
    ) {
        if dark {
            (self, Ok(None))
        } else {
            match self.hit_bar(probe.bar) {
                None => (self, Ok(None)),
                Some((name, btn)) => {
                    let (cells, a) = function_layer::pressed_at(
                        self.store.registry[name],
                        btn as int,
                        self.runtime,
                        probe.press,
                    );
                    let touch = if a matches Some(ActionView::MediaSeek(_)) {
                        Some(TouchView::Media { layer: name, btn })
                    } else if hands_off(a) {
                        self.touch
                    } else {
                        Some(TouchView::Button { layer: name, btn })
                    };
                    (AppView { touch, ..self.with_cells(name, cells) }, Ok(a))
                },
            }
        }
    }

    /// The application after a finger moved, and what is to be done.
    pub open spec fn moved(self, probe: TouchProbe) -> (
        AppView,
        Result<Option<ActionView>, Seq<char>>,
    ) {
        match self.touch {
            None => (self, Ok(None)),
            Some(TouchView::Button { layer: name, btn }) => {
                let (cells, a) = if self.hit_layer(name, probe.bar, Some(btn)) is Some {
                    function_layer::pressed_at(
                        self.store.registry[name],
                        btn as int,
                        self.runtime,
                        probe.press,
                    )
                } else {
                    function_layer::released_at(self.store.registry[name], btn as int)
                };
                if self.region_of(name) is Some {
                    (self.with_cells(name, cells), Ok(a))
                } else {
                    (self, Err(name))
                }
            },
            Some(TouchView::Media { layer: name, btn }) => {
                let (cells, a) = function_layer::dragged_at(
                    self.store.registry[name],
                    btn as int,
                    self.runtime,
                    probe.press.media,
                );
                if self.region_of(name) is Some {
                    (self.with_cells(name, cells), Ok(a))
                } else {
                    (self, Err(name))
                }
            },
            Some(TouchView::Slider { layer: name }) => {
                let (cells, a) = function_layer::slider_dragged(
                    self.store.registry[name],
                    probe.drag,
                );
                (self.with_cells(name, cells), Ok(a))
            },
        }
    }

    /// The application after a finger lifted, and what is to be done.
    pub open spec fn lifted(self) -> (AppView, Result<Option<ActionView>, Seq<char>>) {
        let gone = AppView { touch: None, ..self };
        match self.touch {
            None => (gone, Ok(None)),
            Some(TouchView::Slider { layer: _ }) => (gone, Ok(Some(ActionView::CloseModal))),
            Some(TouchView::Button { layer: name, btn }) => gone.let_go(name, btn),
            Some(TouchView::Media { layer: name, btn }) => gone.let_go(name, btn),
        }
    }

    /// The application after a cell was released, and what is to be done.
    pub open spec fn let_go(self, name: Seq<char>, btn: usize) -> (
        AppView,
        Result<Option<ActionView>, Seq<char>>,
    ) {
        if self.region_of(name) is Some {
            let (cells, a) = function_layer::released_at(self.store.registry[name], btn as int);
            (self.with_cells(name, cells), Ok(a))
        } else {
            (self, Err(name))
        }
    }

    /// The application after a touch, and what is to be done.
    pub open spec fn after_touch(self, phase: TouchPhase, dark: bool, probe: TouchProbe) -> (
        AppView,
        Result<Option<ActionView>, Seq<char>>,
    ) {
        match phase {
            TouchPhase::Down => self.touched(dark, probe),
            TouchPhase::Motion => self.moved(probe),
            TouchPhase::Up => self.lifted(),
        }
    }
}

/// What is to be done after a touch, or the layer that is not shown any more.
pub open spec fn outcome(r: Result<Option<Action>, TouchError>) -> Result<
    Option<ActionView>,
    Seq<char>,
> {
    match r {
        Ok(a) => Ok(action::opt_action(a)),
        Err(TouchError::NoArea(name)) => Err(name@),
    }
}

impl App {
    /// A press on a cell.
    fn press(&mut self, name: &str, btn: usize, probe: &PressProbe) -> (r: Option<Action>)
        requires
            old(self).wf(),
            old(self)@.has_layer(name@),
        ensures
            final(self).wf(),
            ({
                let (cells, a) = function_layer::pressed_at(
                    old(self)@.store.registry[name@],
                    btn as int,
                    old(self)@.runtime,
                    *probe,
                );
                final(self)@ == old(self)@.with_cells(name@, cells) && action::opt_action(r) == a
            }),
    {
        let r = self.store.get_mut(name).on_press_at(btn, &self.runtime, probe);
        proof {
            lemma_same_names(old(self)@, self@, name@);
        }
        r
    }

    /// A release of a cell.
    fn release(&mut self, name: &str, btn: usize) -> (r: Option<Action>)
        requires
            old(self).wf(),
            old(self)@.has_layer(name@),
        ensures
            final(self).wf(),
            ({
                let (cells, a) = function_layer::released_at(
                    old(self)@.store.registry[name@],
                    btn as int,
                );
                final(self)@ == old(self)@.with_cells(name@, cells) && action::opt_action(r) == a
            }),
    {
        let r = self.store.get_mut(name).on_release_at(btn);
        proof {
            lemma_same_names(old(self)@, self@, name@);
        }
        r
    }

    /// A finger came down.
    fn on_down(&mut self, dark: bool, probe: &TouchProbe) -> (r: Option<Action>)
        requires
            old(self).wf(),
            old(self)@.ready(),
        ensures
            final(self).wf(),
            (final(self)@, Ok::<Option<ActionView>, Seq<char>>(action::opt_action(r))) == old(
                self,
            )@.touched(dark, *probe),
    {
        if dark {
            return None;
        }
        let (name, btn) = match self.hit_bar(&probe.bar) {
            Some((name, btn)) => (name, btn),
            None => return None,
        };
        proof {
            lemma_hit_exists(self@, probe.bar);
        }
        let a = self.press(name.as_str(), btn, &probe.press);
        let seeks = match &a {
            Some(Action::MediaSeek(_)) => true,
            _ => false,
        };
        let over = match &a {
            Some(Action::OpenModal(_)) => true,
            Some(Action::PushLayer(_)) => true,
            Some(Action::PopLayer) => true,
            Some(Action::BrowserActivateTab(_)) => true,
            Some(Action::NvimBridge(_)) => true,
            Some(Action::NvimDbConnect(_)) => true,
            _ => false,
        };
        if seeks {
            self.touches.insert(0, TouchTarget::Media { layer: name, btn });
        } else if !over {
            self.touches.insert(0, TouchTarget::Button { layer: name, btn });
        }
        a
    }

    /// What the finger is on.
    pub fn touch_target(&self) -> (r: Option<TouchTarget>)
        ensures
            layer::opt_touch(r) == self@.touch,
    {
        match self.touches.get(&0) {
            Some(TouchTarget::Button { layer, btn }) => Some(
                TouchTarget::Button { layer: layer.clone(), btn: *btn },
            ),
            Some(TouchTarget::Media { layer, btn }) => Some(
                TouchTarget::Media { layer: layer.clone(), btn: *btn },
            ),
            Some(TouchTarget::Slider { layer }) => Some(
                TouchTarget::Slider { layer: layer.clone() },
            ),
            None => None,
        }
    }

    /// A finger moved.
    fn on_motion(&mut self, probe: &TouchProbe) -> (r: Result<Option<Action>, TouchError>)
        requires
            old(self).wf(),
            old(self)@.ready(),
        ensures
            final(self).wf(),
            (final(self)@, outcome(r)) == old(self)@.moved(*probe),
    {
        match self.touch_target() {
            Some(TouchTarget::Button { layer: name, btn }) => {
                let hit = self.hit_layer(name.as_str(), &probe.bar, Some(btn)).is_some();
                if self.region(name.as_str()).is_none() {
                    return Err(TouchError::NoArea(name));
                }
                proof {
                    lemma_shown_exists(self@, name@);
                }
                if hit {
                    Ok(self.press(name.as_str(), btn, &probe.press))
                } else {
                    Ok(self.release(name.as_str(), btn))
                }
            },
            Some(TouchTarget::Media { layer: name, btn }) => {
                if self.region(name.as_str()).is_none() {
                    return Err(TouchError::NoArea(name));
                }
                proof {
                    lemma_shown_exists(self@, name@);
                }
                let a = self.store.get_mut(name.as_str()).on_drag_at(
                    btn,
                    &self.runtime,
                    &probe.press.media,
                );
                proof {
                    lemma_same_names(old(self)@, self@, name@);
                }
                Ok(a)
            },
            Some(TouchTarget::Slider { layer: name }) => {
                let a = self.store.get_mut(name.as_str()).drag_slider(&probe.drag);
                proof {
                    lemma_same_names(old(self)@, self@, name@);
                }
                Ok(a)
            },
            None => Ok(None),
        }
    }

    /// A finger lifted.
    fn on_up(&mut self) -> (r: Result<Option<Action>, TouchError>)
        requires
            old(self).wf(),
            old(self)@.ready(),
        ensures
            final(self).wf(),
            (final(self)@, outcome(r)) == old(self)@.lifted(),
    {
        let was = self.touch_target();
        self.touches.remove(&0);
        let (name, btn) = match was {
            Some(TouchTarget::Button { layer, btn }) => (layer, btn),
            Some(TouchTarget::Media { layer, btn }) => (layer, btn),
            Some(TouchTarget::Slider { layer: _ }) => return Ok(Some(Action::CloseModal)),
            None => return Ok(None),
        };
        if self.region(name.as_str()).is_none() {
            return Err(TouchError::NoArea(name));
        }
        proof {
            lemma_shown_exists(self@, name@);
        }
        Ok(self.release(name.as_str(), btn))
    }

    /// A finger came down, moved or lifted. Gives what is to be done. `dark` says that the
    /// bar is dark, so that the touch only wakes it.
    pub fn on_touch(&mut self, phase: TouchPhase, dark: bool, probe: &TouchProbe) -> (r: Result<
        Option<Action>,
        TouchError,
    >)
        requires
            old(self).wf(),
            old(self)@.ready(),
        ensures
            final(self).wf(),
            (final(self)@, outcome(r)) == old(self)@.after_touch(phase, dark, *probe),
    {
        match phase {
            TouchPhase::Down => Ok(self.on_down(dark, probe)),
            TouchPhase::Motion => self.on_motion(probe),
            TouchPhase::Up => self.on_up(),
        }
    }
}

/// A layer that a finger hits exists.
proof fn lemma_hit_exists(a: AppView, probe: BarProbe)
    requires
        sound_layers(a.store),
        a.ready(),
    ensures
        a.hit_bar(probe) matches Some((name, _)) ==> a.has_layer(name) && a.region_of(name) is Some,
{
    lemma_edges_exist(a);
}

// ---------------------------------------------------------------------------
// Actions
// ---------------------------------------------------------------------------

/// What a media player is asked to do.
#[derive(Clone, Copy, Debug, PartialEq, Eq, Structural)]
pub enum MediaCommand {
    Previous,
    PlayPause,
    Next,
}

/// What the caller has to do.
#[derive(Debug)]
pub enum Effect {
    /// Nothing.
    Nothing,
    /// To write events to the virtual keyboard.
    Keys(Vec<InputEvent>),
    /// To set the display backlight, and to read it back.
    SetBrightness(Number),
    /// To set the keyboard backlight, and to read it back.
    SetKbdIllum(Number),
    /// To set the volume.
    SetVolume(Number),
    /// To send a command to the media player, and to ask what it plays.
    Media(MediaCommand),
    /// To send the media player to a position.
    Seek(Number),
    /// To bring a tab to the front, and to ask for the tabs.
    ActivateTab(String),
    /// To start an application.
    Launch(String),
    /// To send an action to a Neovim on this machine.
    NvimAction { name: String, db: Option<String>, pid: Option<u32> },
    /// To send an action to the remote session.
    RemoteAction { name: String, db: Option<String> },
    /// To send an action to an application, or keys where it does not listen.
    AppAction { app: String, name: String, fallback_keys: Vec<Key>, edge: Edge },
    /// To read a level, and to open the slider that sets it.
    OpenSlider { backend: SliderBackend, target: String },
}

/// How an action reaches an application.
#[derive(Debug)]
pub enum AppStep {
    /// It is sent.
    Send,
    /// Nothing is left to do: what is sent is sent once, by the press.
    Nothing,
    /// Keys stand for it.
    Keys(Vec<InputEvent>),
}

/// Whether `r` is how an action reaches an application.
pub open spec fn step_by(
    app: Seq<char>,
    listens: bool,
    fallback_keys: Seq<Key>,
    edge: Edge,
    r: AppStep,
) -> bool {
    match r {
        AppStep::Send => app == "pi"@ && listens && edge == Edge::Press,
        AppStep::Nothing => app == "pi"@ && listens && edge == Edge::Release,
        AppStep::Keys(events) => !(app == "pi"@ && listens) && events@ == input::events_for(
            fallback_keys,
            edge,
        ),
    }
}

/// How an action reaches an application: the agent is sent the action where it listens for it,
/// and every other application is sent keys.
pub fn app_step(app: &str, listens: bool, fallback_keys: &Vec<Key>, edge: Edge) -> (r: AppStep)
    ensures
        step_by(app@, listens, fallback_keys@, edge, r),
{
    if text::same(app, "pi") && listens {
        match edge {
            Edge::Press => AppStep::Send,
            Edge::Release => AppStep::Nothing,
        }
    } else {
        AppStep::Keys(input::toggle_keys(fallback_keys, edge))
    }
}

/// What the caller has to do, its texts taken as sequences.
pub enum EffectView {
    Nothing,
    Keys(Seq<InputEvent>),
    SetBrightness(Number),
    SetKbdIllum(Number),
    SetVolume(Number),
    Media(MediaCommand),
    Seek(Number),
    ActivateTab(Seq<char>),
    Launch(Seq<char>),
    NvimAction { name: Seq<char>, db: Option<Seq<char>>, pid: Option<u32> },
    RemoteAction { name: Seq<char>, db: Option<Seq<char>> },
    AppAction { app: Seq<char>, name: Seq<char>, fallback_keys: Seq<Key>, edge: Edge },
    OpenSlider { backend: SliderBackend, target: Seq<char> },
}

impl View for Effect {
    type V = EffectView;

    open spec fn view(&self) -> EffectView {
        match *self {
            Effect::Nothing => EffectView::Nothing,
            Effect::Keys(events) => EffectView::Keys(events@),
            Effect::SetBrightness(n) => EffectView::SetBrightness(n),
            Effect::SetKbdIllum(n) => EffectView::SetKbdIllum(n),
            Effect::SetVolume(n) => EffectView::SetVolume(n),
            Effect::Media(c) => EffectView::Media(c),
            Effect::Seek(n) => EffectView::Seek(n),
            Effect::ActivateTab(id) => EffectView::ActivateTab(id@),
            Effect::Launch(c) => EffectView::Launch(c@),
            Effect::NvimAction { name, db, pid } => EffectView::NvimAction {
                name: name@,
                db: text::opt_text(db),
                pid,
            },
            Effect::RemoteAction { name, db } => EffectView::RemoteAction {
                name: name@,
                db: text::opt_text(db),
            },
            Effect::AppAction { app, name, fallback_keys, edge } => EffectView::AppAction {
                app: app@,
                name: name@,
                fallback_keys: fallback_keys@,
                edge,
            },
            Effect::OpenSlider { backend, target } => EffectView::OpenSlider {
                backend,
                target: target@,
            },
        }
    }
}

impl AppView {
    /// The effect of an action of Neovim's, on a database where one is named: a remote
    /// session is asked where Neovim is in front there.
    pub open spec fn nvim_effect(self, name: Seq<char>, db: Option<Seq<char>>) -> EffectView {
        if self.remote_app(TerminalApp::Nvim) {
            EffectView::RemoteAction { name, db }
        } else {
            EffectView::NvimAction {
                name,
                db,
                pid: stored_pid(self.runtime, key::TERMINAL_NVIM_PID@),
            }
        }
    }

    /// The slider of a layer, where it has one.
    pub open spec fn slider_of(self, name: Seq<char>) -> Option<SliderBackend> {
        let cells = self.store.registry[name];
        let i = function_layer::first_slider(cells) as int;
        if i < cells.len() {
            Some(cells[i].widget->Slider_0.backend)
        } else {
            None
        }
    }

    /// The application with another layer over the whole bar, or none, and a complete drawing
    /// due.
    pub open spec fn with_modal(self, modal: Option<Seq<char>>) -> AppView {
        AppView {
            rstate: ResolverView { modal, ..self.rstate },
            needs_complete_redraw: true,
            ..self
        }
    }

    /// The application after an action was begun, and what its caller has to do; `None` where
    /// the layer to open has no slider.
    pub open spec fn applied(self, a: ActionView) -> (AppView, Option<EffectView>) {
        match a {
            ActionView::Key(keys, edge) => (
                self,
                Some(EffectView::Keys(input::events_for(keys, edge))),
            ),
            ActionView::SetBrightness(n) => (self, Some(EffectView::SetBrightness(n))),
            ActionView::SetKbdIllum(n) => (self, Some(EffectView::SetKbdIllum(n))),
            ActionView::SetVolume(n) => (
                self.with_runtime(self.runtime.set(key::AUDIO_VOLUME@, ValueView::Number(n))),
                Some(EffectView::SetVolume(n)),
            ),
            ActionView::MediaPrevious => (self, Some(EffectView::Media(MediaCommand::Previous))),
            ActionView::MediaPlayPause => (
                self,
                Some(EffectView::Media(MediaCommand::PlayPause)),
            ),
            ActionView::MediaNext => (self, Some(EffectView::Media(MediaCommand::Next))),
            ActionView::MediaSeek(n) => (self, Some(EffectView::Seek(n))),
            ActionView::BrowserActivateTab(id) => (self, Some(EffectView::ActivateTab(id))),
            ActionView::LaunchApp(c) => (self, Some(EffectView::Launch(c))),
            ActionView::NvimBridge(name) => (self, Some(self.nvim_effect(name, None))),
            ActionView::NvimDbConnect(db) => (
                self,
                Some(self.nvim_effect("dbui.connect"@, Some(db))),
            ),
            ActionView::AppBridge { app, action, fallback_keys, edge } => (
                self,
                Some(EffectView::AppAction { app, name: action, fallback_keys, edge }),
            ),
            ActionView::PushLayer(name) => (self.with_modal(Some(name)), Some(EffectView::Nothing)),
            ActionView::PopLayer => (
                if self.rstate.modal is Some {
                    self.with_modal(None)
                } else {
                    AppView {
                        rstate: ResolverView {
                            substates: if self.rstate.substates.len() > 0 {
                                self.rstate.substates.drop_last()
                            } else {
                                self.rstate.substates
                            },
                            ..self.rstate
                        },
                        needs_complete_redraw: true,
                        ..self
                    }
                },
                Some(EffectView::Nothing),
            ),
            ActionView::OpenModal(target) => match self.slider_of(target) {
                Some(backend) => (self, Some(EffectView::OpenSlider { backend, target })),
                None => (self, None),
            },
            ActionView::CloseModal => (
                match self.rstate.modal {
                    Some(name) => self.with_cells(
                        name,
                        function_layer::sliders_released(self.store.registry[name]),
                    ).with_modal(None),
                    None => self.with_modal(None),
                },
                Some(EffectView::Nothing),
            ),
        }
    }

    /// The application after a level was read.
    pub open spec fn with_level(self, backend: SliderBackend, level: Number) -> AppView {
        self.with_runtime(self.runtime.set(backend.key_name(), ValueView::Number(level)))
    }

    /// The application after a slider was opened under a finger at `x`, at the level that was
    /// read.
    pub open spec fn with_slider(
        self,
        backend: SliderBackend,
        target: Seq<char>,
        level: Number,
        x: Number,
    ) -> AppView {
        let a = self.with_level(backend, level);
        let held = a.runtime.number_at(backend.key_name())->0;
        let b = a.with_cells(
            target,
            function_layer::slider_grabbed(a.store.registry[target], x, held),
        ).with_modal(Some(target));
        AppView { touch: Some(TouchView::Slider { layer: target }), ..b }
    }

    /// The application after an action was sent to Neovim; one that connects to a database
    /// leaves the layer it came from.
    pub open spec fn action_sent(self, connects: bool) -> AppView {
        if connects {
            self.with_modal(None)
        } else {
            AppView { needs_complete_redraw: true, ..self }
        }
    }
}

/// Letting sliders go keeps the number of cells, and so does grabbing one.
proof fn lemma_slider_count(cells: Seq<CellView>, x: Number, level: Number)
    ensures
        function_layer::sliders_released(cells).len() == cells.len(),
        function_layer::slider_grabbed(cells, x, level).len() == cells.len(),
{
}

/// A key that was set to a number holds one.
proof fn lemma_level_is_held(s: StoreView, k: Seq<char>, level: Number)
    ensures
        s.set(k, ValueView::Number(level)).number_at(k) is Some,
{
    reveal(StoreView::set);
}

impl App {
    /// Whether an action can be begun: a layer to open must exist.
    pub fn can_apply(&self, a: &Action) -> (r: bool)
        requires
            self.wf(),
        ensures
            r == (a@ matches ActionView::OpenModal(target) ==> self@.has_layer(target)),
    {
        match a {
            Action::OpenModal(target) => self.store.contains(target.as_str()),
            _ => true,
        }
    }

    /// The effect of an action of Neovim's.
    fn nvim_effect(&self, name: String, db: Option<String>) -> (r: Effect)
        requires
            self.wf(),
        ensures
            r@ == self@.nvim_effect(name@, text::opt_text(db)),
    {
        if self.remote_app_is(TerminalApp::Nvim) {
            Effect::RemoteAction { name, db }
        } else {
            Effect::NvimAction { name, db, pid: self.terminal_nvim_pid() }
        }
    }

    /// Begins an action, and gives what the caller has to do for it. Fails where a layer is
    /// to be opened for as long as a finger is down and has no slider.
    pub fn apply(&mut self, a: Action) -> (r: Result<Effect, LayerError>)
        requires
            old(self).wf(),
            old(self)@.ready(),
            a@ matches ActionView::OpenModal(target) ==> old(self)@.has_layer(target),
        ensures
            final(self).wf(),
            final(self)@ == old(self)@.applied(a@).0,
            match r {
                Ok(e) => old(self)@.applied(a@).1 == Some(e@),
                Err(e) => old(self)@.applied(a@).1 is None && e is NoSlider,
            },
    {
        proof {
            key::law_built_in_keys_are_valid();
            key::law_class_key_is_unique();
        }
        match a {
            Action::Key(keys, edge) => Ok(Effect::Keys(input::toggle_keys(&keys, edge))),
            Action::SetBrightness(n) => Ok(Effect::SetBrightness(n)),
            Action::SetKbdIllum(n) => Ok(Effect::SetKbdIllum(n)),
            Action::SetVolume(n) => {
                proof {
                    runtime::lemma_level_keeps_class(
                        self.runtime@,
                        key::AUDIO_VOLUME@,
                        ValueView::Number(n),
                    );
                }
                self.runtime.put(key::AUDIO_VOLUME, Value::Number(n));
                Ok(Effect::SetVolume(n))
            },
            Action::MediaPrevious => Ok(Effect::Media(MediaCommand::Previous)),
            Action::MediaPlayPause => Ok(Effect::Media(MediaCommand::PlayPause)),
            Action::MediaNext => Ok(Effect::Media(MediaCommand::Next)),
            Action::MediaSeek(n) => Ok(Effect::Seek(n)),
            Action::BrowserActivateTab(id) => Ok(Effect::ActivateTab(id)),
            Action::LaunchApp(c) => Ok(Effect::Launch(c)),
            Action::NvimBridge(name) => Ok(self.nvim_effect(name, None)),
            Action::NvimDbConnect(db) => Ok(
                self.nvim_effect("dbui.connect".to_string(), Some(db)),
            ),
            Action::AppBridge { app, action, fallback_keys, edge } => Ok(
                Effect::AppAction { app, name: action, fallback_keys, edge },
            ),
            Action::PushLayer(name) => {
                self.rstate.modal = Some(name);
                self.needs_complete_redraw = true;
                Ok(Effect::Nothing)
            },
            Action::PopLayer => {
                if self.rstate.modal.is_some() {
                    self.rstate.modal = None;
                } else {
                    let ghost before = self.rstate@.substates;
                    if self.rstate.substates.len() > 0 {
                        self.rstate.substates.pop();
                        assert(self.rstate@.substates =~= before.drop_last());
                    }
                }
                self.needs_complete_redraw = true;
                Ok(Effect::Nothing)
            },
            Action::OpenModal(target) => match self.store.get(target.as_str()).slider() {
                Some(s) => Ok(Effect::OpenSlider { backend: s.backend, target }),
                None => Err(LayerError::NoSlider),
            },
            Action::CloseModal => {
                let modal = action::clone_text(&self.rstate.modal);
                if let Some(name) = modal {
                    self.store.get_mut(name.as_str()).release_slider();
                    proof {
                        lemma_slider_count(
                            old(self)@.store.registry[name@],
                            Number { bits: 0 },
                            Number { bits: 0 },
                        );
                        lemma_same_names(old(self)@, self@, name@);
                    }
                }
                self.rstate.modal = None;
                self.needs_complete_redraw = true;
                Ok(Effect::Nothing)
            },
        }
    }

    /// Notes a level that was read.
    pub fn level_read(&mut self, backend: SliderBackend, level: Number)
        requires
            old(self).wf(),
        ensures
            final(self).wf(),
            final(self)@ == old(self)@.with_level(backend, level),
    {
        proof {
            key::law_class_key_is_unique();
            runtime::lemma_level_keeps_class(
                self.runtime@,
                backend.key_name(),
                ValueView::Number(level),
            );
        }
        self.runtime.put(backend.state_key(), Value::Number(level));
    }

    /// The source of the level under a key, where the key is that of a level.
    pub fn source_of(name: &str) -> (r: Option<SliderBackend>)
        ensures
            match r {
                Some(b) => b.key_name() == name@,
                None => forall|b: SliderBackend| #[trigger] b.key_name() != name@,
            },
    {
        if text::same(name, key::HARDWARE_BRIGHTNESS) {
            Some(SliderBackend::Brightness)
        } else if text::same(name, key::HARDWARE_KBD_ILLUM) {
            Some(SliderBackend::KbdIllum)
        } else if text::same(name, key::AUDIO_VOLUME) {
            Some(SliderBackend::Volume)
        } else {
            None
        }
    }

    /// Opens a slider under a finger at `x`, at the level that was read.
    pub fn open_slider(&mut self, backend: SliderBackend, target: String, level: Number, x: Number)
        requires
            old(self).wf(),
            old(self)@.has_layer(target@),
        ensures
            final(self).wf(),
            final(self)@ == old(self)@.with_slider(backend, target@, level, x),
    {
        proof {
            lemma_level_is_held(self.runtime@, backend.key_name(), level);
            lemma_slider_count(self@.store.registry[target@], x, level);
        }
        self.level_read(backend, level);
        let ghost a = self@;
        let held = match self.runtime.number(backend.state_key()) {
            Ok(n) => n,
            Err(_) => level,
        };
        self.store.get_mut(target.as_str()).grab_slider(held, x);
        proof {
            lemma_slider_count(a.store.registry[target@], x, held);
            lemma_same_names(a, self@, target@);
        }
        self.rstate.modal = Some(target.clone());
        self.needs_complete_redraw = true;
        self.touches.insert(0, TouchTarget::Slider { layer: target });
    }

    /// Notes that the media player was sent to a position.
    pub fn seeked(&mut self, position: Number)
        requires
            old(self).wf(),
        ensures
            final(self).wf(),
            final(self)@ == old(self)@.with_runtime(
                old(self)@.runtime.set(key::MEDIA_ACTIVE_POSITION@, ValueView::Number(position)),
            ),
    {
        proof {
            key::law_built_in_keys_are_valid();
            key::law_class_key_is_unique();
            runtime::lemma_level_keeps_class(
                self.runtime@,
                key::MEDIA_ACTIVE_POSITION@,
                ValueView::Number(position),
            );
        }
        self.runtime.put(key::MEDIA_ACTIVE_POSITION, Value::Number(position));
    }

    /// Notes that a tab was brought to the front, and the tabs there are.
    pub fn tab_activated(&mut self, tabs: BrowserTabsState)
        requires
            old(self).wf(),
        ensures
            final(self).wf(),
            final(self)@ == (AppView {
                runtime: runtime::with_tabs(old(self)@.runtime, tabs@),
                needs_complete_redraw: true,
                ..old(self)@
            }),
    {
        self.store_chromium_tabs(tabs);
        self.needs_complete_redraw = true;
    }

    /// Notes that an action was sent to Neovim.
    pub fn action_sent(&mut self, connects: bool)
        requires
            old(self).wf(),
        ensures
            final(self).wf(),
            final(self)@ == old(self)@.action_sent(connects),
    {
        if connects {
            self.rstate.modal = None;
        }
        self.needs_complete_redraw = true;
    }
}

// ---------------------------------------------------------------------------
// Laws
// ---------------------------------------------------------------------------

/// The layers that are shown exist: those at the ends of the bar, and the one in the middle.
pub proof fn law_shown_layers_exist(a: AppView)
    requires
        sound_layers(a.store),
    ensures
        a.has_layer(GLOBAL_LEFT_LAYER@),
        a.has_layer(a.right()),
        a.center() is Some ==> a.has_layer(a.center()->0),
        a.has_layer(a.store.resolved(a.rstate)),
{
    lemma_edges_exist(a);
    layer::law_resolved_layer_exists(a.store, a.rstate);
}

/// A configuration that loads gives layers that the application can use.
pub proof fn law_loaded_layers_are_sound(
    p: config::ConfigProxyView,
    width: u16,
    env: crate::widgets::EnvironmentView,
    font_loads: bool,
    now: u64,
)
    requires
        config::loaded(p, width, env, font_loads, now) is Ok,
    ensures
        sound_layers(config::loaded(p, width, env, font_loads, now)->Ok_0.1),
{
    config::law_loaded_layers_exist(p, width, env, font_loads, now);
}

/// The parts of a bar that is wide enough lie side by side, with one button's spacing between
/// them, and fill the bar.
pub proof fn law_areas_fill_the_bar(width: u16, height: u16, count: int)
    requires
        2 <= count <= 3,
        width >= 850,
    ensures
        ({
            let a = areas(width, height, count);
            &&& a.left.left == 0
            &&& a.left.left + a.left.width + BUTTON_SPACING_PX == a.center.left
            &&& a.center.left + a.center.width + BUTTON_SPACING_PX == a.right.left
            &&& a.right.left + a.right.width == width
            &&& a.center.width > 0
        }),
{
    let w = edge_width(height as int);
    assert(w * count == w * 2 || w * count == w * 3) by (nonlinear_arith)
        requires
            count == 2 || count == 3,
    ;
}

/// While Fn is held, its base layer is in the middle, unless a layer was opened there.
pub proof fn law_fn_shows_its_base_layer(a: AppView)
    requires
        sound_layers(a.store),
        a.rstate.fn_pressed,
        a.rstate.substates.len() == 0,
    ensures
        a.center() == Some(a.store.fn_base),
{
}

/// Pressing and releasing Fn leaves the layers as they were, unless Fn was pressed twice in a
/// row.
pub proof fn law_fn_press_and_release(a: AppView, t1: u64, t2: u64)
    requires
        !a.rstate.fn_pressed,
        a.cfg.double_press_switch_layers == 0 || t1 - a.last >= a.cfg.double_press_switch_layers
            * 1_000_000,
    ensures
        ({
            let after = a.keyed(KEY_FN as u32, true, t1).keyed(KEY_FN as u32, false, t2);
            &&& after.store == a.store
            &&& after.rstate == a.rstate
            &&& after.center() == a.center()
        }),
{
    let after = a.keyed(KEY_FN as u32, true, t1).keyed(KEY_FN as u32, false, t2);
    assert(after.center() == a.center());
}

/// The media that plays is shown in one place only: where the middle of the bar shows it,
/// the right end has no button for it.
pub proof fn law_media_is_shown_once(a: AppView)
    ensures
        a.center() == Some(MEDIA_ACTIVE_LAYER@) || a.center() == Some(MEDIA_OVERLAY_LAYER@)
            ==> !a.wants_media_button(),
        a.right() == GLOBAL_RIGHT_TABS_LAYER@ <==> a.media_in_front(),
{
    reveal_strlit("global-right-tabs");
    reveal_strlit("global-right-media");
    reveal_strlit("global-right");
    assert(GLOBAL_RIGHT_TABS_LAYER@.len() == 17);
    assert(GLOBAL_RIGHT_MEDIA_LAYER@.len() == 18);
    assert(GLOBAL_RIGHT_LAYER@.len() == 12);
}

/// A slider that was opened is dragged, and lifting the finger closes it: the bar is then
/// without a layer over it, and without a finger on it.
pub proof fn law_slider_closes_on_lift(
    a: AppView,
    backend: SliderBackend,
    target: Seq<char>,
    level: Number,
    x: Number,
)
    requires
        a.has_layer(target),
    ensures
        ({
            let open = a.with_slider(backend, target, level, x);
            &&& open.rstate.modal == Some(target)
            &&& open.touch == Some(TouchView::Slider { layer: target })
            &&& open.lifted().1 == Ok::<Option<ActionView>, Seq<char>>(
                Some(ActionView::CloseModal),
            )
            &&& open.lifted().0.applied(ActionView::CloseModal).0.rstate.modal is None
            &&& open.lifted().0.applied(ActionView::CloseModal).0.touch is None
        }),
{
}

/// A layer over the whole bar that was pushed is the one that a pop closes: what is left of
/// both is that a complete drawing is due.
pub proof fn law_pop_undoes_push(a: AppView, name: Seq<char>)
    requires
        a.rstate.modal is None,
    ensures
        a.applied(ActionView::PushLayer(name)).0.rstate.modal == Some(name),
        a.applied(ActionView::PushLayer(name)).0.applied(ActionView::PopLayer).0 == (AppView {
            needs_complete_redraw: true,
            ..a
        }),
{
}

/// A finger that is lifted is on nothing, whatever it was on.
pub proof fn law_lift_ends_the_touch(a: AppView)
    ensures
        a.lifted().0.touch is None,
{
}

/// A touch on a dark bar only wakes it.
pub proof fn law_dark_bar_ignores_touch(a: AppView, probe: TouchProbe)
    ensures
        a.after_touch(TouchPhase::Down, true, probe) == (a, Ok::<Option<ActionView>, Seq<char>>(
            None,
        )),
{
}

/// A touch is looked at often enough to see it end, and the main loop never sleeps for
/// longer than its limit.
pub proof fn law_timeout_is_short(a: AppView, touch_down: bool, second: u32, shift: i32)
    ensures
        a.timeout(touch_down, second, shift) <= TIMEOUT_MS,
        touch_down ==> a.timeout(touch_down, second, shift) <= TOUCH_ACTIVE_POLL_MS,
        a.ghostty_focused() ==> a.timeout(touch_down, second, shift) <= 500,
{
}

/// Focusing a window whose class has a layer shows that layer, where neither Fn nor an opened
/// layer nor the terminal or Chromium decides otherwise.
pub proof fn law_app_layer_is_shown(a: AppView, class: Seq<char>, title: Seq<char>, name: Seq<char>)
    requires
        config::layer_for(a.cfg.app_layers, class) == Some(name),
        a.has_layer(name),
        a.rstate.substates.len() == 0,
        !a.rstate.fn_pressed,
        !a.focused(class, title).ghostty_focused(),
        !a.focused(class, title).chromium_focused(),
    ensures
        a.focused(class, title).center() == Some(name),
{
}

/// The layer of the focused window's class takes precedence over the base layers, and a class
/// without a layer falls back to the base layer, unless a layer was opened over them.
pub proof fn law_unmapped_class_falls_back(a: AppView, class: Seq<char>, title: Seq<char>)
    requires
        a.rstate.modal is None,
        a.rstate.substates.len() == 0,
    ensures
        a.focused(class, title).store == a.store,
        a.store.resolved(a.focused(class, title).rstate) == match config::layer_for(
            a.cfg.app_layers,
            class,
        ) {
            Some(name) => if a.has_layer(name) {
                name
            } else {
                a.store.base_for(a.rstate.fn_pressed)
            },
            None => a.store.base_for(a.rstate.fn_pressed),
        },
{
}

/// Once everything has been drawn and all changes have been seen, a bar without a battery is
/// not drawn again before something changes.
pub proof fn law_drawn_bar_is_not_stale(a: AppView)
    requires
        !a.needs_complete_redraw,
        a.runtime.dirty == Set::<Seq<char>>::empty(),
        a.rstate.modal is None,
        all_drawn(a.store.registry[GLOBAL_LEFT_LAYER@]),
        all_drawn(a.store.registry[a.right()]),
        a.center() is Some ==> all_drawn(a.store.registry[a.center()->0]),
    ensures
        !a.bar_stale(),
{
    lemma_drawn_layer(a.store.registry[GLOBAL_LEFT_LAYER@], a.runtime);
    lemma_drawn_layer(a.store.registry[a.right()], a.runtime);
    if a.center() is Some {
        lemma_drawn_layer(a.store.registry[a.center()->0], a.runtime);
    }
}

/// Whether all cells are as they are after they have been drawn, and none shows a battery.
pub open spec fn all_drawn(cells: Seq<CellView>) -> bool {
    forall|i: int|
        0 <= i < cells.len() ==> !((#[trigger] cells[i]).widget is Battery) && exists|now: u64|
            cells[i].widget == #[trigger] cells[i].widget.drawn(now)
}

proof fn lemma_drawn_layer(cells: Seq<CellView>, s: StoreView)
    requires
        all_drawn(cells),
        s.dirty == Set::<Seq<char>>::empty(),
    ensures
        !function_layer::stale(cells, s),
{
    assert forall|i: int| 0 <= i < cells.len() implies !(#[trigger] cells[i]).widget.stale(s) by {
        let now = choose|now: u64| cells[i].widget == #[trigger] cells[i].widget.drawn(now);
        assert(cells[i].widget == cells[i].widget.drawn(now));
    }
}

/// No two programs have the same name.
proof fn lemma_app_names_differ(a: TerminalApp, b: TerminalApp)
    ensures
        a.name() == b.name() <==> a == b,
{
    reveal_strlit("nvim");
    reveal_strlit("pi");
    reveal_strlit("ssh");
    reveal_strlit("shell");
    reveal_strlit("unknown");
    assert(TerminalApp::Nvim.name().len() == 4);
    assert(TerminalApp::Pi.name().len() == 2);
    assert(TerminalApp::Ssh.name().len() == 3);
    assert(TerminalApp::Shell.name().len() == 5);
    assert(TerminalApp::Unknown.name().len() == 7);
}

/// The program that was found in front in the terminal is the one that counts, and no other.
pub proof fn law_program_in_front_counts(a: AppView, t: TerminalView, app: TerminalApp)
    ensures
        a.with_runtime(runtime::with_terminal(a.runtime, t)).terminal_app(app) <==> t.app == app,
        t.available && t.terminal == "ghostty"@ ==> a.with_runtime(
            runtime::with_terminal(a.runtime, t),
        ).ghostty_focused(),
{
    runtime::law_terminal_is_read_back(a.runtime, t);
    lemma_app_names_differ(t.app, app);
}

/// A process identifier survives the store: that of Neovim, and that of the program in front,
/// are read as they were noted.
pub proof fn law_process_identifiers_survive(s: StoreView, t: TerminalView)
    ensures
        stored_pid(runtime::with_terminal(s, t), key::TERMINAL_NVIM_PID@) == if t.nvim_pid
            == Some(0u32) {
            None
        } else {
            t.nvim_pid
        },
        stored_pid(runtime::with_terminal(s, t), key::TERMINAL_APP_PID@) == if t.app_pid == Some(
            0u32,
        ) {
            None
        } else {
            t.app_pid
        },
{
    runtime::law_terminal_is_read_back(s, t);
    lemma_held_pid(runtime::with_terminal(s, t), key::TERMINAL_NVIM_PID@, t.nvim_pid);
    lemma_held_pid(runtime::with_terminal(s, t), key::TERMINAL_APP_PID@, t.app_pid);
}

proof fn lemma_held_pid(s: StoreView, k: Seq<char>, pid: Option<u32>)
    requires
        runtime::holds_number(s, k, number::double_of(pid.unwrap_or(0) as nat)),
    ensures
        stored_pid(s, k) == if pid == Some(0u32) {
            None
        } else {
            pid
        },
{
    let v = pid.unwrap_or(0);
    let n = number::double_of(v as nat);
    number::law_small_integers_are_doubles(v as nat);
    number::law_small_integers_are_exact(v as nat);
    number::law_u32_round_trip(v, n);
    let m = s.number_at(k)->0;
    if m != n {
        assert(m.same_value(n));
        assert(m.is_zero() && n.is_zero());
    }
}

/// Where Neovim is in front in the focused terminal, its layer is shown: that of its debugger
/// while it debugs, else that of its tests, else that of its databases, else its own.
pub proof fn law_nvim_layers(a: AppView)
    requires
        a.ghostty_focused(),
        a.effective_app(TerminalApp::Nvim),
        a.rstate.substates.len() == 0,
        !a.rstate.fn_pressed,
        a.has_layer(TERMINAL_NVIM_LAYER@),
        a.has_layer(TERMINAL_NVIM_DEBUG_LAYER@),
        a.has_layer(TERMINAL_NVIM_TEST_LAYER@),
        a.has_layer(TERMINAL_NVIM_DB_LAYER@),
    ensures
        a.center() == Some(
            if a.runtime.is_true(key::NVIM_DAP_ACTIVE@) || a.runtime.is_true(
                key::NVIM_DAPUI_VISIBLE@,
            ) {
                TERMINAL_NVIM_DEBUG_LAYER@
            } else if a.runtime.is_true(key::NVIM_NEOTEST_SUMMARY_VISIBLE@) {
                TERMINAL_NVIM_TEST_LAYER@
            } else if a.runtime.is_true(key::NVIM_DBUI_VISIBLE@) || a.runtime.is_true(
                key::NVIM_DBUI_IN_BUFFER@,
            ) {
                TERMINAL_NVIM_DB_LAYER@
            } else {
                TERMINAL_NVIM_LAYER@
            },
        ),
{
}

/// A Neovim that debugs brings its debugger's layer up as soon as that is noted.
pub proof fn law_debugger_brings_its_layer(a: AppView, n: NvimView)
    requires
        a.ghostty_focused(),
        a.effective_app(TerminalApp::Nvim),
        a.rstate.substates.len() == 0,
        !a.rstate.fn_pressed,
        a.has_layer(TERMINAL_NVIM_DEBUG_LAYER@),
        n.dap.active,
    ensures
        a.with_nvim(true, Some(n)).runtime.is_true(key::NVIM_DAP_ACTIVE@),
        a.with_nvim(true, Some(n)).ghostty_focused() && a.with_nvim(true, Some(n)).effective_app(
            TerminalApp::Nvim,
        ) ==> a.with_nvim(true, Some(n)).center() == Some(TERMINAL_NVIM_DEBUG_LAYER@),
{
    runtime::law_nvim_is_read_back(
        a.runtime.set(key::NVIM_BRIDGE_AVAILABLE@, ValueView::Bool(true)),
        n,
    );
}

} // verus!
