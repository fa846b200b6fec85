//! What is known at run time, as it is kept in the state store.
use crate::action;
use crate::browser::{BrowserTabsState, TabsView};
use crate::key;
use crate::mpris::{MediaState, MediaView};
use crate::number;
use crate::number::Number;
use crate::nvim_bridge;
use crate::nvim_bridge::{NvimBridgeState, NvimView};
use crate::pi_state;
use crate::pi_state::{PiState, PiView};
use crate::store::{Store, StoreView, Value, ValueView};
use crate::terminal::{TerminalState, TerminalView, TmuxPaneState, TmuxPaneView};
use crate::text;
use crate::titles;
use vstd::prelude::*;

verus! {

// ---------------------------------------------------------------------------
// Values
// ---------------------------------------------------------------------------

/// An empty text.
pub open spec fn blank() -> ValueView {
    ValueView::Text(Seq::empty())
}

/// Zero.
pub open spec fn zero() -> ValueView {
    ValueView::Number(Number { bits: 0 })
}

/// Minus one.
pub open spec fn minus_one() -> ValueView {
    ValueView::Number(Number { bits: 0xBFF0_0000_0000_0000 })
}

/// False.
pub open spec fn off() -> ValueView {
    ValueView::Bool(false)
}

/// An integer, as the double nearest to it.
pub open spec fn integer(n: nat) -> ValueView {
    ValueView::Number(number::double_of(n))
}

/// An optional text; the empty text stands for none.
pub open spec fn text_or_blank(t: Option<Seq<char>>) -> ValueView {
    ValueView::Text(t.unwrap_or(Seq::empty()))
}

/// An empty text.
fn blank_value() -> (r: Value)
    ensures
        r@ == blank(),
{
    let t = String::new();
    assert(t@ =~= Seq::<char>::empty());
    Value::Text(t)
}

/// Zero.
fn zero_value() -> (r: Value)
    ensures
        r@ == zero(),
{
    Value::Number(Number::zero())
}

/// An integer, as the double nearest to it.
fn integer_value(n: u64) -> (r: Value)
    ensures
        r@ == integer(n as nat),
{
    Value::Number(Number::from_u64(n))
}

/// An optional process identifier; zero stands for none.
fn pid_value(pid: Option<u32>) -> (r: Value)
    ensures
        r@ == integer(pid.unwrap_or(0) as nat),
{
    match pid {
        Some(p) => integer_value(p as u64),
        None => integer_value(0),
    }
}

/// An optional text; the empty text stands for none.
fn text_value(t: Option<String>) -> (r: Value)
    ensures
        r@ == text_or_blank(text::opt_text(t)),
{
    match t {
        Some(t) => Value::Text(t),
        None => blank_value(),
    }
}

// ---------------------------------------------------------------------------
// The beginning
// ---------------------------------------------------------------------------

/// The levels of the lights, and no focused window.
pub open spec fn with_desktop(s: StoreView, brightness: Number, kbd: Number) -> StoreView {
    s
        .set(key::HARDWARE_BRIGHTNESS@, ValueView::Number(brightness))
        .set(key::HARDWARE_KBD_ILLUM@, ValueView::Number(kbd))
        .set(key::CONTEXT_FOCUS_CLASS@, blank())
        .set(key::CONTEXT_FOCUS_TITLE@, blank())
}

/// Notes the levels of the lights, and no focused window.
fn start_desktop(s: &mut Store, brightness: Number, kbd: Number)
    requires
        old(s).wf(),
    ensures
        final(s).wf(),
        final(s)@ == with_desktop(old(s)@, brightness, kbd),
{
    proof {
        key::law_built_in_keys_are_valid();
    }
    s.put(key::HARDWARE_BRIGHTNESS, Value::Number(brightness));
    s.put(key::HARDWARE_KBD_ILLUM, Value::Number(kbd));
    s.put(key::CONTEXT_FOCUS_CLASS, blank_value());
    s.put(key::CONTEXT_FOCUS_TITLE, blank_value());
}

/// No player.
pub open spec fn without_media(s: StoreView) -> StoreView {
    s
        .set(key::MEDIA_ACTIVE_PLAYER@, blank())
        .set(key::MEDIA_ACTIVE_TRACK_ID@, blank())
        .set(key::MEDIA_ACTIVE_STATUS@, blank())
        .set(key::MEDIA_ACTIVE_TITLE@, blank())
        .set(key::MEDIA_ACTIVE_ART_URL@, blank())
        .set(key::MEDIA_ACTIVE_LENGTH@, zero())
        .set(key::MEDIA_ACTIVE_POSITION@, zero())
        .set(key::CHROMIUM_MEDIA_ACTIVE@, off())
}

/// Notes that there is no player.
pub fn clear_media(s: &mut Store)
    requires
        old(s).wf(),
    ensures
        final(s).wf(),
        final(s)@ == without_media(old(s)@),
{
    proof {
        key::law_built_in_keys_are_valid();
    }
    s.put(key::MEDIA_ACTIVE_PLAYER, blank_value());
    s.put(key::MEDIA_ACTIVE_TRACK_ID, blank_value());
    s.put(key::MEDIA_ACTIVE_STATUS, blank_value());
    s.put(key::MEDIA_ACTIVE_TITLE, blank_value());
    s.put(key::MEDIA_ACTIVE_ART_URL, blank_value());
    s.put(key::MEDIA_ACTIVE_LENGTH, zero_value());
    s.put(key::MEDIA_ACTIVE_POSITION, zero_value());
    s.put(key::CHROMIUM_MEDIA_ACTIVE, Value::Bool(false));
}

/// No tabs.
pub open spec fn without_tabs(s: StoreView) -> StoreView {
    s
        .set(key::CHROMIUM_TABS_AVAILABLE@, off())
        .set(key::CHROMIUM_TABS_JSON@, ValueView::Text("[]"@))
        .set(key::CHROMIUM_TABS_COUNT@, zero())
        .set(key::CHROMIUM_TABS_ACTIVE_INDEX@, minus_one())
}

/// Notes that there are no tabs.
fn start_tabs(s: &mut Store)
    requires
        old(s).wf(),
    ensures
        final(s).wf(),
        final(s)@ == without_tabs(old(s)@),
{
    proof {
        key::law_built_in_keys_are_valid();
    }
    s.put(key::CHROMIUM_TABS_AVAILABLE, Value::Bool(false));
    s.put(key::CHROMIUM_TABS_JSON, Value::Text("[]".to_string()));
    s.put(key::CHROMIUM_TABS_COUNT, zero_value());
    s.put(key::CHROMIUM_TABS_ACTIVE_INDEX, Value::Number(Number::minus_one()));
}

/// No Neovim: its buffer and its debugger.
pub open spec fn without_nvim_editor(s: StoreView) -> StoreView {
    s
        .set(key::NVIM_BRIDGE_SOCKET@, blank())
        .set(key::NVIM_PID@, zero())
        .set(key::NVIM_CWD@, blank())
        .set(key::NVIM_FILE@, blank())
        .set(key::NVIM_FILETYPE@, blank())
        .set(key::NVIM_MODE@, blank())
        .set(key::NVIM_DAP_ACTIVE@, off())
        .set(key::NVIM_DAP_STATE@, blank())
        .set(key::NVIM_DAP_ADAPTER@, blank())
        .set(key::NVIM_DAP_SESSION@, blank())
}

/// No Neovim: its windows.
pub open spec fn without_nvim_windows(s: StoreView) -> StoreView {
    s
        .set(key::NVIM_DAPUI_AVAILABLE@, off())
        .set(key::NVIM_DAPUI_VISIBLE@, off())
        .set(key::NVIM_NEOTEST_AVAILABLE@, off())
        .set(key::NVIM_NEOTEST_SUMMARY_VISIBLE@, off())
        .set(key::NVIM_NEOTEST_UPDATED_AT_MS@, zero())
        .set(key::NVIM_DBUI_AVAILABLE@, off())
        .set(key::NVIM_DBUI_VISIBLE@, off())
        .set(key::NVIM_DBUI_IN_BUFFER@, off())
        .set(key::NVIM_DBUI_CONNECTIONS_JSON@, ValueView::Text("[]"@))
}

/// No Neovim.
pub open spec fn without_nvim(s: StoreView) -> StoreView {
    without_nvim_windows(without_nvim_editor(s))
}

/// Notes that no Neovim is meant: its buffer and its debugger.
fn clear_nvim_editor(s: &mut Store)
    requires
        old(s).wf(),
    ensures
        final(s).wf(),
        final(s)@ == without_nvim_editor(old(s)@),
{
    proof {
        key::law_built_in_keys_are_valid();
    }
    s.put(key::NVIM_BRIDGE_SOCKET, blank_value());
    s.put(key::NVIM_PID, zero_value());
    s.put(key::NVIM_CWD, blank_value());
    s.put(key::NVIM_FILE, blank_value());
    s.put(key::NVIM_FILETYPE, blank_value());
    s.put(key::NVIM_MODE, blank_value());
    s.put(key::NVIM_DAP_ACTIVE, Value::Bool(false));
    s.put(key::NVIM_DAP_STATE, blank_value());
    s.put(key::NVIM_DAP_ADAPTER, blank_value());
    s.put(key::NVIM_DAP_SESSION, blank_value());
}

/// Notes that no Neovim is meant: its windows.
fn clear_nvim_windows(s: &mut Store)
    requires
        old(s).wf(),
    ensures
        final(s).wf(),
        final(s)@ == without_nvim_windows(old(s)@),
{
    proof {
        key::law_built_in_keys_are_valid();
    }
    s.put(key::NVIM_DAPUI_AVAILABLE, Value::Bool(false));
    s.put(key::NVIM_DAPUI_VISIBLE, Value::Bool(false));
    s.put(key::NVIM_NEOTEST_AVAILABLE, Value::Bool(false));
    s.put(key::NVIM_NEOTEST_SUMMARY_VISIBLE, Value::Bool(false));
    s.put(key::NVIM_NEOTEST_UPDATED_AT_MS, zero_value());
    s.put(key::NVIM_DBUI_AVAILABLE, Value::Bool(false));
    s.put(key::NVIM_DBUI_VISIBLE, Value::Bool(false));
    s.put(key::NVIM_DBUI_IN_BUFFER, Value::Bool(false));
    s.put(key::NVIM_DBUI_CONNECTIONS_JSON, Value::Text("[]".to_string()));
}

/// Notes that no Neovim is meant.
fn clear_nvim(s: &mut Store)
    requires
        old(s).wf(),
    ensures
        final(s).wf(),
        final(s)@ == without_nvim(old(s)@),
{
    clear_nvim_editor(s);
    clear_nvim_windows(s);
}

/// No agent.
pub open spec fn without_pi(s: StoreView) -> StoreView {
    s
        .set(key::PI_MODEL@, blank())
        .set(key::PI_PROVIDER@, blank())
        .set(key::PI_THINKING@, blank())
        .set(key::PI_WORKFLOW_MODE@, blank())
}

/// Notes that no agent is meant.
fn clear_pi(s: &mut Store)
    requires
        old(s).wf(),
    ensures
        final(s).wf(),
        final(s)@ == without_pi(old(s)@),
{
    proof {
        key::law_built_in_keys_are_valid();
    }
    s.put(key::PI_MODEL, blank_value());
    s.put(key::PI_PROVIDER, blank_value());
    s.put(key::PI_THINKING, blank_value());
    s.put(key::PI_WORKFLOW_MODE, blank_value());
}

/// No terminal.
pub open spec fn with_no_terminal(s: StoreView) -> StoreView {
    s
        .set(key::TERMINAL_AVAILABLE@, off())
        .set(key::TERMINAL_NAME@, blank())
        .set(key::TERMINAL_KIND@, blank())
        .set(key::TERMINAL_ROOT_PID@, zero())
        .set(key::TERMINAL_COMMAND@, blank())
        .set(key::TERMINAL_CWD@, blank())
        .set(key::TERMINAL_APP@, blank())
        .set(key::TERMINAL_APP_PID@, zero())
        .set(key::TERMINAL_NVIM_PID@, zero())
}

/// Notes that there is no terminal.
fn start_terminal(s: &mut Store)
    requires
        old(s).wf(),
    ensures
        final(s).wf(),
        final(s)@ == with_no_terminal(old(s)@),
{
    proof {
        key::law_built_in_keys_are_valid();
    }
    s.put(key::TERMINAL_AVAILABLE, Value::Bool(false));
    s.put(key::TERMINAL_NAME, blank_value());
    s.put(key::TERMINAL_KIND, blank_value());
    s.put(key::TERMINAL_ROOT_PID, zero_value());
    s.put(key::TERMINAL_COMMAND, blank_value());
    s.put(key::TERMINAL_CWD, blank_value());
    s.put(key::TERMINAL_APP, blank_value());
    s.put(key::TERMINAL_APP_PID, zero_value());
    s.put(key::TERMINAL_NVIM_PID, zero_value());
}

/// No tmux.
pub open spec fn without_tmux(s: StoreView) -> StoreView {
    s
        .set(key::TERMINAL_TMUX_CLIENT_PID@, zero())
        .set(key::TERMINAL_TMUX_CLIENT_TTY@, blank())
        .set(key::TERMINAL_TMUX_SESSION@, blank())
        .set(key::TERMINAL_TMUX_WINDOW@, blank())
        .set(key::TERMINAL_TMUX_PANE_INDEX@, blank())
        .set(key::TERMINAL_TMUX_PANE_ID@, blank())
        .set(key::TERMINAL_TMUX_PANE_PID@, zero())
        .set(key::TERMINAL_TMUX_PANE_COMMAND@, blank())
        .set(key::TERMINAL_TMUX_PANE_PATH@, blank())
        .set(key::TERMINAL_TMUX_PANE_TITLE@, blank())
}

/// Notes that there is no tmux.
fn clear_tmux(s: &mut Store)
    requires
        old(s).wf(),
    ensures
        final(s).wf(),
        final(s)@ == without_tmux(old(s)@),
{
    proof {
        key::law_built_in_keys_are_valid();
    }
    s.put(key::TERMINAL_TMUX_CLIENT_PID, zero_value());
    s.put(key::TERMINAL_TMUX_CLIENT_TTY, blank_value());
    s.put(key::TERMINAL_TMUX_SESSION, blank_value());
    s.put(key::TERMINAL_TMUX_WINDOW, blank_value());
    s.put(key::TERMINAL_TMUX_PANE_INDEX, blank_value());
    s.put(key::TERMINAL_TMUX_PANE_ID, blank_value());
    s.put(key::TERMINAL_TMUX_PANE_PID, zero_value());
    s.put(key::TERMINAL_TMUX_PANE_COMMAND, blank_value());
    s.put(key::TERMINAL_TMUX_PANE_PATH, blank_value());
    s.put(key::TERMINAL_TMUX_PANE_TITLE, blank_value());
}

/// The store with a value for everything, before anything is known but the levels of the
/// lights.
pub open spec fn initial_values(s: StoreView, brightness: Number, kbd: Number) -> StoreView {
    let a = without_tabs(without_media(with_desktop(s, brightness, kbd)));
    let b = without_nvim(a.set(key::NVIM_BRIDGE_AVAILABLE@, off()));
    without_tmux(with_no_terminal(without_pi(b)))
}

/// The store at the start: a value for everything, and nothing marked as changed.
pub fn initial_store(brightness: Number, kbd: Number) -> (r: Store)
    ensures
        r.wf(),
        r@.values == initial_values(
            StoreView { values: Map::empty(), dirty: Set::empty() },
            brightness,
            kbd,
        ).values,
        r@.dirty == Set::<Seq<char>>::empty(),
{
    proof {
        key::law_built_in_keys_are_valid();
    }
    let mut s = Store::new();
    start_desktop(&mut s, brightness, kbd);
    clear_media(&mut s);
    start_tabs(&mut s);
    s.put(key::NVIM_BRIDGE_AVAILABLE, Value::Bool(false));
    clear_nvim(&mut s);
    clear_pi(&mut s);
    start_terminal(&mut s);
    clear_tmux(&mut s);
    s.clear_dirty();
    s
}

// ---------------------------------------------------------------------------
// What is found out later
// ---------------------------------------------------------------------------

/// The levels of the lights.
pub open spec fn with_lights(s: StoreView, brightness: Number, kbd: Number) -> StoreView {
    s
        .set(key::HARDWARE_BRIGHTNESS@, ValueView::Number(brightness))
        .set(key::HARDWARE_KBD_ILLUM@, ValueView::Number(kbd))
}

/// Notes the levels of the lights.
pub fn store_lights(s: &mut Store, brightness: Number, kbd: Number)
    requires
        old(s).wf(),
    ensures
        final(s).wf(),
        final(s)@ == with_lights(old(s)@, brightness, kbd),
{
    proof {
        key::law_built_in_keys_are_valid();
    }
    s.put(key::HARDWARE_BRIGHTNESS, Value::Number(brightness));
    s.put(key::HARDWARE_KBD_ILLUM, Value::Number(kbd));
}

/// The focused window.
pub open spec fn with_focus(s: StoreView, class: Seq<char>, title: Seq<char>) -> StoreView {
    s
        .set(key::CONTEXT_FOCUS_CLASS@, ValueView::Text(class))
        .set(key::CONTEXT_FOCUS_TITLE@, ValueView::Text(title))
}

/// Notes the focused window.
pub fn store_focus(s: &mut Store, class: &str, title: &str)
    requires
        old(s).wf(),
    ensures
        final(s).wf(),
        final(s)@ == with_focus(old(s)@, class@, title@),
{
    proof {
        key::law_built_in_keys_are_valid();
    }
    s.put(key::CONTEXT_FOCUS_CLASS, Value::Text(class.to_string()));
    s.put(key::CONTEXT_FOCUS_TITLE, Value::Text(title.to_string()));
}

/// A player and what it plays.
pub open spec fn with_media(s: StoreView, m: MediaView) -> StoreView {
    s
        .set(key::MEDIA_ACTIVE_PLAYER@, ValueView::Text(m.player))
        .set(key::MEDIA_ACTIVE_TRACK_ID@, ValueView::Text(m.track_id))
        .set(key::MEDIA_ACTIVE_STATUS@, ValueView::Text(m.status))
        .set(key::MEDIA_ACTIVE_TITLE@, ValueView::Text(m.title))
        .set(key::MEDIA_ACTIVE_ART_URL@, ValueView::Text(m.art_url))
        .set(key::MEDIA_ACTIVE_LENGTH@, ValueView::Number(m.length_us))
        .set(key::MEDIA_ACTIVE_POSITION@, ValueView::Number(m.position_us))
        .set(key::CHROMIUM_MEDIA_ACTIVE@, ValueView::Bool(titles::chromium_player(m.player)))
}

/// Notes a player and what it plays.
pub fn store_media(s: &mut Store, m: MediaState)
    requires
        old(s).wf(),
    ensures
        final(s).wf(),
        final(s)@ == with_media(old(s)@, m@),
{
    proof {
        key::law_built_in_keys_are_valid();
    }
    let chromium = titles::media_is_chromium(m.player.as_str());
    s.put(key::MEDIA_ACTIVE_PLAYER, Value::Text(m.player));
    s.put(key::MEDIA_ACTIVE_TRACK_ID, Value::Text(m.track_id));
    s.put(key::MEDIA_ACTIVE_STATUS, Value::Text(m.status));
    s.put(key::MEDIA_ACTIVE_TITLE, Value::Text(m.title));
    s.put(key::MEDIA_ACTIVE_ART_URL, Value::Text(m.art_url));
    s.put(key::MEDIA_ACTIVE_LENGTH, Value::Number(m.length_us));
    s.put(key::MEDIA_ACTIVE_POSITION, Value::Number(m.position_us));
    s.put(key::CHROMIUM_MEDIA_ACTIVE, Value::Bool(chromium));
}

/// The place of the active tab; minus one stands for none.
pub open spec fn active_index(i: Option<usize>) -> ValueView {
    match i {
        Some(i) => integer(i as nat),
        None => minus_one(),
    }
}

/// The browser's tabs.
pub open spec fn with_tabs(s: StoreView, t: TabsView) -> StoreView {
    s
        .set(key::CHROMIUM_TABS_AVAILABLE@, ValueView::Bool(t.available))
        .set(key::CHROMIUM_TABS_JSON@, ValueView::Text(t.tabs_json))
        .set(key::CHROMIUM_TABS_COUNT@, integer(t.count as nat))
        .set(key::CHROMIUM_TABS_ACTIVE_INDEX@, active_index(t.active_index))
}

/// Notes the browser's tabs.
pub fn store_chromium_tabs(s: &mut Store, t: BrowserTabsState)
    requires
        old(s).wf(),
    ensures
        final(s).wf(),
        final(s)@ == with_tabs(old(s)@, t@),
{
    proof {
        key::law_built_in_keys_are_valid();
    }
    let index = match t.active_index {
        Some(i) => integer_value(i as u64),
        None => Value::Number(Number::minus_one()),
    };
    s.put(key::CHROMIUM_TABS_AVAILABLE, Value::Bool(t.available));
    s.put(key::CHROMIUM_TABS_JSON, Value::Text(t.tabs_json));
    s.put(key::CHROMIUM_TABS_COUNT, integer_value(t.count as u64));
    s.put(key::CHROMIUM_TABS_ACTIVE_INDEX, index);
}

/// The tmux pane in front.
pub open spec fn with_tmux(s: StoreView, p: TmuxPaneView) -> StoreView {
    s
        .set(key::TERMINAL_TMUX_CLIENT_PID@, integer(p.client_pid.unwrap_or(0) as nat))
        .set(key::TERMINAL_TMUX_CLIENT_TTY@, ValueView::Text(p.client_tty))
        .set(key::TERMINAL_TMUX_SESSION@, ValueView::Text(p.session))
        .set(key::TERMINAL_TMUX_WINDOW@, ValueView::Text(p.window))
        .set(key::TERMINAL_TMUX_PANE_INDEX@, ValueView::Text(p.pane_index))
        .set(key::TERMINAL_TMUX_PANE_ID@, ValueView::Text(p.pane_id))
        .set(key::TERMINAL_TMUX_PANE_PID@, integer(p.pane_pid.unwrap_or(0) as nat))
        .set(key::TERMINAL_TMUX_PANE_COMMAND@, ValueView::Text(p.pane_command))
        .set(key::TERMINAL_TMUX_PANE_PATH@, ValueView::Text(p.pane_path))
        .set(key::TERMINAL_TMUX_PANE_TITLE@, ValueView::Text(p.pane_title))
}

/// Notes the tmux pane in front.
fn store_tmux(s: &mut Store, p: TmuxPaneState)
    requires
        old(s).wf(),
    ensures
        final(s).wf(),
        final(s)@ == with_tmux(old(s)@, p@),
{
    proof {
        key::law_built_in_keys_are_valid();
    }
    s.put(key::TERMINAL_TMUX_CLIENT_PID, pid_value(p.client_pid));
    s.put(key::TERMINAL_TMUX_CLIENT_TTY, Value::Text(p.client_tty));
    s.put(key::TERMINAL_TMUX_SESSION, Value::Text(p.session));
    s.put(key::TERMINAL_TMUX_WINDOW, Value::Text(p.window));
    s.put(key::TERMINAL_TMUX_PANE_INDEX, Value::Text(p.pane_index));
    s.put(key::TERMINAL_TMUX_PANE_ID, Value::Text(p.pane_id));
    s.put(key::TERMINAL_TMUX_PANE_PID, pid_value(p.pane_pid));
    s.put(key::TERMINAL_TMUX_PANE_COMMAND, Value::Text(p.pane_command));
    s.put(key::TERMINAL_TMUX_PANE_PATH, Value::Text(p.pane_path));
    s.put(key::TERMINAL_TMUX_PANE_TITLE, Value::Text(p.pane_title));
}

/// What is known of the terminal, besides tmux.
pub open spec fn with_terminal_app(s: StoreView, t: TerminalView) -> StoreView {
    s
        .set(key::TERMINAL_AVAILABLE@, ValueView::Bool(t.available))
        .set(key::TERMINAL_NAME@, ValueView::Text(t.terminal))
        .set(key::TERMINAL_KIND@, ValueView::Text(t.kind.name()))
        .set(key::TERMINAL_ROOT_PID@, integer(t.root_pid.unwrap_or(0) as nat))
        .set(key::TERMINAL_COMMAND@, ValueView::Text(t.command))
        .set(key::TERMINAL_CWD@, ValueView::Text(t.cwd))
        .set(key::TERMINAL_APP@, ValueView::Text(t.app.name()))
        .set(key::TERMINAL_APP_PID@, integer(t.app_pid.unwrap_or(0) as nat))
        .set(key::TERMINAL_NVIM_PID@, integer(t.nvim_pid.unwrap_or(0) as nat))
}

/// What is known of the terminal.
pub open spec fn with_terminal(s: StoreView, t: TerminalView) -> StoreView {
    match t.tmux {
        Some(p) => with_tmux(with_terminal_app(s, t), p),
        None => without_tmux(with_terminal_app(s, t)),
    }
}

/// Notes what is known of the terminal.
pub fn store_terminal(s: &mut Store, t: TerminalState)
    requires
        old(s).wf(),
    ensures
        final(s).wf(),
        final(s)@ == with_terminal(old(s)@, t@),
{
    proof {
        key::law_built_in_keys_are_valid();
    }
    s.put(key::TERMINAL_AVAILABLE, Value::Bool(t.available));
    s.put(key::TERMINAL_NAME, Value::Text(t.terminal));
    s.put(key::TERMINAL_KIND, Value::Text(t.kind.as_str().to_string()));
    s.put(key::TERMINAL_ROOT_PID, pid_value(t.root_pid));
    s.put(key::TERMINAL_COMMAND, Value::Text(t.command));
    s.put(key::TERMINAL_CWD, Value::Text(t.cwd));
    s.put(key::TERMINAL_APP, Value::Text(t.app.as_str().to_string()));
    s.put(key::TERMINAL_APP_PID, pid_value(t.app_pid));
    s.put(key::TERMINAL_NVIM_PID, pid_value(t.nvim_pid));
    match t.tmux {
        Some(p) => store_tmux(s, p),
        None => clear_tmux(s),
    }
}

/// A signed integer, as the double nearest to it.
pub open spec fn signed(n: i64) -> ValueView {
    ValueView::Number(number::double_of_int(n as int))
}

/// A signed integer, as the double nearest to it; zero stands for none.
fn signed_value(n: Option<i64>) -> (r: Value)
    ensures
        r@ == signed(n.unwrap_or(0)),
{
    Value::Number(
        Number::from_i64(
            match n {
                Some(n) => n,
                None => 0,
            },
        ),
    )
}

/// What a Neovim publishes of its buffer and its debugger.
pub open spec fn with_nvim_state_editor(s: StoreView, n: NvimView) -> StoreView {
    s
        .set(key::NVIM_BRIDGE_SOCKET@, ValueView::Text(n.socket))
        .set(key::NVIM_PID@, integer(n.pid as nat))
        .set(key::NVIM_CWD@, text_or_blank(n.cwd))
        .set(key::NVIM_FILE@, text_or_blank(n.file))
        .set(key::NVIM_FILETYPE@, text_or_blank(n.filetype))
        .set(key::NVIM_MODE@, text_or_blank(n.mode))
        .set(key::NVIM_DAP_ACTIVE@, ValueView::Bool(n.dap.active))
        .set(key::NVIM_DAP_STATE@, text_or_blank(n.dap.state))
        .set(key::NVIM_DAP_ADAPTER@, text_or_blank(n.dap.adapter))
        .set(key::NVIM_DAP_SESSION@, text_or_blank(n.dap.session))
}

/// What a Neovim publishes of its windows.
pub open spec fn with_nvim_state_windows(s: StoreView, n: NvimView) -> StoreView {
    s
        .set(key::NVIM_DAPUI_AVAILABLE@, ValueView::Bool(n.dapui.available))
        .set(key::NVIM_DAPUI_VISIBLE@, ValueView::Bool(n.dapui.visible))
        .set(key::NVIM_NEOTEST_AVAILABLE@, ValueView::Bool(n.neotest.available))
        .set(key::NVIM_NEOTEST_SUMMARY_VISIBLE@, ValueView::Bool(n.neotest.summary_visible))
        .set(key::NVIM_NEOTEST_UPDATED_AT_MS@, signed(n.neotest.updated_at_ms.unwrap_or(0)))
        .set(key::NVIM_DBUI_AVAILABLE@, ValueView::Bool(n.dbui.available))
        .set(key::NVIM_DBUI_VISIBLE@, ValueView::Bool(n.dbui.visible))
        .set(key::NVIM_DBUI_IN_BUFFER@, ValueView::Bool(n.dbui.in_buffer))
        .set(
            key::NVIM_DBUI_CONNECTIONS_JSON@,
            ValueView::Text(nvim_bridge::connections_json(n.dbui.connections)),
        )
}

/// What a Neovim publishes.
pub open spec fn with_nvim_state(s: StoreView, n: NvimView) -> StoreView {
    with_nvim_state_windows(with_nvim_state_editor(s, n), n)
}

/// Notes what a Neovim publishes of its buffer and its debugger.
fn store_nvim_editor(s: &mut Store, n: &NvimBridgeState)
    requires
        old(s).wf(),
    ensures
        final(s).wf(),
        final(s)@ == with_nvim_state_editor(old(s)@, n@),
{
    proof {
        key::law_built_in_keys_are_valid();
    }
    s.put(key::NVIM_BRIDGE_SOCKET, Value::Text(n.socket.clone()));
    s.put(key::NVIM_PID, integer_value(n.pid as u64));
    s.put(key::NVIM_CWD, text_value(action::clone_text(&n.cwd)));
    s.put(key::NVIM_FILE, text_value(action::clone_text(&n.file)));
    s.put(key::NVIM_FILETYPE, text_value(action::clone_text(&n.filetype)));
    s.put(key::NVIM_MODE, text_value(action::clone_text(&n.mode)));
    s.put(key::NVIM_DAP_ACTIVE, Value::Bool(n.dap.active));
    s.put(key::NVIM_DAP_STATE, text_value(action::clone_text(&n.dap.state)));
    s.put(key::NVIM_DAP_ADAPTER, text_value(action::clone_text(&n.dap.adapter)));
    s.put(key::NVIM_DAP_SESSION, text_value(action::clone_text(&n.dap.session)));
}

/// Notes what a Neovim publishes of its windows.
fn store_nvim_windows(s: &mut Store, n: &NvimBridgeState)
    requires
        old(s).wf(),
    ensures
        final(s).wf(),
        final(s)@ == with_nvim_state_windows(old(s)@, n@),
{
    proof {
        key::law_built_in_keys_are_valid();
    }
    s.put(key::NVIM_DAPUI_AVAILABLE, Value::Bool(n.dapui.available));
    s.put(key::NVIM_DAPUI_VISIBLE, Value::Bool(n.dapui.visible));
    s.put(key::NVIM_NEOTEST_AVAILABLE, Value::Bool(n.neotest.available));
    s.put(key::NVIM_NEOTEST_SUMMARY_VISIBLE, Value::Bool(n.neotest.summary_visible));
    s.put(key::NVIM_NEOTEST_UPDATED_AT_MS, signed_value(n.neotest.updated_at_ms));
    s.put(key::NVIM_DBUI_AVAILABLE, Value::Bool(n.dbui.available));
    s.put(key::NVIM_DBUI_VISIBLE, Value::Bool(n.dbui.visible));
    s.put(key::NVIM_DBUI_IN_BUFFER, Value::Bool(n.dbui.in_buffer));
    s.put(
        key::NVIM_DBUI_CONNECTIONS_JSON,
        Value::Text(nvim_bridge::write_connections(&n.dbui.connections)),
    );
}

/// Notes what a Neovim publishes.
fn store_nvim_state(s: &mut Store, n: NvimBridgeState)
    requires
        old(s).wf(),
    ensures
        final(s).wf(),
        final(s)@ == with_nvim_state(old(s)@, n@),
{
    store_nvim_editor(s, &n);
    store_nvim_windows(s, &n);
}

/// Whether there is a Neovim, and what the one that is meant publishes.
pub open spec fn with_nvim(s: StoreView, available: bool, n: Option<NvimView>) -> StoreView {
    let a = s.set(key::NVIM_BRIDGE_AVAILABLE@, ValueView::Bool(available));
    match n {
        Some(n) => with_nvim_state(a, n),
        None => without_nvim(a),
    }
}

/// Notes whether there is a Neovim, and what the one that is meant publishes.
pub fn store_nvim(s: &mut Store, available: bool, n: Option<NvimBridgeState>)
    requires
        old(s).wf(),
    ensures
        final(s).wf(),
        final(s)@ == with_nvim(old(s)@, available, nvim_bridge::opt_state(n)),
{
    proof {
        key::law_built_in_keys_are_valid();
    }
    s.put(key::NVIM_BRIDGE_AVAILABLE, Value::Bool(available));
    match n {
        Some(n) => store_nvim_state(s, n),
        None => clear_nvim(s),
    }
}

/// What an agent publishes.
pub open spec fn with_agent(s: StoreView, p: PiView) -> StoreView {
    s
        .set(key::PI_MODEL@, text_or_blank(p.model))
        .set(key::PI_PROVIDER@, text_or_blank(p.provider))
        .set(key::PI_THINKING@, text_or_blank(p.thinking))
        .set(key::PI_WORKFLOW_MODE@, text_or_blank(p.workflow_mode))
}

/// Notes what an agent publishes.
fn store_agent(s: &mut Store, p: PiState)
    requires
        old(s).wf(),
    ensures
        final(s).wf(),
        final(s)@ == with_agent(old(s)@, p@),
{
    proof {
        key::law_built_in_keys_are_valid();
    }
    s.put(key::PI_MODEL, text_value(p.model));
    s.put(key::PI_PROVIDER, text_value(p.provider));
    s.put(key::PI_THINKING, text_value(p.thinking));
    s.put(key::PI_WORKFLOW_MODE, text_value(p.workflow_mode));
}

/// What the agent that is meant publishes.
pub open spec fn with_pi(s: StoreView, p: Option<PiView>) -> StoreView {
    match p {
        Some(p) => with_agent(s, p),
        None => without_pi(s),
    }
}

/// Notes what the agent that is meant publishes.
pub fn store_pi_state(s: &mut Store, p: Option<PiState>)
    requires
        old(s).wf(),
    ensures
        final(s).wf(),
        final(s)@ == with_pi(old(s)@, pi_state::opt_state(p)),
{
    match p {
        Some(p) => store_agent(s, p),
        None => clear_pi(s),
    }
}

// ---------------------------------------------------------------------------
// What is always known
// ---------------------------------------------------------------------------

/// Whether the class of the focused window is known, if only as an empty text.
pub open spec fn knows_class(s: StoreView) -> bool {
    s.text_at(key::CONTEXT_FOCUS_CLASS@) is Some
}

/// Setting another key leaves the class known, and setting it to a text makes it known.
proof fn lemma_set_keeps_class(s: StoreView, k: Seq<char>, v: ValueView)
    ensures
        knows_class(s) && (k != key::CONTEXT_FOCUS_CLASS@ || v is Text) ==> knows_class(s.set(k, v)),
        k == key::CONTEXT_FOCUS_CLASS@ && v is Text ==> knows_class(s.set(k, v)),
{
    reveal(StoreView::set);
}

/// Setting a key other than the class's leaves the class known.
broadcast proof fn lemma_chain_keeps_class(s: StoreView, k: Seq<char>, v: ValueView)
    requires
        knows_class(s),
        k != key::CONTEXT_FOCUS_CLASS@,
    ensures
        #[trigger] knows_class(s.set(k, v)),
{
    lemma_set_keeps_class(s, k, v);
}

/// Noting the lights leaves the class of the focused window known.
pub proof fn lemma_lights_keep_class(s: StoreView, brightness: Number, kbd: Number)
    requires
        knows_class(s),
    ensures
        knows_class(with_lights(s, brightness, kbd)),
{
    broadcast use lemma_chain_keeps_class;

    key::law_class_key_is_unique();
}

/// Noting the player leaves the class of the focused window known.
pub proof fn lemma_media_keep_class(s: StoreView, m: MediaView)
    requires
        knows_class(s),
    ensures
        knows_class(with_media(s, m)),
        knows_class(without_media(s)),
{
    broadcast use lemma_chain_keeps_class;

    key::law_class_key_is_unique();
}

/// Noting the tabs leaves the class of the focused window known.
pub proof fn lemma_tabs_keep_class(s: StoreView, t: TabsView)
    requires
        knows_class(s),
    ensures
        knows_class(with_tabs(s, t)),
{
    broadcast use lemma_chain_keeps_class;

    key::law_class_key_is_unique();
}

/// Noting the agent leaves the class of the focused window known.
pub proof fn lemma_pi_keep_class(s: StoreView, p: Option<PiView>)
    requires
        knows_class(s),
    ensures
        knows_class(with_pi(s, p)),
{
    broadcast use lemma_chain_keeps_class;

    key::law_class_key_is_unique();
}

/// Noting the focused window makes its class known.
pub proof fn lemma_focus_keeps_class(s: StoreView, class: Seq<char>, title: Seq<char>)
    ensures
        knows_class(with_focus(s, class, title)),
{
    broadcast use lemma_chain_keeps_class;

    key::law_class_key_is_unique();
    lemma_set_keeps_class(s, key::CONTEXT_FOCUS_CLASS@, ValueView::Text(class));
}

/// Noting a level leaves the class of the focused window known.
pub proof fn lemma_level_keeps_class(s: StoreView, k: Seq<char>, v: ValueView)
    requires
        knows_class(s),
        k != key::CONTEXT_FOCUS_CLASS@,
    ensures
        knows_class(s.set(k, v)),
{
    lemma_set_keeps_class(s, k, v);
}

/// Noting the terminal leaves the class of the focused window known.
pub proof fn lemma_terminal_keeps_class(s: StoreView, term: TerminalView)
    requires
        knows_class(s),
    ensures
        knows_class(with_terminal(s, term)),
{
    broadcast use lemma_chain_keeps_class;

    key::law_class_key_is_unique();
    assert(knows_class(with_terminal_app(s, term)));
}

/// Noting Neovim leaves the class of the focused window known.
pub proof fn lemma_nvim_keeps_class(s: StoreView, available: bool, n: Option<NvimView>)
    requires
        knows_class(s),
    ensures
        knows_class(with_nvim(s, available, n)),
{
    broadcast use lemma_chain_keeps_class;

    key::law_class_key_is_unique();
    let a = s.set(key::NVIM_BRIDGE_AVAILABLE@, ValueView::Bool(available));
    assert(knows_class(a));
    assert(knows_class(without_nvim(a)));
}

/// The class of the focused window is known from the start.
pub proof fn law_class_is_known_at_start(s: StoreView, brightness: Number, kbd: Number)
    ensures
        knows_class(initial_values(s, brightness, kbd)),
{
    broadcast use lemma_chain_keeps_class;

    key::law_class_key_is_unique();
    let a = s.set(key::HARDWARE_BRIGHTNESS@, ValueView::Number(brightness)).set(
        key::HARDWARE_KBD_ILLUM@,
        ValueView::Number(kbd),
    );
    lemma_set_keeps_class(a, key::CONTEXT_FOCUS_CLASS@, blank());
    let b = with_desktop(s, brightness, kbd);
    assert(knows_class(b));
    let c = without_tabs(without_media(b));
    assert(knows_class(without_media(b)));
    assert(knows_class(c));
    let d = c.set(key::NVIM_BRIDGE_AVAILABLE@, off());
    assert(knows_class(without_nvim(d)));
    let e = without_pi(without_nvim(d));
    assert(knows_class(e));
    assert(knows_class(with_no_terminal(e)));
}

// ---------------------------------------------------------------------------
// What was noted is read back
// ---------------------------------------------------------------------------

/// Whether a key holds a number, or one that is equal to it.
pub open spec fn holds_number(s: StoreView, k: Seq<char>, n: Number) -> bool {
    s.number_at(k) matches Some(m) && (m == n || m.same_value(n))
}

/// A text that was set is read.
broadcast proof fn lemma_reads_text(s: StoreView, k: Seq<char>, t: Seq<char>)
    ensures
        #[trigger] s.set(k, ValueView::Text(t)).text_at(k) == Some(t),
{
    reveal(StoreView::set);
}

/// A truth value that was set is read.
broadcast proof fn lemma_reads_bool(s: StoreView, k: Seq<char>, b: bool)
    ensures
        #[trigger] s.set(k, ValueView::Bool(b)).bool_at(k) == Some(b),
{
    reveal(StoreView::set);
}

/// A number that was set is read, or one that is equal to it.
broadcast proof fn lemma_reads_number(s: StoreView, k: Seq<char>, n: Number)
    ensures
        (#[trigger] s.set(k, ValueView::Number(n)).number_at(k)) is Some,
        holds_number(s.set(k, ValueView::Number(n)), k, n),
{
    reveal(StoreView::set);
}

/// A key that was not set holds what it held.
broadcast proof fn lemma_other_key(s: StoreView, k: Seq<char>, v: ValueView, other: Seq<char>)
    requires
        k != other,
    ensures
        #![trigger s.set(k, v).text_at(other)]
        #![trigger s.set(k, v).bool_at(other)]
        #![trigger s.set(k, v).number_at(other)]
        s.set(k, v).text_at(other) == s.text_at(other),
        s.set(k, v).bool_at(other) == s.bool_at(other),
        s.set(k, v).number_at(other) == s.number_at(other),
{
    reveal(StoreView::set);
}

/// The focused window that was noted is the one that is read.
pub proof fn law_focus_is_read_back(s: StoreView, class: Seq<char>, title: Seq<char>)
    ensures
        with_focus(s, class, title).text_at(key::CONTEXT_FOCUS_CLASS@) == Some(class),
        with_focus(s, class, title).text_at(key::CONTEXT_FOCUS_TITLE@) == Some(title),
{
    broadcast use {lemma_reads_text, lemma_reads_bool, lemma_reads_number, lemma_other_key};

    key::law_class_key_is_unique();
}

/// The player that was noted is the one that is read.
pub proof fn law_media_is_read_back(s: StoreView, m: MediaView)
    ensures
        with_media(s, m).text_at(key::MEDIA_ACTIVE_PLAYER@) == Some(m.player),
        with_media(s, m).text_at(key::MEDIA_ACTIVE_TRACK_ID@) == Some(m.track_id),
        with_media(s, m).text_at(key::MEDIA_ACTIVE_STATUS@) == Some(m.status),
        with_media(s, m).text_at(key::MEDIA_ACTIVE_TITLE@) == Some(m.title),
        with_media(s, m).text_at(key::MEDIA_ACTIVE_ART_URL@) == Some(m.art_url),
        holds_number(with_media(s, m), key::MEDIA_ACTIVE_LENGTH@, m.length_us),
        holds_number(with_media(s, m), key::MEDIA_ACTIVE_POSITION@, m.position_us),
        with_media(s, m).bool_at(key::CHROMIUM_MEDIA_ACTIVE@) == Some(
            titles::chromium_player(m.player),
        ),
{
    broadcast use {lemma_reads_text, lemma_reads_bool, lemma_reads_number, lemma_other_key};

    key::law_media_keys_differ();
}

/// The tabs that were noted are those that are read.
pub proof fn law_tabs_are_read_back(s: StoreView, t: TabsView)
    ensures
        with_tabs(s, t).bool_at(key::CHROMIUM_TABS_AVAILABLE@) == Some(t.available),
        with_tabs(s, t).text_at(key::CHROMIUM_TABS_JSON@) == Some(t.tabs_json),
        holds_number(with_tabs(s, t), key::CHROMIUM_TABS_COUNT@, number::double_of(t.count as nat)),
{
    broadcast use {lemma_reads_text, lemma_reads_bool, lemma_reads_number, lemma_other_key};

    key::law_tabs_keys_differ();
}

/// The agent that was noted is the one that is read.
pub proof fn law_agent_is_read_back(s: StoreView, p: PiView)
    ensures
        with_agent(s, p).text_at(key::PI_MODEL@) == Some(p.model.unwrap_or(Seq::empty())),
        with_agent(s, p).text_at(key::PI_PROVIDER@) == Some(p.provider.unwrap_or(Seq::empty())),
        with_agent(s, p).text_at(key::PI_THINKING@) == Some(p.thinking.unwrap_or(Seq::empty())),
        with_agent(s, p).text_at(key::PI_WORKFLOW_MODE@) == Some(
            p.workflow_mode.unwrap_or(Seq::empty()),
        ),
{
    broadcast use {lemma_reads_text, lemma_reads_bool, lemma_reads_number, lemma_other_key};

    key::law_pi_keys_differ();
}

/// What was noted of Neovim's buffer and its debugger is read.
proof fn lemma_nvim_editor_is_read_back(s: StoreView, n: NvimView)
    ensures
        with_nvim_state_editor(s, n).text_at(key::NVIM_BRIDGE_SOCKET@) == Some(n.socket),
        holds_number(with_nvim_state_editor(s, n), key::NVIM_PID@, number::double_of(n.pid as nat)),
        with_nvim_state_editor(s, n).text_at(key::NVIM_CWD@) == Some(n.cwd.unwrap_or(Seq::empty())),
        with_nvim_state_editor(s, n).text_at(key::NVIM_FILE@) == Some(n.file.unwrap_or(Seq::empty())),
        with_nvim_state_editor(s, n).text_at(key::NVIM_FILETYPE@) == Some(
            n.filetype.unwrap_or(Seq::empty()),
        ),
        with_nvim_state_editor(s, n).text_at(key::NVIM_MODE@) == Some(n.mode.unwrap_or(Seq::empty())),
        with_nvim_state_editor(s, n).bool_at(key::NVIM_DAP_ACTIVE@) == Some(n.dap.active),
        with_nvim_state_editor(s, n).text_at(key::NVIM_DAP_STATE@) == Some(
            n.dap.state.unwrap_or(Seq::empty()),
        ),
        with_nvim_state_editor(s, n).text_at(key::NVIM_DAP_ADAPTER@) == Some(
            n.dap.adapter.unwrap_or(Seq::empty()),
        ),
        with_nvim_state_editor(s, n).text_at(key::NVIM_DAP_SESSION@) == Some(
            n.dap.session.unwrap_or(Seq::empty()),
        ),
{
    broadcast use {lemma_reads_text, lemma_reads_bool, lemma_reads_number, lemma_other_key};

    key::law_nvim_keys_differ();
}

/// What was noted of Neovim's windows is read, and the rest is as it was.
proof fn lemma_nvim_windows_are_read_back(s: StoreView, n: NvimView)
    ensures
        with_nvim_state_windows(s, n).bool_at(key::NVIM_DAPUI_AVAILABLE@) == Some(n.dapui.available),
        with_nvim_state_windows(s, n).bool_at(key::NVIM_DAPUI_VISIBLE@) == Some(n.dapui.visible),
        with_nvim_state_windows(s, n).bool_at(key::NVIM_NEOTEST_AVAILABLE@) == Some(n.neotest.available),
        with_nvim_state_windows(s, n).bool_at(key::NVIM_NEOTEST_SUMMARY_VISIBLE@) == Some(
            n.neotest.summary_visible,
        ),
        holds_number(
            with_nvim_state_windows(s, n),
            key::NVIM_NEOTEST_UPDATED_AT_MS@,
            number::double_of_int(n.neotest.updated_at_ms.unwrap_or(0) as int),
        ),
        with_nvim_state_windows(s, n).bool_at(key::NVIM_DBUI_AVAILABLE@) == Some(n.dbui.available),
        with_nvim_state_windows(s, n).bool_at(key::NVIM_DBUI_VISIBLE@) == Some(n.dbui.visible),
        with_nvim_state_windows(s, n).bool_at(key::NVIM_DBUI_IN_BUFFER@) == Some(n.dbui.in_buffer),
        with_nvim_state_windows(s, n).text_at(key::NVIM_DBUI_CONNECTIONS_JSON@) == Some(
            nvim_bridge::connections_json(n.dbui.connections),
        ),
{
    broadcast use {lemma_reads_text, lemma_reads_bool, lemma_reads_number, lemma_other_key};

    key::law_nvim_keys_differ();
}

/// What was noted of Neovim's buffer and its debugger stays when its windows are noted.
proof fn lemma_nvim_editor_stays(s: StoreView, n: NvimView)
    ensures
        with_nvim_state_windows(s, n).text_at(key::NVIM_BRIDGE_SOCKET@) == s.text_at(key::NVIM_BRIDGE_SOCKET@),
        with_nvim_state_windows(s, n).text_at(key::NVIM_CWD@) == s.text_at(key::NVIM_CWD@),
        with_nvim_state_windows(s, n).text_at(key::NVIM_FILE@) == s.text_at(key::NVIM_FILE@),
        with_nvim_state_windows(s, n).text_at(key::NVIM_FILETYPE@) == s.text_at(key::NVIM_FILETYPE@),
        with_nvim_state_windows(s, n).text_at(key::NVIM_MODE@) == s.text_at(key::NVIM_MODE@),
        with_nvim_state_windows(s, n).bool_at(key::NVIM_DAP_ACTIVE@) == s.bool_at(key::NVIM_DAP_ACTIVE@),
        with_nvim_state_windows(s, n).text_at(key::NVIM_DAP_STATE@) == s.text_at(key::NVIM_DAP_STATE@),
        with_nvim_state_windows(s, n).text_at(key::NVIM_DAP_ADAPTER@) == s.text_at(key::NVIM_DAP_ADAPTER@),
        with_nvim_state_windows(s, n).text_at(key::NVIM_DAP_SESSION@) == s.text_at(key::NVIM_DAP_SESSION@),
        with_nvim_state_windows(s, n).number_at(key::NVIM_PID@) == s.number_at(key::NVIM_PID@),
{
    broadcast use lemma_other_key;

    key::law_nvim_keys_differ();
}

/// The Neovim that was noted is the one that is read.
pub proof fn law_nvim_is_read_back(s: StoreView, n: NvimView)
    ensures
        with_nvim_state(s, n).text_at(key::NVIM_BRIDGE_SOCKET@) == Some(n.socket),
        holds_number(with_nvim_state(s, n), key::NVIM_PID@, number::double_of(n.pid as nat)),
        with_nvim_state(s, n).text_at(key::NVIM_CWD@) == Some(n.cwd.unwrap_or(Seq::empty())),
        with_nvim_state(s, n).text_at(key::NVIM_FILE@) == Some(n.file.unwrap_or(Seq::empty())),
        with_nvim_state(s, n).text_at(key::NVIM_FILETYPE@) == Some(
            n.filetype.unwrap_or(Seq::empty()),
        ),
        with_nvim_state(s, n).text_at(key::NVIM_MODE@) == Some(n.mode.unwrap_or(Seq::empty())),
        with_nvim_state(s, n).bool_at(key::NVIM_DAP_ACTIVE@) == Some(n.dap.active),
        with_nvim_state(s, n).text_at(key::NVIM_DAP_STATE@) == Some(
            n.dap.state.unwrap_or(Seq::empty()),
        ),
        with_nvim_state(s, n).text_at(key::NVIM_DAP_ADAPTER@) == Some(
            n.dap.adapter.unwrap_or(Seq::empty()),
        ),
        with_nvim_state(s, n).text_at(key::NVIM_DAP_SESSION@) == Some(
            n.dap.session.unwrap_or(Seq::empty()),
        ),
        with_nvim_state(s, n).bool_at(key::NVIM_DAPUI_AVAILABLE@) == Some(n.dapui.available),
        with_nvim_state(s, n).bool_at(key::NVIM_DAPUI_VISIBLE@) == Some(n.dapui.visible),
        with_nvim_state(s, n).bool_at(key::NVIM_NEOTEST_AVAILABLE@) == Some(n.neotest.available),
        with_nvim_state(s, n).bool_at(key::NVIM_NEOTEST_SUMMARY_VISIBLE@) == Some(
            n.neotest.summary_visible,
        ),
        holds_number(
            with_nvim_state(s, n),
            key::NVIM_NEOTEST_UPDATED_AT_MS@,
            number::double_of_int(n.neotest.updated_at_ms.unwrap_or(0) as int),
        ),
        with_nvim_state(s, n).bool_at(key::NVIM_DBUI_AVAILABLE@) == Some(n.dbui.available),
        with_nvim_state(s, n).bool_at(key::NVIM_DBUI_VISIBLE@) == Some(n.dbui.visible),
        with_nvim_state(s, n).bool_at(key::NVIM_DBUI_IN_BUFFER@) == Some(n.dbui.in_buffer),
        with_nvim_state(s, n).text_at(key::NVIM_DBUI_CONNECTIONS_JSON@) == Some(
            nvim_bridge::connections_json(n.dbui.connections),
        ),
{
    let a = with_nvim_state_editor(s, n);
    lemma_nvim_editor_is_read_back(s, n);
    lemma_nvim_windows_are_read_back(a, n);
    lemma_nvim_editor_stays(a, n);
}

/// The tmux pane that was noted is the one that is read.
pub proof fn law_tmux_is_read_back(s: StoreView, p: TmuxPaneView)
    ensures
        holds_number(
            with_tmux(s, p),
            key::TERMINAL_TMUX_CLIENT_PID@,
            number::double_of(p.client_pid.unwrap_or(0) as nat),
        ),
        with_tmux(s, p).text_at(key::TERMINAL_TMUX_CLIENT_TTY@) == Some(p.client_tty),
        with_tmux(s, p).text_at(key::TERMINAL_TMUX_SESSION@) == Some(p.session),
        with_tmux(s, p).text_at(key::TERMINAL_TMUX_WINDOW@) == Some(p.window),
        with_tmux(s, p).text_at(key::TERMINAL_TMUX_PANE_INDEX@) == Some(p.pane_index),
        with_tmux(s, p).text_at(key::TERMINAL_TMUX_PANE_ID@) == Some(p.pane_id),
        holds_number(
            with_tmux(s, p),
            key::TERMINAL_TMUX_PANE_PID@,
            number::double_of(p.pane_pid.unwrap_or(0) as nat),
        ),
        with_tmux(s, p).text_at(key::TERMINAL_TMUX_PANE_COMMAND@) == Some(p.pane_command),
        with_tmux(s, p).text_at(key::TERMINAL_TMUX_PANE_PATH@) == Some(p.pane_path),
        with_tmux(s, p).text_at(key::TERMINAL_TMUX_PANE_TITLE@) == Some(p.pane_title),
{
    broadcast use {lemma_reads_text, lemma_reads_bool, lemma_reads_number, lemma_other_key};

    key::law_terminal_keys_differ();
}

/// What is known of the terminal besides tmux is read as it was noted.
proof fn lemma_terminal_app_is_read_back(s: StoreView, t: TerminalView)
    ensures
        with_terminal_app(s, t).bool_at(key::TERMINAL_AVAILABLE@) == Some(t.available),
        with_terminal_app(s, t).text_at(key::TERMINAL_NAME@) == Some(t.terminal),
        with_terminal_app(s, t).text_at(key::TERMINAL_KIND@) == Some(t.kind.name()),
        holds_number(
            with_terminal_app(s, t),
            key::TERMINAL_ROOT_PID@,
            number::double_of(t.root_pid.unwrap_or(0) as nat),
        ),
        with_terminal_app(s, t).text_at(key::TERMINAL_COMMAND@) == Some(t.command),
        with_terminal_app(s, t).text_at(key::TERMINAL_CWD@) == Some(t.cwd),
        with_terminal_app(s, t).text_at(key::TERMINAL_APP@) == Some(t.app.name()),
        holds_number(
            with_terminal_app(s, t),
            key::TERMINAL_APP_PID@,
            number::double_of(t.app_pid.unwrap_or(0) as nat),
        ),
        holds_number(
            with_terminal_app(s, t),
            key::TERMINAL_NVIM_PID@,
            number::double_of(t.nvim_pid.unwrap_or(0) as nat),
        ),
{
    broadcast use {lemma_reads_text, lemma_reads_bool, lemma_reads_number, lemma_other_key};

    key::law_terminal_keys_differ();
}

/// The terminal that was noted is the one that is read.
pub proof fn law_terminal_is_read_back(s: StoreView, t: TerminalView)
    ensures
        with_terminal(s, t).bool_at(key::TERMINAL_AVAILABLE@) == Some(t.available),
        with_terminal(s, t).text_at(key::TERMINAL_NAME@) == Some(t.terminal),
        with_terminal(s, t).text_at(key::TERMINAL_KIND@) == Some(t.kind.name()),
        holds_number(
            with_terminal(s, t),
            key::TERMINAL_ROOT_PID@,
            number::double_of(t.root_pid.unwrap_or(0) as nat),
        ),
        with_terminal(s, t).text_at(key::TERMINAL_COMMAND@) == Some(t.command),
        with_terminal(s, t).text_at(key::TERMINAL_CWD@) == Some(t.cwd),
        with_terminal(s, t).text_at(key::TERMINAL_APP@) == Some(t.app.name()),
        holds_number(
            with_terminal(s, t),
            key::TERMINAL_APP_PID@,
            number::double_of(t.app_pid.unwrap_or(0) as nat),
        ),
        holds_number(
            with_terminal(s, t),
            key::TERMINAL_NVIM_PID@,
            number::double_of(t.nvim_pid.unwrap_or(0) as nat),
        ),
{
    broadcast use lemma_other_key;

    key::law_terminal_keys_differ();
    lemma_terminal_app_is_read_back(s, t);
}

/// Where no player is noted, nothing is read of one.
pub proof fn law_media_is_forgotten(s: StoreView)
    ensures
        without_media(s).text_at(key::MEDIA_ACTIVE_PLAYER@) == Some(Seq::<char>::empty()),
        without_media(s).text_at(key::MEDIA_ACTIVE_TRACK_ID@) == Some(Seq::<char>::empty()),
        without_media(s).text_at(key::MEDIA_ACTIVE_STATUS@) == Some(Seq::<char>::empty()),
        without_media(s).text_at(key::MEDIA_ACTIVE_TITLE@) == Some(Seq::<char>::empty()),
        without_media(s).text_at(key::MEDIA_ACTIVE_ART_URL@) == Some(Seq::<char>::empty()),
        without_media(s).bool_at(key::CHROMIUM_MEDIA_ACTIVE@) == Some(false),
        holds_number(without_media(s), key::MEDIA_ACTIVE_LENGTH@, Number { bits: 0 }),
        holds_number(without_media(s), key::MEDIA_ACTIVE_POSITION@, Number { bits: 0 }),
{
    broadcast use {lemma_reads_text, lemma_reads_bool, lemma_reads_number, lemma_other_key};

    key::law_media_keys_differ();
}

/// Where no agent is noted, nothing is read of one.
pub proof fn law_agent_is_forgotten(s: StoreView)
    ensures
        without_pi(s).text_at(key::PI_MODEL@) == Some(Seq::<char>::empty()),
        without_pi(s).text_at(key::PI_PROVIDER@) == Some(Seq::<char>::empty()),
        without_pi(s).text_at(key::PI_THINKING@) == Some(Seq::<char>::empty()),
        without_pi(s).text_at(key::PI_WORKFLOW_MODE@) == Some(Seq::<char>::empty()),
{
    broadcast use {lemma_reads_text, lemma_reads_bool, lemma_reads_number, lemma_other_key};

    key::law_pi_keys_differ();
}

/// Where no tmux is noted, nothing is read of one.
pub proof fn law_tmux_is_forgotten(s: StoreView)
    ensures
        without_tmux(s).text_at(key::TERMINAL_TMUX_CLIENT_TTY@) == Some(Seq::<char>::empty()),
        without_tmux(s).text_at(key::TERMINAL_TMUX_SESSION@) == Some(Seq::<char>::empty()),
        without_tmux(s).text_at(key::TERMINAL_TMUX_WINDOW@) == Some(Seq::<char>::empty()),
        without_tmux(s).text_at(key::TERMINAL_TMUX_PANE_INDEX@) == Some(Seq::<char>::empty()),
        without_tmux(s).text_at(key::TERMINAL_TMUX_PANE_ID@) == Some(Seq::<char>::empty()),
        without_tmux(s).text_at(key::TERMINAL_TMUX_PANE_COMMAND@) == Some(Seq::<char>::empty()),
        without_tmux(s).text_at(key::TERMINAL_TMUX_PANE_PATH@) == Some(Seq::<char>::empty()),
        without_tmux(s).text_at(key::TERMINAL_TMUX_PANE_TITLE@) == Some(Seq::<char>::empty()),
        holds_number(without_tmux(s), key::TERMINAL_TMUX_CLIENT_PID@, Number { bits: 0 }),
        holds_number(without_tmux(s), key::TERMINAL_TMUX_PANE_PID@, Number { bits: 0 }),
{
    broadcast use {lemma_reads_text, lemma_reads_bool, lemma_reads_number, lemma_other_key};

    key::law_terminal_keys_differ();
}

/// Where no Neovim is noted, nothing is read of its buffer and its debugger.
proof fn lemma_nvim_editor_is_forgotten(s: StoreView)
    ensures
        without_nvim_editor(s).text_at(key::NVIM_BRIDGE_SOCKET@) == Some(Seq::<char>::empty()),
        without_nvim_editor(s).text_at(key::NVIM_CWD@) == Some(Seq::<char>::empty()),
        without_nvim_editor(s).text_at(key::NVIM_FILE@) == Some(Seq::<char>::empty()),
        without_nvim_editor(s).text_at(key::NVIM_FILETYPE@) == Some(Seq::<char>::empty()),
        without_nvim_editor(s).text_at(key::NVIM_MODE@) == Some(Seq::<char>::empty()),
        without_nvim_editor(s).text_at(key::NVIM_DAP_STATE@) == Some(Seq::<char>::empty()),
        without_nvim_editor(s).text_at(key::NVIM_DAP_ADAPTER@) == Some(Seq::<char>::empty()),
        without_nvim_editor(s).text_at(key::NVIM_DAP_SESSION@) == Some(Seq::<char>::empty()),
        without_nvim_editor(s).bool_at(key::NVIM_DAP_ACTIVE@) == Some(false),
        holds_number(without_nvim_editor(s), key::NVIM_PID@, Number { bits: 0 }),
{
    broadcast use {lemma_reads_text, lemma_reads_bool, lemma_reads_number, lemma_other_key};

    key::law_nvim_keys_differ();
}

/// Where no Neovim is noted, nothing is read of its windows.
proof fn lemma_nvim_windows_are_forgotten(s: StoreView)
    ensures
        without_nvim_windows(s).bool_at(key::NVIM_DAPUI_AVAILABLE@) == Some(false),
        without_nvim_windows(s).bool_at(key::NVIM_DAPUI_VISIBLE@) == Some(false),
        without_nvim_windows(s).bool_at(key::NVIM_NEOTEST_AVAILABLE@) == Some(false),
        without_nvim_windows(s).bool_at(key::NVIM_NEOTEST_SUMMARY_VISIBLE@) == Some(false),
        without_nvim_windows(s).bool_at(key::NVIM_DBUI_AVAILABLE@) == Some(false),
        without_nvim_windows(s).bool_at(key::NVIM_DBUI_VISIBLE@) == Some(false),
        without_nvim_windows(s).bool_at(key::NVIM_DBUI_IN_BUFFER@) == Some(false),
        holds_number(without_nvim_windows(s), key::NVIM_NEOTEST_UPDATED_AT_MS@, Number { bits: 0 }),
        without_nvim_windows(s).text_at(key::NVIM_DBUI_CONNECTIONS_JSON@) == Some("[]"@),
{
    broadcast use {lemma_reads_text, lemma_reads_bool, lemma_reads_number, lemma_other_key};

    key::law_nvim_keys_differ();
}

/// Noting that Neovim has no windows leaves what is known of its buffer and its debugger.
proof fn lemma_nvim_editor_stays_forgotten(s: StoreView)
    ensures
        without_nvim_windows(s).text_at(key::NVIM_BRIDGE_SOCKET@) == s.text_at(key::NVIM_BRIDGE_SOCKET@),
        without_nvim_windows(s).text_at(key::NVIM_CWD@) == s.text_at(key::NVIM_CWD@),
        without_nvim_windows(s).text_at(key::NVIM_FILE@) == s.text_at(key::NVIM_FILE@),
        without_nvim_windows(s).text_at(key::NVIM_FILETYPE@) == s.text_at(key::NVIM_FILETYPE@),
        without_nvim_windows(s).text_at(key::NVIM_MODE@) == s.text_at(key::NVIM_MODE@),
        without_nvim_windows(s).text_at(key::NVIM_DAP_STATE@) == s.text_at(key::NVIM_DAP_STATE@),
        without_nvim_windows(s).text_at(key::NVIM_DAP_ADAPTER@) == s.text_at(key::NVIM_DAP_ADAPTER@),
        without_nvim_windows(s).text_at(key::NVIM_DAP_SESSION@) == s.text_at(key::NVIM_DAP_SESSION@),
        without_nvim_windows(s).bool_at(key::NVIM_DAP_ACTIVE@) == s.bool_at(key::NVIM_DAP_ACTIVE@),
        without_nvim_windows(s).number_at(key::NVIM_PID@) == s.number_at(key::NVIM_PID@),
{
    broadcast use lemma_other_key;

    key::law_nvim_keys_differ();
}

/// Where no Neovim is noted, nothing is read of one.
pub proof fn law_nvim_is_forgotten(s: StoreView)
    ensures
        without_nvim(s).text_at(key::NVIM_BRIDGE_SOCKET@) == Some(Seq::<char>::empty()),
        without_nvim(s).text_at(key::NVIM_CWD@) == Some(Seq::<char>::empty()),
        without_nvim(s).text_at(key::NVIM_FILE@) == Some(Seq::<char>::empty()),
        without_nvim(s).text_at(key::NVIM_FILETYPE@) == Some(Seq::<char>::empty()),
        without_nvim(s).text_at(key::NVIM_MODE@) == Some(Seq::<char>::empty()),
        without_nvim(s).text_at(key::NVIM_DAP_STATE@) == Some(Seq::<char>::empty()),
        without_nvim(s).text_at(key::NVIM_DAP_ADAPTER@) == Some(Seq::<char>::empty()),
        without_nvim(s).text_at(key::NVIM_DAP_SESSION@) == Some(Seq::<char>::empty()),
        without_nvim(s).bool_at(key::NVIM_DAP_ACTIVE@) == Some(false),
        without_nvim(s).bool_at(key::NVIM_DAPUI_AVAILABLE@) == Some(false),
        without_nvim(s).bool_at(key::NVIM_DAPUI_VISIBLE@) == Some(false),
        without_nvim(s).bool_at(key::NVIM_NEOTEST_AVAILABLE@) == Some(false),
        without_nvim(s).bool_at(key::NVIM_NEOTEST_SUMMARY_VISIBLE@) == Some(false),
        without_nvim(s).bool_at(key::NVIM_DBUI_AVAILABLE@) == Some(false),
        without_nvim(s).bool_at(key::NVIM_DBUI_VISIBLE@) == Some(false),
        without_nvim(s).bool_at(key::NVIM_DBUI_IN_BUFFER@) == Some(false),
        holds_number(without_nvim(s), key::NVIM_PID@, Number { bits: 0 }),
        holds_number(without_nvim(s), key::NVIM_NEOTEST_UPDATED_AT_MS@, Number { bits: 0 }),
        without_nvim(s).text_at(key::NVIM_DBUI_CONNECTIONS_JSON@) == Some("[]"@),
{
    let a = without_nvim_editor(s);
    lemma_nvim_editor_is_forgotten(s);
    lemma_nvim_windows_are_forgotten(a);
    lemma_nvim_editor_stays_forgotten(a);
}

/// The place of the active tab is noted as it is, and minus one where no tab is active.
pub proof fn law_active_tab_is_read_back(s: StoreView, t: TabsView)
    ensures
        t.active_index matches Some(i) ==> holds_number(
            with_tabs(s, t),
            key::CHROMIUM_TABS_ACTIVE_INDEX@,
            number::double_of(i as nat),
        ),
        t.active_index is None ==> holds_number(
            with_tabs(s, t),
            key::CHROMIUM_TABS_ACTIVE_INDEX@,
            Number { bits: 0xBFF0_0000_0000_0000 },
        ),
{
    broadcast use {lemma_reads_text, lemma_reads_bool, lemma_reads_number, lemma_other_key};

    key::law_tabs_keys_differ();
}

/// The levels of the lights that were noted are those that are read.
pub proof fn law_lights_are_read_back(s: StoreView, brightness: Number, kbd: Number)
    ensures
        holds_number(with_lights(s, brightness, kbd), key::HARDWARE_BRIGHTNESS@, brightness),
        holds_number(with_lights(s, brightness, kbd), key::HARDWARE_KBD_ILLUM@, kbd),
{
    broadcast use {lemma_reads_text, lemma_reads_bool, lemma_reads_number, lemma_other_key};

    reveal_strlit("hardware.brightness");
    reveal_strlit("hardware.kbd_illum");
    assert(key::HARDWARE_BRIGHTNESS@.len() == 19);
    assert(key::HARDWARE_KBD_ILLUM@.len() == 18);
}

/// Noting the player leaves everything else that is known.
pub proof fn law_media_leaves_the_rest(s: StoreView, m: MediaView, other: Seq<char>)
    requires
        other != key::MEDIA_ACTIVE_PLAYER@,
        other != key::MEDIA_ACTIVE_TRACK_ID@,
        other != key::MEDIA_ACTIVE_STATUS@,
        other != key::MEDIA_ACTIVE_TITLE@,
        other != key::MEDIA_ACTIVE_ART_URL@,
        other != key::MEDIA_ACTIVE_LENGTH@,
        other != key::MEDIA_ACTIVE_POSITION@,
        other != key::CHROMIUM_MEDIA_ACTIVE@,
    ensures
        with_media(s, m).text_at(other) == s.text_at(other),
        with_media(s, m).bool_at(other) == s.bool_at(other),
        with_media(s, m).number_at(other) == s.number_at(other),
        without_media(s).text_at(other) == s.text_at(other),
        without_media(s).bool_at(other) == s.bool_at(other),
        without_media(s).number_at(other) == s.number_at(other),
{
    broadcast use lemma_other_key;

}

/// Noting the tabs leaves everything else that is known.
pub proof fn law_tabs_leave_the_rest(s: StoreView, t: TabsView, other: Seq<char>)
    requires
        other != key::CHROMIUM_TABS_AVAILABLE@,
        other != key::CHROMIUM_TABS_JSON@,
        other != key::CHROMIUM_TABS_COUNT@,
        other != key::CHROMIUM_TABS_ACTIVE_INDEX@,
    ensures
        with_tabs(s, t).text_at(other) == s.text_at(other),
        with_tabs(s, t).bool_at(other) == s.bool_at(other),
        with_tabs(s, t).number_at(other) == s.number_at(other),
{
    broadcast use lemma_other_key;

}

/// Noting the agent leaves everything else that is known.
pub proof fn law_agent_leaves_the_rest(s: StoreView, p: PiView, other: Seq<char>)
    requires
        other != key::PI_MODEL@,
        other != key::PI_PROVIDER@,
        other != key::PI_THINKING@,
        other != key::PI_WORKFLOW_MODE@,
    ensures
        with_agent(s, p).text_at(other) == s.text_at(other),
        with_agent(s, p).bool_at(other) == s.bool_at(other),
        with_agent(s, p).number_at(other) == s.number_at(other),
        without_pi(s).text_at(other) == s.text_at(other),
        without_pi(s).bool_at(other) == s.bool_at(other),
        without_pi(s).number_at(other) == s.number_at(other),
{
    broadcast use lemma_other_key;

}

/// Noting the focused window leaves everything else that is known.
pub proof fn law_focus_leaves_the_rest(s: StoreView, class: Seq<char>, title: Seq<char>, other: Seq<char>)
    requires
        other != key::CONTEXT_FOCUS_CLASS@,
        other != key::CONTEXT_FOCUS_TITLE@,
    ensures
        with_focus(s, class, title).text_at(other) == s.text_at(other),
        with_focus(s, class, title).bool_at(other) == s.bool_at(other),
        with_focus(s, class, title).number_at(other) == s.number_at(other),
{
    broadcast use lemma_other_key;

}

/// Forgetting tmux leaves what is not of the terminal.
proof fn lemma_tmux_is_apart(s: StoreView, other: Seq<char>)
    requires
        other.len() > 0,
        other[0] != 't',
    ensures
        without_tmux(s).text_at(other) == s.text_at(other),
        without_tmux(s).bool_at(other) == s.bool_at(other),
{
    broadcast use lemma_other_key;

    key::lemma_first_letters();
}

/// Forgetting the terminal leaves what is not of it.
proof fn lemma_terminal_is_apart(s: StoreView, other: Seq<char>)
    requires
        other.len() > 0,
        other[0] != 't',
    ensures
        with_no_terminal(s).text_at(other) == s.text_at(other),
        with_no_terminal(s).bool_at(other) == s.bool_at(other),
{
    broadcast use lemma_other_key;

    key::lemma_first_letters();
}

/// Forgetting the agent leaves what is not of it.
proof fn lemma_agent_is_apart(s: StoreView, other: Seq<char>)
    requires
        other.len() > 0,
        other[0] != 'p',
    ensures
        without_pi(s).text_at(other) == s.text_at(other),
        without_pi(s).bool_at(other) == s.bool_at(other),
{
    broadcast use lemma_other_key;

    key::lemma_first_letters();
}

/// Forgetting Neovim's buffer leaves what is not of Neovim.
proof fn lemma_editor_is_apart(s: StoreView, other: Seq<char>)
    requires
        other.len() > 0,
        other[0] != 'n',
    ensures
        without_nvim_editor(s).text_at(other) == s.text_at(other),
        without_nvim_editor(s).bool_at(other) == s.bool_at(other),
{
    broadcast use lemma_other_key;

    key::lemma_first_letters();
}

/// Forgetting Neovim's windows leaves what is not of Neovim.
proof fn lemma_windows_are_apart(s: StoreView, other: Seq<char>)
    requires
        other.len() > 0,
        other[0] != 'n',
    ensures
        without_nvim_windows(s).text_at(other) == s.text_at(other),
        without_nvim_windows(s).bool_at(other) == s.bool_at(other),
{
    broadcast use lemma_other_key;

    key::lemma_first_letters();
}

/// At the start no window is focused, nothing plays, no browser, Neovim or agent is there, and
/// no terminal is focused.
pub proof fn law_nothing_is_known_at_start(s: StoreView, brightness: Number, kbd: Number)
    ensures
        ({
            let start = initial_values(s, brightness, kbd);
            &&& start.text_at("context.focus.class"@) == Some(Seq::<char>::empty())
            &&& start.text_at("context.focus.title"@) == Some(Seq::<char>::empty())
            &&& start.text_at("media.active.player"@) == Some(Seq::<char>::empty())
            &&& start.text_at("media.active.title"@) == Some(Seq::<char>::empty())
            &&& start.bool_at("chromium.media.active"@) == Some(false)
            &&& start.bool_at("chromium.tabs.available"@) == Some(false)
            &&& start.text_at("chromium.tabs.json"@) == Some("[]"@)
            &&& start.bool_at("nvim.dap.active"@) == Some(false)
            &&& start.bool_at("nvim.dapui.visible"@) == Some(false)
            &&& start.bool_at("nvim.neotest.summary_visible"@) == Some(false)
            &&& start.bool_at("nvim.dbui.visible"@) == Some(false)
            &&& start.bool_at("nvim.dbui.in_buffer"@) == Some(false)
            &&& start.text_at("pi.model"@) == Some(Seq::<char>::empty())
            &&& start.text_at("pi.thinking"@) == Some(Seq::<char>::empty())
            &&& start.text_at("pi.workflow.mode"@) == Some(Seq::<char>::empty())
            &&& start.bool_at("terminal.available"@) == Some(false)
            &&& start.text_at("terminal.name"@) == Some(Seq::<char>::empty())
            &&& start.text_at("terminal.app"@) == Some(Seq::<char>::empty())
        }),
{
    key::lemma_first_letters();
    let a = with_desktop(s, brightness, kbd);
    let b = without_media(a);
    let c = without_tabs(b);
    let d = c.set(key::NVIM_BRIDGE_AVAILABLE@, off());
    let e = without_nvim(d);
    let f = without_pi(e);
    let g = with_no_terminal(f);
    lemma_start_focus(s, brightness, kbd);
    law_media_is_forgotten(a);
    law_nvim_is_forgotten(d);
    law_agent_is_forgotten(e);
    lemma_start_terminal(f);
    lemma_start_tabs(b);
    lemma_terminal_beside_tmux(g);
    assert forall|k: Seq<char>|
        k.len() > 0 && (k[0] == 'c' || k[0] == 'm') implies #[trigger] without_tmux(g).text_at(k)
        == c.text_at(k) && without_tmux(g).bool_at(k) == c.bool_at(k) by {
        lemma_late_groups_are_apart(c, k);
    }
    assert forall|k: Seq<char>|
        k.len() > 0 && (k[0] == 'c' || k[0] == 'm') implies #[trigger] without_tmux(g).bool_at(k)
        == c.bool_at(k) by {
        lemma_late_groups_are_apart(c, k);
    }
    assert forall|k: Seq<char>| k.len() > 0 && k[0] == 'n' implies #[trigger] without_tmux(
        g,
    ).bool_at(k) == e.bool_at(k) by {
        lemma_tmux_is_apart(g, k);
        lemma_terminal_is_apart(f, k);
        lemma_agent_is_apart(e, k);
    }
    assert forall|k: Seq<char>| k.len() > 0 && k[0] == 'p' implies #[trigger] without_tmux(
        g,
    ).text_at(k) == f.text_at(k) by {
        lemma_tmux_is_apart(g, k);
        lemma_terminal_is_apart(f, k);
    }
    lemma_tabs_beside_media(b);
    lemma_media_beside_focus(a);
}

proof fn lemma_late_groups_are_apart(c: StoreView, k: Seq<char>)
    requires
        k.len() > 0,
        k[0] == 'c' || k[0] == 'm',
    ensures
        ({
            let d = c.set(key::NVIM_BRIDGE_AVAILABLE@, off());
            let g = with_no_terminal(without_pi(without_nvim(d)));
            &&& without_tmux(g).text_at(k) == c.text_at(k)
            &&& without_tmux(g).bool_at(k) == c.bool_at(k)
        }),
{
    broadcast use lemma_other_key;

    key::lemma_first_letters();
    let d = c.set(key::NVIM_BRIDGE_AVAILABLE@, off());
    let e = without_nvim(d);
    let f = without_pi(e);
    let g = with_no_terminal(f);
    assert(d.text_at(k) == c.text_at(k) && d.bool_at(k) == c.bool_at(k));
    lemma_editor_is_apart(d, k);
    lemma_windows_are_apart(without_nvim_editor(d), k);
    lemma_agent_is_apart(e, k);
    lemma_terminal_is_apart(f, k);
    lemma_tmux_is_apart(g, k);
}

proof fn lemma_start_focus(s: StoreView, brightness: Number, kbd: Number)
    ensures
        with_desktop(s, brightness, kbd).text_at(key::CONTEXT_FOCUS_CLASS@) == Some(
            Seq::<char>::empty(),
        ),
        with_desktop(s, brightness, kbd).text_at(key::CONTEXT_FOCUS_TITLE@) == Some(
            Seq::<char>::empty(),
        ),
{
    broadcast use {lemma_reads_text, lemma_other_key};

    key::law_class_key_is_unique();
}

proof fn lemma_start_tabs(s: StoreView)
    ensures
        without_tabs(s).bool_at(key::CHROMIUM_TABS_AVAILABLE@) == Some(false),
        without_tabs(s).text_at(key::CHROMIUM_TABS_JSON@) == Some("[]"@),
{
    broadcast use {lemma_reads_text, lemma_reads_bool, lemma_other_key};

    key::law_tabs_keys_differ();
}

proof fn lemma_start_terminal(s: StoreView)
    ensures
        with_no_terminal(s).bool_at(key::TERMINAL_AVAILABLE@) == Some(false),
        with_no_terminal(s).text_at(key::TERMINAL_NAME@) == Some(Seq::<char>::empty()),
        with_no_terminal(s).text_at(key::TERMINAL_APP@) == Some(Seq::<char>::empty()),
{
    broadcast use {lemma_reads_text, lemma_reads_bool, lemma_other_key};

    key::law_terminal_keys_differ();
}

proof fn lemma_terminal_beside_tmux(s: StoreView)
    ensures
        without_tmux(s).bool_at(key::TERMINAL_AVAILABLE@) == s.bool_at(key::TERMINAL_AVAILABLE@),
        without_tmux(s).text_at(key::TERMINAL_NAME@) == s.text_at(key::TERMINAL_NAME@),
        without_tmux(s).text_at(key::TERMINAL_APP@) == s.text_at(key::TERMINAL_APP@),
{
    broadcast use lemma_other_key;

    key::law_terminal_keys_differ();
}

proof fn lemma_tabs_beside_media(s: StoreView)
    ensures
        without_tabs(s).text_at(key::CONTEXT_FOCUS_CLASS@) == s.text_at(key::CONTEXT_FOCUS_CLASS@),
        without_tabs(s).text_at(key::CONTEXT_FOCUS_TITLE@) == s.text_at(key::CONTEXT_FOCUS_TITLE@),
        without_tabs(s).text_at(key::MEDIA_ACTIVE_PLAYER@) == s.text_at(key::MEDIA_ACTIVE_PLAYER@),
        without_tabs(s).text_at(key::MEDIA_ACTIVE_TITLE@) == s.text_at(key::MEDIA_ACTIVE_TITLE@),
        without_tabs(s).bool_at(key::CHROMIUM_MEDIA_ACTIVE@) == s.bool_at(
            key::CHROMIUM_MEDIA_ACTIVE@,
        ),
{
    broadcast use lemma_other_key;

    lemma_context_and_chromium_differ();
}

proof fn lemma_media_beside_focus(s: StoreView)
    ensures
        without_media(s).text_at(key::CONTEXT_FOCUS_CLASS@) == s.text_at(key::CONTEXT_FOCUS_CLASS@),
        without_media(s).text_at(key::CONTEXT_FOCUS_TITLE@) == s.text_at(key::CONTEXT_FOCUS_TITLE@),
{
    broadcast use lemma_other_key;

    lemma_context_and_chromium_differ();
}

proof fn lemma_context_and_chromium_differ()
    ensures
        key::CONTEXT_FOCUS_CLASS@[0] == 'c',
        key::CONTEXT_FOCUS_TITLE@[0] == 'c',
        key::CHROMIUM_TABS_AVAILABLE@[1] == 'h',
        key::CHROMIUM_TABS_JSON@[1] == 'h',
        key::CHROMIUM_TABS_COUNT@[1] == 'h',
        key::CHROMIUM_TABS_ACTIVE_INDEX@[1] == 'h',
        key::CHROMIUM_MEDIA_ACTIVE@[1] == 'h',
        key::CHROMIUM_MEDIA_ACTIVE@[9] == 'm',
        key::CHROMIUM_TABS_AVAILABLE@[9] == 't',
        key::CHROMIUM_TABS_JSON@[9] == 't',
        key::CHROMIUM_TABS_COUNT@[9] == 't',
        key::CHROMIUM_TABS_ACTIVE_INDEX@[9] == 't',
        key::CONTEXT_FOCUS_CLASS@[1] == 'o',
        key::CONTEXT_FOCUS_TITLE@[1] == 'o',
        key::MEDIA_ACTIVE_PLAYER@[0] == 'm',
        key::MEDIA_ACTIVE_TITLE@[0] == 'm',
        key::MEDIA_ACTIVE_TRACK_ID@[0] == 'm',
        key::MEDIA_ACTIVE_STATUS@[0] == 'm',
        key::MEDIA_ACTIVE_ART_URL@[0] == 'm',
        key::MEDIA_ACTIVE_LENGTH@[0] == 'm',
        key::MEDIA_ACTIVE_POSITION@[0] == 'm',
        key::CHROMIUM_TABS_AVAILABLE@[0] == 'c',
        key::CHROMIUM_TABS_JSON@[0] == 'c',
        key::CHROMIUM_TABS_COUNT@[0] == 'c',
        key::CHROMIUM_TABS_ACTIVE_INDEX@[0] == 'c',
{
    key::lemma_first_letters();
    reveal_strlit("context.focus.class");
    reveal_strlit("context.focus.title");
    reveal_strlit("chromium.tabs.available");
    reveal_strlit("chromium.tabs.json");
    reveal_strlit("chromium.tabs.count");
    reveal_strlit("chromium.tabs.active_index");
    reveal_strlit("chromium.media.active");
}

} // verus!
