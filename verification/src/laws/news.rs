//! What news do to what is known and to what is shown.
use crate::app::AppView;
use crate::config;
use crate::config::{AppLayerView, ConfigView};
use crate::function_layer;
use crate::key;
use crate::laws;
use crate::laws::layers;
use crate::layer::LayerStoreView;
use crate::mpris::MediaView;
use crate::nvim_bridge::NvimView;
use crate::pi_state::PiView;
use crate::runtime;
use crate::store::StoreView;
use crate::terminal::{TerminalApp, TerminalKind, TerminalView};
use crate::titles;
use vstd::prelude::*;

verus! {

/// The layer that is configured for a class is that of an entry for exactly this class, and
/// there is one wherever there is such an entry.
pub proof fn law_layer_of_a_class(list: Seq<AppLayerView>, class: Seq<char>)
    ensures
        match config::layer_for(list, class) {
            Some(layer) => exists|i: int|
                0 <= i < list.len() && (#[trigger] list[i]).class == class && list[i].layer == layer
                    && forall|j: int| 0 <= j < i ==> (#[trigger] list[j]).class != class,
            None => forall|i: int| 0 <= i < list.len() ==> (#[trigger] list[i]).class != class,
        },
    decreases list.len(),
{
    if list.len() > 0 {
        let rest = list.drop_first();
        law_layer_of_a_class(rest, class);
        if list[0].class != class {
            match config::layer_for(rest, class) {
                Some(layer) => {
                    let i = choose|i: int|
                        0 <= i < rest.len() && (#[trigger] rest[i]).class == class && rest[i].layer
                            == layer && forall|j: int|
                            0 <= j < i ==> (#[trigger] rest[j]).class != class;
                    assert(list[i + 1] == rest[i]);
                    assert forall|j: int| 0 <= j < i + 1 implies (#[trigger] list[j]).class
                        != class by {
                        if j > 0 {
                            assert(list[j] == rest[j - 1]);
                        }
                    }
                },
                None => {
                    assert forall|i: int| 0 <= i < list.len() implies (#[trigger] list[i]).class
                        != class by {
                        if i > 0 {
                            assert(list[i] == rest[i - 1]);
                        }
                    }
                },
            }
        } else {
            assert(list[0].class == class);
        }
    }
}

/// A focused window is noted with its class and its title, its class picks its layer, and
/// everything is drawn again exactly where other layers are shown than before or that was due.
pub proof fn law_focused_window(a: AppView, class: Seq<char>, title: Seq<char>)
    ensures
        ({
            let after = a.focused(class, title);
            &&& laws::said(after.runtime, "context.focus.class"@) == class
            &&& laws::said(after.runtime, "context.focus.title"@) == title
            &&& after.rstate.app == config::layer_for(a.cfg.app_layers, class)
            &&& after.rstate.modal == a.rstate.modal
            &&& after.rstate.substates == a.rstate.substates
            &&& after.rstate.fn_pressed == a.rstate.fn_pressed
            &&& after.store == a.store
            &&& after.touch == a.touch
            &&& after.needs_complete_redraw <==> a.needs_complete_redraw || after.center()
                != a.center() || after.right() != a.right()
        }),
{
    runtime::law_focus_is_read_back(a.runtime, class, title);
    let after = a.focused(class, title);
    assert(after.runtime == runtime::with_focus(a.runtime, class, title));
    assert(after.center() == AppView { needs_complete_redraw: false, ..after }.center());
}

/// A Ghostty window that is focused is taken for a terminal, and a Chromium or Chrome window for
/// a browser, by its class alone.
pub proof fn law_class_tells_the_window(a: AppView, class: Seq<char>, title: Seq<char>)
    ensures
        ({
            let after = a.focused(class, title);
            let lower = crate::text::lowercase(class);
            &&& crate::scan::occurs(lower, "ghostty"@) ==> after.ghostty_focused()
            &&& after.chromium_focused() <==> crate::scan::occurs(lower, "chromium"@)
                || crate::scan::occurs(lower, "chrome"@)
        }),
{
    runtime::law_focus_is_read_back(a.runtime, class, title);
}

/// Fn shows the other base layer while it is held; pressed twice within the configured time it
/// swaps the two, and only a press counts for that. No other key does anything.
pub proof fn law_fn_key(a: AppView, code: u32, pressed: bool, now: u64)
    ensures
        ({
            let after = a.keyed(code, pressed, now);
            let limit = a.cfg.double_press_switch_layers as int * 1_000_000;
            &&& code != 464 ==> after == a
            &&& code == 464 ==> {
                &&& after.rstate.fn_pressed == pressed
                &&& after.needs_complete_redraw <==> a.needs_complete_redraw
                    || a.rstate.fn_pressed != pressed
                &&& pressed && a.cfg.double_press_switch_layers > 0 ==> after.last == now
                &&& pressed && limit > 0 && now - a.last < limit ==> after.store.base
                    == a.store.fn_base && after.store.fn_base == a.store.base
                &&& !pressed || limit == 0 || now - a.last >= limit ==> after.store == a.store
                &&& !pressed ==> after.last == a.last
                &&& after.store.registry == a.store.registry
                &&& after.runtime == a.runtime
                &&& after.rstate.modal == a.rstate.modal
            }
        }),
{
}

/// A new configuration takes the place of the old one: what was opened is closed, the finger is
/// on nothing, the focused window keeps the layer of its class, what is known stays, and
/// everything is drawn again.
pub proof fn law_new_configuration(a: AppView, cfg: ConfigView, store: LayerStoreView)
    ensures
        ({
            let after = a.reloaded(cfg, store);
            &&& after.cfg == cfg
            &&& after.store == store
            &&& after.rstate.modal is None
            &&& after.rstate.substates.len() == 0
            &&& !after.rstate.fn_pressed
            &&& after.rstate.app == config::layer_for(
                cfg.app_layers,
                laws::said(a.runtime, "context.focus.class"@),
            )
            &&& after.touch is None
            &&& after.needs_complete_redraw
            &&& after.runtime == a.runtime
        }),
{
}

/// The names under which programs and kinds of terminals are noted.
pub proof fn law_names_of_programs()
    ensures
        TerminalApp::Nvim.name() == "nvim"@,
        TerminalApp::Pi.name() == "pi"@,
        TerminalApp::Ssh.name() == "ssh"@,
        TerminalApp::Shell.name() == "shell"@,
        TerminalApp::Unknown.name() == "unknown"@,
        TerminalKind::Direct.name() == "direct"@,
        TerminalKind::Tmux.name() == "tmux"@,
        TerminalKind::Unknown.name() == "unknown"@,
{
}

/// The program that was found in front in a Ghostty terminal picks the layer as soon as it is
/// noted: Neovim's where it is Neovim and does nothing special, the agent's where it is the
/// agent.
pub proof fn law_noted_program_picks_the_layer(a: AppView, t: TerminalView)
    requires
        t.available,
        t.terminal == "ghostty"@,
        layers::unhidden(a),
    ensures
        ({
            let after = a.with_runtime(runtime::with_terminal(a.runtime, t));
            &&& laws::said(after.runtime, "terminal.app"@) == t.app.name()
            &&& layers::in_terminal(after)
            &&& t.app == TerminalApp::Pi && a.store.registry.contains_key("terminal-pi"@)
                ==> after.center() == Some("terminal-pi"@)
            &&& t.app == TerminalApp::Nvim && a.store.registry.contains_key("terminal-nvim"@)
                && !laws::is_on(after.runtime, "nvim.dap.active"@) && !laws::is_on(
                after.runtime,
                "nvim.dapui.visible"@,
            ) && !laws::is_on(after.runtime, "nvim.neotest.summary_visible"@) && !laws::is_on(
                after.runtime,
                "nvim.dbui.visible"@,
            ) && !laws::is_on(after.runtime, "nvim.dbui.in_buffer"@) ==> after.center() == Some(
                "terminal-nvim"@,
            )
        }),
{
    let after = a.with_runtime(runtime::with_terminal(a.runtime, t));
    runtime::law_terminal_is_read_back(a.runtime, t);
    reveal_strlit("nvim");
    reveal_strlit("pi");
    reveal_strlit("ssh");
    assert("nvim"@.len() == 4 && "pi"@.len() == 2 && "ssh"@.len() == 3);
    if t.app == TerminalApp::Pi && a.store.registry.contains_key("terminal-pi"@) {
        layers::law_agent_layer(after);
    }
    if t.app == TerminalApp::Nvim {
        layers::law_neovim_layer(after);
    }
}

/// What Neovim publishes is noted; where it shows no databases any more, or is gone, the layer
/// of their connections is closed and everything drawn again, and no other layer is.
pub proof fn law_neovim_news(a: AppView, available: bool, n: Option<NvimView>)
    ensures
        ({
            let after = a.with_nvim(available, n);
            let databases = match n {
                Some(s) => s.dbui.visible || s.dbui.in_buffer,
                None => false,
            };
            let there = a.rstate.modal == Some("terminal-nvim-db-connections"@);
            &&& there && !databases ==> after.rstate.modal is None && after.needs_complete_redraw
            &&& !there || databases ==> after.rstate == a.rstate && after.needs_complete_redraw
                == a.needs_complete_redraw
            &&& after.runtime == runtime::with_nvim(a.runtime, available, n)
            &&& after.store == a.store
            &&& after.touch == a.touch
        }),
{
}

/// Whether there is a Neovim is noted, and what the one that is meant publishes, or nothing.
pub proof fn law_neovim_is_noted(s: StoreView, available: bool, n: Option<NvimView>)
    ensures
        ({
            let after = runtime::with_nvim(s, available, n);
            match n {
                Some(x) => {
                    &&& after.bool_at("nvim.dap.active"@) == Some(x.dap.active)
                    &&& after.text_at("nvim.dap.state"@) == Some(
                        x.dap.state.unwrap_or(Seq::empty()),
                    )
                    &&& after.bool_at("nvim.dapui.visible"@) == Some(x.dapui.visible)
                    &&& after.bool_at("nvim.neotest.summary_visible"@) == Some(
                        x.neotest.summary_visible,
                    )
                    &&& after.bool_at("nvim.dbui.available"@) == Some(x.dbui.available)
                    &&& after.bool_at("nvim.dbui.visible"@) == Some(x.dbui.visible)
                    &&& after.bool_at("nvim.dbui.in_buffer"@) == Some(x.dbui.in_buffer)
                    &&& after.text_at("nvim.bridge.socket"@) == Some(x.socket)
                    &&& after.text_at("nvim.cwd"@) == Some(x.cwd.unwrap_or(Seq::empty()))
                    &&& after.text_at("nvim.file"@) == Some(x.file.unwrap_or(Seq::empty()))
                },
                None => {
                    &&& after.bool_at("nvim.dap.active"@) == Some(false)
                    &&& after.text_at("nvim.dap.state"@) == Some(Seq::<char>::empty())
                    &&& after.bool_at("nvim.dapui.visible"@) == Some(false)
                    &&& after.bool_at("nvim.neotest.summary_visible"@) == Some(false)
                    &&& after.bool_at("nvim.dbui.available"@) == Some(false)
                    &&& after.bool_at("nvim.dbui.visible"@) == Some(false)
                    &&& after.bool_at("nvim.dbui.in_buffer"@) == Some(false)
                    &&& after.text_at("nvim.dbui.connections_json"@) == Some("[]"@)
                },
            }
        }),
{
    let a = s.set(
        key::NVIM_BRIDGE_AVAILABLE@,
        crate::store::ValueView::Bool(available),
    );
    if let Some(x) = n {
        runtime::law_nvim_is_read_back(a, x);
    } else {
        runtime::law_nvim_is_forgotten(a);
    }
}

/// What the agent publishes is noted. Where it publishes nothing, what is known of it is
/// forgotten, unless it is in front: then it stays, so that nothing flickers.
pub proof fn law_agent_news(a: AppView, p: Option<PiView>)
    ensures
        ({
            let after = a.with_pi(p);
            &&& p matches Some(x) ==> {
                &&& after.runtime.text_at("pi.model"@) == Some(x.model.unwrap_or(Seq::empty()))
                &&& after.runtime.text_at("pi.provider"@) == Some(
                    x.provider.unwrap_or(Seq::empty()),
                )
                &&& after.runtime.text_at("pi.thinking"@) == Some(
                    x.thinking.unwrap_or(Seq::empty()),
                )
                &&& after.runtime.text_at("pi.workflow.mode"@) == Some(
                    x.workflow_mode.unwrap_or(Seq::empty()),
                )
            }
            &&& p is None && layers::in_front(a, "pi"@) ==> after == a
            &&& p is None && !layers::in_front(a, "pi"@) ==> {
                &&& after.runtime.text_at("pi.model"@) == Some(Seq::<char>::empty())
                &&& after.runtime.text_at("pi.thinking"@) == Some(Seq::<char>::empty())
                &&& after.runtime.text_at("pi.workflow.mode"@) == Some(Seq::<char>::empty())
            }
            &&& after.rstate == a.rstate
            &&& after.store == a.store
        }),
{
    if let Some(x) = p {
        runtime::law_agent_is_read_back(a.runtime, x);
    } else {
        runtime::law_agent_is_forgotten(a.runtime);
    }
}

/// What plays is noted, and whether Chromium plays it; where nothing plays, nothing is known of
/// a player.
pub proof fn law_media_news(s: StoreView, m: MediaView)
    ensures
        ({
            let after = runtime::with_media(s, m);
            let gone = runtime::without_media(s);
            &&& after.text_at("media.active.player"@) == Some(m.player)
            &&& after.text_at("media.active.title"@) == Some(m.title)
            &&& after.text_at("media.active.status"@) == Some(m.status)
            &&& after.text_at("media.active.art_url"@) == Some(m.art_url)
            &&& after.text_at("media.active.track_id"@) == Some(m.track_id)
            &&& after.bool_at("chromium.media.active"@) == Some(
                crate::scan::occurs(crate::text::lowercase(m.player), "chromium"@)
                    || crate::scan::occurs(crate::text::lowercase(m.player), "chrome"@),
            )
            &&& gone.text_at("media.active.player"@) == Some(Seq::<char>::empty())
            &&& gone.text_at("media.active.title"@) == Some(Seq::<char>::empty())
            &&& gone.bool_at("chromium.media.active"@) == Some(false)
        }),
{
    runtime::law_media_is_read_back(s, m);
    runtime::law_media_is_forgotten(s);
}

/// How long the main loop sleeps: no longer than ten seconds, nor past the minute, nor than the
/// picture may rest; no longer than a second where a clock shows seconds or ssh or a remote
/// session is there; than half a second where a terminal is focused or Neovim is there; and
/// than 16 milliseconds while a finger is down. It sleeps for as long as these let it.
pub proof fn law_sleep(a: AppView, touch_down: bool, second: u32, shift: i32)
    ensures
        ({
            let t = a.timeout(touch_down, second, shift);
            let ssh = laws::said(a.runtime, "terminal.app"@) == "ssh"@ || a.remote_active;
            let near = layers::in_terminal(a) || laws::is_on(a.runtime, "nvim.bridge.available"@);
            &&& t <= 10_000
            &&& t <= (60 - second) * 1000
            &&& a.cfg.enable_pixel_shift ==> t <= shift
            &&& a.frame_ticking() ==> t <= 1000
            &&& ssh ==> t <= 1000
            &&& near ==> t <= 500
            &&& touch_down ==> t <= 16
            &&& t == 10_000 || t == (60 - second) * 1000 || (a.cfg.enable_pixel_shift && t == shift)
                || ((a.frame_ticking() || ssh) && t == 1000) || (near && t == 500) || (touch_down
                && t == 16)
        }),
{
}

/// Whether a clock in the bar shows seconds: in the layer over the bar, or at its ends, or in
/// its middle.
pub proof fn law_bar_ticks(a: AppView)
    ensures
        a.frame_ticking() <==> (a.rstate.modal is Some && function_layer::ticks(
            a.store.registry[a.rstate.modal->0],
        )) || function_layer::ticks(a.store.registry["global-left"@]) || (a.center() is Some
            && function_layer::ticks(a.store.registry[a.center()->0])) || function_layer::ticks(
            a.store.registry[a.right()],
        ),
{
}

/// A layer with a clock is drawn again when the second or the minute that it shows has passed,
/// and other layers are not on that account.
pub proof fn law_time_passes(a: AppView, second: u32, minute: u32)
    ensures
        ({
            let cells = a.store.registry[a.store.resolved(a.rstate)];
            let clock = exists|i: int| 0 <= i < cells.len() && (#[trigger] cells[i]).widget is Clock;
            let seconds = function_layer::ticks(cells);
            let after = a.ticked(second, minute);
            &&& !clock ==> after == a
            &&& clock && seconds && second != a.last_redraw_ts ==> after.needs_complete_redraw
                && after.last_redraw_ts == second
            &&& clock && !seconds && minute != a.last_redraw_ts ==> after.needs_complete_redraw
                && after.last_redraw_ts == minute
            &&& clock && seconds && second == a.last_redraw_ts ==> after == a
            &&& clock && !seconds && minute == a.last_redraw_ts ==> after == a
        }),
{
}

/// The bar is drawn where that is due, where something in a layer that is shown has changed,
/// and where something has changed that decides which layers are shown; a layer over the whole
/// bar is drawn where that is due or something in it has changed.
pub proof fn law_when_the_bar_is_drawn(a: AppView, k: Seq<char>)
    ensures
        a.needs_complete_redraw ==> a.bar_stale(),
        a.rstate.modal is Some && !a.needs_complete_redraw ==> (a.bar_stale()
            <==> function_layer::stale(a.store.registry[a.rstate.modal->0], a.runtime)),
        a.rstate.modal is None && function_layer::stale(
            a.store.registry["global-left"@],
            a.runtime,
        ) ==> a.bar_stale(),
        a.rstate.modal is None && function_layer::stale(a.store.registry[a.right()], a.runtime)
            ==> a.bar_stale(),
        a.rstate.modal is None && a.center() is Some && function_layer::stale(
            a.store.registry[a.center()->0],
            a.runtime,
        ) ==> a.bar_stale(),
        a.rstate.modal is None && a.runtime.dirty.contains(k) && (k == "media.active.player"@ || k
            == "media.active.title"@ || k == "context.focus.title"@ || k
            == "chromium.media.active"@ || k == "nvim.dap.active"@ || k == "nvim.dap.state"@ || k
            == "nvim.dapui.visible"@ || k == "nvim.neotest.available"@ || k
            == "nvim.neotest.summary_visible"@ || k == "nvim.dbui.visible"@ || k
            == "nvim.dbui.in_buffer"@ || k == "nvim.dbui.connections_json"@ || k == "pi.model"@
            || k == "pi.thinking"@ || k == "pi.workflow.mode"@) ==> a.bar_stale(),
        a.rstate.modal is None && !a.needs_complete_redraw && a.runtime.dirty == Set::<
            Seq<char>,
        >::empty() && !function_layer::stale(a.store.registry["global-left"@], a.runtime)
            && !function_layer::stale(a.store.registry[a.right()], a.runtime) && (a.center() is Some
            ==> !function_layer::stale(a.store.registry[a.center()->0], a.runtime))
            ==> !a.bar_stale(),
{
}

/// Titles are those of the same media where one holds the other, whatever the case of their
/// letters; an empty title is that of none.
pub proof fn law_titles(media: Seq<char>, window: Seq<char>)
    ensures
        ({
            let m = titles::normalized(media);
            let w = titles::normalized(window);
            titles::probably_match(media, window) <==> m.len() > 0 && w.len() > 0 && (
            crate::scan::occurs(m, w) || crate::scan::occurs(w, m))
        }),
{
}

} // verus!
