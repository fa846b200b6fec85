//! What the widgets show and do.
use crate::action::{ActionView, Edge, Key};
use crate::config::ButtonConfigView;
use crate::laws;
use crate::store::StoreView;
use crate::text;
use crate::widgets;
use crate::widgets::browser_tabs;
use crate::widgets::browser_tabs::{BrowserTab, StripView};
use crate::widgets::button;
use crate::widgets::button::{BackendView, ButtonView, ContentView, IconView, Shade};
use crate::widgets::dbui_connections;
use crate::widgets::dbui_connections::DbConnection;
use crate::widgets::indicator;
use crate::widgets::indicator::{
    BatteryIconMode, BatteryIndicator, BatteryState, BatteryView, ClockItem,
};
use crate::widgets::media;
use crate::widgets::{EnvironmentView, LayerFault, WidgetView};
use vstd::prelude::*;

verus! {

/// The icon that a cell's configuration names: of its theme and its size, or 48 pixels wide and
/// high.
pub open spec fn named_icon(cfg: ButtonConfigView) -> IconView {
    IconView {
        name: cfg.icon->0,
        theme: cfg.theme,
        width: if cfg.icon_width is Some {
            cfg.icon_width->0
        } else {
            48
        },
        height: if cfg.icon_height is Some {
            cfg.icon_height->0
        } else {
            48
        },
        svg_only: false,
    }
}

/// Whether a cell's configuration has something to stand on a button: a text, or an icon that
/// loads.
pub open spec fn has_content(cfg: ButtonConfigView, env: EnvironmentView) -> bool {
    cfg.text is Some || (cfg.icon is Some && !env.failed.contains(named_icon(cfg)))
}

/// A cell with a text, or with an icon that loads, is a button. Its text stands on it where it
/// has one, and its icon otherwise.
pub proof fn law_button_shows_its_content(cfg: ButtonConfigView, env: EnvironmentView, s: StoreView)
    requires
        has_content(cfg, env),
    ensures
        widgets::widget_of(cfg, env) matches Ok(WidgetView::Button(b)) && !b.active && !b.sticky
            && b.backend.content(s) == if cfg.text is Some {
            ContentView::Text(cfg.text->0)
        } else {
            ContentView::Icon(named_icon(cfg))
        },
{
}

/// An icon that does not load is named, unless a text stands on the button.
pub proof fn law_missing_icon_is_named(cfg: ButtonConfigView, env: EnvironmentView)
    requires
        cfg.text is None,
        cfg.icon is Some,
        env.failed.contains(named_icon(cfg)),
    ensures
        widgets::widget_of(cfg, env) == Err::<WidgetView, LayerFault>(
            LayerFault::Icon(named_icon(cfg)),
        ),
{
}

/// A button that is configured with keys and opens or closes no layer presses exactly these
/// keys and releases them again, be it a text or an icon that stands on it.
pub proof fn law_button_sends_its_keys(cfg: ButtonConfigView, env: EnvironmentView, s: StoreView)
    requires
        has_content(cfg, env),
        cfg.action.len() > 0,
        cfg.open_layer is None,
        cfg.push_layer is None,
        cfg.pop_layer != Some(true),
    ensures
        widgets::widget_of(cfg, env) matches Ok(WidgetView::Button(b)) && {
            &&& b.pressed(s).1 == Some(ActionView::Key(cfg.action, Edge::Press))
            &&& b.pressed(s).0.active
            &&& b.pressed(s).0.changed
            &&& b.pressed(s).0.released().1 == Some(ActionView::Key(cfg.action, Edge::Release))
            &&& !b.pressed(s).0.released().0.active
        },
{
}

/// A button that is configured to open, push or close a layer does that when it is pressed,
/// sends no keys, is not left pressed, and does nothing when it is released.
pub proof fn law_button_opens_its_layer(cfg: ButtonConfigView, env: EnvironmentView, s: StoreView)
    requires
        has_content(cfg, env),
        cfg.open_layer is Some || cfg.push_layer is Some || cfg.pop_layer == Some(true),
    ensures
        widgets::widget_of(cfg, env) matches Ok(WidgetView::Button(b)) && {
            &&& cfg.open_layer is Some ==> b.pressed(s).1 == Some(
                ActionView::OpenModal(cfg.open_layer->0),
            )
            &&& cfg.open_layer is None && cfg.push_layer is Some ==> b.pressed(s).1 == Some(
                ActionView::PushLayer(cfg.push_layer->0),
            )
            &&& cfg.open_layer is None && cfg.push_layer is None ==> b.pressed(s).1 == Some(
                ActionView::PopLayer,
            )
            &&& b.pressed(s).0 == b
            &&& b.released().1 is None
        },
{
}

/// A button without keys that opens and closes no layer asks for nothing.
pub proof fn law_button_without_keys(cfg: ButtonConfigView, env: EnvironmentView, s: StoreView)
    requires
        has_content(cfg, env),
        cfg.action.len() == 0,
        cfg.open_layer is None,
        cfg.push_layer is None,
        cfg.pop_layer != Some(true),
    ensures
        widgets::widget_of(cfg, env) matches Ok(WidgetView::Button(b)) && b.pressed(s).1 is None
            && b.pressed(s).0.active && b.pressed(s).0.released().1 is None,
{
}

/// A cell without a text and an icon is what its first other entry says: a clock, a battery,
/// the media that plays, the tabs of the browser, or else a gap.
pub proof fn law_other_cells(cfg: ButtonConfigView, env: EnvironmentView)
    requires
        cfg.text is None,
        cfg.icon is None,
    ensures
        ({
            let w = widgets::widget_of(cfg, env);
            if cfg.time is Some {
                match w {
                    Ok(WidgetView::Clock(c)) => {
                        &&& cfg.time->0 == "24hr"@ ==> c.format == "%H:%M    %a %-e %b"@
                        &&& cfg.time->0 == "12hr"@ ==> c.format == "%-l:%M %p    %a %-e %b"@
                        &&& cfg.time->0 != "24hr"@ && cfg.time->0 != "12hr"@ ==> c.format
                            == cfg.time->0
                        &&& Some(c.items) == indicator::strftime_items(c.format)
                        &&& cfg.locale is Some && indicator::locale_known(cfg.locale->0)
                            ==> c.locale == cfg.locale->0
                        &&& cfg.locale is None || !indicator::locale_known(cfg.locale->0)
                            ==> c.locale == "POSIX"@
                    },
                    Err(LayerFault::TimeFormat(t)) => t == cfg.time->0,
                    _ => false,
                }
            } else if cfg.battery is Some {
                if env.battery is Some {
                    match w {
                        Ok(WidgetView::Battery(b)) => b.device == env.battery->0 && b.theme
                            == cfg.theme && (cfg.battery->0 == "icon"@ && b.mode
                            == BatteryIconMode::Icon || cfg.battery->0 == "percentage"@ && b.mode
                            == BatteryIconMode::Percentage || cfg.battery->0 == "both"@ && b.mode
                            == BatteryIconMode::Both),
                        Err(LayerFault::BatteryMode(m)) => m == cfg.battery->0 && m != "icon"@ && m
                            != "percentage"@ && m != "both"@,
                        Err(LayerFault::Icon(i)) => env.failed.contains(i),
                        _ => false,
                    }
                } else {
                    w matches Ok(WidgetView::Button(b)) && b.backend matches BackendView::Key(k)
                        && k.content == button::ImageView::Text("Battery N/A"@) && k.keys
                        == cfg.action
                }
            } else if cfg.media is Some {
                w matches Ok(WidgetView::Media(m)) && m.active is None && m.changed
            } else if cfg.chromium_tabs is Some {
                w matches Ok(WidgetView::BrowserTabs(t)) && t.changed
            } else {
                w matches Ok(WidgetView::Spacer)
            }
        }),
{
    reveal_strlit("24hr");
    reveal_strlit("12hr");
    reveal_strlit("icon");
    reveal_strlit("percentage");
    reveal_strlit("both");
    assert("24hr"@[0] == '2' && "12hr"@[0] == '1');
    assert("icon"@[0] == 'i' && "both"@[0] == 'b' && "percentage"@[0] == 'p');
    indicator::lemma_first_failed(indicator::battery_icons(cfg.theme), env.failed);
}

/// A battery cell can be made where none of its icons fails.
pub proof fn law_battery_needs_its_icons(cfg: ButtonConfigView, env: EnvironmentView)
    requires
        cfg.text is None,
        cfg.icon is None,
        cfg.time is None,
        cfg.battery == Some("icon"@) || cfg.battery == Some("percentage"@) || cfg.battery == Some(
            "both"@,
        ),
        env.battery is Some,
        env.failed.len() == 0,
    ensures
        widgets::widget_of(cfg, env) matches Ok(WidgetView::Battery(_)),
{
    indicator::lemma_first_failed(indicator::battery_icons(cfg.theme), env.failed);
}

/// The debugger's button pauses a program that runs and continues one that does not, and shows
/// which of the two it will do.
pub proof fn law_debugger_button(s: StoreView)
    ensures
        laws::said(s, "nvim.dap.state"@) == "running"@ ==> {
            &&& BackendView::DapContinuePause.press(s) == Some(ActionView::NvimBridge("dap.pause"@))
            &&& BackendView::DapContinuePause.content(s) matches ContentView::Icon(i) && i.name
                == "debug_pause"@
        },
        laws::said(s, "nvim.dap.state"@) != "running"@ ==> {
            &&& BackendView::DapContinuePause.press(s) == Some(
                ActionView::NvimBridge("dap.continue"@),
            )
            &&& BackendView::DapContinuePause.content(s) matches ContentView::Icon(i) && i.name
                == "debug_continue"@
        },
        BackendView::DapContinuePause.release() is None,
{
}

/// The agent's buttons send it the keys by which it changes its model, how much it thinks, and
/// whether it plans: Ctrl and L, Shift and Tab, and Ctrl, Shift and M.
pub proof fn law_agent_buttons_send_keys(s: StoreView)
    ensures
        BackendView::PiModel.press(s) == Some(
            ActionView::Key(seq![Key { code: 29 }, Key { code: 38 }], Edge::Press),
        ),
        BackendView::PiModel.release() == Some(
            ActionView::Key(seq![Key { code: 29 }, Key { code: 38 }], Edge::Release),
        ),
        BackendView::PiThinking.press(s) == Some(
            ActionView::Key(seq![Key { code: 42 }, Key { code: 15 }], Edge::Press),
        ),
        BackendView::PiThinking.release() == Some(
            ActionView::Key(seq![Key { code: 42 }, Key { code: 15 }], Edge::Release),
        ),
        BackendView::PiWorkflowMode.press(s) == Some(
            ActionView::Key(
                seq![Key { code: 29 }, Key { code: 42 }, Key { code: 50 }],
                Edge::Press,
            ),
        ),
        BackendView::PiWorkflowMode.release() == Some(
            ActionView::Key(
                seq![Key { code: 29 }, Key { code: 42 }, Key { code: 50 }],
                Edge::Release,
            ),
        ),
{
}

/// The agent's buttons show what the agent publishes, and their names alone where it publishes
/// nothing.
pub proof fn law_agent_buttons_show_the_agent(s: StoreView)
    ensures
        ({
            let model = laws::said(s, "pi.model"@);
            let thinking = laws::said(s, "pi.thinking"@);
            let mode = laws::said(s, "pi.workflow.mode"@);
            &&& BackendView::PiModel.content(s) matches ContentView::Text(t) && t == if model.len()
                == 0 {
                "Model"@
            } else {
                "Model"@ + ": "@ + model
            }
            &&& BackendView::PiThinking.content(s) matches ContentView::Text(t) && t
                == if thinking.len() == 0 {
                "Thinking"@
            } else {
                "Thinking"@ + ": "@ + thinking
            }
            &&& mode == "plan"@ ==> {
                BackendView::PiWorkflowMode.content(s) matches ContentView::Labelled {
                    icon,
                    label,
                    red,
                    green,
                    blue,
                } && icon.name == "pi_plan"@ && label == "Plan"@ && (red, green, blue) == (
                    196u8,
                    181u8,
                    253u8,
                )
            }
            &&& mode == "build"@ && "build"@ != "plan"@ ==> {
                BackendView::PiWorkflowMode.content(s) matches ContentView::Labelled {
                    icon,
                    label,
                    red,
                    green,
                    blue,
                } && icon.name == "pi_build"@ && label == "Build"@ && (red, green, blue) == (
                    96u8,
                    165u8,
                    250u8,
                )
            }
            &&& mode != "plan"@ && mode != "build"@ ==> {
                BackendView::PiWorkflowMode.content(s) matches ContentView::Text(t) && t
                    == "Plan / Build"@
            }
        }),
{
}

/// A button is drawn again once it was pressed or released, and where what it shows has
/// changed.
pub proof fn law_button_is_drawn_again(b: ButtonView, s: StoreView)
    ensures
        b.changed ==> WidgetView::Button(b).stale(s),
        !b.changed && b.backend is Key ==> !WidgetView::Button(b).stale(s),
        !b.changed && b.backend is DapContinuePause ==> (WidgetView::Button(b).stale(s)
            <==> s.dirty.contains("nvim.dap.state"@)),
        !b.changed && b.backend is PiModel ==> (WidgetView::Button(b).stale(s)
            <==> s.dirty.contains("pi.model"@)),
        !b.changed && b.backend is PiThinking ==> (WidgetView::Button(b).stale(s)
            <==> s.dirty.contains("pi.thinking"@)),
        !b.changed && b.backend is PiWorkflowMode ==> (WidgetView::Button(b).stale(s)
            <==> s.dirty.contains("pi.workflow.mode"@)),
{
}

/// The other widgets are drawn again once they were touched, and where what they show has
/// changed; a battery always is.
pub proof fn law_widgets_are_drawn_again(w: WidgetView, s: StoreView)
    ensures
        w is Battery ==> w.stale(s),
        w is Clock || w is Spacer ==> !w.stale(s),
        w matches WidgetView::Slider(x) ==> (w.stale(s) <==> x.changed),
        w matches WidgetView::Media(m) ==> (w.stale(s) <==> m.changed || s.dirty.contains(
            "media.active.title"@,
        ) || s.dirty.contains("media.active.art_url"@) || s.dirty.contains(
            "media.active.position"@,
        ) || s.dirty.contains("media.active.length"@) || s.dirty.contains("media.active.status"@)),
        w matches WidgetView::BrowserTabs(t) ==> (w.stale(s) <==> t.changed || s.dirty.contains(
            "chromium.tabs.available"@,
        ) || s.dirty.contains("chromium.tabs.json"@) || s.dirty.contains(
            "chromium.tabs.active_index"@,
        )),
        w matches WidgetView::DbuiConnections(d) ==> (w.stale(s) <==> d.changed
            || s.dirty.contains("nvim.dbui.available"@) || s.dirty.contains(
            "nvim.dbui.connections_json"@,
        )),
{
}

/// A control under the finger looks pressed; any other is outlined where outlines are shown,
/// and bare where they are not.
pub proof fn law_shades(outlines: bool)
    ensures
        button::shade(true, outlines) == Shade::Pressed,
        button::shade(false, true) == Shade::Outlined,
        button::shade(false, false) == Shade::Bare,
{
}

/// The tab strip says that there are no tabs where the browser gives none or has none, and has
/// chips otherwise: one for each tab as far as there is room, eight at most, in the order of
/// the tabs; where there is not room for all, the active tab has the last.
pub proof fn law_tab_strip(s: StoreView, tabs: Seq<BrowserTab>, by_width: usize)
    requires
        tabs.len() <= usize::MAX,
        by_width > 0,
    ensures
        ({
            let shown = browser_tabs::tabs_picture(s, tabs, by_width);
            let room = if by_width < 8 {
                by_width as int
            } else {
                8
            };
            if !laws::is_on(s, "chromium.tabs.available"@) {
                shown == StripView::Notice("Browser tabs unavailable"@)
            } else if tabs.len() == 0 {
                shown == StripView::Notice("No browser tabs"@)
            } else {
                shown matches StripView::Chips(chips) && {
                    &&& chips.len() == if tabs.len() < room {
                        tabs.len() as int
                    } else {
                        room
                    }
                    &&& forall|i: int|
                        0 <= i < chips.len() - 1 ==> #[trigger] chips[i] == i as usize
                    &&& tabs.len() <= room ==> chips.last() == (chips.len() - 1) as usize
                    &&& tabs.len() > room ==> chips.last() == (chips.len() - 1) as usize || (
                    chips.last() >= chips.len() && chips.last() < tabs.len() && tabs[chips.last() as
                    int].active)
                    &&& forall|k: int|
                        0 <= k < tabs.len() && (#[trigger] tabs[k]).active && (forall|j: int|
                            0 <= j < k ==> !(#[trigger] tabs[j]).active) ==> chips.contains(
                            k as usize,
                        )
                }
            }
        }),
{
    let visible = browser_tabs::shown(by_width, tabs.len());
    let chips = browser_tabs::chosen(tabs, visible);
    browser_tabs::lemma_first_active(tabs);
    assert forall|k: int|
        0 <= k < tabs.len() && (#[trigger] tabs[k]).active && (forall|j: int|
            0 <= j < k ==> !(#[trigger] tabs[j]).active) implies chips.contains(k as usize) by {
        browser_tabs::lemma_first_active_is(tabs, k);
        browser_tabs::law_active_tab_is_shown(tabs, by_width);
    }
}

/// The database strip says that there are no databases where Neovim gives none or has none,
/// and otherwise has a chip for each of the first ones, as far as there is room, eight at
/// most.
pub proof fn law_database_strip(s: StoreView, list: Seq<DbConnection>, by_width: usize)
    ensures
        ({
            let shown = dbui_connections::databases_picture(s, list, by_width);
            let room = if by_width < 8 {
                by_width as int
            } else {
                8
            };
            if !laws::is_on(s, "nvim.dbui.available"@) {
                shown == StripView::Notice("DBUI unavailable"@)
            } else if list.len() == 0 {
                shown == StripView::Notice("No DBUI connections"@)
            } else {
                shown matches StripView::Chips(chips) && {
                    &&& chips.len() == if list.len() < room {
                        list.len() as int
                    } else {
                        room
                    }
                    &&& forall|i: int| 0 <= i < chips.len() ==> #[trigger] chips[i] == i as usize
                }
            }
        }),
{
}

/// A colour is multiplied by its opacity and rounded to the nearest: the result is no further
/// than one half from the exact product.
pub proof fn law_premultiplied(channel: u8, alpha: u8)
    ensures
        -255 <= 2 * (255 * browser_tabs::scaled(channel, alpha) as int - channel as int
            * alpha as int) <= 255,
{
    let x = channel as int * alpha as int;
    assert(0 <= x <= 255 * 255) by (nonlinear_arith)
        requires
            x == channel as int * alpha as int,
            0 <= channel <= 255,
            0 <= alpha <= 255,
    ;
}

/// A pixel keeps its place and its opacity, and its colours are turned round.
pub proof fn law_pixels_keep_their_places(rgba: Seq<u8>, stride: int, x: int, y: int)
    requires
        0 <= x < 32,
        0 <= y < 32,
        stride >= 128,
        stride % 4 == 0,
    ensures
        ({
            let at = stride * y + 4 * x;
            let from = 4 * (32 * y + x);
            let a = rgba[from + 3];
            &&& browser_tabs::surface_byte(rgba, 32, stride, at + 3) == a
            &&& browser_tabs::surface_byte(rgba, 32, stride, at) == browser_tabs::scaled(
                rgba[from + 2],
                a,
            )
            &&& browser_tabs::surface_byte(rgba, 32, stride, at + 1) == browser_tabs::scaled(
                rgba[from + 1],
                a,
            )
            &&& browser_tabs::surface_byte(rgba, 32, stride, at + 2) == browser_tabs::scaled(
                rgba[from],
                a,
            )
        }),
{
    browser_tabs::lemma_places(stride, y, x);
    assert(0 <= stride * y) by (nonlinear_arith)
        requires
            0 <= y,
            0 < stride,
    ;
    assert((stride * y + 4 * x + 0) / stride == y);
    assert((stride * y + 4 * x + 1) / stride == y);
    assert((stride * y + 4 * x + 2) / stride == y);
    assert((stride * y + 4 * x + 3) / stride == y);
}

/// A clock is drawn by the second exactly where a part of its format changes within a minute.
pub proof fn law_clock_ticks(items: Seq<ClockItem>)
    ensures
        indicator::ticks_by_second(items) <==> items.contains(ClockItem::Second) || items.contains(
            ClockItem::Nanosecond,
        ) || items.contains(ClockItem::Timestamp),
{
    if indicator::ticks_by_second(items) {
        let i = choose|i: int| 0 <= i < items.len() && #[trigger] items[i] != ClockItem::Other;
        assert(items.contains(items[i]));
    }
}

/// The icon of a battery: one of a series for batteries that are being charged and one for
/// others, none fuller than the battery by more than a step; where only the charge is written,
/// a bolt while it is being charged.
pub proof fn law_battery_icon(mode: BatteryIconMode, capacity: u32, state: BatteryState)
    ensures
        ({
            let name = BatteryIndicator::icon_name(mode, capacity, state);
            &&& mode == BatteryIconMode::Percentage ==> {
                &&& state == BatteryState::Charging ==> name == Some("bolt"@)
                &&& state != BatteryState::Charging ==> name is None
            }
            &&& mode != BatteryIconMode::Percentage && state == BatteryState::Charging ==> {
                &&& name == Some("battery_charging_20"@) <== capacity <= 20
                &&& name == Some("battery_charging_30"@) <== 20 < capacity <= 30
                &&& name == Some("battery_charging_50"@) <== 30 < capacity <= 50
                &&& name == Some("battery_charging_60"@) <== 50 < capacity <= 60
                &&& name == Some("battery_charging_80"@) <== 60 < capacity <= 80
                &&& name == Some("battery_charging_90"@) <== 80 < capacity <= 99
                &&& name == Some("battery_charging_full"@) <== capacity >= 100
            }
            &&& mode != BatteryIconMode::Percentage && state != BatteryState::Charging ==> {
                &&& name == Some("battery_0_bar"@) <== capacity == 0
                &&& name == Some("battery_1_bar"@) <== 0 < capacity <= 20
                &&& name == Some("battery_2_bar"@) <== 20 < capacity <= 30
                &&& name == Some("battery_3_bar"@) <== 30 < capacity <= 50
                &&& name == Some("battery_4_bar"@) <== 50 < capacity <= 60
                &&& name == Some("battery_5_bar"@) <== 60 < capacity <= 80
                &&& name == Some("battery_6_bar"@) <== 80 < capacity <= 99
                &&& name == Some("battery_full"@) <== capacity >= 100
            }
        }),
{
}

/// A length of time is written as hours, minutes and seconds that add up to it, the minutes
/// and seconds below sixty, each in two digits; without hours the minutes are those of the
/// hour.
pub proof fn law_written_time_adds_up(h: u64, m: u64, s: u64)
    requires
        m < 60,
        s < 60,
        h < 1_000_000,
    ensures
        media::clock_text((3600 * h + 60 * m + s) as u64, true) == text::two_digits(h as nat)
            + ":"@ + text::two_digits(m as nat) + ":"@ + text::two_digits(s as nat),
        media::clock_text((3600 * h + 60 * m + s) as u64, false) == text::two_digits(m as nat)
            + ":"@ + text::two_digits(s as nat),
{
    let t = 3600 * h + 60 * m + s;
    let rest = 60 * m + s;
    vstd::arithmetic::div_mod::lemma_fundamental_div_mod_converse(t, 3600, h as int, rest);
    vstd::arithmetic::div_mod::lemma_fundamental_div_mod_converse(rest, 60, m as int, s as int);
    vstd::arithmetic::div_mod::lemma_fundamental_div_mod_converse(t, 60, 60 * h + m, s as int);
}

/// Cells lie side by side: each begins where the one before it ends.
pub proof fn law_cells_lie_side_by_side(cells: Seq<crate::function_layer::CellView>, n: int)
    requires
        0 <= n < cells.len(),
    ensures
        crate::function_layer::start_of(cells, 0) == 0,
        crate::function_layer::start_of(cells, n + 1) == crate::function_layer::start_of(cells, n)
            + cells[n].stretch,
        crate::function_layer::total_stretch(cells) == crate::function_layer::start_of(
            cells,
            cells.len() as int,
        ),
{
}

/// A slider follows the finger once it is grabbed and the finger has moved; while it is dragged
/// it is drawn again every 33 milliseconds, and what was drawn is remembered.
pub proof fn law_slider_follows(s: crate::widgets::slider::Slider, n: crate::number::Number, now: u64)
    ensures
        s.grab is Some ==> s.dragged(n, true, now).level == n,
        s.grab is Some && now - s.last_draw >= 33_000_000 ==> s.dragged(n, true, now).changed,
        s.grab is Some && now - s.last_draw < 33_000_000 ==> s.dragged(n, true, now).changed
            == s.changed,
        s.dragged(n, true, now).backend == s.backend,
        s.dragged(n, true, now).grab == s.grab,
        s.grab is None ==> s.dragged(n, true, now) == s,
        s.dragged(n, false, now) == s,
        WidgetView::Slider(s).drawn(now) matches WidgetView::Slider(d) && d.drawn_level == s.level
            && d.last_draw == now && !d.changed && d.level == s.level && d.grab == s.grab,
{
}

/// Once a widget has been drawn it is not drawn again before something changes; a battery is.
pub proof fn law_drawn_widgets(w: WidgetView, s: StoreView, now: u64)
    requires
        s.dirty == Set::<Seq<char>>::empty(),
    ensures
        !(w is Battery) ==> !w.drawn(now).stale(s),
        w is Clock || w is Battery || w is Spacer ==> w.drawn(now) == w,
        w matches WidgetView::Button(b) ==> (w.drawn(now) matches WidgetView::Button(d) && d.active
            == b.active && d.backend == b.backend && d.sticky == b.sticky),
        w matches WidgetView::Media(m) ==> (w.drawn(now) matches WidgetView::Media(d) && d.active
            == m.active),
{
}

/// A layer is drawn again where one of its cells is, and by the second where one of them is.
pub proof fn law_layers_follow_their_cells(
    cells: Seq<crate::function_layer::CellView>,
    s: StoreView,
    i: int,
)
    requires
        0 <= i < cells.len(),
    ensures
        cells[i].widget.stale(s) ==> crate::function_layer::stale(cells, s),
        cells[i].widget is Clock ==> crate::function_layer::shows_time(cells),
        cells[i].widget matches WidgetView::Clock(c) ==> (indicator::ticks_by_second(c.items)
            ==> crate::function_layer::ticks(cells)),
        !(exists|j: int| 0 <= j < cells.len() && (#[trigger] cells[j]).widget is Clock)
            ==> !crate::function_layer::shows_time(cells) && !crate::function_layer::ticks(cells),
{
}

} // verus!
