//! The widgets that a layer's cells hold.
use crate::action;
use crate::action::{Action, ActionView};
use crate::config::{ButtonConfig, ButtonConfigView};
use crate::store::{Store, StoreView};
use crate::text;
use vstd::prelude::*;

pub mod browser_tabs;
pub mod button;
pub mod dbui_connections;
pub mod indicator;
pub mod media;
pub mod slider;

use browser_tabs::{BrowserTab, BrowserTabsWidget};
use button::{Button, ButtonError, ButtonView, IconRequest, IconView};
use dbui_connections::{DbConnection, DbuiConnectionsWidget};
use indicator::{BatteryError, BatteryIndicator, BatteryView, ClockIndicator, ClockView};
use media::{MediaProbe, MediaWidget};
use slider::Slider;

verus! {

/// What a cell shows and does.
#[derive(Debug)]
pub enum Widget {
    Button(Button),
    Clock(ClockIndicator),
    Battery(BatteryIndicator),
    Media(MediaWidget),
    BrowserTabs(BrowserTabsWidget),
    DbuiConnections(DbuiConnectionsWidget),
    Slider(Slider),
    Spacer,
}

/// A widget, its texts taken as sequences.
pub enum WidgetView {
    Button(ButtonView),
    Clock(ClockView),
    Battery(BatteryView),
    Media(MediaWidget),
    BrowserTabs(BrowserTabsWidget),
    DbuiConnections(DbuiConnectionsWidget),
    Slider(Slider),
    Spacer,
}

impl View for Widget {
    type V = WidgetView;

    open spec fn view(&self) -> WidgetView {
        match *self {
            Widget::Button(b) => WidgetView::Button(b@),
            Widget::Clock(c) => WidgetView::Clock(c@),
            Widget::Battery(b) => WidgetView::Battery(b@),
            Widget::Media(m) => WidgetView::Media(m),
            Widget::BrowserTabs(t) => WidgetView::BrowserTabs(t),
            Widget::DbuiConnections(d) => WidgetView::DbuiConnections(d),
            Widget::Slider(s) => WidgetView::Slider(s),
            Widget::Spacer => WidgetView::Spacer,
        }
    }
}

/// What the widgets are made from besides their configuration.
#[derive(Debug)]
pub struct Environment {
    /// The machine's battery, where it has one.
    pub battery: Option<String>,
    /// The icons that do not load.
    pub failed: Vec<IconRequest>,
}

/// An environment, its texts taken as sequences.
pub struct EnvironmentView {
    pub battery: Option<Seq<char>>,
    pub failed: Seq<IconView>,
}

impl View for Environment {
    type V = EnvironmentView;

    open spec fn view(&self) -> EnvironmentView {
        EnvironmentView {
            battery: text::opt_text(self.battery),
            failed: button::icons(self.failed@),
        }
    }
}

/// Why a layer cannot be made or used.
#[derive(Debug)]
pub enum LayerError {
    /// The layer has no cells.
    NoButtons,
    /// The layer has no slider.
    NoSlider,
    /// A clock's format is not valid.
    TimeFormat(String),
    /// There is no such mode for a battery.
    BatteryMode(String),
    /// An icon does not load.
    Icon(IconRequest),
}

/// Why a layer cannot be made or used, its texts taken as sequences.
pub enum LayerFault {
    NoButtons,
    NoSlider,
    TimeFormat(Seq<char>),
    BatteryMode(Seq<char>),
    Icon(IconView),
}

impl View for LayerError {
    type V = LayerFault;

    open spec fn view(&self) -> LayerFault {
        match *self {
            LayerError::NoButtons => LayerFault::NoButtons,
            LayerError::NoSlider => LayerFault::NoSlider,
            LayerError::TimeFormat(t) => LayerFault::TimeFormat(t@),
            LayerError::BatteryMode(t) => LayerFault::BatteryMode(t@),
            LayerError::Icon(i) => LayerFault::Icon(i@),
        }
    }
}

/// The widget that a cell's configuration describes, or why there is none.
pub open spec fn widget_of(cfg: ButtonConfigView, env: EnvironmentView) -> Result<
    WidgetView,
    LayerFault,
> {
    if cfg.text is Some {
        Ok(WidgetView::Button(button::configured_button(cfg)))
    } else if cfg.icon is Some {
        let icon = button::configured_icon(cfg, cfg.icon->0);
        if env.failed.contains(icon) {
            Err(LayerFault::Icon(icon))
        } else {
            Ok(WidgetView::Button(button::configured_button(cfg)))
        }
    } else if cfg.time is Some {
        let format = indicator::full_format(cfg.time->0);
        match indicator::strftime_items(format) {
            Some(items) => Ok(
                WidgetView::Clock(
                    ClockView {
                        format,
                        items,
                        locale: indicator::chosen_locale(
                            cfg.locale,
                            cfg.locale is Some && indicator::locale_known(cfg.locale->0),
                        ),
                    },
                ),
            ),
            None => Err(LayerFault::TimeFormat(cfg.time->0)),
        }
    } else if cfg.battery is Some {
        if env.battery is Some {
            match indicator::first_failed(indicator::battery_icons(cfg.theme), env.failed) {
                Some(icon) => Err(LayerFault::Icon(icon)),
                None => match indicator::mode_named(cfg.battery->0) {
                    Some(mode) => Ok(
                        WidgetView::Battery(
                            BatteryView { device: env.battery->0, mode, theme: cfg.theme },
                        ),
                    ),
                    None => Err(LayerFault::BatteryMode(cfg.battery->0)),
                },
            }
        } else {
            Ok(
                WidgetView::Button(
                    button::configured_button(
                        ButtonConfigView { text: Some("Battery N/A"@), ..cfg },
                    ),
                ),
            )
        }
    } else if cfg.media is Some {
        Ok(WidgetView::Media(MediaWidget { changed: true, active: None }))
    } else if cfg.chromium_tabs is Some {
        Ok(WidgetView::BrowserTabs(BrowserTabsWidget { changed: true }))
    } else {
        Ok(WidgetView::Spacer)
    }
}

/// What is known of a finger on a cell: where it is on the widget, and what the widget's
/// chips stand for.
#[derive(Debug)]
pub struct PressProbe {
    pub media: MediaProbe,
    pub tabs: Vec<BrowserTab>,
    pub connections: Vec<DbConnection>,
    /// How many chips there is room for.
    pub by_width: usize,
    /// For each chip, whether the finger is on it.
    pub chips: Vec<bool>,
}

impl WidgetView {
    /// Whether the widget has to be drawn again.
    pub open spec fn stale(self, store: StoreView) -> bool {
        match self {
            WidgetView::Button(b) => b.changed || b.backend.stale(store),
            WidgetView::Clock(_) => false,
            WidgetView::Battery(_) => true,
            WidgetView::Media(m) => m.stale(store),
            WidgetView::BrowserTabs(t) => t.stale(store),
            WidgetView::DbuiConnections(d) => d.stale(store),
            WidgetView::Slider(s) => s.changed,
            WidgetView::Spacer => false,
        }
    }

    /// Whether a touch does anything.
    pub open spec fn takes_touch(self) -> bool {
        !(self is Clock || self is Battery || self is Spacer)
    }

    /// Whether the widget shows something that changes within a minute.
    pub open spec fn ticks(self) -> bool {
        self matches WidgetView::Clock(c) && indicator::ticks_by_second(c.items)
    }

    /// The widget after a press, and what the press asks for.
    pub open spec fn pressed(self, store: StoreView, probe: PressProbe) -> (
        WidgetView,
        Option<ActionView>,
    ) {
        match self {
            WidgetView::Button(b) => (WidgetView::Button(b.pressed(store).0), b.pressed(store).1),
            WidgetView::Media(m) => (
                WidgetView::Media(m.pressed(probe.media, store).0),
                m.pressed(probe.media, store).1,
            ),
            WidgetView::BrowserTabs(t) => (
                WidgetView::BrowserTabs(t.pressed(probe.tabs@, probe.by_width, probe.chips@)),
                browser_tabs::tab_action(probe.tabs@, probe.by_width, probe.chips@),
            ),
            WidgetView::DbuiConnections(d) => (
                WidgetView::DbuiConnections(
                    d.pressed(probe.connections@, probe.by_width, probe.chips@),
                ),
                dbui_connections::db_action(probe.connections@, probe.by_width, probe.chips@),
            ),
            _ => (self, None),
        }
    }

    /// The widget after a release, and what the release asks for.
    pub open spec fn released(self) -> (WidgetView, Option<ActionView>) {
        match self {
            WidgetView::Button(b) => (WidgetView::Button(b.released().0), b.released().1),
            WidgetView::Media(m) => (WidgetView::Media(m.released()), None),
            _ => (self, None),
        }
    }

    /// The widget after the finger moved, and what that asks for.
    pub open spec fn dragged(self, store: StoreView, probe: MediaProbe) -> (
        WidgetView,
        Option<ActionView>,
    ) {
        match self {
            WidgetView::Media(m) => (
                WidgetView::Media(m.dragged(probe, store).0),
                m.dragged(probe, store).1,
            ),
            _ => (self, None),
        }
    }

    /// The widget after it has been drawn.
    pub open spec fn drawn(self, now: u64) -> WidgetView {
        match self {
            WidgetView::Button(b) => WidgetView::Button(ButtonView { changed: false, ..b }),
            WidgetView::Media(m) => WidgetView::Media(MediaWidget { changed: false, ..m }),
            WidgetView::BrowserTabs(_) => WidgetView::BrowserTabs(
                BrowserTabsWidget { changed: false },
            ),
            WidgetView::DbuiConnections(_) => WidgetView::DbuiConnections(
                DbuiConnectionsWidget { changed: false },
            ),
            WidgetView::Slider(s) => WidgetView::Slider(
                Slider { drawn_level: s.level, changed: false, last_draw: now, ..s },
            ),
            _ => self,
        }
    }
}

impl Widget {
    /// The widget that a cell's configuration describes.
    pub fn from_config(cfg: ButtonConfig, env: &Environment) -> (r: Result<Widget, LayerError>)
        ensures
            match r {
                Ok(w) => widget_of(cfg@, env@) == Ok::<WidgetView, LayerFault>(w@),
                Err(e) => widget_of(cfg@, env@) == Err::<WidgetView, LayerFault>(e@),
            },
    {
        if cfg.text.is_some() || cfg.icon.is_some() {
            match Button::from_config(cfg, &env.failed) {
                Ok(b) => Ok(Widget::Button(b)),
                Err(ButtonError::Icon(i)) => Err(LayerError::Icon(i)),
                Err(ButtonError::NoContent) => Err(LayerError::NoButtons),
            }
        } else if let Some(time) = cfg.time {
            match ClockIndicator::new(time.as_str(), cfg.locale) {
                Some(c) => Ok(Widget::Clock(c)),
                None => Err(LayerError::TimeFormat(time)),
            }
        } else if let Some(mode) = cfg.battery {
            match &env.battery {
                Some(device) => match BatteryIndicator::new(
                    device.clone(),
                    mode,
                    cfg.theme,
                    &env.failed,
                ) {
                    Ok(b) => Ok(Widget::Battery(b)),
                    Err(BatteryError::Icon(i)) => Err(LayerError::Icon(i)),
                    Err(BatteryError::Mode(m)) => Err(LayerError::BatteryMode(m)),
                },
                None => Ok(
                    Widget::Button(
                        Button::new(
                            button::ButtonBackend::Key(
                                button::KeyButton::new_text(
                                    "Battery N/A".to_string(),
                                    cfg.action,
                                    cfg.open_layer,
                                    cfg.push_layer,
                                    match cfg.pop_layer {
                                        Some(p) => p,
                                        None => false,
                                    },
                                ),
                            ),
                        ),
                    ),
                ),
            }
        } else if cfg.media.is_some() {
            Ok(Widget::Media(MediaWidget::new()))
        } else if cfg.chromium_tabs.is_some() {
            Ok(Widget::BrowserTabs(BrowserTabsWidget::new()))
        } else {
            Ok(Widget::Spacer)
        }
    }

    /// Whether the widget has to be drawn again.
    pub fn changed(&self, store: &Store) -> (r: bool)
        requires
            store.wf(),
        ensures
            r == self@.stale(store@),
    {
        match self {
            Widget::Button(b) => b.changed(store),
            Widget::Clock(_) => false,
            Widget::Battery(_) => true,
            Widget::Media(m) => m.needs_redraw(store),
            Widget::BrowserTabs(t) => t.needs_redraw(store),
            Widget::DbuiConnections(d) => d.needs_redraw(store),
            Widget::Slider(s) => s.changed,
            Widget::Spacer => false,
        }
    }

    /// Whether a touch does anything. Indicators and spacers are not touched.
    pub fn interactive(&self) -> (r: bool)
        ensures
            r == self@.takes_touch(),
    {
        match self {
            Widget::Clock(_) => false,
            Widget::Battery(_) => false,
            Widget::Spacer => false,
            _ => true,
        }
    }

    /// Whether the widget shows the time.
    pub fn is_clock(&self) -> (r: bool)
        ensures
            r == self@ is Clock,
    {
        match self {
            Widget::Clock(_) => true,
            _ => false,
        }
    }

    /// Whether the widget shows something that changes within a minute.
    pub fn needs_faster_refresh(&self) -> (r: bool)
        ensures
            r == self@.ticks(),
    {
        match self {
            Widget::Clock(c) => c.needs_faster_refresh(),
            _ => false,
        }
    }

    /// A press on the widget.
    pub fn on_press(&mut self, store: &Store, probe: &PressProbe) -> (r: Option<Action>)
        requires
            store.wf(),
        ensures
            (final(self)@, action::opt_action(r)) == old(self)@.pressed(store@, *probe),
    {
        match self {
            Widget::Button(b) => b.on_press(store),
            Widget::Media(m) => m.on_press(&probe.media, store),
            Widget::BrowserTabs(t) => t.on_press(&probe.tabs, probe.by_width, &probe.chips),
            Widget::DbuiConnections(d) => d.on_press(
                &probe.connections,
                probe.by_width,
                &probe.chips,
            ),
            _ => None,
        }
    }

    /// A release of the widget.
    pub fn on_release(&mut self) -> (r: Option<Action>)
        ensures
            (final(self)@, action::opt_action(r)) == old(self)@.released(),
    {
        match self {
            Widget::Button(b) => b.on_release(),
            Widget::Media(m) => m.on_release(),
            _ => None,
        }
    }

    /// A finger that moves on the widget.
    pub fn on_drag(&mut self, store: &Store, probe: &MediaProbe) -> (r: Option<Action>)
        requires
            store.wf(),
        ensures
            (final(self)@, action::opt_action(r)) == old(self)@.dragged(store@, *probe),
    {
        match self {
            Widget::Media(m) => m.on_drag(probe, store),
            _ => None,
        }
    }

    /// Notes that the widget has been drawn.
    pub fn drawn(&mut self, now: u64)
        ensures
            final(self)@ == old(self)@.drawn(now),
    {
        match self {
            Widget::Button(b) => b.drawn(),
            Widget::Media(m) => m.drawn(),
            Widget::BrowserTabs(t) => t.drawn(),
            Widget::DbuiConnections(d) => d.drawn(),
            Widget::Slider(s) => s.drawn(now),
            _ => {},
        }
    }
}

/// The icons that a cell needs, on a machine with or without a battery.
pub open spec fn icons_of(cfg: ButtonConfigView, powered: bool) -> Seq<IconView> {
    if cfg.text is Some {
        Seq::empty()
    } else if cfg.icon is Some {
        seq![button::configured_icon(cfg, cfg.icon->0)]
    } else if cfg.time is None && cfg.battery is Some && powered {
        indicator::battery_icons(cfg.theme)
    } else {
        Seq::empty()
    }
}

/// The icons that a cell needs, on a machine with or without a battery.
pub fn wanted_icons(cfg: &ButtonConfig, powered: bool) -> (r: Vec<IconRequest>)
    ensures
        button::icons(r@) == icons_of(cfg@, powered),
{
    let mut out: Vec<IconRequest> = Vec::new();
    assert(button::icons(out@) =~= Seq::<IconView>::empty());
    if cfg.text.is_some() {
        return out;
    }
    if let Some(name) = &cfg.icon {
        let icon = IconRequest {
            name: name.clone(),
            theme: action::clone_text(&cfg.theme),
            width: match cfg.icon_width {
                Some(w) => w,
                None => button::DEFAULT_ICON_SIZE,
            },
            height: match cfg.icon_height {
                Some(h) => h,
                None => button::DEFAULT_ICON_SIZE,
            },
            svg_only: false,
        };
        out.push(icon);
        assert(button::icons(out@) =~= seq![icon@]);
        return out;
    }
    if cfg.time.is_none() && cfg.battery.is_some() && powered {
        return indicator::wanted_battery_icons(&cfg.theme);
    }
    out
}

/// A cell is refused for an icon only where that is one it needs and it does not load.
pub proof fn law_refused_icons_are_wanted(cfg: ButtonConfigView, env: EnvironmentView)
    ensures
        widget_of(cfg, env) matches Err(LayerFault::Icon(icon)) ==> env.failed.contains(icon)
            && icons_of(cfg, env.battery is Some).contains(icon),
{
    if cfg.text is None && cfg.icon is Some {
        let icon = button::configured_icon(cfg, cfg.icon->0);
        assert(icons_of(cfg, env.battery is Some)[0] == icon);
    } else if cfg.text is None && cfg.icon is None && cfg.time is None && cfg.battery is Some
        && env.battery is Some {
        lemma_first_failed(indicator::battery_icons(cfg.theme), env.failed);
    }
}

proof fn lemma_first_failed(wanted: Seq<IconView>, failed: Seq<IconView>)
    ensures
        indicator::first_failed(wanted, failed) matches Some(icon) ==> failed.contains(icon)
            && wanted.contains(icon),
    decreases wanted.len(),
{
    if wanted.len() > 0 && !failed.contains(wanted[0]) {
        let rest = wanted.drop_first();
        lemma_first_failed(rest, failed);
        if indicator::first_failed(rest, failed) is Some {
            let icon = indicator::first_failed(rest, failed)->0;
            let k = choose|k: int| 0 <= k < rest.len() && rest[k] == icon;
            assert(wanted[k + 1] == icon);
        }
    }
}

} // verus!
