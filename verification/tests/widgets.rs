use tiny_dfr::action::{Action, Edge, Key};
use tiny_dfr::config::ButtonConfig;
use tiny_dfr::function_layer::{DragProbe, FunctionLayer, HitProbe};
use tiny_dfr::key;
use tiny_dfr::number::Number;
use tiny_dfr::state::State;
use tiny_dfr::store::{Store, Value};
use tiny_dfr::widgets::browser_tabs;
use tiny_dfr::widgets::browser_tabs::{BrowserTab, BrowserTabsWidget, FaviconPlan, StripPicture};
use tiny_dfr::widgets::button;
use tiny_dfr::widgets::button::{
    Button, ButtonBackend, ButtonContent, ButtonError, IconRequest, KeyButton, Loader, Shade,
};
use tiny_dfr::widgets::dbui_connections;
use tiny_dfr::widgets::dbui_connections::{DbConnection, DbuiConnectionsWidget};
use tiny_dfr::widgets::indicator::{
    is_own_battery, BatteryError, BatteryIconMode, BatteryIndicator, BatteryState, ClockIndicator, ClockItem, Tint,
};
use tiny_dfr::widgets::media;
use tiny_dfr::widgets::media::{MediaProbe, MediaWidget, WellProbe};
use tiny_dfr::widgets::slider::{Slider, SliderBackend};
use tiny_dfr::widgets::{Environment, LayerError, PressProbe, Widget};

fn n(x: f64) -> Number {
    Number { bits: x.to_bits() }
}

fn store(entries: Vec<(&str, Value)>) -> Store {
    let mut s = Store::new();
    for (k, v) in entries {
        s.set(k, v).unwrap();
    }
    s
}

fn nothing() -> Environment {
    Environment { battery: None, failed: Vec::new() }
}

fn blank_press() -> PressProbe {
    PressProbe {
        media: MediaProbe { well: None, previous: false, play_pause: false, next: false },
        tabs: Vec::new(),
        connections: Vec::new(),
        by_width: 1,
        chips: Vec::new(),
    }
}

#[test]
fn a_key_button_presses_and_releases_its_keys() {
    let s = Store::new();
    let keys = vec![Key { code: 1 }];
    let mut b = Button::new(ButtonBackend::Key(KeyButton::new_text(
        "esc".into(),
        keys,
        None,
        None,
        false,
    )));
    assert!(!b.changed(&s));
    assert!(b.on_release().is_none());
    assert!(matches!(
        b.on_press(&s),
        Some(Action::Key(k, Edge::Press)) if k == vec![Key { code: 1 }]
    ));
    assert!(b.active && b.changed(&s));
    assert!(b.on_press(&s).is_none());
    b.drawn();
    assert!(!b.changed(&s));
    assert!(matches!(
        b.on_release(),
        Some(Action::Key(k, Edge::Release)) if k == vec![Key { code: 1 }]
    ));
    assert!(b.on_release().is_none());
}

#[test]
fn a_button_that_opens_a_layer_is_not_left_pressed() {
    let s = Store::new();
    let button = |open: Option<&str>, push: Option<&str>, pop: bool| {
        Button::new(ButtonBackend::Key(KeyButton::new_text(
            "x".into(),
            vec![Key { code: 1 }],
            open.map(String::from),
            push.map(String::from),
            pop,
        )))
    };
    let mut b = button(Some("volume"), Some("other"), true);
    assert!(matches!(b.on_press(&s), Some(Action::OpenModal(l)) if l == "volume"));
    assert!(!b.active);
    assert!(matches!(
        button(None, Some("other"), true).on_press(&s),
        Some(Action::PushLayer(l)) if l == "other"
    ));
    assert!(matches!(button(None, None, true).on_press(&s), Some(Action::PopLayer)));
    let mut empty = Button::new(ButtonBackend::Key(KeyButton::new_text(
        "x".into(),
        Vec::new(),
        None,
        None,
        false,
    )));
    assert!(empty.on_press(&s).is_none());
    assert!(empty.active);
    assert!(empty.on_release().is_none());
    assert!(!empty.active);
    let mut nvim = Button::new(ButtonBackend::Key(KeyButton::new_nvim_action_text(
        "Step".into(),
        "dap.step".into(),
    )));
    assert!(matches!(nvim.on_press(&s), Some(Action::NvimBridge(a)) if a == "dap.step"));
}

#[test]
fn special_buttons_follow_the_store() {
    let mut s = store(vec![(key::NVIM_DAP_STATE, Value::Text("running".into()))]);
    let mut dap = Button::new(ButtonBackend::dap_continue_pause(&Vec::new()).unwrap());
    assert!(dap.changed(&s));
    assert!(matches!(dap.on_press(&s), Some(Action::NvimBridge(a)) if a == "dap.pause"));
    assert!(matches!(
        dap.backend.content(&s),
        ButtonContent::Icon(i) if i.name == "debug_pause" && i.width == 48
    ));
    s.set(key::NVIM_DAP_STATE, Value::Text("stopped".into())).unwrap();
    assert!(matches!(dap.on_press(&s), Some(Action::NvimBridge(a)) if a == "dap.continue"));
    s.clear_dirty();
    assert!(!dap.changed(&s));

    let model = ButtonBackend::PiModel;
    assert!(matches!(model.content(&s), ButtonContent::Text(t) if t == "Model"));
    s.set(key::PI_MODEL, Value::Text("big".into())).unwrap();
    assert!(matches!(model.content(&s), ButtonContent::Text(t) if t == "Model: big"));
    assert!(matches!(
        model.on_press(&s),
        Some(Action::Key(k, Edge::Press)) if k == vec![Key { code: 29 }, Key { code: 38 }]
    ));
    assert!(matches!(
        ButtonBackend::PiThinking.on_release(),
        Some(Action::Key(k, Edge::Release)) if k == vec![Key { code: 42 }, Key { code: 15 }]
    ));
    let mode = ButtonBackend::pi_workflow_mode(&Vec::new()).unwrap();
    assert!(matches!(mode.content(&s), ButtonContent::Text(t) if t == "Plan / Build"));
    s.set(key::PI_WORKFLOW_MODE, Value::Text("plan".into())).unwrap();
    assert!(matches!(
        mode.content(&s),
        ButtonContent::Labelled { icon, label, red: 196, green: 181, blue: 253 }
            if icon.name == "pi_plan" && icon.height == 38 && label == "Plan"
    ));
    assert!(matches!(
        mode.on_press(&s),
        Some(Action::Key(k, Edge::Press)) if k.len() == 3 && k[2] == Key { code: 50 }
    ));
}

#[test]
fn icons_that_do_not_load_are_reported() {
    let failed = vec![
        IconRequest::plain("debug_pause", 48),
        IconRequest::plain("pi_plan", 38),
        IconRequest::plain("gone", 48),
    ];
    assert!(matches!(
        ButtonBackend::dap_continue_pause(&failed),
        Err(i) if i.name == "debug_pause"
    ));
    assert!(matches!(
        ButtonBackend::pi_workflow_mode(&failed),
        Err(i) if i.name == "pi_plan"
    ));
    assert!(KeyButton::new_nvim_action_icon("gone", "a".into(), &failed).is_err());
    assert!(KeyButton::new_nvim_action_icon("here", "a".into(), &failed).is_ok());
    let mut cfg = ButtonConfig::blank();
    cfg.icon = Some("gone".into());
    assert!(matches!(
        Button::from_config(cfg, &failed),
        Err(ButtonError::Icon(i)) if i.name == "gone"
    ));
    let mut cfg = ButtonConfig::blank();
    cfg.icon = Some("gone".into());
    cfg.icon_width = Some(20);
    assert!(Button::from_config(cfg, &failed).is_ok());
    assert!(matches!(
        Button::from_config(ButtonConfig::blank(), &failed),
        Err(ButtonError::NoContent)
    ));
    assert_eq!(
        IconRequest::paths("bolt"),
        vec![
            "/etc/tiny-dfr/bolt.svg",
            "/etc/tiny-dfr/bolt.png",
            "/usr/share/tiny-dfr/bolt.svg",
            "/usr/share/tiny-dfr/bolt.png",
        ]
    );
    assert_eq!(button::loader_for(Some("png")), Loader::Png);
    assert_eq!(button::loader_for(Some("svg")), Loader::Svg);
    assert_eq!(button::loader_for(Some("xpm")), Loader::Unknown);
    assert_eq!(button::loader_for(None), Loader::Unknown);
}

#[test]
fn a_slider_follows_the_finger() {
    let mut s = Slider::new(SliderBackend::Volume, 0);
    assert!(s.changed);
    assert_eq!(s.drag(n(0.7), true, 99_000_000).bits, n(0.0).bits);
    s.grab(n(100.0), n(0.5));
    s.drawn(100_000_000);
    assert_eq!(s.drawn_level.bits, n(0.5).bits);
    assert_eq!(s.drag(n(0.6), true, 132_999_999).bits, n(0.6).bits);
    assert!(!s.changed);
    assert_eq!(s.drag(n(0.7), true, 133_000_000).bits, n(0.7).bits);
    assert!(s.changed);
    assert_eq!(s.drag(n(0.7), false, 200_000_000).bits, n(0.7).bits);
    s.release();
    assert_eq!(s.drag(n(0.1), true, 300_000_000).bits, n(0.7).bits);
    assert!(matches!(
        SliderBackend::Brightness.apply(n(1.0)),
        Action::SetBrightness(x) if x.bits == n(1.0).bits
    ));
    assert!(matches!(SliderBackend::KbdIllum.apply(n(0.0)), Action::SetKbdIllum(_)));
    assert_eq!(SliderBackend::Volume.state_key(), "audio.volume");
    let state = State { brightness: n(0.1), kbd_illum: n(0.2), volume: n(0.3) };
    assert_eq!(SliderBackend::Brightness.initial_level(&state).bits, n(0.1).bits);
    assert_eq!(SliderBackend::KbdIllum.initial_level(&state).bits, n(0.2).bits);
    assert_eq!(SliderBackend::Volume.initial_level(&state).bits, n(0.3).bits);
    assert_eq!(State::default().volume.bits, 0);
}

#[test]
fn clocks_read_their_format() {
    let plain = ClockIndicator::new("24hr", None).unwrap();
    assert_eq!(plain.format, "%H:%M    %a %-e %b");
    assert_eq!(plain.locale, "POSIX");
    assert!(!plain.needs_faster_refresh());
    let twelve = ClockIndicator::new("12hr", Some("de_DE".into())).unwrap();
    assert_eq!(twelve.format, "%-l:%M %p    %a %-e %b");
    assert_eq!(twelve.locale, "de_DE");
    let seconds = ClockIndicator::new("%H:%M:%S", Some("no such locale".into())).unwrap();
    assert!(seconds.needs_faster_refresh());
    assert_eq!(seconds.locale, "POSIX");
    assert!(seconds.items.contains(&ClockItem::Second));
    assert!(ClockIndicator::new("%s", None).unwrap().needs_faster_refresh());
    assert!(ClockIndicator::new("%f", None).unwrap().needs_faster_refresh());
    assert!(ClockIndicator::new("%!", None).is_none());
    assert!(ClockIndicator::from_parts("x".into(), None, None, true).is_none());
}

#[test]
fn the_battery_picks_its_icon() {
    let battery = |mode: &str| {
        BatteryIndicator::new("BAT0".into(), mode.into(), Some("th".into()), &Vec::new()).unwrap()
    };
    let both = battery("both");
    assert_eq!(both.mode, BatteryIconMode::Both);
    for (capacity, charging, plain) in [
        (0u32, "battery_charging_20", "battery_0_bar"),
        (1, "battery_charging_20", "battery_1_bar"),
        (20, "battery_charging_20", "battery_1_bar"),
        (21, "battery_charging_30", "battery_2_bar"),
        (50, "battery_charging_50", "battery_3_bar"),
        (60, "battery_charging_60", "battery_4_bar"),
        (80, "battery_charging_80", "battery_5_bar"),
        (99, "battery_charging_90", "battery_6_bar"),
        (100, "battery_charging_full", "battery_full"),
        (130, "battery_charging_full", "battery_full"),
    ] {
        let up = both.readout(capacity, BatteryState::Charging);
        let icon = up.icon.unwrap();
        assert_eq!(icon.name, charging, "{capacity}");
        assert_eq!(icon.theme.as_deref(), Some("th"));
        assert!(icon.svg_only);
        assert_eq!(up.tint, Tint::Green);
        let down = both.readout(capacity, BatteryState::Low);
        assert_eq!(down.icon.unwrap().name, plain, "{capacity}");
        assert_eq!(down.tint, Tint::Red);
        assert_eq!(down.percent, format!("{capacity}%"));
        assert!(down.written);
        assert_eq!(down.text_offset, 48);
    }
    let percent = battery("percentage").readout(50, BatteryState::NotCharging);
    assert!(percent.icon.is_none() && percent.written && percent.text_offset == 0);
    assert_eq!(percent.tint, Tint::White);
    let bolt = battery("percentage").readout(50, BatteryState::Charging);
    assert_eq!(bolt.icon.unwrap().name, "bolt");
    assert!(!battery("icon").readout(50, BatteryState::Low).written);
    assert!(matches!(
        BatteryIndicator::new("B".into(), "huge".into(), None, &Vec::new()),
        Err(BatteryError::Mode(m)) if m == "huge"
    ));
    let failed = vec![IconRequest {
        name: "battery_full".into(),
        theme: None,
        width: 48,
        height: 48,
        svg_only: true,
    }];
    assert!(matches!(
        BatteryIndicator::new("B".into(), "huge".into(), None, &failed),
        Err(BatteryError::Icon(i)) if i.name == "battery_full"
    ));
}

#[test]
fn the_media_widget_seeks_and_controls() {
    let with = store(vec![(key::MEDIA_ACTIVE_LENGTH, Value::Number(n(100.0)))]);
    let without = store(vec![(key::MEDIA_ACTIVE_LENGTH, Value::Number(n(0.0)))]);
    let probe = |inside: bool, next: bool| MediaProbe {
        well: Some(WellProbe { inside, seek: n(25.0) }),
        previous: false,
        play_pause: false,
        next,
    };
    let mut w = MediaWidget::new();
    w.drawn();
    assert!(matches!(
        w.on_press(&probe(true, false), &with),
        Some(Action::MediaSeek(x)) if x.bits == n(25.0).bits
    ));
    assert!(w.changed);
    assert!(matches!(w.on_drag(&probe(false, false), &with), Some(Action::MediaSeek(_))));
    assert!(w.on_drag(&probe(false, false), &without).is_none());
    assert!(w.on_release().is_none());
    assert!(w.on_drag(&probe(true, false), &with).is_none());
    assert!(matches!(w.on_press(&probe(true, true), &without), Some(Action::MediaNext)));
    assert!(w.is_pressed(2) && !w.is_pressed(0));
    assert!(w.on_drag(&probe(true, false), &with).is_none());
    w.on_release();
    assert!(w.on_press(&probe(false, false), &with).is_none());
    let all = MediaProbe { well: None, previous: true, play_pause: true, next: true };
    assert!(matches!(w.on_press(&all, &with), Some(Action::MediaPrevious)));
    let middle = MediaProbe { well: None, previous: false, play_pause: true, next: true };
    assert!(matches!(w.on_press(&middle, &with), Some(Action::MediaPlayPause)));
    assert!(MediaWidget::new().needs_redraw(&Store::new()));
    let mut clean = MediaWidget::new();
    clean.drawn();
    assert!(!clean.needs_redraw(&Store::new()));
    assert!(!clean.needs_redraw(&store(vec![("a", Value::Bool(true))])));
    assert!(clean.needs_redraw(&with));
}

#[test]
fn times_are_written() {
    assert_eq!(media::format_time(0, false), "00:00");
    assert_eq!(media::format_time(3599, false), "59:59");
    assert_eq!(media::format_time(3661, true), "01:01:01");
    assert_eq!(media::format_time(360_000, true), "100:00:00");
    assert_eq!(media::format_time_pair(61, 3600), "00:01:01/01:00:00");
    assert_eq!(media::format_time_pair(61, 125), "01:01/02:05");
    assert_eq!(media::time_label_width(0, 3599), 160);
    assert_eq!(media::time_label_width(3600, 0), 245);
    assert_eq!(media::file_url_to_path("file:///a/b").as_deref(), Some("/a/b"));
    assert_eq!(media::file_url_to_path("http://x"), None);
}

fn tabs(count: usize, active: Option<usize>) -> Vec<BrowserTab> {
    (0..count)
        .map(|i| BrowserTab {
            id: format!("t{i}"),
            title: if i == 0 { " ".into() } else { format!("tab {i}") },
            url: format!("u{i}"),
            favicon_url: String::new(),
            active: active == Some(i),
        })
        .collect()
}

#[test]
fn the_tab_strip_shows_the_active_tab() {
    assert_eq!(browser_tabs::visible_count(5, 3), 3);
    assert_eq!(browser_tabs::visible_count(5, 30), 5);
    assert_eq!(browser_tabs::visible_count(50, 30), 8);
    assert_eq!(browser_tabs::visible_count(5, 0), 0);
    assert_eq!(browser_tabs::visible_indices(&tabs(3, None), 5), vec![0, 1, 2]);
    assert_eq!(browser_tabs::visible_indices(&tabs(5, Some(4)), 3), vec![0, 1, 4]);
    assert_eq!(browser_tabs::visible_indices(&tabs(5, Some(1)), 3), vec![0, 1, 2]);
    assert_eq!(browser_tabs::visible_indices(&tabs(5, None), 3), vec![0, 1, 2]);
    let mut strip = BrowserTabsWidget::new();
    strip.drawn();
    assert!(matches!(
        strip.on_press(&tabs(5, Some(4)), 3, &vec![false, false, true]),
        Some(Action::BrowserActivateTab(id)) if id == "t4"
    ));
    assert!(strip.changed);
    strip.drawn();
    assert!(strip.on_press(&tabs(5, None), 3, &vec![false, false, false, true]).is_none());
    assert!(strip.on_press(&Vec::new(), 3, &vec![true]).is_none());
    assert!(!strip.changed);
    assert!(strip.needs_redraw(&store(vec![(key::CHROMIUM_TABS_JSON, Value::Bool(true))])));
    assert_eq!(browser_tabs::chip_title(&tabs(2, None)[0]), "u0");
    assert_eq!(browser_tabs::chip_title(&tabs(2, None)[1]), "tab 1");
}

#[test]
fn the_database_strip_connects() {
    let dbs: Vec<DbConnection> = (0..3)
        .map(|i| DbConnection {
            name: format!("db{i}"),
            source: if i == 0 { " ".into() } else { "env".into() },
            key_name: format!("k{i}"),
            is_connected: false,
        })
        .collect();
    let mut strip = DbuiConnectionsWidget::new();
    strip.drawn();
    assert!(matches!(
        strip.on_press(&dbs, 2, &vec![false, true, true]),
        Some(Action::NvimDbConnect(k)) if k == "k1"
    ));
    assert!(strip.on_press(&dbs, 2, &vec![false, false, true]).is_none());
    assert_eq!(dbui_connections::chip_label(&dbs[0]), "db0");
    assert_eq!(dbui_connections::chip_label(&dbs[1]), "db1 · env");
    assert!(strip.needs_redraw(&Store::new()));
    strip.drawn();
    assert!(!strip.needs_redraw(&Store::new()));
}

#[test]
fn favicons_are_decoded_and_premultiplied() {
    assert_eq!(browser_tabs::favicon_plan(" "), FaviconPlan::Nothing);
    assert_eq!(browser_tabs::favicon_plan("data:x"), FaviconPlan::Unsupported);
    assert_eq!(browser_tabs::favicon_plan("https://x/i.png"), FaviconPlan::Fetch);
    let pixels = vec![10u8, 20, 30, 255, 200, 100, 50, 128];
    assert_eq!(
        browser_tabs::premultiply(&pixels, 2, 1, 12),
        vec![30, 20, 10, 255, 25, 50, 100, 128, 0, 0, 0, 0]
    );
    assert!(browser_tabs::favicon(&vec![1, 2, 3], 128).is_none());
    let mut bytes = Vec::new();
    let picture = image::RgbaImage::from_pixel(5, 7, image::Rgba([200, 100, 50, 255]));
    image::DynamicImage::ImageRgba8(picture)
        .write_to(&mut std::io::Cursor::new(&mut bytes), image::ImageFormat::Png)
        .unwrap();
    let surface = browser_tabs::favicon(&bytes, 128).unwrap();
    assert_eq!(surface.len(), 4096);
    for (got, want) in surface[2000..2004].iter().zip([50u8, 100, 200, 255]) {
        assert!(got.abs_diff(want) <= 1);
    }
}

fn cell(text: &str, stretch: Option<usize>) -> ButtonConfig {
    let mut c = ButtonConfig::blank();
    c.text = Some(text.into());
    c.action = vec![Key { code: 1 }];
    c.stretch = stretch;
    c
}

#[test]
fn cells_share_the_width() {
    let mut clock = ButtonConfig::blank();
    clock.time = Some("%S".into());
    let layer = FunctionLayer::with_config(
        vec![cell("a", None), cell("b", Some(3)), ButtonConfig::blank(), cell("c", Some(0)), clock],
        &nothing(),
    )
    .unwrap();
    assert_eq!(layer.virtual_button_count(), 7);
    assert!(layer.displays_time() && layer.faster_refresh());
    assert_eq!(
        (0..8).map(|v| layer.cell_at(v)).collect::<Vec<usize>>(),
        vec![0, 1, 1, 1, 2, 3, 4, 4]
    );
    assert_eq!(layer.span(1), (1, 4));
    assert_eq!(layer.span(3), (5, 6));
    let probe = |v: usize, within: Vec<bool>| HitProbe { in_area: true, virtual_i: v, within };
    assert_eq!(layer.hit_in(&probe(2, vec![false, true]), None), Some(1));
    assert_eq!(layer.hit_in(&probe(2, vec![true, false]), None), None);
    assert_eq!(layer.hit_in(&probe(4, vec![true; 5]), None), None);
    assert_eq!(layer.hit_in(&probe(6, vec![true; 5]), None), None);
    assert_eq!(layer.hit_in(&probe(0, vec![true; 5]), Some(3)), Some(3));
    assert_eq!(layer.hit_in(&probe(0, vec![true; 9]), Some(7)), None);
    let outside = HitProbe { in_area: false, virtual_i: 0, within: vec![true; 5] };
    assert_eq!(layer.hit_in(&outside, None), None);
    assert_eq!(FunctionLayer::default().cells().len(), 0);
}

#[test]
fn layers_report_what_cannot_be_made() {
    assert!(matches!(
        FunctionLayer::with_config(Vec::new(), &nothing()),
        Err(LayerError::NoButtons)
    ));
    let mut clock = ButtonConfig::blank();
    clock.time = Some("%!".into());
    assert!(matches!(
        FunctionLayer::with_config(vec![cell("a", None), clock], &nothing()),
        Err(LayerError::TimeFormat(f)) if f == "%!"
    ));
    let battery = |mode: &str| {
        let mut c = ButtonConfig::blank();
        c.battery = Some(mode.into());
        c
    };
    let powered = Environment { battery: Some("BAT1".into()), failed: Vec::new() };
    assert!(matches!(
        FunctionLayer::with_config(vec![battery("?")], &powered),
        Err(LayerError::BatteryMode(m)) if m == "?"
    ));
    let layer = FunctionLayer::with_config(vec![battery("icon")], &powered).unwrap();
    assert!(matches!(&layer.cells()[0].widget, Widget::Battery(b) if b.device == "BAT1"));
    assert!(layer.needs_redraw(&Store::new()));
    let layer = FunctionLayer::with_config(vec![battery("?")], &nothing()).unwrap();
    assert!(matches!(
        &layer.cells()[0].widget,
        Widget::Button(b) if matches!(
            b.backend.content(&Store::new()),
            ButtonContent::Text(t) if t == "Battery N/A"
        )
    ));
    assert!(matches!(layer.slider_key(), Err(LayerError::NoSlider)));
    let mut icon = ButtonConfig::blank();
    icon.icon = Some("gone".into());
    let failing = Environment { battery: None, failed: vec![IconRequest::plain("gone", 48)] };
    assert!(matches!(
        FunctionLayer::with_config(vec![icon], &failing),
        Err(LayerError::Icon(i)) if i.name == "gone"
    ));
}

#[test]
fn a_press_changes_one_cell() {
    let s = Store::new();
    let mut layer =
        FunctionLayer::with_config(vec![cell("a", None), cell("b", None)], &nothing()).unwrap();
    assert!(!layer.needs_redraw(&s));
    assert!(matches!(
        layer.on_press_at(1, &s, &blank_press()),
        Some(Action::Key(_, Edge::Press))
    ));
    assert!(layer.on_press_at(9, &s, &blank_press()).is_none());
    assert_eq!(layer.to_draw(&s, false), vec![false, true]);
    assert_eq!(layer.to_draw(&s, true), vec![true, true]);
    layer.drawn(1, 0);
    assert!(!layer.needs_redraw(&s));
    assert!(layer.on_drag_at(1, &s, &blank_press().media).is_none());
    assert!(matches!(layer.on_release_at(1), Some(Action::Key(_, Edge::Release))));
    assert!(layer.on_release_at(9).is_none());
    assert!(layer.slider().is_none());
}

#[test]
fn a_slider_layer_has_one_slider() {
    let mut layer = FunctionLayer::slider_layer(SliderBackend::Brightness, 0);
    assert_eq!(layer.slider_key().unwrap().as_str(), "hardware.brightness");
    layer.grab_slider(n(0.25), n(500.0));
    assert_eq!(layer.slider().unwrap().level.bits, n(0.25).bits);
    let probe = DragProbe { level: n(0.75), moved: true, now: 1 };
    assert!(matches!(
        layer.drag_slider(&probe),
        Some(Action::SetBrightness(x)) if x.bits == n(0.75).bits
    ));
    layer.release_slider();
    assert!(layer.slider().unwrap().grab.is_none());
    let mut buttons = FunctionLayer::with_config(vec![cell("a", None)], &nothing()).unwrap();
    assert!(buttons.drag_slider(&probe).is_none());
}

fn plain_tab(id: &str, active: bool) -> BrowserTab {
    BrowserTab {
        id: id.into(),
        title: id.into(),
        url: String::new(),
        favicon_url: String::new(),
        active,
    }
}

fn notice_of(picture: StripPicture) -> Option<String> {
    match picture {
        StripPicture::Notice(text) => Some(text),
        StripPicture::Chips(_) => None,
    }
}

fn chips_of(picture: StripPicture) -> Option<Vec<usize>> {
    match picture {
        StripPicture::Chips(chips) => Some(chips),
        StripPicture::Notice(_) => None,
    }
}

#[test]
fn the_tab_strip_shows_a_notice_or_chips() {
    let widget = BrowserTabsWidget::new();
    let tabs = vec![plain_tab("a", false), plain_tab("b", false), plain_tab("c", true)];
    let closed = store(vec![(key::BROWSER_TABS_AVAILABLE, Value::Bool(false))]);
    let open = store(vec![(key::BROWSER_TABS_AVAILABLE, Value::Bool(true))]);
    let unknown = notice_of(widget.picture(&Store::new(), &tabs, 4));
    assert_eq!(unknown.as_deref(), Some("Browser tabs unavailable"));
    let unavailable = notice_of(widget.picture(&closed, &tabs, 4));
    assert_eq!(unavailable.as_deref(), Some("Browser tabs unavailable"));
    let none = notice_of(widget.picture(&open, &Vec::new(), 4));
    assert_eq!(none.as_deref(), Some("No browser tabs"));
    assert_eq!(chips_of(widget.picture(&open, &tabs, 4)), Some(vec![0, 1, 2]));
    assert_eq!(chips_of(widget.picture(&open, &tabs, 2)), Some(vec![0, 2]));
}

#[test]
fn the_database_strip_shows_a_notice_or_chips() {
    let widget = DbuiConnectionsWidget::new();
    let list: Vec<DbConnection> = (0..10)
        .map(|i| DbConnection {
            name: format!("db{i}"),
            source: String::new(),
            key_name: format!("k{i}"),
            is_connected: false,
        })
        .collect();
    let open = store(vec![(key::NVIM_DBUI_AVAILABLE, Value::Bool(true))]);
    let unavailable = notice_of(widget.picture(&Store::new(), &list, 3));
    assert_eq!(unavailable.as_deref(), Some("DBUI unavailable"));
    let none = notice_of(widget.picture(&open, &Vec::new(), 3));
    assert_eq!(none.as_deref(), Some("No DBUI connections"));
    assert_eq!(chips_of(widget.picture(&open, &list, 3)), Some(vec![0, 1, 2]));
    let all = chips_of(widget.picture(&open, &list, 100));
    assert_eq!(all, Some((0..8).collect::<Vec<usize>>()));
}

#[test]
fn a_control_is_shaded_by_how_it_is_pressed() {
    assert_eq!(button::shade_of(true, false), Shade::Pressed);
    assert_eq!(button::shade_of(true, true), Shade::Pressed);
    assert_eq!(button::shade_of(false, true), Shade::Outlined);
    assert_eq!(button::shade_of(false, false), Shade::Bare);

    let s = Store::new();
    let mut b = Button::new(ButtonBackend::Key(KeyButton::new_text(
        "esc".into(),
        vec![Key { code: 1 }],
        None,
        None,
        false,
    )));
    let (shade, content) = b.face(true, &s);
    assert_eq!(shade, Shade::Outlined);
    assert!(matches!(content, ButtonContent::Text(t) if t == "esc"));
    b.on_press(&s);
    assert_eq!(b.face(true, &s).0, Shade::Pressed);
}

#[test]
fn the_pressed_control_of_the_player_is_marked() {
    let playing = store(vec![(key::MEDIA_ACTIVE_STATUS, Value::Text("Playing".into()))]);
    let paused = store(vec![(key::MEDIA_ACTIVE_STATUS, Value::Text("Paused".into()))]);
    let mut widget = MediaWidget::new();
    assert!(widget.offers_pause(&playing));
    assert!(!widget.offers_pause(&paused));
    assert!(!widget.offers_pause(&Store::new()));
    let probe = MediaProbe { well: None, previous: false, play_pause: true, next: false };
    widget.on_press(&probe, &playing);
    assert_eq!(widget.control_shade(0, false), Shade::Bare);
    assert_eq!(widget.control_shade(1, false), Shade::Pressed);
    assert_eq!(widget.control_shade(2, true), Shade::Outlined);
}

#[test]
fn the_battery_of_the_machine_is_found() {
    assert!(is_own_battery("Battery\n", ""));
    assert!(is_own_battery("Battery\n", "System\n"));
    assert!(!is_own_battery("Battery\n", "Device\n"));
    assert!(!is_own_battery("Mains\n", ""));
}
